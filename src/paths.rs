use vstd::prelude::*;
use crate::metadata::str_eq;
use crate::platform::Os;

verus! {

/// `c` separates path components on `os`: `/` everywhere, and `\` as well on
/// Windows.
pub open spec fn is_separator_of(os: Os, c: char) -> bool {
    c == '/' || (os == Os::Windows && c == '\\')
}

/// The separator that joins path components on `os`.
pub open spec fn separator_of(os: Os) -> char {
    if os == Os::Windows {
        '\\'
    } else {
        '/'
    }
}

/// `p` ends with the whole path component `name`.
pub open spec fn ends_with_component_of(os: Os, p: Seq<char>, name: Seq<char>) -> bool {
    p == name || (p.len() > name.len() && p.subrange(p.len() - name.len(), p.len() as int) == name
        && is_separator_of(os, p[p.len() - name.len() - 1]))
}

/// `p` names a cargo manifest file.
pub open spec fn is_manifest_path_of(os: Os, p: Seq<char>) -> bool {
    ends_with_component_of(os, p, "Cargo.toml"@) || ends_with_component_of(os, p, "cargo.toml"@)
}

/// `k` is the position of the last separator in `p`.
pub open spec fn is_last_separator(os: Os, p: Seq<char>, k: int) -> bool {
    0 <= k < p.len() && is_separator_of(os, p[k]) && forall|j: int|
        k < j < p.len() ==> !is_separator_of(os, #[trigger] p[j])
}

/// The directory that holds the file at `p`: what comes before its last
/// separator, the root for a file right under it, and the empty path for a bare
/// file name. The root and the empty path have none.
pub open spec fn parent_of(os: Os, p: Seq<char>) -> Option<Seq<char>> {
    if exists|k: int| is_last_separator(os, p, k) {
        let k = choose|k: int| is_last_separator(os, p, k);
        if k > 0 {
            Some(p.subrange(0, k))
        } else if p.len() > 1 {
            Some(seq![p[0]])
        } else {
            None
        }
    } else if p.len() > 0 {
        Some(Seq::empty())
    } else {
        None
    }
}

/// The path of the entry `name` inside the directory `dir`.
pub open spec fn join_of(os: Os, dir: Seq<char>, name: Seq<char>) -> Seq<char> {
    if dir.len() > 0 && is_separator_of(os, dir.last()) {
        dir + name
    } else {
        dir + seq![separator_of(os)] + name
    }
}

/// No character of `s` separates path components on `os`.
pub open spec fn has_no_separator_of(os: Os, s: Seq<char>) -> bool {
    forall|i: int| 0 <= i < s.len() ==> !is_separator_of(os, #[trigger] s[i])
}

/// Two joined paths that are equal end with the same entry, where neither entry
/// holds a separator.
pub proof fn lemma_join_same_entry(os: Os, d1: Seq<char>, x: Seq<char>, d2: Seq<char>, y: Seq<char>)
    requires
        has_no_separator_of(os, x),
        has_no_separator_of(os, y),
        join_of(os, d1, x) == join_of(os, d2, y),
    ensures
        x == y,
{
    let a = if d1.len() > 0 && is_separator_of(os, d1.last()) {
        d1
    } else {
        d1 + seq![separator_of(os)]
    };
    let b = if d2.len() > 0 && is_separator_of(os, d2.last()) {
        d2
    } else {
        d2 + seq![separator_of(os)]
    };
    assert(join_of(os, d1, x) =~= a + x);
    assert(join_of(os, d2, y) =~= b + y);
    assert(is_separator_of(os, a.last()));
    assert(is_separator_of(os, b.last()));
    let p = a + x;
    if x.len() < y.len() {
        let k = y.len() - x.len() - 1;
        assert(p[a.len() - 1] == a.last());
        assert(p[a.len() - 1] == (b + y)[b.len() + k]);
        assert(!is_separator_of(os, y[k]));
    } else if y.len() < x.len() {
        let k = x.len() - y.len() - 1;
        assert((b + y)[b.len() - 1] == b.last());
        assert(p[b.len() - 1] == p[a.len() + k]);
        assert(!is_separator_of(os, x[k]));
    }
    assert(x =~= p.subrange(a.len() as int, p.len() as int));
    assert(y =~= (b + y).subrange(b.len() as int, p.len() as int));
}

/// The file name made of `stem` and the extension `ext`.
pub open spec fn with_ext_of(stem: Seq<char>, ext: Seq<char>) -> Seq<char> {
    stem + seq!['.'] + ext
}

/// Whether `c` separates path components on `os`.
pub fn is_separator(os: Os, c: char) -> (r: bool)
    ensures
        r == is_separator_of(os, c),
{
    c == '/' || (os == Os::Windows && c == '\\')
}

/// Whether `p` ends with the whole path component `name`.
pub fn ends_with_component(os: Os, p: &str, name: &str) -> (r: bool)
    ensures
        r == ends_with_component_of(os, p@, name@),
{
    let n = p.unicode_len();
    let m = name.unicode_len();
    if n == m {
        return str_eq(p, name);
    }
    if n < m {
        return false;
    }
    let tail = p.substring_char(n - m, n);
    str_eq(tail, name) && is_separator(os, p.get_char(n - m - 1))
}

/// Whether `p` names a cargo manifest file, `Cargo.toml` or `cargo.toml`.
pub fn is_manifest_path(os: Os, p: &str) -> (r: bool)
    ensures
        r == is_manifest_path_of(os, p@),
{
    ends_with_component(os, p, "Cargo.toml") || ends_with_component(os, p, "cargo.toml")
}

/// The directory that holds the file at `p`.
pub fn parent(os: Os, p: &str) -> (r: Option<String>)
    ensures
        match r {
            Some(d) => parent_of(os, p@) == Some(d@),
            None => parent_of(os, p@) is None,
        },
{
    let n = p.unicode_len();
    let mut i: usize = n;
    while i > 0
        invariant
            n == p@.len(),
            i <= n,
            forall|j: int| i <= j < n ==> !is_separator_of(os, #[trigger] p@[j]),
        decreases i,
    {
        if is_separator(os, p.get_char(i - 1)) {
            let k = i - 1;
            proof {
                assert(is_last_separator(os, p@, k as int));
                let c = choose|c: int| is_last_separator(os, p@, c);
                if c < k {
                    assert(!is_separator_of(os, p@[k as int]));
                } else if k < c {
                    assert(!is_separator_of(os, p@[c]));
                }
            }
            if k > 0 {
                return Some(String::from_str(p.substring_char(0, k)));
            } else if n > 1 {
                let root = String::from_str(p.substring_char(0, 1));
                proof {
                    assert(root@ =~= seq![p@[0]]);
                }
                return Some(root);
            } else {
                return None;
            }
        }
        i = i - 1;
    }
    assert(!exists|k: int| is_last_separator(os, p@, k));
    if n > 0 {
        Some(String::new())
    } else {
        None
    }
}

/// The path of the entry `name` inside the directory `dir`.
pub fn join(os: Os, dir: &str, name: &str) -> (r: String)
    ensures
        r@ == join_of(os, dir@, name@),
{
    let n = dir.unicode_len();
    let mut r = String::from_str(dir);
    if n == 0 || !is_separator(os, dir.get_char(n - 1)) {
        let sep: &str = match os {
            Os::Windows => "\\",
            _ => "/",
        };
        proof {
            reveal_strlit("\\");
            reveal_strlit("/");
            assert(sep@ =~= seq![separator_of(os)]);
        }
        r.append(sep);
    }
    r.append(name);
    r
}

/// The file name made of `stem` and the extension `ext`.
pub fn with_ext(stem: &str, ext: &str) -> (r: String)
    ensures
        r@ == with_ext_of(stem@, ext@),
{
    let mut r = String::from_str(stem);
    proof {
        reveal_strlit(".");
    }
    r.append(".");
    r.append(ext);
    r
}

} // verus!
