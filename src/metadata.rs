use vstd::prelude::*;

verus! {

/// A JSON document, as the build tool's metadata query prints it.
#[derive(Debug)]
pub enum Json {
    Null,
    Bool(bool),
    Number(String),
    Str(String),
    Array(Vec<Json>),
    Object(Vec<(String, Json)>),
}

/// `i` is the first index of `s` whose element satisfies `p`.
pub open spec fn is_first<A>(s: Seq<A>, p: spec_fn(A) -> bool, i: int) -> bool {
    0 <= i < s.len() && p(s[i]) && forall|j: int| 0 <= j < i ==> !p(#[trigger] s[j])
}

/// The first element of `s` that satisfies `p`, if any does.
pub open spec fn first_where<A>(s: Seq<A>, p: spec_fn(A) -> bool) -> Option<A> {
    if exists|i: int| is_first(s, p, i) {
        Some(s[choose|i: int| is_first(s, p, i)])
    } else {
        None
    }
}

pub proof fn lemma_first_where_found<A>(s: Seq<A>, p: spec_fn(A) -> bool, i: int)
    requires
        is_first(s, p, i),
    ensures
        first_where(s, p) == Some(s[i]),
{
    let k = choose|k: int| is_first(s, p, k);
    if k < i {
        assert(!p(s[k]));
    } else if i < k {
        assert(!p(s[i]));
    }
}

pub proof fn lemma_first_where_none<A>(s: Seq<A>, p: spec_fn(A) -> bool)
    requires
        forall|j: int| 0 <= j < s.len() ==> !p(#[trigger] s[j]),
    ensures
        first_where(s, p) is None,
{
}

/// An object member named `key`.
pub open spec fn is_member_named(key: Seq<char>) -> spec_fn((String, Json)) -> bool {
    |f: (String, Json)| f.0@ == key
}

/// The value under `key` in the object `v`: the first member with that name.
pub open spec fn get_of(v: Json, key: Seq<char>) -> Option<Json> {
    match v {
        Json::Object(fields) => match first_where(fields@, is_member_named(key)) {
            Some(f) => Some(f.1),
            None => None,
        },
        _ => None,
    }
}

/// The text of a JSON string.
pub open spec fn as_str_of(v: Json) -> Option<Seq<char>> {
    match v {
        Json::Str(s) => Some(s@),
        _ => None,
    }
}

/// The elements of a JSON array.
pub open spec fn as_array_of(v: Json) -> Option<Seq<Json>> {
    match v {
        Json::Array(a) => Some(a@),
        _ => None,
    }
}

/// The string under `key` in the object `v`.
pub open spec fn str_field_of(v: Json, key: Seq<char>) -> Option<Seq<char>> {
    match get_of(v, key) {
        Some(x) => as_str_of(x),
        None => None,
    }
}

/// The array under `key` in the object `v`.
pub open spec fn array_field_of(v: Json, key: Seq<char>) -> Option<Seq<Json>> {
    match get_of(v, key) {
        Some(x) => as_array_of(x),
        None => None,
    }
}

/// A package entry whose manifest is `manifest`.
pub open spec fn is_package_of(manifest: Seq<char>) -> spec_fn(Json) -> bool {
    |p: Json| str_field_of(p, "manifest_path"@) == Some(manifest)
}

/// A target entry one of whose kinds is `dylib`.
pub open spec fn is_dylib_target(t: Json) -> bool {
    match array_field_of(t, "kind"@) {
        Some(kinds) => exists|i: int| 0 <= i < kinds.len() && as_str_of(#[trigger] kinds[i]) == Some("dylib"@),
        None => false,
    }
}

/// A target entry one of whose kinds is `dylib`, as a predicate.
pub open spec fn dylib_targets() -> spec_fn(Json) -> bool {
    |t: Json| is_dylib_target(t)
}

/// What the metadata says of the package at `manifest`: the target directory,
/// and the source file and name of its first dynamic library target. `None`
/// where the document lacks any of them.
pub open spec fn dylib_target_of(json: Json, manifest: Seq<char>) -> Option<
    (Seq<char>, Seq<char>, Seq<char>),
> {
    match (str_field_of(json, "target_directory"@), array_field_of(json, "packages"@)) {
        (Some(target_dir), Some(packages)) => match first_where(packages, is_package_of(manifest)) {
            Some(package) => match array_field_of(package, "targets"@) {
                Some(targets) => match first_where(targets, dylib_targets()) {
                    Some(target) => match (
                        str_field_of(target, "name"@),
                        str_field_of(target, "src_path"@),
                    ) {
                        (Some(name), Some(src)) => Some((target_dir, src, name)),
                        _ => None,
                    },
                    None => None,
                },
                None => None,
            },
            None => None,
        },
        _ => None,
    }
}

/// Whether two texts are equal.
pub fn str_eq(a: &str, b: &str) -> (r: bool)
    ensures
        r == (a@ == b@),
{
    let n = a.unicode_len();
    if n != b.unicode_len() {
        return false;
    }
    let mut i: usize = 0;
    while i < n
        invariant
            n == a@.len() == b@.len(),
            i <= n,
            forall|j: int| 0 <= j < i ==> a@[j] == b@[j],
        decreases n - i,
    {
        if a.get_char(i) != b.get_char(i) {
            return false;
        }
        i = i + 1;
    }
    assert(a@ =~= b@);
    true
}

impl Json {
    /// The value under `key`, where `self` is an object that has it.
    pub fn get(&self, key: &str) -> (r: Option<&Json>)
        ensures
            match r {
                Some(v) => get_of(*self, key@) == Some(*v),
                None => get_of(*self, key@) is None,
            },
    {
        match self {
            Json::Object(fields) => {
                let ghost p = is_member_named(key@);
                let mut i: usize = 0;
                while i < fields.len()
                    invariant
                        i <= fields@.len(),
                        p == is_member_named(key@),
                        *self == Json::Object(*fields),
                        forall|j: int| 0 <= j < i ==> !p(#[trigger] fields@[j]),
                    decreases fields@.len() - i,
                {
                    if str_eq(fields[i].0.as_str(), key) {
                        proof {
                            lemma_first_where_found(fields@, p, i as int);
                        }
                        return Some(&fields[i].1);
                    }
                    i = i + 1;
                }
                proof {
                    lemma_first_where_none(fields@, p);
                }
                None
            },
            _ => None,
        }
    }

    /// The text of `self`, where it is a string.
    pub fn as_str(&self) -> (r: Option<&str>)
        ensures
            match r {
                Some(s) => as_str_of(*self) == Some(s@),
                None => as_str_of(*self) is None,
            },
    {
        match self {
            Json::Str(s) => Some(s.as_str()),
            _ => None,
        }
    }

    /// The elements of `self`, where it is an array.
    pub fn as_array(&self) -> (r: Option<&Vec<Json>>)
        ensures
            match r {
                Some(a) => as_array_of(*self) == Some(a@),
                None => as_array_of(*self) is None,
            },
    {
        match self {
            Json::Array(a) => Some(a),
            _ => None,
        }
    }
}

/// The string under `key` in the object `v`.
fn str_field<'a>(v: &'a Json, key: &str) -> (r: Option<&'a str>)
    ensures
        match r {
            Some(s) => str_field_of(*v, key@) == Some(s@),
            None => str_field_of(*v, key@) is None,
        },
{
    match v.get(key) {
        Some(x) => x.as_str(),
        None => None,
    }
}

/// The array under `key` in the object `v`.
fn array_field<'a>(v: &'a Json, key: &str) -> (r: Option<&'a Vec<Json>>)
    ensures
        match r {
            Some(a) => array_field_of(*v, key@) == Some(a@),
            None => array_field_of(*v, key@) is None,
        },
{
    match v.get(key) {
        Some(x) => x.as_array(),
        None => None,
    }
}

/// Whether the target entry `t` lists `dylib` among its kinds.
pub fn is_dylib(t: &Json) -> (r: bool)
    ensures
        r == is_dylib_target(*t),
{
    match array_field(t, "kind") {
        Some(kinds) => {
            let mut i: usize = 0;
            while i < kinds.len()
                invariant
                    i <= kinds@.len(),
                    array_field_of(*t, "kind"@) == Some(kinds@),
                    forall|j: int| 0 <= j < i ==> as_str_of(#[trigger] kinds@[j]) != Some("dylib"@),
                decreases kinds@.len() - i,
            {
                match kinds[i].as_str() {
                    Some(k) => {
                        if str_eq(k, "dylib") {
                            return true;
                        }
                    },
                    None => {},
                }
                i = i + 1;
            }
            false
        },
        None => false,
    }
}

/// The first package entry of `packages` whose manifest is `manifest`.
fn find_package<'a>(packages: &'a Vec<Json>, manifest: &str) -> (r: Option<&'a Json>)
    ensures
        match r {
            Some(p) => first_where(packages@, is_package_of(manifest@)) == Some(*p),
            None => first_where(packages@, is_package_of(manifest@)) is None,
        },
{
    let ghost p = is_package_of(manifest@);
    let mut i: usize = 0;
    while i < packages.len()
        invariant
            i <= packages@.len(),
            p == is_package_of(manifest@),
            forall|j: int| 0 <= j < i ==> !p(#[trigger] packages@[j]),
        decreases packages@.len() - i,
    {
        match str_field(&packages[i], "manifest_path") {
            Some(m) => {
                if str_eq(m, manifest) {
                    proof {
                        lemma_first_where_found(packages@, p, i as int);
                    }
                    return Some(&packages[i]);
                }
            },
            None => {},
        }
        i = i + 1;
    }
    proof {
        lemma_first_where_none(packages@, p);
    }
    None
}

/// The first target entry of `targets` that builds a dynamic library.
fn find_dylib_target<'a>(targets: &'a Vec<Json>) -> (r: Option<&'a Json>)
    ensures
        match r {
            Some(t) => first_where(targets@, dylib_targets()) == Some(*t),
            None => first_where(targets@, dylib_targets()) is None,
        },
{
    let ghost p = dylib_targets();
    let mut i: usize = 0;
    while i < targets.len()
        invariant
            i <= targets@.len(),
            p == dylib_targets(),
            forall|j: int| 0 <= j < i ==> !p(#[trigger] targets@[j]),
        decreases targets@.len() - i,
    {
        if is_dylib(&targets[i]) {
            proof {
                lemma_first_where_found(targets@, p, i as int);
            }
            return Some(&targets[i]);
        }
        i = i + 1;
    }
    proof {
        lemma_first_where_none(targets@, p);
    }
    None
}

/// Reads the metadata document `json` for the package whose manifest is
/// `manifest`: its target directory, and the source file and name of the first
/// target that builds a dynamic library, in that order.
pub fn dylib_target(json: &Json, manifest: &str) -> (r: Option<(String, String, String)>)
    ensures
        match r {
            Some((dir, src, name)) => dylib_target_of(*json, manifest@) == Some((dir@, src@, name@)),
            None => dylib_target_of(*json, manifest@) is None,
        },
{
    let target_dir = match str_field(json, "target_directory") {
        Some(d) => d,
        None => return None,
    };
    let packages = match array_field(json, "packages") {
        Some(p) => p,
        None => return None,
    };
    let package = match find_package(packages, manifest) {
        Some(p) => p,
        None => return None,
    };
    let targets = match array_field(package, "targets") {
        Some(t) => t,
        None => return None,
    };
    let target = match find_dylib_target(targets) {
        Some(t) => t,
        None => return None,
    };
    let name = match str_field(target, "name") {
        Some(n) => n,
        None => return None,
    };
    let src = match str_field(target, "src_path") {
        Some(s) => s,
        None => return None,
    };
    Some((String::from_str(target_dir), String::from_str(src), String::from_str(name)))
}

} // verus!
