use vstd::prelude::*;

verus! {

/// The operating systems for which a dynamic library file name is known.
#[derive(Clone, Copy, Debug, PartialEq, Eq, Structural)]
pub enum Os {
    Linux,
    MacOs,
    Ios,
    Windows,
}

/// The extension of a dynamic library file on `os`.
pub open spec fn dylib_ext_of(os: Os) -> Seq<char> {
    match os {
        Os::Linux => seq!['s', 'o'],
        Os::MacOs | Os::Ios => seq!['d', 'y', 'l', 'i', 'b'],
        Os::Windows => seq!['d', 'l', 'l'],
    }
}

/// The prefix that the build tool puts before a library's name on `os`.
pub open spec fn lib_prefix_of(os: Os) -> Seq<char> {
    match os {
        Os::Windows => Seq::empty(),
        _ => seq!['l', 'i', 'b'],
    }
}

/// The file stem of the dynamic library built for the target `lib_name`.
pub open spec fn file_stem_of(os: Os, lib_name: Seq<char>) -> Seq<char> {
    lib_prefix_of(os) + lib_name
}

/// The dynamic library extension for `os`.
pub fn dylib_ext(os: Os) -> (r: &'static str)
    ensures
        r@ == dylib_ext_of(os),
{
    match os {
        Os::Linux => {
            let r = "so";
            proof {
                reveal_strlit("so");
                assert(r@ =~= dylib_ext_of(os));
            }
            r
        },
        Os::MacOs | Os::Ios => {
            let r = "dylib";
            proof {
                reveal_strlit("dylib");
                assert(r@ =~= dylib_ext_of(os));
            }
            r
        },
        Os::Windows => {
            let r = "dll";
            proof {
                reveal_strlit("dll");
                assert(r@ =~= dylib_ext_of(os));
            }
            r
        },
    }
}

/// The file stem of the dynamic library that the build tool writes for the
/// target `lib_name`: `lib<name>`, or `<name>` alone on Windows.
pub fn file_stem(os: Os, lib_name: &str) -> (r: String)
    ensures
        r@ == file_stem_of(os, lib_name@),
{
    let prefix: &str = match os {
        Os::Windows => "",
        _ => "lib",
    };
    proof {
        reveal_strlit("");
        reveal_strlit("lib");
        assert(prefix@ =~= lib_prefix_of(os));
    }
    let r = String::from_str(prefix).concat(lib_name);
    r
}

} // verus!
