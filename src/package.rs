use vstd::prelude::*;
use crate::errors::{BuildError, ExitStatusUnsuccessfulError, WatchError};
use crate::metadata::{dylib_target, dylib_target_of, Json};
use crate::paths::{has_no_separator_of, is_separator_of, lemma_join_same_entry, is_manifest_path, is_manifest_path_of, join, join_of, parent, parent_of, with_ext, with_ext_of};
use crate::platform::{dylib_ext, dylib_ext_of, file_stem, file_stem_of, lib_prefix_of, Os};
use crate::timestamp::{is_slug_char, timestamp_slug, timestamp_slug_of, Timestamp};

verus! {

/// What a finished build-tool process left: its exit code (none where a signal
/// ended it) and what it wrote to its standard output and error.
#[derive(Debug)]
pub struct ProcessOutput {
    pub code: Option<i32>,
    pub stdout: Vec<u8>,
    pub stderr: Vec<u8>,
}

impl ProcessOutput {
    /// The process exited with status zero.
    pub open spec fn succeeded(&self) -> bool {
        self.code == Some(0i32)
    }

    /// Whether the process exited with status zero.
    pub fn success(&self) -> (r: bool)
        ensures
            r == self.succeeded(),
    {
        match self.code {
            Some(c) => c == 0,
            None => false,
        }
    }
}

/// The text that `String::from_utf8_lossy` makes of some bytes.
pub uninterp spec fn utf8_lossy_of(b: Seq<u8>) -> Seq<char>;

/// Relies on String::from_utf8_lossy: the text depends on the bytes alone.
#[verifier::external_body]
fn utf8_lossy(b: &[u8]) -> (r: String)
    ensures
        r@ == utf8_lossy_of(b@),
{
    String::from_utf8_lossy(b).to_string()
}

impl ExitStatusUnsuccessfulError {
    /// Produces the error if output indicates failure.
    pub fn from_output(output: &ProcessOutput) -> (r: Option<Self>)
        ensures
            r is None <==> output.succeeded(),
            r matches Some(e) ==> e.code == output.code && e.stderr@ == utf8_lossy_of(
                output.stderr@,
            ),
    {
        if !output.success() {
            let code = output.code;
            let stderr = utf8_lossy(output.stderr.as_slice());
            return Some(ExitStatusUnsuccessfulError { code, stderr });
        }
        None
    }
}

/// Fails with `InvalidPath` unless `path` names a `Cargo.toml`, with the path
/// separators of `os`.
pub fn check_manifest_path(os: Os, path: &str) -> (r: Result<(), WatchError>)
    ensures
        r is Ok <==> is_manifest_path_of(os, path@),
        r matches Err(e) ==> e is InvalidPath,
{
    if is_manifest_path(os, path) {
        Ok(())
    } else {
        Err(WatchError::InvalidPath)
    }
}

/// What is known of a watched package: where its manifest is, the directory of
/// its library's sources, the library's name, where the build tool writes, where
/// private copies go, and the system that names the files.
#[derive(Debug)]
pub struct PackageInfo {
    pub manifest_path: String,
    pub src_path: String,
    pub lib_name: String,
    pub target_dir_path: String,
    pub tmp_dir: String,
    pub os: Os,
}

/// The target directory, the source directory and the library name that the
/// metadata gives for the package at `manifest`.
pub open spec fn resolved_of(os: Os, json: Json, manifest: Seq<char>) -> Option<
    (Seq<char>, Seq<char>, Seq<char>),
> {
    match dylib_target_of(json, manifest) {
        Some((dir, src, name)) => match parent_of(os, src) {
            Some(src_dir) => Some((dir, src_dir, name)),
            None => None,
        },
        None => None,
    }
}

/// The path of the built library of the package `info`.
pub open spec fn dylib_path_of(info: PackageInfo) -> Seq<char> {
    join_of(
        info.os,
        join_of(info.os, info.target_dir_path@, "release"@),
        with_ext_of(file_stem_of(info.os, info.lib_name@), dylib_ext_of(info.os)),
    )
}

/// The file stem of the private copy of the build made at `ts`.
pub open spec fn tmp_file_stem_of(info: PackageInfo, ts: Timestamp) -> Seq<char> {
    file_stem_of(info.os, info.lib_name@) + seq!['-'] + timestamp_slug_of(ts)
}

/// The path of the private copy of the build made at `ts`.
pub open spec fn tmp_dylib_path_of(info: PackageInfo, ts: Timestamp) -> Seq<char> {
    join_of(info.os, info.tmp_dir@, with_ext_of(tmp_file_stem_of(info, ts), dylib_ext_of(info.os)))
}

impl PackageInfo {
    /// Reads the package at `manifest_path` out of its metadata `json`. The
    /// sources watched are the directory of the first dynamic library target's
    /// source file.
    pub fn from_metadata(manifest_path: &str, json: &Json, os: Os, tmp_dir: &str) -> (r: Result<
        PackageInfo,
        WatchError,
    >)
        ensures
            match r {
                Ok(info) => resolved_of(os, *json, manifest_path@) == Some(
                    (info.target_dir_path@, info.src_path@, info.lib_name@),
                ) && info.manifest_path@ == manifest_path@ && info.tmp_dir@ == tmp_dir@ && info.os
                    == os,
                Err(e) => e is NoDylibTarget && resolved_of(os, *json, manifest_path@) is None,
            },
    {
        let (target_dir_path, src_root_path, lib_name) = match dylib_target(json, manifest_path) {
            Some(t) => t,
            None => return Err(WatchError::NoDylibTarget),
        };
        let src_path = match parent(os, src_root_path.as_str()) {
            Some(d) => d,
            None => return Err(WatchError::NoDylibTarget),
        };
        Ok(
            PackageInfo {
                manifest_path: String::from_str(manifest_path),
                src_path,
                lib_name,
                target_dir_path,
                tmp_dir: String::from_str(tmp_dir),
                os,
            },
        )
    }

    /// The package, ready to be built.
    pub fn package(&self) -> (r: Package<'_>)
        ensures
            r.info == self,
    {
        Package { info: self }
    }
}

/// The information required to build the package's dylib target.
pub struct Package<'a> {
    pub info: &'a PackageInfo,
}

impl<'a> Package<'a> {
    /// The path to the package's `Cargo.toml`.
    pub fn manifest_path(&self) -> (r: &str)
        ensures
            r@ == self.info.manifest_path@,
    {
        self.info.manifest_path.as_str()
    }

    /// The path to the source directory being watched.
    pub fn src_path(&self) -> (r: &str)
        ensures
            r@ == self.info.src_path@,
    {
        self.info.src_path.as_str()
    }

    /// Turns the finished build-tool process `output`, whose exit was observed at
    /// `timestamp`, into a build, or into the error that its exit status calls for.
    pub fn complete_build(&self, output: ProcessOutput, timestamp: Timestamp) -> (r: Result<
        Build<'a>,
        BuildError,
    >)
        requires
            timestamp.is_valid(),
        ensures
            match r {
                Ok(b) => output.succeeded() && b.info == self.info && b.timestamp == timestamp
                    && b.output == output,
                Err(BuildError::ExitStatusUnsuccessful { err }) => !output.succeeded() && err.code
                    == output.code && err.stderr@ == utf8_lossy_of(output.stderr@),
                Err(BuildError::Io { .. }) => false,
            },
    {
        match ExitStatusUnsuccessfulError::from_output(&output) {
            Some(err) => Err(BuildError::ExitStatusUnsuccessful { err }),
            None => Ok(Build { info: self.info, timestamp, output }),
        }
    }
}

/// The result of building a package's dynamic library.
pub struct Build<'a> {
    pub info: &'a PackageInfo,
    pub timestamp: Timestamp,
    pub output: ProcessOutput,
}

impl<'a> Build<'a> {
    /// The output of the cargo process.
    pub fn cargo_output(&self) -> (r: &ProcessOutput)
        ensures
            r == self.output,
    {
        &self.output
    }

    /// The moment at which the build was completed.
    pub fn timestamp(&self) -> (r: Timestamp)
        ensures
            r == self.timestamp,
    {
        self.timestamp
    }

    /// The file stem of the built dynamic library.
    pub fn file_stem(&self) -> (r: String)
        ensures
            r@ == file_stem_of(self.info.os, self.info.lib_name@),
    {
        file_stem(self.info.os, self.info.lib_name.as_str())
    }

    /// The file stem of the private copy that loading creates: the library's file
    /// stem, a dash, and the slug of the build's timestamp.
    pub fn tmp_file_stem(&self) -> (r: String)
        requires
            self.timestamp.is_valid(),
        ensures
            r@ == tmp_file_stem_of(*self.info, self.timestamp),
            forall|i: int|
                0 <= i < timestamp_slug_of(self.timestamp).len() ==> is_slug_char(
                    #[trigger] timestamp_slug_of(self.timestamp)[i],
                ),
    {
        let slug = timestamp_slug(self.timestamp);
        let mut r = self.file_stem();
        proof {
            reveal_strlit("-");
        }
        r.append("-");
        r.append(slug.as_str());
        r
    }

    /// The path to the generated dylib target.
    pub fn dylib_path(&self) -> (r: String)
        ensures
            r@ == dylib_path_of(*self.info),
    {
        let release = join(self.info.os, self.info.target_dir_path.as_str(), "release");
        let stem = self.file_stem();
        let name = with_ext(stem.as_str(), dylib_ext(self.info.os));
        join(self.info.os, release.as_str(), name.as_str())
    }

    /// The path to the private dynamic library copy that will be created upon
    /// loading. Where the library's name holds no path separator, as a cargo
    /// target's name never does, it is never the path of the built library.
    pub fn tmp_dylib_path(&self) -> (r: String)
        requires
            self.timestamp.is_valid(),
        ensures
            r@ == tmp_dylib_path_of(*self.info, self.timestamp),
            has_no_separator_of(self.info.os, self.info.lib_name@) ==> r@ != dylib_path_of(
                *self.info,
            ),
    {
        let stem = self.tmp_file_stem();
        let name = with_ext(stem.as_str(), dylib_ext(self.info.os));
        let r = join(self.info.os, self.info.tmp_dir.as_str(), name.as_str());
        proof {
            let os = self.info.os;
            let lib = self.info.lib_name@;
            if has_no_separator_of(os, lib) {
                let ext = dylib_ext_of(os);
                let x = with_ext_of(tmp_file_stem_of(*self.info, self.timestamp), ext);
                let y = with_ext_of(file_stem_of(os, lib), ext);
                reveal_strlit("lib");
                assert(has_no_separator_of(os, lib_prefix_of(os) + lib)) by {
                    assert(forall|i: int|
                        0 <= i < lib_prefix_of(os).len() ==> !is_separator_of(
                            os,
                            #[trigger] lib_prefix_of(os)[i],
                        ));
                    assert(forall|i: int|
                        0 <= i < (lib_prefix_of(os) + lib).len() ==> #[trigger] (lib_prefix_of(os)
                            + lib)[i] == if i < lib_prefix_of(os).len() {
                            lib_prefix_of(os)[i]
                        } else {
                            lib[i - lib_prefix_of(os).len()]
                        });
                }
                assert(has_no_separator_of(os, y)) by {
                    assert(forall|i: int|
                        0 <= i < y.len() ==> #[trigger] y[i] == if i < file_stem_of(
                            os,
                            lib,
                        ).len() {
                            file_stem_of(os, lib)[i]
                        } else if i == file_stem_of(os, lib).len() {
                            '.'
                        } else {
                            ext[i - file_stem_of(os, lib).len() - 1]
                        });
                }
                assert(has_no_separator_of(os, x)) by {
                    let h = file_stem_of(os, lib) + seq!['-'];
                    let sl = timestamp_slug_of(self.timestamp);
                    assert(x =~= h + sl + seq!['.'] + ext);
                    assert(forall|i: int|
                        0 <= i < x.len() ==> #[trigger] x[i] == if i < file_stem_of(
                            os,
                            lib,
                        ).len() {
                            file_stem_of(os, lib)[i]
                        } else if i == file_stem_of(os, lib).len() {
                            '-'
                        } else if i < h.len() + sl.len() {
                            sl[i - h.len()]
                        } else if i == h.len() + sl.len() {
                            '.'
                        } else {
                            ext[i - h.len() - sl.len() - 1]
                        });
                    assert(forall|i: int| 0 <= i < sl.len() ==> is_slug_char(#[trigger] sl[i]));
                }
                if r@ == dylib_path_of(*self.info) {
                    lemma_join_same_entry(
                        os,
                        self.info.tmp_dir@,
                        x,
                        join_of(os, self.info.target_dir_path@, "release"@),
                        y,
                    );
                    assert(x.len() > y.len());
                }
            }
        }
        r
    }
}

} // verus!
