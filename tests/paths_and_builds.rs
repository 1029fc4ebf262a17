use hotlib::errors::{BuildError, ExitStatusUnsuccessfulError, WatchError};
use hotlib::metadata::{str_eq, Json};
use hotlib::package::{check_manifest_path, PackageInfo, ProcessOutput};
use hotlib::paths::{ends_with_component, is_manifest_path, join, parent, with_ext};
use hotlib::platform::{dylib_ext, file_stem, Os};
use hotlib::timestamp::{timestamp_slug, Timestamp};

fn s(text: &str) -> Json {
    Json::Str(text.to_string())
}

fn obj(fields: Vec<(&str, Json)>) -> Json {
    Json::Object(fields.into_iter().map(|(k, v)| (k.to_string(), v)).collect())
}

fn target(name: &str, kinds: Vec<&str>, src: &str) -> Json {
    obj(vec![
        ("kind", Json::Array(kinds.into_iter().map(s).collect())),
        ("name", s(name)),
        ("src_path", s(src)),
    ])
}

fn metadata(manifest: &str, targets: Vec<Json>) -> Json {
    obj(vec![
        (
            "packages",
            Json::Array(vec![
                obj(vec![
                    ("manifest_path", s("/other/Cargo.toml")),
                    ("targets", Json::Array(vec![target("other", vec!["dylib"], "/other/src/lib.rs")])),
                ]),
                obj(vec![
                    ("name", s("foo")),
                    ("manifest_path", s(manifest)),
                    ("targets", Json::Array(targets)),
                ]),
            ]),
        ),
        ("target_directory", s("/proj/target")),
        ("version", Json::Number("1".to_string())),
    ])
}

fn linux_info() -> PackageInfo {
    PackageInfo {
        manifest_path: "/proj/Cargo.toml".to_string(),
        src_path: "/proj/src".to_string(),
        lib_name: "foo".to_string(),
        target_dir_path: "/proj/target".to_string(),
        tmp_dir: "/tmp/hotlib".to_string(),
        os: Os::Linux,
    }
}

fn ok_output() -> ProcessOutput {
    ProcessOutput { code: Some(0), stdout: vec![], stderr: b"Finished release".to_vec() }
}

#[test]
fn dylib_ext_per_platform() {
    assert_eq!(dylib_ext(Os::Linux), "so");
    assert_eq!(dylib_ext(Os::MacOs), "dylib");
    assert_eq!(dylib_ext(Os::Ios), "dylib");
    assert_eq!(dylib_ext(Os::Windows), "dll");
}

#[test]
fn file_stem_has_lib_prefix_except_on_windows() {
    assert_eq!(file_stem(Os::Linux, "foo"), "libfoo");
    assert_eq!(file_stem(Os::MacOs, "foo"), "libfoo");
    assert_eq!(file_stem(Os::Windows, "foo"), "foo");
}

#[test]
fn timestamp_validity() {
    assert!(Timestamp::new(1_518_568_087, 0).is_some());
    assert!(Timestamp::new(1, 1_000_000_000).is_none());
    assert!(Timestamp::new(253_402_300_799, 999_999_999).is_some());
    assert!(Timestamp::new(253_402_300_800, 0).is_none());
    let a = Timestamp { secs: 10, nanos: 5 };
    let b = Timestamp { secs: 10, nanos: 6 };
    let c = Timestamp { secs: 11, nanos: 0 };
    assert!(b.is_after(&a));
    assert!(!a.is_after(&b));
    assert!(c.is_after(&b));
    assert!(!a.is_after(&a));
}

#[test]
fn timestamp_slug_of_whole_and_fractional_seconds() {
    assert_eq!(timestamp_slug(Timestamp { secs: 1_518_568_087, nanos: 0 }), "2018-02-14t00-28-07z");
    assert_eq!(
        timestamp_slug(Timestamp { secs: 1_518_568_087, nanos: 123 }),
        "2018-02-14t00-28-07-000000123z"
    );
    assert_eq!(timestamp_slug(Timestamp { secs: 0, nanos: 0 }), "1970-01-01t00-00-00z");
}

#[test]
fn manifest_paths() {
    assert!(is_manifest_path(Os::Linux, "Cargo.toml"));
    assert!(is_manifest_path(Os::Linux, "/a/b/Cargo.toml"));
    assert!(is_manifest_path(Os::Linux, "/a/b/cargo.toml"));
    assert!(!is_manifest_path(Os::Linux, "/a/b/XCargo.toml"));
    assert!(!is_manifest_path(Os::Linux, "/a/b/Cargo.toml.bak"));
    assert!(!is_manifest_path(Os::Linux, "/a/b/lib.rs"));
    assert!(!is_manifest_path(Os::Linux, ""));
    assert!(ends_with_component(Os::Linux, "/x/y", "y"));
    assert!(!ends_with_component(Os::Linux, "/x/yy", "y"));
    assert!(check_manifest_path(Os::Linux, "/p/Cargo.toml").is_ok());
    assert!(matches!(check_manifest_path(Os::Linux, "/p/lib.rs"), Err(WatchError::InvalidPath)));
}

#[test]
fn parent_directories() {
    assert_eq!(parent(Os::Linux, "/a/b/lib.rs"), Some("/a/b".to_string()));
    assert_eq!(parent(Os::Linux, "/lib.rs"), Some("/".to_string()));
    assert_eq!(parent(Os::Linux, "lib.rs"), Some("".to_string()));
    assert_eq!(parent(Os::Linux, "/"), None);
    assert_eq!(parent(Os::Linux, ""), None);
}

#[test]
fn joining_and_extensions() {
    assert_eq!(join(Os::Linux, "/tmp", "hotlib"), "/tmp/hotlib");
    assert_eq!(join(Os::Linux, "/tmp/", "hotlib"), "/tmp/hotlib");
    assert_eq!(with_ext("libfoo", "so"), "libfoo.so");
}

#[test]
fn metadata_resolves_first_dylib_of_matching_package() {
    let json = metadata(
        "/proj/Cargo.toml",
        vec![
            target("bin", vec!["bin"], "/proj/src/main.rs"),
            target("foo", vec!["rlib", "dylib"], "/proj/src/lib.rs"),
            target("bar", vec!["dylib"], "/proj/bar/lib.rs"),
        ],
    );
    let info = PackageInfo::from_metadata("/proj/Cargo.toml", &json, Os::Linux, "/tmp/hotlib").unwrap();
    assert_eq!(info.lib_name, "foo");
    assert_eq!(info.src_path, "/proj/src");
    assert_eq!(info.target_dir_path, "/proj/target");
    assert_eq!(info.manifest_path, "/proj/Cargo.toml");
    assert_eq!(info.tmp_dir, "/tmp/hotlib");
    let package = info.package();
    assert_eq!(package.manifest_path(), "/proj/Cargo.toml");
    assert_eq!(package.src_path(), "/proj/src");
}

#[test]
fn metadata_without_dylib_target() {
    let json = metadata("/proj/Cargo.toml", vec![target("foo", vec!["lib"], "/proj/src/lib.rs")]);
    let r = PackageInfo::from_metadata("/proj/Cargo.toml", &json, Os::Linux, "/tmp/hotlib");
    assert!(matches!(r, Err(WatchError::NoDylibTarget)));
}

#[test]
fn metadata_for_another_manifest() {
    let json = metadata("/proj/Cargo.toml", vec![target("foo", vec!["dylib"], "/proj/src/lib.rs")]);
    let r = PackageInfo::from_metadata("/elsewhere/Cargo.toml", &json, Os::Linux, "/tmp/hotlib");
    assert!(matches!(r, Err(WatchError::NoDylibTarget)));
    let other = PackageInfo::from_metadata("/other/Cargo.toml", &json, Os::Linux, "/tmp/hotlib").unwrap();
    assert_eq!(other.lib_name, "other");
}

#[test]
fn metadata_missing_fields() {
    let no_dir = obj(vec![("packages", Json::Array(vec![]))]);
    assert!(PackageInfo::from_metadata("/proj/Cargo.toml", &no_dir, Os::Linux, "/t").is_err());
    let not_object = Json::Array(vec![]);
    assert!(PackageInfo::from_metadata("/proj/Cargo.toml", &not_object, Os::Linux, "/t").is_err());
    let nameless = metadata(
        "/proj/Cargo.toml",
        vec![obj(vec![("kind", Json::Array(vec![s("dylib")])), ("src_path", s("/proj/src/lib.rs"))])],
    );
    assert!(PackageInfo::from_metadata("/proj/Cargo.toml", &nameless, Os::Linux, "/t").is_err());
    let null_kind = metadata(
        "/proj/Cargo.toml",
        vec![
            obj(vec![("kind", Json::Null), ("name", s("x")), ("src_path", s("/x/lib.rs"))]),
            target("foo", vec!["dylib"], "/proj/src/lib.rs"),
        ],
    );
    let info = PackageInfo::from_metadata("/proj/Cargo.toml", &null_kind, Os::Linux, "/t").unwrap();
    assert_eq!(info.lib_name, "foo");
    let json_bool = Json::Bool(true);
    assert!(PackageInfo::from_metadata("/proj/Cargo.toml", &json_bool, Os::Linux, "/t").is_err());
}

#[test]
fn from_output_on_success_and_failure() {
    assert!(ExitStatusUnsuccessfulError::from_output(&ok_output()).is_none());
    let failed = ProcessOutput { code: Some(2), stdout: vec![], stderr: b"bad".to_vec() };
    let err = ExitStatusUnsuccessfulError::from_output(&failed).unwrap();
    assert_eq!(err.code, Some(2));
    assert_eq!(err.stderr, "bad");
    let killed = ProcessOutput { code: None, stdout: vec![], stderr: vec![0x66, 0xff] };
    let err = ExitStatusUnsuccessfulError::from_output(&killed).unwrap();
    assert_eq!(err.code, None);
    assert_eq!(err.stderr, "f\u{FFFD}");
}

#[test]
fn build_paths_on_linux_and_windows() {
    let info = linux_info();
    let package = info.package();
    let ts = Timestamp { secs: 1_518_568_087, nanos: 0 };
    let build = package.complete_build(ok_output(), ts).ok().unwrap();
    assert_eq!(build.timestamp(), ts);
    assert_eq!(build.cargo_output().code, Some(0));
    assert_eq!(build.file_stem(), "libfoo");
    assert_eq!(build.tmp_file_stem(), "libfoo-2018-02-14t00-28-07z");
    assert_eq!(build.dylib_path(), "/proj/target/release/libfoo.so");
    assert_eq!(build.tmp_dylib_path(), "/tmp/hotlib/libfoo-2018-02-14t00-28-07z.so");

    let mut win = linux_info();
    win.os = Os::Windows;
    win.target_dir_path = "C:\\proj\\target".to_string();
    win.tmp_dir = "C:\\Temp\\hotlib\\".to_string();
    let package = win.package();
    let build = package.complete_build(ok_output(), ts).ok().unwrap();
    assert_eq!(build.dylib_path(), "C:\\proj\\target\\release\\foo.dll");
    assert_eq!(build.tmp_dylib_path(), "C:\\Temp\\hotlib\\foo-2018-02-14t00-28-07z.dll");
}

#[test]
fn same_build_loaded_twice_shares_its_copy() {
    let info = linux_info();
    let package = info.package();
    let ts = Timestamp { secs: 1_700_000_000, nanos: 42 };
    let a = package.complete_build(ok_output(), ts).ok().unwrap();
    let b = package.complete_build(ok_output(), ts).ok().unwrap();
    assert_eq!(a.tmp_dylib_path(), b.tmp_dylib_path());
}

#[test]
fn distinct_timestamps_give_distinct_copies() {
    let info = linux_info();
    let package = info.package();
    let stamps = [
        Timestamp { secs: 1_700_000_000, nanos: 0 },
        Timestamp { secs: 1_700_000_000, nanos: 1 },
        Timestamp { secs: 1_700_000_001, nanos: 0 },
        Timestamp { secs: 1_700_000_000, nanos: 100_000_000 },
    ];
    let paths: Vec<String> = stamps
        .iter()
        .map(|t| package.complete_build(ok_output(), *t).ok().unwrap().tmp_dylib_path())
        .collect();
    for i in 0..paths.len() {
        for j in 0..paths.len() {
            assert_eq!(i == j, paths[i] == paths[j]);
        }
    }
}

#[test]
fn failed_build_carries_code_and_stderr_and_session_goes_on() {
    let info = linux_info();
    let package = info.package();
    let failed = ProcessOutput {
        code: Some(101),
        stdout: vec![],
        stderr: b"error[E0425]: cannot find value `x` in this scope\n".to_vec(),
    };
    match package.complete_build(failed, Timestamp { secs: 100, nanos: 0 }) {
        Err(BuildError::ExitStatusUnsuccessful { err }) => {
            assert_eq!(err.code, Some(101));
            assert_eq!(err.stderr, "error[E0425]: cannot find value `x` in this scope\n");
        }
        _ => panic!("expected a failed build"),
    }
    let later = package.complete_build(ok_output(), Timestamp { secs: 200, nanos: 0 });
    assert!(later.is_ok());
}

#[test]
fn first_member_wins_and_text_equality() {
    let o = obj(vec![("name", s("first")), ("name", s("second")), ("n", Json::Null)]);
    assert!(matches!(o.get("name"), Some(Json::Str(v)) if v == "first"));
    assert!(o.get("missing").is_none());
    assert!(s("x").get("name").is_none());
    assert_eq!(o.get("n").and_then(|v| v.as_str()), None);
    assert_eq!(s("abc").as_str(), Some("abc"));
    assert!(Json::Bool(false).as_array().is_none());
    assert!(str_eq("dylib", "dylib"));
    assert!(!str_eq("dylib", "dylia"));
    assert!(!str_eq("dy", "dylib"));
    assert!(str_eq("", ""));
}

#[test]
fn windows_paths_use_backslashes_too() {
    assert!(is_manifest_path(Os::Windows, "C:\\proj\\Cargo.toml"));
    assert!(is_manifest_path(Os::Windows, "C:/proj/cargo.toml"));
    assert!(!is_manifest_path(Os::Linux, "C:\\proj\\Cargo.toml"));
    assert!(!is_manifest_path(Os::Windows, "C:\\proj\\XCargo.toml"));
    assert!(check_manifest_path(Os::Windows, "C:\\proj\\Cargo.toml").is_ok());
    assert_eq!(parent(Os::Windows, "C:\\proj\\src\\lib.rs"), Some("C:\\proj\\src".to_string()));
    assert_eq!(parent(Os::Windows, "C:\\proj/src\\lib.rs"), Some("C:\\proj/src".to_string()));
    assert_eq!(parent(Os::Windows, "\\lib.rs"), Some("\\".to_string()));
    assert_eq!(parent(Os::Linux, "C:\\proj\\lib.rs"), Some("".to_string()));
    assert_eq!(join(Os::Windows, "C:\\Temp", "hotlib"), "C:\\Temp\\hotlib");
    assert_eq!(join(Os::Windows, "C:/Temp/", "hotlib"), "C:/Temp/hotlib");

    let json = metadata(
        "C:\\proj\\Cargo.toml",
        vec![target("foo", vec!["dylib"], "C:\\proj\\src\\lib.rs")],
    );
    let info = PackageInfo::from_metadata("C:\\proj\\Cargo.toml", &json, Os::Windows, "C:\\Temp").unwrap();
    assert_eq!(info.src_path, "C:\\proj\\src");
    assert_eq!(info.lib_name, "foo");
}

#[test]
fn private_copy_is_never_the_artifact_even_in_its_directory() {
    let mut info = linux_info();
    info.tmp_dir = "/proj/target/release".to_string();
    let package = info.package();
    let build = package.complete_build(ok_output(), Timestamp { secs: 5, nanos: 0 }).ok().unwrap();
    assert_eq!(build.dylib_path(), "/proj/target/release/libfoo.so");
    assert_eq!(build.tmp_dylib_path(), "/proj/target/release/libfoo-1970-01-01t00-00-05z.so");
    assert_ne!(build.dylib_path(), build.tmp_dylib_path());
}
