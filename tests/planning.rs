use gobuild::{Build, BuildMode, ErrorKind, HostEnv, Invocation};

fn host(out_dir: Option<&str>, arch: Option<&str>, os: Option<&str>) -> HostEnv {
    HostEnv {
        out_dir: out_dir.map(|s| s.to_string()),
        target_arch: arch.map(|s| s.to_string()),
        target_os: os.map(|s| s.to_string()),
        windows: false,
    }
}

fn env_value(inv: &Invocation, key: &str) -> Option<String> {
    let mut found = None;
    for (k, v) in &inv.envs {
        if k == key {
            found = Some(v.clone());
        }
    }
    found
}

#[test]
fn out_dir_override_wins() {
    let mut b = Build::new();
    b.out_dir("/tmp/explicit");
    let d = b.get_out_dir(&host(Some("/tmp/env"), None, None)).unwrap();
    assert_eq!(d, "/tmp/explicit");
}

#[test]
fn out_dir_falls_back_to_host() {
    let d = Build::new().get_out_dir(&host(Some("/tmp/env"), None, None)).unwrap();
    assert_eq!(d, "/tmp/env");
}

#[test]
fn missing_out_dir_is_configuration_error() {
    let e = Build::new().get_out_dir(&host(None, Some("x86_64"), Some("linux"))).unwrap_err();
    assert_eq!(e.kind(), ErrorKind::EnvVarNotFound);
    assert_eq!(e.message(), "Environment vairable OUT_DIR not defined.");
}

#[test]
fn gnu_lib_name_follows_mode() {
    let mut b = Build::new();
    assert_eq!(b.get_gnu_lib_name("foo", false), "libfoo.a");
    b.buildmode(BuildMode::CShared);
    assert_eq!(b.get_gnu_lib_name("foo", true), "libfoo.dll");
    assert_eq!(b.get_gnu_lib_name("foo", false), "libfoo.so");
}

#[test]
fn target_from_host_variables() {
    let b = Build::new();
    let h = host(None, Some("aarch64"), Some("macos"));
    assert_eq!(b.get_goarch(&h).unwrap(), "arm64");
    assert_eq!(b.get_goos(&h).unwrap(), "darwin");
    let e = b.get_goarch(&host(None, None, None)).unwrap_err();
    assert_eq!(e.kind(), ErrorKind::EnvVarNotFound);
    assert_eq!(e.message(), "Cannot find CARGO_CFG_TARGET_ARCH env var");
    let e = b.get_goos(&host(None, None, None)).unwrap_err();
    assert_eq!(e.message(), "Cannot find CARGO_CFG_TARGET_OS env var");
}

#[test]
fn archive_invocation_arguments_and_environment() {
    let mut b = Build::new();
    b.file("a.go").files(&["b.go", "a.go"]);
    let inv = b
        .invocation("foo", "/out", "/usr/bin/cc", &host(None, Some("x86_64"), Some("linux")))
        .unwrap();
    assert_eq!(inv.program, "go");
    assert_eq!(inv.args, vec!["build", "-buildmode", "c-archive", "-o", "/out/libfoo.a", "a.go", "b.go", "a.go"]);
    let envs: Vec<(&str, &str)> = inv.envs.iter().map(|(k, v)| (k.as_str(), v.as_str())).collect();
    assert_eq!(envs, vec![("CGO_ENABLED", "1"), ("CC", "/usr/bin/cc"), ("GOARCH", "amd64"), ("GOOS", "linux")]);
}

#[test]
fn shared_invocation_with_flags() {
    let mut b = Build::new();
    b.buildmode(BuildMode::CShared).ldflags("-s -w").trim_paths(true).compiler("/opt/go/bin/go").file("main.go");
    let inv = b.invocation("bar", "/out/", "cc", &host(None, Some("arm"), Some("android"))).unwrap();
    assert_eq!(inv.program, "/opt/go/bin/go");
    assert_eq!(
        inv.args,
        vec!["build", "-buildmode", "c-shared", "-o", "/out/libbar.so", "-ldflags", "-s -w", "-trimpath", "main.go"]
    );
}

#[test]
fn overrides_replace_host_target() {
    let mut b = Build::new();
    b.goarch("wasm").goos("js");
    let inv = b.invocation("foo", "/out", "cc", &host(None, Some("sparc"), None)).unwrap();
    assert_eq!(env_value(&inv, "GOARCH").unwrap(), "wasm");
    assert_eq!(env_value(&inv, "GOOS").unwrap(), "js");
}

#[test]
fn unknown_target_fails_invocation() {
    let e = Build::new().invocation("foo", "/out", "cc", &host(None, Some("sparc"), Some("linux"))).unwrap_err();
    assert_eq!(e.kind(), ErrorKind::EnvVarValueUnknown);
    assert_eq!(e.message(), "Unknown arch sparc");
    let e = Build::new().invocation("foo", "/out", "cc", &host(None, Some("x86"), Some("plan9"))).unwrap_err();
    assert_eq!(e.message(), "Unknown os plan9");
}

#[test]
fn caller_environment_wins() {
    let mut b = Build::new();
    b.goarch("amd64").env("GOARCH", "386").env("CGO_ENABLED", "0").env("EXTRA", "x");
    let inv = b.invocation("foo", "/out", "cc", &host(None, None, Some("linux"))).unwrap();
    assert_eq!(env_value(&inv, "GOARCH").unwrap(), "386");
    assert_eq!(env_value(&inv, "CGO_ENABLED").unwrap(), "0");
    assert_eq!(env_value(&inv, "EXTRA").unwrap(), "x");
    assert_eq!(env_value(&inv, "GOOS").unwrap(), "linux");
}

#[test]
fn later_env_value_replaces_earlier() {
    let mut b = Build::new();
    b.env("K", "1").env("K", "2");
    let inv = b.invocation("foo", "/out", "cc", &host(None, Some("x86"), Some("linux"))).unwrap();
    let ks: Vec<&(String, String)> = inv.envs.iter().filter(|(k, _)| k == "K").collect();
    assert_eq!(ks.len(), 1);
    assert_eq!(ks[0].1, "2");
}

#[test]
fn metadata_lines_in_order() {
    let mut b = Build::new();
    b.files(&["x.go", "y.go"]);
    let mut lines = b.rerun_lines();
    lines.extend(b.link_lines("foo", "/out"));
    assert_eq!(
        lines,
        vec![
            "cargo:rerun-if-changed=x.go",
            "cargo:rerun-if-changed=y.go",
            "cargo:rustc-link-lib=static=foo",
            "cargo:rustc-link-search=native=/out",
        ]
    );
}

#[test]
fn shared_library_links_dynamically() {
    let mut b = Build::new();
    b.buildmode(BuildMode::CShared);
    assert_eq!(b.link_lines("foo", "/out"), vec!["cargo:rustc-link-lib=dylib=foo", "cargo:rustc-link-search=native=/out"]);
}

#[test]
fn metadata_off_emits_nothing() {
    let mut b = Build::new();
    b.file("x.go").cargo_metadata(false);
    assert!(b.rerun_lines().is_empty());
    assert!(b.link_lines("foo", "/out").is_empty());
}

#[test]
fn command_resolves_c_compiler_or_reports_it() {
    let mut b = Build::new();
    b.file("main.go");
    match b.command("foo", "/out", &host(None, Some("x86_64"), Some("linux"))) {
        Ok(inv) => {
            assert_eq!(inv.args[4], "/out/libfoo.a");
            assert!(!env_value(&inv, "CC").unwrap().is_empty());
        }
        Err(e) => {
            assert_eq!(e.kind(), ErrorKind::ToolNotFound);
            assert!(e.message().starts_with("could not find c compiler: "));
        }
    }
}

#[test]
fn found_compiler_goes_into_environment() {
    let mut b = Build::new();
    b.file("main.go");
    let inv = b
        .invocation_for_lookup("foo", "/out", Ok("/usr/bin/clang".to_string()), &host(None, Some("x86"), Some("linux")))
        .unwrap();
    assert_eq!(env_value(&inv, "CC").unwrap(), "/usr/bin/clang");
    assert_eq!(inv.args, vec!["build", "-buildmode", "c-archive", "-o", "/out/libfoo.a", "main.go"]);
}

#[test]
fn failed_lookup_carries_its_text() {
    let e = Build::new()
        .invocation_for_lookup("foo", "/out", Err("EnvVarNotFound: TARGET".to_string()), &host(None, Some("x86"), Some("linux")))
        .unwrap_err();
    assert_eq!(e.kind(), ErrorKind::ToolNotFound);
    assert_eq!(e.message(), "could not find c compiler: EnvVarNotFound: TARGET");
}

#[test]
fn default_build_has_metadata_off() {
    let mut b = Build::default();
    b.file("x.go");
    assert!(b.rerun_lines().is_empty());
    assert!(b.link_lines("foo", "/out").is_empty());
}
