use gobuild::{
    exit_outcome, lib_file_name, map_goarch, map_goos, spawn_failure, wait_failure, warning_line,
    BuildMode, Error, ErrorKind,
};

#[test]
fn it_works() {
    assert_eq!(2 + 2, 4);
}

#[test]
fn build_mode_flags_and_default() {
    assert_eq!(BuildMode::CArchive.to_string(), "c-archive");
    assert_eq!(BuildMode::CShared.to_string(), "c-shared");
    assert_eq!(BuildMode::default(), BuildMode::CArchive);
}

#[test]
fn error_new_keeps_kind_and_message() {
    let e = Error::new(ErrorKind::ToolNotFound, "no go");
    assert_eq!(e.kind(), ErrorKind::ToolNotFound);
    assert_eq!(e.message(), "no go");
}

#[test]
fn known_architectures_map_to_go_names() {
    let table = [
        ("x86", "386"),
        ("x86_64", "amd64"),
        ("arm", "arm"),
        ("aarch64", "arm64"),
        ("mips", "mips"),
        ("powerpc", "ppc"),
        ("powerpc64", "ppc64"),
    ];
    for (rust, go) in table {
        assert_eq!(map_goarch(rust).unwrap(), go);
    }
}

#[test]
fn unknown_architecture_is_named_in_error() {
    let e = map_goarch("riscv64").unwrap_err();
    assert_eq!(e.kind(), ErrorKind::EnvVarValueUnknown);
    assert_eq!(e.message(), "Unknown arch riscv64");
    assert!(e.message().contains("riscv64"));
}

#[test]
fn known_systems_map_to_go_names() {
    let table = [
        ("windows", "windows"),
        ("macos", "darwin"),
        ("ios", "darwin"),
        ("linux", "linux"),
        ("android", "android"),
        ("freebsd", "freebsd"),
        ("openbsd", "openbsd"),
        ("netbsd", "netbsd"),
        ("dragonfly", "dragonfly"),
    ];
    for (rust, go) in table {
        assert_eq!(map_goos(rust).unwrap(), go);
    }
}

#[test]
fn unknown_system_is_named_in_error() {
    let e = map_goos("haiku").unwrap_err();
    assert_eq!(e.kind(), ErrorKind::EnvVarValueUnknown);
    assert_eq!(e.message(), "Unknown os haiku");
}

#[test]
fn empty_platform_identifiers_are_unknown() {
    assert_eq!(map_goarch("").unwrap_err().kind(), ErrorKind::EnvVarValueUnknown);
    assert_eq!(map_goos("").unwrap_err().kind(), ErrorKind::EnvVarValueUnknown);
}

#[test]
fn library_file_names() {
    assert_eq!(lib_file_name("foo", BuildMode::CArchive, false), "libfoo.a");
    assert_eq!(lib_file_name("foo", BuildMode::CArchive, true), "libfoo.a");
    assert_eq!(lib_file_name("foo", BuildMode::CShared, true), "libfoo.dll");
    assert_eq!(lib_file_name("foo", BuildMode::CShared, false), "libfoo.so");
    assert_eq!(lib_file_name("", BuildMode::CArchive, false), "lib.a");
}

#[test]
fn missing_tool_is_tool_not_found() {
    let e = spawn_failure(true, "foo", "\"go\" \"build\"", "\"foo\"");
    assert_eq!(e.kind(), ErrorKind::ToolNotFound);
    assert_eq!(e.message(), "Failed to find tool.  Is foo installed?");
}

#[test]
fn other_start_failure_is_exec_error() {
    let e = spawn_failure(false, "foo", "\"go\" \"build\"", "\"foo\"");
    assert_eq!(e.kind(), ErrorKind::ToolExecError);
    assert_eq!(e.message(), "Command \"go\" \"build\" with args \"foo\" failed to start.");
}

#[test]
fn wait_failure_is_exec_error() {
    let e = wait_failure("\"go\"", "\"foo\"");
    assert_eq!(e.kind(), ErrorKind::ToolExecError);
    assert_eq!(e.message(), "Failed to wait on spawned child process, command \"go\" with args \"foo\"");
}

#[test]
fn zero_exit_is_success() {
    assert!(exit_outcome(true, "\"go\"", "\"foo\"", "exit status: 0").is_ok());
}

#[test]
fn nonzero_exit_carries_status() {
    let e = exit_outcome(false, "\"go\" \"build\"", "\"foo\"", "exit status: 2").unwrap_err();
    assert_eq!(e.kind(), ErrorKind::ToolExecError);
    assert_eq!(
        e.message(),
        "Command \"go\" \"build\" with args \"foo\" did not execute successfully (status code exit status: 2)."
    );
    assert!(e.message().contains("exit status: 2"));
}

#[test]
fn diagnostic_lines_get_warning_prefix() {
    assert_eq!(warning_line(b"main.go:3: undefined: x"), b"cargo:warning=main.go:3: undefined: x".to_vec());
    assert_eq!(warning_line(b""), b"cargo:warning=".to_vec());
    assert_eq!(warning_line(&[0xff, b'a']), vec![b'c', b'a', b'r', b'g', b'o', b':', b'w', b'a', b'r', b'n', b'i', b'n', b'g', b'=', 0xff, b'a']);
}
