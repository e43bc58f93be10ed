use vstd::prelude::*;
use vstd::string::*;
use crate::error::{Error, ErrorKind};

verus! {

/// The Go architecture (`GOARCH`) for a Rust target architecture, where one is known.
pub open spec fn goarch_of(arch: Seq<char>) -> Option<Seq<char>> {
    if arch == "x86"@ {
        Some("386"@)
    } else if arch == "x86_64"@ {
        Some("amd64"@)
    } else if arch == "mips"@ {
        Some("mips"@)
    } else if arch == "powerpc"@ {
        Some("ppc"@)
    } else if arch == "powerpc64"@ {
        Some("ppc64"@)
    } else if arch == "arm"@ {
        Some("arm"@)
    } else if arch == "aarch64"@ {
        Some("arm64"@)
    } else {
        None
    }
}

/// The Go operating system (`GOOS`) for a Rust target operating system, where one is known.
pub open spec fn goos_of(os: Seq<char>) -> Option<Seq<char>> {
    if os == "windows"@ {
        Some("windows"@)
    } else if os == "macos"@ || os == "ios"@ {
        Some("darwin"@)
    } else if os == "linux"@ {
        Some("linux"@)
    } else if os == "android"@ {
        Some("android"@)
    } else if os == "freebsd"@ {
        Some("freebsd"@)
    } else if os == "dragonfly"@ {
        Some("dragonfly"@)
    } else if os == "openbsd"@ {
        Some("openbsd"@)
    } else if os == "netbsd"@ {
        Some("netbsd"@)
    } else {
        None
    }
}

/// The error for an architecture that has no Go counterpart.
pub open spec fn unknown_arch_message(arch: Seq<char>) -> Seq<char> {
    "Unknown arch "@ + arch
}

/// The error for an operating system that has no Go counterpart.
pub open spec fn unknown_os_message(os: Seq<char>) -> Seq<char> {
    "Unknown os "@ + os
}

/// An error of kind `EnvVarValueUnknown` whose message is `prefix` followed by `value`.
fn unknown_value(prefix: &str, value: &str) -> (r: Error)
    ensures
        r.kind == ErrorKind::EnvVarValueUnknown,
        r.message@ == prefix@ + value@,
{
    let mut m = String::from_str(prefix);
    m.append(value);
    Error::new(ErrorKind::EnvVarValueUnknown, m.as_str())
}

/// Translates a Rust target architecture into Go's name for it.
pub fn map_goarch(arch: &str) -> (r: Result<String, Error>)
    ensures
        match goarch_of(arch@) {
            Some(g) => r is Ok && r->Ok_0@ == g,
            None => r is Err && r->Err_0.kind == ErrorKind::EnvVarValueUnknown
                && r->Err_0.message@ == unknown_arch_message(arch@),
        },
{
    let a = String::from_str(arch);
    let g = if a == String::from_str("x86") {
        "386"
    } else if a == String::from_str("x86_64") {
        "amd64"
    } else if a == String::from_str("mips") {
        "mips"
    } else if a == String::from_str("powerpc") {
        "ppc"
    } else if a == String::from_str("powerpc64") {
        "ppc64"
    } else if a == String::from_str("arm") {
        "arm"
    } else if a == String::from_str("aarch64") {
        "arm64"
    } else {
        return Err(unknown_value("Unknown arch ", arch));
    };
    Ok(String::from_str(g))
}

/// Translates a Rust target operating system into Go's name for it.
pub fn map_goos(os: &str) -> (r: Result<String, Error>)
    ensures
        match goos_of(os@) {
            Some(g) => r is Ok && r->Ok_0@ == g,
            None => r is Err && r->Err_0.kind == ErrorKind::EnvVarValueUnknown
                && r->Err_0.message@ == unknown_os_message(os@),
        },
{
    let o = String::from_str(os);
    let g = if o == String::from_str("windows") {
        "windows"
    } else if o == String::from_str("macos") || o == String::from_str("ios") {
        "darwin"
    } else if o == String::from_str("linux") {
        "linux"
    } else if o == String::from_str("android") {
        "android"
    } else if o == String::from_str("freebsd") {
        "freebsd"
    } else if o == String::from_str("dragonfly") {
        "dragonfly"
    } else if o == String::from_str("openbsd") {
        "openbsd"
    } else if o == String::from_str("netbsd") {
        "netbsd"
    } else {
        return Err(unknown_value("Unknown os ", os));
    };
    Ok(String::from_str(g))
}

} // verus!
