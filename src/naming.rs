use vstd::prelude::*;
use vstd::string::*;
use crate::mode::BuildMode;

verus! {

/// The file name under which the toolchain writes library `lib_name`:
/// `lib<name>.a` for an archive, `lib<name>.dll` for a shared library on a
/// Windows host and `lib<name>.so` on any other.
pub open spec fn lib_file_name_of(lib_name: Seq<char>, mode: BuildMode, windows: bool) -> Seq<char> {
    "lib"@ + lib_name + match mode {
        BuildMode::CArchive => ".a"@,
        BuildMode::CShared => if windows {
            ".dll"@
        } else {
            ".so"@
        },
    }
}

/// The conventional file name of library `lib_name` built in `mode`;
/// `windows` tells whether the host is a Windows system.
pub fn lib_file_name(lib_name: &str, mode: BuildMode, windows: bool) -> (r: String)
    ensures
        r@ == lib_file_name_of(lib_name@, mode, windows),
{
    let mut name = String::from_str("lib");
    name.append(lib_name);
    match mode {
        BuildMode::CArchive => name.append(".a"),
        BuildMode::CShared => {
            if windows {
                name.append(".dll")
            } else {
                name.append(".so")
            }
        },
    }
    name
}

} // verus!
