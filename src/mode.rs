use vstd::prelude::*;
use vstd::string::*;

verus! {

/// The `-buildmode` handed to `go build`.
#[derive(Clone, Copy, Debug, PartialEq, Eq, Structural)]
pub enum BuildMode {
    /// Build the main package and all it imports into a C archive file.
    CArchive,
    /// Build the main package and all it imports into a C shared library.
    CShared,
}

impl BuildMode {
    /// The toolchain's name for this mode.
    pub open spec fn flag(self) -> Seq<char> {
        match self {
            BuildMode::CArchive => "c-archive"@,
            BuildMode::CShared => "c-shared"@,
        }
    }

    /// The toolchain's name for this mode, as passed after `-buildmode`.
    pub fn to_string(&self) -> (r: String)
        ensures
            r@ == self.flag(),
    {
        match self {
            BuildMode::CArchive => String::from_str("c-archive"),
            BuildMode::CShared => String::from_str("c-shared"),
        }
    }
}

impl Default for BuildMode {
    fn default() -> (r: BuildMode)
        ensures
            r == BuildMode::CArchive,
    {
        BuildMode::CArchive
    }
}

} // verus!
