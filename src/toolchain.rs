use vstd::prelude::*;

verus! {

/// Relies on `cc::Build::new`, `cc::Build::try_get_compiler` and `cc::Tool::path`:
/// the C compiler that cc selects for the current target, as a path, or cc's
/// error (its `Display` text). The choice depends on the environment of the
/// build, so nothing is promised of it.
#[verifier::external_body]
pub(crate) fn find_c_compiler() -> (r: Result<String, String>) {
    match cc::Build::new().try_get_compiler() {
        Ok(tool) => Ok(tool.path().display().to_string()),
        Err(e) => Err(e.to_string()),
    }
}

/// `dir` starts with a Windows verbatim prefix (`\\?\`).
pub open spec fn is_verbatim(dir: Seq<char>) -> bool {
    dir.len() >= 4 && dir.subrange(0, 4) == seq!['\\', '\\', '?', '\\']
}

/// `p` is `name` placed under the directory `dir`: the two joined directly,
/// or with one separator between them.
pub open spec fn is_joined_path(p: Seq<char>, dir: Seq<char>, name: Seq<char>) -> bool {
    ||| p == dir + name
    ||| p == dir + seq!['/'] + name
    ||| p == dir + seq!['\\'] + name
}

/// Relies on `std::path::Path::join` (through `PathBuf::push`) and
/// `Path::display`: joining a relative file name that has no prefix (`name`
/// starts with `lib`) appends it to `dir`, with one separator where `dir` is
/// not empty and does not end in one. A `dir` with a verbatim prefix is left
/// out: there the joined path is normalized.
#[verifier::external_body]
pub(crate) fn join_path(dir: &str, name: &str) -> (r: String)
    requires
        name@.len() >= 3,
        name@.subrange(0, 3) == "lib"@,
    ensures
        !is_verbatim(dir@) ==> is_joined_path(r@, dir@, name@),
{
    std::path::Path::new(dir).join(name).display().to_string()
}

} // verus!
