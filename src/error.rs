use vstd::prelude::*;

verus! {

/// The kinds of failure that a compile can end in.
#[derive(Clone, Copy, Debug, PartialEq, Eq, Structural)]
pub enum ErrorKind {
    /// A required setting is absent and no fallback value could be read.
    EnvVarNotFound,
    /// A platform identifier lies outside the known mapping.
    EnvVarValueUnknown,
    /// The Go toolchain or the C compiler could not be found.
    ToolNotFound,
    /// The toolchain started but failed, or could not be started.
    ToolExecError,
}

/// An error of a compile, with an explanation.
#[derive(Clone, Debug)]
pub struct Error {
    /// Describes the kind of error that occurred.
    pub kind: ErrorKind,
    /// More explanation of the error that occurred.
    pub message: String,
}

impl Error {
    /// An error of the given kind carrying a copy of `message`.
    pub fn new(kind: ErrorKind, message: &str) -> (r: Error)
        ensures
            r.kind == kind,
            r.message@ == message@,
    {
        Error { kind, message: message.to_owned() }
    }

    /// The kind of this error.
    pub fn kind(&self) -> (r: ErrorKind)
        ensures
            r == self.kind,
    {
        self.kind
    }

    /// The explanation carried by this error.
    pub fn message(&self) -> (r: &str)
        ensures
            r@ == self.message@,
    {
        self.message.as_str()
    }
}

} // verus!
