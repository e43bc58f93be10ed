use vstd::prelude::*;
use vstd::string::*;
use crate::error::{Error, ErrorKind};

verus! {

/// The message for a toolchain build of `program` whose tool the system could not find.
pub open spec fn not_found_message(program: Seq<char>) -> Seq<char> {
    "Failed to find tool.  Is "@ + program + " installed?"@
}

/// The message for a command that could not be started; `command` and `args`
/// describe the command and what it was run for.
pub open spec fn start_failed_message(command: Seq<char>, args: Seq<char>) -> Seq<char> {
    "Command "@ + command + " with args "@ + args + " failed to start."@
}

/// The message for a command whose end could not be awaited.
pub open spec fn wait_failed_message(command: Seq<char>, args: Seq<char>) -> Seq<char> {
    "Failed to wait on spawned child process, command "@ + command + " with args "@ + args
}

/// The message for a command that ended with a failing `status`.
pub open spec fn exit_failed_message(command: Seq<char>, args: Seq<char>, status: Seq<char>) -> Seq<char> {
    "Command "@ + command + " with args "@ + args + " did not execute successfully (status code "@ + status
        + ")."@
}

/// `a`, `b` and `c` joined into one string.
fn join3(a: &str, b: &str, c: &str) -> (r: String)
    ensures
        r@ == a@ + b@ + c@,
{
    let mut r = String::from_str(a);
    r.append(b);
    r.append(c);
    r
}

/// The error for a toolchain that could not be started: `ToolNotFound` where
/// the system could not find it, naming `program`, else `ToolExecError`.
/// `command` and `args` describe the command and what it was run for.
pub fn spawn_failure(not_found: bool, program: &str, command: &str, args: &str) -> (r: Error)
    ensures
        not_found ==> r.kind == ErrorKind::ToolNotFound && r.message@ == not_found_message(program@),
        !not_found ==> r.kind == ErrorKind::ToolExecError && r.message@ == start_failed_message(command@, args@),
{
    if not_found {
        let m = join3("Failed to find tool.  Is ", program, " installed?");
        Error::new(ErrorKind::ToolNotFound, m.as_str())
    } else {
        let mut m = join3("Command ", command, " with args ");
        m.append(args);
        m.append(" failed to start.");
        Error::new(ErrorKind::ToolExecError, m.as_str())
    }
}

/// The error for a started command whose end could not be awaited.
pub fn wait_failure(command: &str, args: &str) -> (r: Error)
    ensures
        r.kind == ErrorKind::ToolExecError,
        r.message@ == wait_failed_message(command@, args@),
{
    let mut m = join3("Failed to wait on spawned child process, command ", command, " with args ");
    m.append(args);
    Error::new(ErrorKind::ToolExecError, m.as_str())
}

/// The outcome of a command that ended: success where it exited with status
/// zero, else `ToolExecError` naming the command and its `status`.
pub fn exit_outcome(success: bool, command: &str, args: &str, status: &str) -> (r: Result<(), Error>)
    ensures
        success <==> r is Ok,
        !success ==> r->Err_0.kind == ErrorKind::ToolExecError
            && r->Err_0.message@ == exit_failed_message(command@, args@, status@),
{
    if success {
        Ok(())
    } else {
        let mut m = join3("Command ", command, " with args ");
        m.append(args);
        m.append(" did not execute successfully (status code ");
        m.append(status);
        m.append(").");
        Err(Error::new(ErrorKind::ToolExecError, m.as_str()))
    }
}

/// The prefix that marks a line as a warning for the host build.
pub open spec fn warning_prefix() -> Seq<u8> {
    "cargo:warning=".spec_bytes()
}

/// A line of the toolchain's diagnostics, passed on to the host build as a warning.
pub fn warning_line(line: &[u8]) -> (r: Vec<u8>)
    ensures
        r@ == warning_prefix() + line@,
{
    let mut r = "cargo:warning=".as_bytes_vec();
    let ghost prefix = r@;
    let mut i: usize = 0;
    while i < line.len()
        invariant
            i <= line.len(),
            r@ == prefix + line@.subrange(0, i as int),
        decreases line.len() - i,
    {
        r.push(line[i]);
        proof {
            assert(line@.subrange(0, i + 1) =~= line@.subrange(0, i as int).push(line@[i as int]));
        }
        i = i + 1;
    }
    proof {
        assert(line@.subrange(0, line@.len() as int) =~= line@);
    }
    r
}

} // verus!
