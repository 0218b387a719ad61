//! The fixed subprocess invocation that launches the backend.

use vstd::prelude::*;
use vstd::string::StringExecFns;

verus! {

/// Where a standard stream of the child process is sent.
#[derive(Clone, Copy, Debug, PartialEq, Eq, Structural)]
pub enum StreamSink {
    /// The stream is inherited from the supervisor.
    Inherit,
    /// The stream is thrown away: nothing written to it can be observed.
    Discard,
}

/// A fully determined subprocess invocation: program, arguments, working
/// directory, and where each standard stream goes.
#[derive(Debug)]
pub struct SpawnCommand {
    /// The binary to execute.
    pub program: String,
    /// The arguments handed to the binary, in order.
    pub args: Vec<String>,
    /// The directory the child starts in.
    pub working_dir: String,
    /// Where the child's standard output goes.
    pub stdout: StreamSink,
    /// Where the child's standard error goes.
    pub stderr: StreamSink,
}

/// The name of the interpreter binary that runs the backend.
pub open spec fn interpreter_name() -> Seq<char> {
    "node"@
}

/// The entry-point file of the backend, handed to the interpreter as its
/// only argument.
pub open spec fn entry_point_name() -> Seq<char> {
    "server.js"@
}

/// The fixed subdirectory of the resource directory that holds the backend.
pub open spec fn backend_subdir_name() -> Seq<char> {
    "backend"@
}

/// `dir` with `child` appended beneath it, separated by `/`.
pub open spec fn path_join(dir: Seq<char>, child: Seq<char>) -> Seq<char> {
    dir + seq!['/'] + child
}

/// The directory the backend runs in: the `backend` subdirectory of the
/// resolved resource directory.
pub open spec fn backend_working_dir(resource_dir: Seq<char>) -> Seq<char> {
    path_join(resource_dir, backend_subdir_name())
}

/// Builds the one invocation this supervisor ever spawns: the interpreter
/// binary with the entry-point file as its only argument, started in the
/// `backend` subdirectory of `resource_dir`, with both standard streams
/// discarded.
pub fn backend_command(resource_dir: &str) -> (c: SpawnCommand)
    ensures
        c.program@ == interpreter_name(),
        c.args@.len() == 1,
        c.args@[0]@ == entry_point_name(),
        c.working_dir@ == backend_working_dir(resource_dir@),
        c.stdout == StreamSink::Discard,
        c.stderr == StreamSink::Discard,
{
    let mut working_dir = String::from_str(resource_dir);
    working_dir.append("/");
    working_dir.append("backend");
    proof {
        reveal_strlit("/");
        assert("/"@ =~= seq!['/']);
        assert(working_dir@ =~= backend_working_dir(resource_dir@));
    }
    let mut args: Vec<String> = Vec::new();
    args.push(String::from_str("server.js"));
    SpawnCommand {
        program: String::from_str("node"),
        args,
        working_dir,
        stdout: StreamSink::Discard,
        stderr: StreamSink::Discard,
    }
}

/// The single informational message emitted once the warm-up delay after a
/// successful spawn has elapsed.
pub fn started_message() -> (msg: &'static str)
    ensures
        msg@ == "Backend server started successfully"@,
{
    "Backend server started successfully"
}

} // verus!
