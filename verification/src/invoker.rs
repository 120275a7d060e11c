//! The model of the external-process invoker.
//!
//! The service runs one external program, the `aptos` command-line tool,
//! with a fixed argument list per operation. This module builds those
//! invocations, accumulates the line-delimited text that the two pipe
//! drains collect, and classifies the finished child: the success flag
//! comes from the exit status, the returned text is the standard-output
//! text on success and the standard-error text on failure, and a spawn
//! failure is a distinct error that never yields a `ProcessResult`.
//!
//! The spawning itself, the two concurrent drain tasks and the wait happen
//! outside this crate; their outcome comes back as a `SpawnOutcome` value.

use vstd::prelude::*;

verus! {

/// One child process to run: the program name, its ordered argument list,
/// and at most one line to write to its standard input right after spawn,
/// before the input stream is closed.
pub struct Invocation {
    pub program: String,
    pub args: Vec<String>,
    pub stdin_line: Option<String>,
}

/// The workspace-based operations of the external tool.
#[derive(Clone, Copy, PartialEq, Eq, Structural, Debug)]
pub enum ToolOp {
    Compile,
    Publish,
    Prove,
}

/// What one finished (or failed) launch looks like to the caller: either
/// the child ran to termination, with its exit status and the drained text
/// of each stream, or it could not be spawned at all.
pub enum SpawnOutcome {
    Spawned { status_ok: bool, stdout_text: String, stderr_text: String },
    SpawnFailed,
}

/// What the invoker returns for a child that ran: the success flag from the
/// exit status and the captured text.
pub struct ProcessResult {
    pub succeeded: bool,
    pub combined_output: String,
}

/// The invoker's one error: the program could not be spawned (missing
/// executable, permission denied). A nonzero exit status is not an error
/// of this kind; it yields a `ProcessResult` with `succeeded` false.
#[derive(Clone, Copy, PartialEq, Eq, Structural, Debug)]
pub enum InvokeError {
    Spawn,
}

impl InvokeError {
    /// The message the service reports when the tool cannot be launched.
    pub fn message(&self) -> (r: &'static str)
        ensures
            r@ == "Command error"@,
    {
        "Command error"
    }
}

/// The subcommand the tool runs for an operation.
pub open spec fn subcommand_of(op: ToolOp) -> Seq<char> {
    match op {
        ToolOp::Compile => "compile"@,
        ToolOp::Publish => "publish"@,
        ToolOp::Prove => "prove"@,
    }
}

/// The invocation `aptos move <subcommand> --package-dir <dir>`, with
/// nothing written to standard input.
pub open spec fn is_tool_invocation(inv: Invocation, op: ToolOp, package_dir: Seq<char>) -> bool {
    &&& inv.program@ == "aptos"@
    &&& inv.args@.len() == 4
    &&& inv.args@[0]@ == "move"@
    &&& inv.args@[1]@ == subcommand_of(op)
    &&& inv.args@[2]@ == "--package-dir"@
    &&& inv.args@[3]@ == package_dir
    &&& inv.stdin_line is None
}

/// The invocation `aptos move --help`, with nothing written to standard
/// input.
pub open spec fn is_help_invocation(inv: Invocation) -> bool {
    &&& inv.program@ == "aptos"@
    &&& inv.args@.len() == 2
    &&& inv.args@[0]@ == "move"@
    &&& inv.args@[1]@ == "--help"@
    &&& inv.stdin_line is None
}

/// The invocation `aptos init` with one newline written to its standard
/// input, accepting the interactive prompt's defaults.
pub open spec fn is_init_invocation(inv: Invocation) -> bool {
    &&& inv.program@ == "aptos"@
    &&& inv.args@.len() == 1
    &&& inv.args@[0]@ == "init"@
    &&& inv.stdin_line matches Some(line) && line@ == "\n"@
}

/// The exec spelling of an operation's subcommand.
pub fn subcommand(op: ToolOp) -> (r: &'static str)
    ensures
        r@ == subcommand_of(op),
{
    match op {
        ToolOp::Compile => "compile",
        ToolOp::Publish => "publish",
        ToolOp::Prove => "prove",
    }
}

/// Builds the tool invocation for one workspace-based operation against a
/// package directory.
pub fn tool_invocation(op: ToolOp, package_dir: &str) -> (inv: Invocation)
    ensures
        is_tool_invocation(inv, op, package_dir@),
{
    let mut args: Vec<String> = Vec::new();
    args.push(String::from_str("move"));
    args.push(String::from_str(subcommand(op)));
    args.push(String::from_str("--package-dir"));
    args.push(String::from_str(package_dir));
    Invocation { program: String::from_str("aptos"), args, stdin_line: None }
}

/// Builds the help invocation of the tool.
pub fn help_invocation() -> (inv: Invocation)
    ensures
        is_help_invocation(inv),
{
    let mut args: Vec<String> = Vec::new();
    args.push(String::from_str("move"));
    args.push(String::from_str("--help"));
    Invocation { program: String::from_str("aptos"), args, stdin_line: None }
}

/// Builds the account-initialization invocation that precedes a publish,
/// with the single default-accepting newline for its standard input.
pub fn init_invocation() -> (inv: Invocation)
    ensures
        is_init_invocation(inv),
{
    let mut args: Vec<String> = Vec::new();
    args.push(String::from_str("init"));
    Invocation {
        program: String::from_str("aptos"),
        args,
        stdin_line: Some(String::from_str("\n")),
    }
}

/// The invocations to run and discard before an operation's own: a publish
/// is preceded by the interactive `init`; compile and prove by nothing.
pub fn pre_invocations(op: ToolOp) -> (r: Vec<Invocation>)
    ensures
        op == ToolOp::Publish ==> r@.len() == 1 && is_init_invocation(r@[0]),
        op != ToolOp::Publish ==> r@.len() == 0,
{
    let mut r: Vec<Invocation> = Vec::new();
    if op == ToolOp::Publish {
        r.push(init_invocation());
    }
    r
}

/// The text a drain task accumulates from a sequence of lines: each line
/// followed by one newline.
pub open spec fn joined_lines(lines: Seq<Seq<char>>) -> Seq<char>
    decreases lines.len(),
{
    if lines.len() == 0 {
        Seq::<char>::empty()
    } else {
        joined_lines(lines.drop_last()) + lines.last() + "\n"@
    }
}

/// Accumulates drained lines the way each drain task does: every line, in
/// order, with a newline appended after each.
pub fn accumulate_lines(lines: &Vec<String>) -> (r: String)
    ensures
        r@ == joined_lines(lines.deep_view()),
{
    let ghost all = lines.deep_view();
    let mut r = String::new();
    let n: usize = lines.len();
    let mut i: usize = 0;
    while i < n
        invariant
            0 <= i <= n,
            n == lines@.len(),
            all == lines.deep_view(),
            r@ == joined_lines(all.take(i as int)),
        decreases n - i,
    {
        r.append(lines[i].as_str());
        r.append("\n");
        proof {
            assert(all.take(i + 1).drop_last() =~= all.take(i as int));
            assert(all.take(i + 1).last() == lines@[i as int]@);
        }
        i = i + 1;
    }
    proof {
        assert(all.take(n as int) =~= all);
    }
    r
}

/// Classifies a terminated child: the success flag is the exit status, the
/// returned text is the drained standard-output text when the child
/// succeeded and the drained standard-error text when it did not.
pub fn classify_output(status_ok: bool, stdout_text: String, stderr_text: String) -> (r:
    ProcessResult)
    ensures
        r.succeeded == status_ok,
        status_ok ==> r.combined_output@ == stdout_text@,
        !status_ok ==> r.combined_output@ == stderr_text@,
{
    if status_ok {
        ProcessResult { succeeded: true, combined_output: stdout_text }
    } else {
        ProcessResult { succeeded: false, combined_output: stderr_text }
    }
}

/// Completes one launch: a child that ran yields a `ProcessResult`, always,
/// whatever its exit status; a child that could not be spawned yields the
/// spawn error, always, and never a `ProcessResult`.
pub fn complete_invocation(outcome: SpawnOutcome) -> (r: Result<ProcessResult, InvokeError>)
    ensures
        r is Ok <==> outcome is Spawned,
        r is Err <==> outcome is SpawnFailed,
        outcome matches SpawnOutcome::Spawned { status_ok, stdout_text, stderr_text } ==> (
        r matches Ok(pr) && pr.succeeded == status_ok && pr.combined_output@ == (
        if status_ok {
            stdout_text@
        } else {
            stderr_text@
        })),
        outcome is SpawnFailed ==> r == Err::<ProcessResult, InvokeError>(InvokeError::Spawn),
{
    match outcome {
        SpawnOutcome::Spawned { status_ok, stdout_text, stderr_text } => Ok(
            classify_output(status_ok, stdout_text, stderr_text),
        ),
        SpawnOutcome::SpawnFailed => Err(InvokeError::Spawn),
    }
}

} // verus!
