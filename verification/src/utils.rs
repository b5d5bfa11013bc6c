//! The command runner seen from the engine: what to run, what came back,
//! and when a run counts as failed.
//!
//! An operation that needs commands run is a function of its inputs and of
//! the launches of the commands it has asked for so far. It answers with
//! the next command, or with its result. The caller runs the command,
//! appends the launch to the list, and asks again.

use crate::text::{decode_lossy, decoded, join, joined, owned};
use crate::{ErrorView, PorterError};
use vstd::prelude::*;
use vstd::string::*;

verus! {

/// One command for the caller to run: `program` with `args` in the directory
/// `cwd`, with `stdin` written to its standard input when present.
#[derive(Debug)]
pub struct Invocation {
    pub program: String,
    pub args: Vec<String>,
    pub cwd: String,
    pub stdin: Option<Vec<u8>>,
}

/// The mathematical content of an [`Invocation`].
pub struct InvocationView {
    pub program: Seq<char>,
    pub args: Seq<Seq<char>>,
    pub cwd: Seq<char>,
    pub stdin: Option<Seq<u8>>,
}

impl DeepView for Invocation {
    type V = InvocationView;

    open spec fn deep_view(&self) -> InvocationView {
        InvocationView {
            program: self.program@,
            args: self.args.deep_view(),
            cwd: self.cwd@,
            stdin: match self.stdin {
                Some(b) => Some(b@),
                None => None,
            },
        }
    }
}

/// What a finished process left behind.
#[derive(Debug, Clone)]
pub struct ProcessOutput {
    pub success: bool,
    pub status: String,
    pub stdout: Vec<u8>,
    pub stderr: Vec<u8>,
}

/// The mathematical content of a [`ProcessOutput`].
pub struct OutputView {
    pub success: bool,
    pub status: Seq<char>,
    pub stdout: Seq<u8>,
    pub stderr: Seq<u8>,
}

impl DeepView for ProcessOutput {
    type V = OutputView;

    open spec fn deep_view(&self) -> OutputView {
        OutputView {
            success: self.success,
            status: self.status@,
            stdout: self.stdout@,
            stderr: self.stderr@,
        }
    }
}

/// How an attempt to run a command ended.
#[derive(Debug, Clone)]
pub enum Launch {
    /// The process ran to its end.
    Exited(ProcessOutput),
    /// The process could not be started or waited for.
    SpawnFailed(String),
    /// The process ran, but its standard input could not be written in full.
    StdinFailed(String),
    /// The process ran, but the writer of its standard input died.
    StdinWriterPanicked,
    /// The process was started, but its standard input could not be had.
    StdinUnavailable,
}

/// The mathematical content of a [`Launch`].
pub enum LaunchView {
    Exited(OutputView),
    SpawnFailed(Seq<char>),
    StdinFailed(Seq<char>),
    StdinWriterPanicked,
    StdinUnavailable,
}

impl DeepView for Launch {
    type V = LaunchView;

    open spec fn deep_view(&self) -> LaunchView {
        match self {
            Launch::Exited(o) => LaunchView::Exited(o.deep_view()),
            Launch::SpawnFailed(d) => LaunchView::SpawnFailed(d@),
            Launch::StdinFailed(d) => LaunchView::StdinFailed(d@),
            Launch::StdinWriterPanicked => LaunchView::StdinWriterPanicked,
            Launch::StdinUnavailable => LaunchView::StdinUnavailable,
        }
    }
}

/// The next move of an operation that needs commands run on its behalf:
/// either a command to run, or the operation's result.
#[derive(Debug)]
pub enum Next<T> {
    Run(Invocation),
    Done(Result<T, PorterError>),
}

/// The mathematical content of a [`Next`].
pub enum NextView<V> {
    Run(InvocationView),
    Done(Result<V, ErrorView>),
}

impl<T: DeepView> DeepView for Next<T> {
    type V = NextView<T::V>;

    open spec fn deep_view(&self) -> NextView<T::V> {
        match self {
            Next::Run(i) => NextView::Run(i.deep_view()),
            Next::Done(Ok(t)) => NextView::Done(Ok(t.deep_view())),
            Next::Done(Err(e)) => NextView::Done(Err(e.deep_view())),
        }
    }
}

/// The content of a result whose error is a [`PorterError`].
pub open spec fn result_view<T: DeepView>(r: Result<T, PorterError>) -> Result<T::V, ErrorView> {
    match r {
        Ok(t) => Ok(t.deep_view()),
        Err(e) => Err(e.deep_view()),
    }
}

/// A copy of a byte string.
pub fn copy_bytes(b: &Vec<u8>) -> (r: Vec<u8>)
    ensures
        r@ == b@,
{
    b.clone()
}

/// The command line as it is shown in diagnostics: the program, a space,
/// and the arguments with a space between neighbours.
pub open spec fn command_line(cmd_name: Seq<char>, args: Seq<Seq<char>>) -> Seq<char> {
    cmd_name + " "@ + joined(args, " "@)
}

/// The error that a launch stands for when the process did not run to its
/// end; `None` for a process that exited.
pub open spec fn launch_failure(cwd: Seq<char>, launch: LaunchView) -> Option<ErrorView> {
    match launch {
        LaunchView::Exited(_) => None,
        LaunchView::SpawnFailed(detail) => Some(ErrorView::Io { detail: detail, path: cwd }),
        LaunchView::StdinFailed(detail) => Some(
            ErrorView::Io { detail: detail, path: "stdin"@ },
        ),
        LaunchView::StdinWriterPanicked => Some(
            ErrorView::GitOperation("Patch writing thread panicked"@),
        ),
        LaunchView::StdinUnavailable => Some(
            ErrorView::GitOperation("Failed to open stdin for git am"@),
        ),
    }
}

/// What a launch means to the caller of a command: the output of a process
/// that exited successfully, otherwise the error that describes the failure.
pub open spec fn captured(
    cmd_name: Seq<char>,
    args: Seq<Seq<char>>,
    cwd: Seq<char>,
    launch: LaunchView,
) -> Result<OutputView, ErrorView> {
    match launch {
        LaunchView::Exited(out) => if out.success {
            Ok(out)
        } else {
            Err(
                ErrorView::GitCommand {
                    cmd: command_line(cmd_name, args),
                    cwd: cwd,
                    status: out.status,
                    stdout: decoded(out.stdout),
                    stderr: decoded(out.stderr),
                },
            )
        },
        _ => Err(launch_failure(cwd, launch)->0),
    }
}

/// The invocation of the version-control tool with `args` in `cwd`.
pub open spec fn git(args: Seq<Seq<char>>, cwd: Seq<char>) -> InvocationView {
    InvocationView { program: "git"@, args: args, cwd: cwd, stdin: None }
}

/// What the launch of an invocation means to its caller.
pub open spec fn outcome_of(
    command: InvocationView,
    launch: LaunchView,
) -> Result<OutputView, ErrorView> {
    captured(command.program, command.args, command.cwd, launch)
}

/// Judges the launch of `cmd_name args` in `cwd`: a process that exited
/// successfully yields its output; every other ending yields the error that
/// carries the command, the directory, the exit status and the captured output.
pub fn run_command_capture(
    cmd_name: &str,
    args: &Vec<String>,
    cwd: &str,
    launch: &Launch,
) -> (r: Result<ProcessOutput, PorterError>)
    ensures
        result_view(r) == captured(cmd_name@, args.deep_view(), cwd@, launch.deep_view()),
{
    match launch {
        Launch::Exited(out) => {
            if out.success {
                Ok(
                    ProcessOutput {
                        success: true,
                        status: out.status.clone(),
                        stdout: copy_bytes(&out.stdout),
                        stderr: copy_bytes(&out.stderr),
                    },
                )
            } else {
                let mut cmd = owned(cmd_name);
                cmd.append(" ");
                let rest = join(args, " ");
                cmd.append(rest.as_str());
                Err(
                    PorterError::GitCommand {
                        cmd: cmd,
                        cwd: owned(cwd),
                        status: out.status.clone(),
                        stdout: decode_lossy(&out.stdout),
                        stderr: decode_lossy(&out.stderr),
                    },
                )
            }
        },
        _ => Err(failure_of(cwd, launch).unwrap()),
    }
}

/// The error that a launch stands for when the process did not run to its end.
pub fn failure_of(cwd: &str, launch: &Launch) -> (r: Option<PorterError>)
    ensures
        r.deep_view() == launch_failure(cwd@, launch.deep_view()),
{
    match launch {
        Launch::Exited(_) => None,
        Launch::SpawnFailed(detail) => Some(
            PorterError::Io { detail: detail.clone(), path: owned(cwd) },
        ),
        Launch::StdinFailed(detail) => Some(
            PorterError::Io { detail: detail.clone(), path: owned("stdin") },
        ),
        Launch::StdinWriterPanicked => Some(
            PorterError::GitOperation(owned("Patch writing thread panicked")),
        ),
        Launch::StdinUnavailable => Some(
            PorterError::GitOperation(owned("Failed to open stdin for git am")),
        ),
    }
}

/// The invocation of the version-control tool with `args` in `cwd`.
pub fn git_in(args: Vec<String>, cwd: &str) -> (r: Invocation)
    ensures
        r.deep_view() == git(args.deep_view(), cwd@),
{
    Invocation { program: owned("git"), args: args, cwd: owned(cwd), stdin: None }
}

/// [`run_command_capture`] for the version-control tool.
pub fn run_git_command(
    args: &Vec<String>,
    cwd: &str,
    launch: &Launch,
) -> (r: Result<ProcessOutput, PorterError>)
    ensures
        result_view(r) == captured("git"@, args.deep_view(), cwd@, launch.deep_view()),
{
    run_command_capture("git", args, cwd, launch)
}

/// The next move when commands are to be run one after the other until
/// one fails: the error of the first launch that was no successful exit,
/// else the first command that has no reply yet, else success.
pub open spec fn in_order(commands: Seq<InvocationView>, replies: Seq<LaunchView>) -> NextView<()>
    decreases commands.len(),
{
    if commands.len() == 0 {
        NextView::Done(Ok(()))
    } else if replies.len() == 0 {
        NextView::Run(commands[0])
    } else {
        match outcome_of(commands[0], replies[0]) {
            Ok(_) => in_order(commands.drop_first(), replies.drop_first()),
            Err(e) => NextView::Done(Err(e)),
        }
    }
}

/// Runs the commands one after the other until one fails; `replies[from..]`
/// are the launches of the commands asked for so far.
pub fn run_in_order(commands: Vec<Invocation>, replies: &Vec<Launch>, from: usize) -> (r: Next<()>)
    requires
        from <= replies.len(),
    ensures
        r.deep_view() == in_order(commands.deep_view(), replies.deep_view().skip(from as int)),
{
    let mut pending = commands;
    let mut i: usize = 0;
    let ghost all = commands.deep_view();
    let ghost given = replies.deep_view().skip(from as int);
    assert(all.skip(0) =~= all);
    assert(given.skip(0) =~= given);
    while i < pending.len()
        invariant
            i <= pending.len(),
            from <= replies.len(),
            i <= replies.len() - from,
            pending.deep_view() == all,
            all == commands.deep_view(),
            given == replies.deep_view().skip(from as int),
            in_order(all, given) == in_order(all.skip(i as int), given.skip(i as int)),
        decreases pending.len() - i,
    {
        let ghost cmds = all.skip(i as int);
        let ghost rest = given.skip(i as int);
        assert(cmds[0] == pending[i as int].deep_view());
        if i == replies.len() - from {
            let command = pending.swap_remove(i);
            assert(rest.len() == 0);
            assert(in_order(cmds, rest) == NextView::<()>::Run(cmds[0]));
            return Next::Run(command);
        }
        assert(rest[0] == replies[from + i].deep_view());
        let command = &pending[i];
        match run_command_capture(
            command.program.as_str(),
            &command.args,
            command.cwd.as_str(),
            &replies[from + i],
        ) {
            Ok(_) => {
                assert(cmds.drop_first() =~= all.skip(i + 1));
                assert(rest.drop_first() =~= given.skip(i + 1));
            },
            Err(e) => {
                assert(outcome_of(cmds[0], rest[0]) == Err::<OutputView, ErrorView>(e.deep_view()));
                return Next::Done(Err(e));
            },
        }
        i += 1;
    }
    assert(all.skip(i as int).len() == 0);
    Next::Done(Ok(()))
}

/// Commands run in order need no more launches than there are commands:
/// with a reply for each, the operation is over.
pub proof fn lemma_in_order_ends(commands: Seq<InvocationView>, replies: Seq<LaunchView>)
    requires
        replies.len() >= commands.len(),
    ensures
        in_order(commands, replies) is Done,
    decreases commands.len(),
{
    if commands.len() > 0 {
        lemma_in_order_ends(commands.drop_first(), replies.drop_first());
    }
}

/// Commands run in order succeed exactly when each of them was launched
/// and exited successfully.
pub proof fn lemma_in_order_succeeds(commands: Seq<InvocationView>, replies: Seq<LaunchView>)
    ensures
        in_order(commands, replies) == NextView::Done(Ok(())) <==> {
            &&& replies.len() >= commands.len()
            &&& forall|i: int|
                0 <= i < commands.len() ==> (#[trigger] replies[i] matches LaunchView::Exited(out)
                    && out.success)
        },
    decreases commands.len(),
{
    if commands.len() > 0 && replies.len() > 0 {
        let cs = commands.drop_first();
        let rs = replies.drop_first();
        lemma_in_order_succeeds(cs, rs);
        if in_order(commands, replies) == NextView::Done(Ok(())) {
            assert forall|i: int| 0 <= i < commands.len() implies (#[trigger] replies[i] matches
            LaunchView::Exited(out) && out.success) by {
                if i > 0 {
                    assert(replies[i] == rs[i - 1]);
                }
            }
        } else if replies.len() >= commands.len() && (forall|i: int|
            0 <= i < commands.len() ==> (#[trigger] replies[i] matches LaunchView::Exited(out)
                && out.success)) {
            assert(replies[0] matches LaunchView::Exited(out) && out.success);
            assert forall|i: int| 0 <= i < cs.len() implies (#[trigger] rs[i] matches
            LaunchView::Exited(out) && out.success) by {
                assert(rs[i] == replies[i + 1]);
            }
        }
    }
}

/// How the attempt to start a tool with `--version` ended.
#[derive(Debug, Clone)]
pub enum ToolProbe {
    /// The tool ran; `success` says whether it exited successfully.
    Ran { success: bool },
    /// No such program was found.
    NotFound,
    /// The tool could not be started for another reason.
    Failed(String),
}

/// The mathematical content of a [`ToolProbe`].
pub enum ProbeView {
    Ran { success: bool },
    NotFound,
    Failed(Seq<char>),
}

impl DeepView for ToolProbe {
    type V = ProbeView;

    open spec fn deep_view(&self) -> ProbeView {
        match self {
            ToolProbe::Ran { success } => ProbeView::Ran { success: *success },
            ToolProbe::NotFound => ProbeView::NotFound,
            ToolProbe::Failed(d) => ProbeView::Failed(d@),
        }
    }
}

/// What a probe says about a tool: it is there when it ran successfully.
pub open spec fn tool_check(tool_name: Seq<char>, probe: ProbeView) -> Result<(), ErrorView> {
    match probe {
        ProbeView::Ran { success } => if success {
            Ok(())
        } else {
            Err(ErrorView::ToolNotFound("Tool '"@ + tool_name + "' command check failed."@))
        },
        ProbeView::NotFound => Err(ErrorView::ToolNotFound(tool_name)),
        ProbeView::Failed(detail) => Err(ErrorView::Io { detail: detail, path: tool_name }),
    }
}

/// Judges whether a tool is available, given how the probe of it ended.
pub fn check_tool_exists(tool_name: &str, probe: &ToolProbe) -> (r: Result<(), PorterError>)
    ensures
        result_view(r) == tool_check(tool_name@, probe.deep_view()),
{
    match probe {
        ToolProbe::Ran { success } => {
            if *success {
                Ok(())
            } else {
                let mut message = owned("Tool '");
                message.append(tool_name);
                message.append("' command check failed.");
                Err(PorterError::ToolNotFound(message))
            }
        },
        ToolProbe::NotFound => Err(PorterError::ToolNotFound(owned(tool_name))),
        ToolProbe::Failed(detail) => Err(
            PorterError::Io { detail: detail.clone(), path: owned(tool_name) },
        ),
    }
}


/// Once commands run in order have come to their end, further launches
/// change nothing.
pub proof fn lemma_in_order_is_settled(
    commands: Seq<InvocationView>,
    replies: Seq<LaunchView>,
    more: Seq<LaunchView>,
)
    requires
        in_order(commands, replies) is Done,
    ensures
        in_order(commands, replies + more) == in_order(commands, replies),
    decreases commands.len(),
{
    if commands.len() > 0 {
        assert(replies.len() > 0);
        assert((replies + more)[0] == replies[0]);
        assert((replies + more).drop_first() =~= replies.drop_first() + more);
        if outcome_of(commands[0], replies[0]) is Ok {
            lemma_in_order_is_settled(commands.drop_first(), replies.drop_first(), more);
        }
    }
}

} // verus!
