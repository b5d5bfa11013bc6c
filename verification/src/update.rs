//! Discovery of new internal commits, relocation of one commit into the
//! public repository's coordinates, and the classification of an apply.

use crate::text::{
    chars_contain, contains, decode_lossy, decoded, find_char, is_blank, lemma_decoded_empty,
    lemma_trimmed, lines, owned, push_text, rows, split_lines, split_once, to_chars, to_text,
    trim_bounds, trimmed,
};
use crate::utils::{
    failure_of, git, git_in, in_order, launch_failure, outcome_of, run_git_command, run_in_order,
    Invocation, InvocationView, Launch, LaunchView, Next, NextView,
};
use crate::{ErrorView, PorterError, ProjectConfig};
use std::collections::VecDeque;
use vstd::prelude::*;
use vstd::string::*;

verus! {

/// One internal commit that may have to be replayed.
#[derive(Debug, Clone)]
pub struct CommitInfo {
    pub hash: String,
    pub subject: String,
}

/// The mathematical content of a [`CommitInfo`].
pub struct CommitView {
    pub hash: Seq<char>,
    pub subject: Seq<char>,
}

impl DeepView for CommitInfo {
    type V = CommitView;

    open spec fn deep_view(&self) -> CommitView {
        CommitView { hash: self.hash@, subject: self.subject@ }
    }
}

/// How the attempt to apply one relocated patch ended.
#[derive(Debug, PartialEq, Eq)]
pub enum ApplyResult {
    /// The patch is part of the public history now, or there was nothing to apply.
    Success,
    /// The apply stopped half-way and waits for a person to resolve it.
    Conflict,
    /// The apply failed for another reason; the text is the tool's diagnostic.
    Failure(String),
}

/// The mathematical content of an [`ApplyResult`].
pub enum ApplyView {
    Success,
    Conflict,
    Failure(Seq<char>),
}

impl DeepView for ApplyResult {
    type V = ApplyView;

    open spec fn deep_view(&self) -> ApplyView {
        match self {
            ApplyResult::Success => ApplyView::Success,
            ApplyResult::Conflict => ApplyView::Conflict,
            ApplyResult::Failure(d) => ApplyView::Failure(d@),
        }
    }
}

/// The commit that a line of the log stands for: the text before the first
/// NUL is the identifier, the text after it the subject. A line without a
/// NUL stands for no commit.
pub open spec fn commit_of_line(line: Seq<char>) -> Option<CommitView> {
    match split_once(line, '\0') {
        Some((hash, subject)) => Some(CommitView { hash: hash, subject: subject }),
        None => None,
    }
}

/// The commits of the lines of a log, last line first. Lines that stand
/// for no commit are passed over.
pub open spec fn commits_oldest_first(log_lines: Seq<Seq<char>>) -> Seq<CommitView>
    decreases log_lines.len(),
{
    if log_lines.len() == 0 {
        Seq::empty()
    } else {
        commits_oldest_first(log_lines.drop_first()) + (match commit_of_line(log_lines[0]) {
            Some(c) => seq![c],
            None => Seq::empty(),
        })
    }
}

/// The review queue that a log listing stands for. The listing names the
/// newest commit first, one commit per line; the queue holds the oldest first.
pub open spec fn parsed_log(text: Seq<char>) -> Seq<CommitView> {
    commits_oldest_first(lines(trimmed(text)))
}

/// Parses one line of the log.
pub fn parse_log_line(line: &Vec<char>) -> (r: Option<CommitInfo>)
    ensures
        r.deep_view() == commit_of_line(line@),
{
    let n = line.len();
    let k = find_char(line, 0, n, '\0');
    assert(line@.subrange(0, n as int) =~= line@);
    if k < n {
        let hash = to_text(line, 0, k);
        let subject = to_text(line, k + 1, n);
        assert(line@.take(k as int) =~= line@.subrange(0, k as int));
        assert(line@.skip(k + 1) =~= line@.subrange(k + 1, n as int));
        Some(CommitInfo { hash, subject })
    } else {
        None
    }
}

/// Turns the listing of a log into the review queue, oldest commit first.
pub fn parse_commit_log(text: &str) -> (queue: VecDeque<CommitInfo>)
    ensures
        queue.deep_view() == parsed_log(text@),
{
    let chars = to_chars(text);
    let (a, b) = trim_bounds(&chars);
    let log_lines = split_lines(&chars, a, b);
    let ghost all = rows(log_lines@);
    let mut queue: VecDeque<CommitInfo> = VecDeque::new();
    let mut i: usize = log_lines.len();
    assert(all.skip(i as int) =~= Seq::<Seq<char>>::empty());
    assert(queue.deep_view() =~= Seq::<CommitView>::empty());
    while i > 0
        invariant
            i <= log_lines.len(),
            all == rows(log_lines@),
            queue.deep_view() == commits_oldest_first(all.skip(i as int)),
        decreases i,
    {
        i -= 1;
        let ghost before = queue.deep_view();
        assert(all.skip(i as int).drop_first() =~= all.skip(i + 1));
        assert(all.skip(i as int)[0] == log_lines@[i as int]@);
        match parse_log_line(&log_lines[i]) {
            Some(c) => {
                queue.push_back(c);
                assert(queue.deep_view() =~= before + seq![c.deep_view()]);
            },
            None => {
                assert(before + Seq::<CommitView>::empty() =~= before);
            },
        }
    }
    assert(all.skip(0) =~= all);
    queue
}

/// A listing that holds nothing but whitespace names no commit.
pub proof fn lemma_blank_log_is_empty_queue(text: Seq<char>)
    requires
        is_blank(text),
    ensures
        parsed_log(text) == Seq::<CommitView>::empty(),
{
    lemma_trimmed(text);
}

/// The range of commits after `since` up to the tip of the tracked branch
/// as the remote has it.
pub open spec fn commit_range(since: Seq<char>, branch: Seq<char>) -> Seq<char> {
    since + "..origin/"@ + branch
}

/// The arguments that list the commits of a range that touch `subdir`:
/// first-parent history only, merges left out, one line per commit that
/// holds the identifier, a NUL and the subject.
pub open spec fn log_args(
    since: Seq<char>,
    branch: Seq<char>,
    subdir: Seq<char>,
) -> Seq<Seq<char>> {
    seq![
        "log"@,
        commit_range(since, branch),
        "--no-merges"@,
        "--first-parent"@,
        "--pretty=format:%H%x00%s"@,
        "--"@,
        subdir,
    ]
}

/// The arguments that bring the remote's state up to date.
pub open spec fn fetch_args() -> Seq<Seq<char>> {
    seq!["fetch"@, "origin"@]
}

/// The next move of a discovery, given the launches of the commands it has
/// asked for so far.
///
/// Without a cursor there is no starting point: the discovery fails at
/// once and asks for no command. Otherwise it asks for a fetch, whose
/// ending does not matter, then for the log of the range, and yields the
/// queue that the log's output stands for, or the error of a failed log.
pub open spec fn discovery(
    config: &ProjectConfig,
    since: Option<Seq<char>>,
    replies: Seq<LaunchView>,
) -> NextView<Seq<CommitView>> {
    match since {
        None => NextView::Done(
            Err(
                ErrorView::GitOperation(
                    "Cannot determine update range: no previous sync commit reference provided."@,
                ),
            ),
        ),
        Some(cursor) => {
            let list = git(
                log_args(cursor, config.internal_branch@, config.project_subdir@),
                config.internal_repo_path@,
            );
            if replies.len() == 0 {
                NextView::Run(git(fetch_args(), config.internal_repo_path@))
            } else if replies.len() == 1 {
                NextView::Run(list)
            } else {
                match outcome_of(list, replies[1]) {
                    Ok(out) => NextView::Done(Ok(parsed_log(decoded(out.stdout)))),
                    Err(e) => NextView::Done(Err(e)),
                }
            }
        },
    }
}

/// Discovers the commits to review: see [`discovery`].
pub fn get_internal_commits_since(
    config: &ProjectConfig,
    since_ref: Option<&str>,
    replies: &Vec<Launch>,
) -> (r: Next<VecDeque<CommitInfo>>)
    ensures
        r.deep_view() == discovery(
            config,
            match since_ref {
                Some(s) => Some(s@),
                None => None,
            },
            replies.deep_view(),
        ),
{
    let since = match since_ref {
        Some(s) => s,
        None => {
            return Next::Done(
                Err(
                    PorterError::GitOperation(
                        owned(
                            "Cannot determine update range: no previous sync commit reference provided.",
                        ),
                    ),
                ),
            );
        },
    };
    if replies.len() == 0 {
        let mut args: Vec<String> = Vec::new();
        push_text(&mut args, "fetch");
        push_text(&mut args, "origin");
        assert(args.deep_view() =~= fetch_args());
        return Next::Run(git_in(args, config.internal_repo_path.as_str()));
    }
    let mut range = owned(since);
    range.append("..origin/");
    range.append(config.internal_branch.as_str());
    let mut args: Vec<String> = Vec::new();
    push_text(&mut args, "log");
    push_text(&mut args, range.as_str());
    push_text(&mut args, "--no-merges");
    push_text(&mut args, "--first-parent");
    push_text(&mut args, "--pretty=format:%H%x00%s");
    push_text(&mut args, "--");
    push_text(&mut args, config.project_subdir.as_str());
    assert(args.deep_view() =~= log_args(
        since@,
        config.internal_branch@,
        config.project_subdir@,
    ));
    if replies.len() == 1 {
        return Next::Run(git_in(args, config.internal_repo_path.as_str()));
    }
    assert(replies.deep_view()[1] == replies[1].deep_view());
    match run_git_command(&args, config.internal_repo_path.as_str(), &replies[1]) {
        Ok(out) => {
            let text = decode_lossy(&out.stdout);
            Next::Done(Ok(parse_commit_log(text.as_str())))
        },
        Err(e) => Next::Done(Err(e)),
    }
}

/// A path without the `./` that it may begin with, however often.
pub open spec fn without_dot_prefix(path: Seq<char>) -> Seq<char>
    decreases path.len(),
{
    if path.len() >= 2 && path[0] == '.' && path[1] == '/' {
        without_dot_prefix(path.skip(2))
    } else {
        path
    }
}

/// The option that makes the tool write paths relative to the tracked
/// subdirectory and leave out what lies outside it. The subdirectory is
/// named in the option, since the commands run in the root of the
/// repository; the tool takes the name as it is written, so a leading
/// `./` is left off. Where the whole repository is tracked, which the
/// empty path and `.` stand for, paths are relative to the root as they are.
pub open spec fn relative_option(subdir: Seq<char>) -> Seq<char> {
    let prefix = without_dot_prefix(subdir);
    if prefix.len() == 0 || (prefix.len() == 1 && prefix[0] == '.') {
        "--relative"@
    } else {
        "--relative="@ + prefix
    }
}

/// The option that makes the tool write paths relative to the tracked subdirectory.
pub fn relative_flag(subdir: &str) -> (r: String)
    ensures
        r@ == relative_option(subdir@),
{
    let chars = to_chars(subdir);
    let n = chars.len();
    let mut start: usize = 0;
    assert(chars@.skip(0) =~= chars@);
    while n - start >= 2 && chars[start] == '.' && chars[start + 1] == '/'
        invariant
            start <= n == chars.len(),
            without_dot_prefix(chars@) == without_dot_prefix(chars@.skip(start as int)),
        decreases n - start,
    {
        assert(chars@.skip(start as int).skip(2) =~= chars@.skip(start + 2));
        start += 2;
    }
    assert(chars@.skip(start as int) =~= chars@.subrange(start as int, n as int));
    if n - start == 0 || (n - start == 1 && chars[start] == '.') {
        owned("--relative")
    } else {
        let mut r = owned("--relative=");
        let prefix = to_text(&chars, start, n);
        r.append(prefix.as_str());
        r
    }
}

/// The arguments that show what a commit changed below `subdir`, with
/// paths written relative to it.
pub open spec fn diff_args(commit: Seq<char>, subdir: Seq<char>) -> Seq<Seq<char>> {
    seq!["diff"@, "--color=always"@, commit + "~.."@ + commit, relative_option(subdir), subdir]
}

/// The next move of showing a commit: ask for the diff, then yield its
/// text, or the error of a failed diff.
pub open spec fn relative_diff(
    config: &ProjectConfig,
    commit: Seq<char>,
    replies: Seq<LaunchView>,
) -> NextView<Seq<char>> {
    let show = git(diff_args(commit, config.project_subdir@), config.internal_repo_path@);
    if replies.len() == 0 {
        NextView::Run(show)
    } else {
        match outcome_of(show, replies[0]) {
            Ok(out) => NextView::Done(Ok(decoded(out.stdout))),
            Err(e) => NextView::Done(Err(e)),
        }
    }
}

/// The changes of one commit below the tracked subdirectory: see [`relative_diff`].
pub fn get_commit_diff_relative(
    config: &ProjectConfig,
    commit_hash: &str,
    replies: &Vec<Launch>,
) -> (r: Next<String>)
    ensures
        r.deep_view() == relative_diff(config, commit_hash@, replies.deep_view()),
{
    let mut span = owned(commit_hash);
    span.append("~..");
    span.append(commit_hash);
    let mut args: Vec<String> = Vec::new();
    push_text(&mut args, "diff");
    push_text(&mut args, "--color=always");
    push_text(&mut args, span.as_str());
    let relative = relative_flag(config.project_subdir.as_str());
    push_text(&mut args, relative.as_str());
    push_text(&mut args, config.project_subdir.as_str());
    assert(args.deep_view() =~= diff_args(commit_hash@, config.project_subdir@));
    if replies.len() == 0 {
        return Next::Run(git_in(args, config.internal_repo_path.as_str()));
    }
    assert(replies.deep_view()[0] == replies[0].deep_view());
    match run_git_command(&args, config.internal_repo_path.as_str(), &replies[0]) {
        Ok(out) => Next::Done(Ok(decode_lossy(&out.stdout))),
        Err(e) => Next::Done(Err(e)),
    }
}

/// The arguments that write one commit as a patch, restricted to `subdir`
/// and with paths written relative to it, as though `subdir` were the root.
pub open spec fn patch_args(commit: Seq<char>, subdir: Seq<char>) -> Seq<Seq<char>> {
    seq!["format-patch"@, "--stdout"@, "-1"@, commit, relative_option(subdir), "--"@, subdir]
}

/// The arguments that apply a patch from standard input as a commit, with
/// a three-way merge and the author's date as the commit date.
pub open spec fn am_args() -> Seq<Seq<char>> {
    seq!["am"@, "--keep-cr"@, "--committer-date-is-author-date"@, "--3way"@]
}

/// The arguments that end a paused apply.
pub open spec fn am_abort_args() -> Seq<Seq<char>> {
    seq!["am"@, "--abort"@]
}

/// The output of a failed apply speaks of a conflict.
pub open spec fn shows_conflict(stdout: Seq<char>, stderr: Seq<char>) -> bool {
    ||| contains(stdout, "Patch failed to apply"@)
    ||| contains(stderr, "Patch failed to apply"@)
    ||| contains(stdout, "conflict"@)
    ||| contains(stderr, "conflict"@)
    ||| contains(stdout, "git am --continue"@)
    ||| contains(stderr, "git am --continue"@)
}

/// Tells a conflict from another failure by the output of the failed apply.
pub fn output_shows_conflict(stdout: &str, stderr: &str) -> (r: bool)
    ensures
        r == shows_conflict(stdout@, stderr@),
{
    let out = to_chars(stdout);
    let err = to_chars(stderr);
    let failed = to_chars("Patch failed to apply");
    let conflict = to_chars("conflict");
    let resume = to_chars("git am --continue");
    chars_contain(&out, &failed) || chars_contain(&err, &failed) || chars_contain(&out, &conflict)
        || chars_contain(&err, &conflict) || chars_contain(&out, &resume) || chars_contain(
        &err,
        &resume,
    )
}

/// The next move of applying one commit to the public repository.
///
/// The commit is first written as a patch relative to the tracked
/// subdirectory. An empty patch means that there is nothing to apply,
/// which counts as success. Otherwise the patch is applied. An apply that
/// exits unsuccessfully is a conflict where its output says so, and is
/// left paused; any other failure is aborted, whatever the abort's ending,
/// and yields the diagnostic.
pub open spec fn apply(
    config: &ProjectConfig,
    commit: Seq<char>,
    replies: Seq<LaunchView>,
) -> NextView<ApplyView> {
    let relocate = git(patch_args(commit, config.project_subdir@), config.internal_repo_path@);
    if replies.len() == 0 {
        NextView::Run(relocate)
    } else {
        match outcome_of(relocate, replies[0]) {
            Err(e) => NextView::Done(Err(e)),
            Ok(patch) => if patch.stdout.len() == 0 {
                NextView::Done(Ok(ApplyView::Success))
            } else if replies.len() == 1 {
                NextView::Run(
                    InvocationView {
                        program: "git"@,
                        args: am_args(),
                        cwd: config.output_path@,
                        stdin: Some(patch.stdout),
                    },
                )
            } else {
                match replies[1] {
                    LaunchView::Exited(out) => if out.success {
                        NextView::Done(Ok(ApplyView::Success))
                    } else if shows_conflict(decoded(out.stdout), decoded(out.stderr)) {
                        NextView::Done(Ok(ApplyView::Conflict))
                    } else if replies.len() == 2 {
                        NextView::Run(git(am_abort_args(), config.output_path@))
                    } else {
                        NextView::Done(Ok(ApplyView::Failure(decoded(out.stderr))))
                    },
                    other => NextView::Done(Err(launch_failure(config.output_path@, other)->0)),
                }
            },
        }
    }
}

/// Applies one commit to the public repository: see [`apply`].
pub fn apply_commit_to_output(
    config: &ProjectConfig,
    commit_hash: &str,
    replies: &Vec<Launch>,
) -> (r: Next<ApplyResult>)
    ensures
        r.deep_view() == apply(config, commit_hash@, replies.deep_view()),
{
    let mut args: Vec<String> = Vec::new();
    push_text(&mut args, "format-patch");
    push_text(&mut args, "--stdout");
    push_text(&mut args, "-1");
    push_text(&mut args, commit_hash);
    let relative = relative_flag(config.project_subdir.as_str());
    push_text(&mut args, relative.as_str());
    push_text(&mut args, "--");
    push_text(&mut args, config.project_subdir.as_str());
    assert(args.deep_view() =~= patch_args(commit_hash@, config.project_subdir@));
    if replies.len() == 0 {
        return Next::Run(git_in(args, config.internal_repo_path.as_str()));
    }
    assert(replies.deep_view()[0] == replies[0].deep_view());
    let patch = match run_git_command(&args, config.internal_repo_path.as_str(), &replies[0]) {
        Ok(out) => out.stdout,
        Err(e) => {
            return Next::Done(Err(e));
        },
    };
    if patch.len() == 0 {
        return Next::Done(Ok(ApplyResult::Success));
    }
    if replies.len() == 1 {
        let mut am: Vec<String> = Vec::new();
        push_text(&mut am, "am");
        push_text(&mut am, "--keep-cr");
        push_text(&mut am, "--committer-date-is-author-date");
        push_text(&mut am, "--3way");
        assert(am.deep_view() =~= am_args());
        return Next::Run(
            Invocation {
                program: owned("git"),
                args: am,
                cwd: owned(config.output_path.as_str()),
                stdin: Some(patch),
            },
        );
    }
    assert(replies.deep_view()[1] == replies[1].deep_view());
    match &replies[1] {
        Launch::Exited(out) => {
            if out.success {
                return Next::Done(Ok(ApplyResult::Success));
            }
            let stdout = decode_lossy(&out.stdout);
            let stderr = decode_lossy(&out.stderr);
            if output_shows_conflict(stdout.as_str(), stderr.as_str()) {
                return Next::Done(Ok(ApplyResult::Conflict));
            }
            if replies.len() == 2 {
                let mut abort: Vec<String> = Vec::new();
                push_text(&mut abort, "am");
                push_text(&mut abort, "--abort");
                assert(abort.deep_view() =~= am_abort_args());
                return Next::Run(git_in(abort, config.output_path.as_str()));
            }
            Next::Done(Ok(ApplyResult::Failure(stderr)))
        },
        other => Next::Done(Err(failure_of(config.output_path.as_str(), other).unwrap())),
    }
}

/// The commands that end whatever operation is paused in a repository:
/// an apply, a cherry-pick, a rebase and a merge, each asked to be quiet
/// where nothing is in progress.
pub open spec fn abort_commands(cwd: Seq<char>) -> Seq<InvocationView> {
    seq![
        git(seq!["am"@, "--abort"@, "--quiet"@], cwd),
        git(seq!["cherry-pick"@, "--abort"@, "--quiet"@], cwd),
        git(seq!["rebase"@, "--abort"@, "--quiet"@], cwd),
        git(seq!["merge"@, "--abort"@, "--quiet"@], cwd),
    ]
}

fn abort_command(operation: &str, cwd: &str) -> (r: Invocation)
    ensures
        r.deep_view() == git(seq![operation@, "--abort"@, "--quiet"@], cwd@),
{
    let mut args: Vec<String> = Vec::new();
    push_text(&mut args, operation);
    push_text(&mut args, "--abort");
    push_text(&mut args, "--quiet");
    assert(args.deep_view() =~= seq![operation@, "--abort"@, "--quiet"@]);
    git_in(args, cwd)
}

/// Ends whatever operation is paused in the public repository. The
/// commands of [`abort_commands`] are run in order; the first that fails
/// ends the operation with its error.
pub fn abort_apply_session(config: &ProjectConfig, replies: &Vec<Launch>) -> (r: Next<()>)
    ensures
        r.deep_view() == in_order(abort_commands(config.output_path@), replies.deep_view()),
{
    let cwd = config.output_path.as_str();
    let mut commands: Vec<Invocation> = Vec::new();
    commands.push(abort_command("am", cwd));
    commands.push(abort_command("cherry-pick", cwd));
    commands.push(abort_command("rebase", cwd));
    commands.push(abort_command("merge", cwd));
    assert(commands.deep_view() =~= abort_commands(config.output_path@));
    assert(replies.deep_view().skip(0) =~= replies.deep_view());
    run_in_order(commands, replies, 0)
}

/// A discovery asks for two commands at most.
pub proof fn lemma_discovery_ends(
    config: &ProjectConfig,
    since: Option<Seq<char>>,
    replies: Seq<LaunchView>,
)
    requires
        replies.len() >= 2,
    ensures
        discovery(config, since, replies) is Done,
{
}

/// When the log of the range lists nothing, there is nothing to review:
/// the discovery yields the empty queue, however the fetch ended. This
/// holds each time it is asked, so a discovery that is repeated while
/// nothing new has arrived yields the empty queue again.
pub proof fn lemma_nothing_new_is_empty_queue(
    config: &ProjectConfig,
    cursor: Seq<char>,
    replies: Seq<LaunchView>,
)
    requires
        replies.len() >= 2,
        replies[1] matches LaunchView::Exited(out) && out.success && (out.stdout.len() == 0
            || is_blank(decoded(out.stdout))),
    ensures
        discovery(config, Some(cursor), replies) == NextView::Done(
            Ok(Seq::<CommitView>::empty()),
        ),
{
    let out = replies[1]->Exited_0;
    if out.stdout.len() == 0 {
        assert(out.stdout =~= Seq::<u8>::empty());
        lemma_decoded_empty();
    }
    lemma_blank_log_is_empty_queue(decoded(out.stdout));
}

/// Showing a commit asks for one command.
pub proof fn lemma_relative_diff_ends(
    config: &ProjectConfig,
    commit: Seq<char>,
    replies: Seq<LaunchView>,
)
    requires
        replies.len() >= 1,
    ensures
        relative_diff(config, commit, replies) is Done,
{
}

/// An apply asks for three commands at most.
pub proof fn lemma_apply_ends(config: &ProjectConfig, commit: Seq<char>, replies: Seq<LaunchView>)
    requires
        replies.len() >= 3,
    ensures
        apply(config, commit, replies) is Done,
{
}

/// A commit whose patch is empty, because it changed nothing below the
/// tracked subdirectory, counts as applied: no apply is attempted and the
/// outcome is success.
pub proof fn lemma_empty_patch_is_success(
    config: &ProjectConfig,
    commit: Seq<char>,
    replies: Seq<LaunchView>,
)
    requires
        replies.len() >= 1,
        replies[0] matches LaunchView::Exited(out) && out.success && out.stdout.len() == 0,
    ensures
        apply(config, commit, replies) == NextView::Done(Ok(ApplyView::Success)),
{
}

/// An apply yields a conflict or a failure only after the patch was
/// written and found not to be empty and the apply itself exited
/// unsuccessfully; it is a conflict exactly when that output says so.
pub proof fn lemma_apply_outcomes(
    config: &ProjectConfig,
    commit: Seq<char>,
    replies: Seq<LaunchView>,
    outcome: ApplyView,
)
    requires
        apply(config, commit, replies) == NextView::Done(Ok(outcome)),
        outcome != ApplyView::Success,
    ensures
        replies.len() >= 2,
        replies[0] matches LaunchView::Exited(patch) && patch.success && patch.stdout.len() > 0,
        replies[1] matches LaunchView::Exited(out) && !out.success && (outcome
            == ApplyView::Conflict <==> shows_conflict(decoded(out.stdout), decoded(out.stderr)))
            && (outcome != ApplyView::Conflict ==> replies.len() >= 3 && outcome
            == ApplyView::Failure(decoded(out.stderr))),
{
}


/// A conflict is left as it is: once the apply has exited unsuccessfully
/// with output that speaks of a conflict, the outcome is a conflict and no
/// further command is asked for.
pub proof fn lemma_conflict_is_left_paused(
    config: &ProjectConfig,
    commit: Seq<char>,
    replies: Seq<LaunchView>,
)
    requires
        replies.len() >= 2,
        replies[0] matches LaunchView::Exited(patch) && patch.success && patch.stdout.len() > 0,
        replies[1] matches LaunchView::Exited(out) && !out.success && shows_conflict(
            decoded(out.stdout),
            decoded(out.stderr),
        ),
    ensures
        apply(config, commit, replies) == NextView::Done(Ok(ApplyView::Conflict)),
{
}

/// Another failure is cleaned up: once the apply has exited unsuccessfully
/// with output that speaks of no conflict, the paused apply is aborted
/// before the failure is reported.
pub proof fn lemma_failure_is_aborted(
    config: &ProjectConfig,
    commit: Seq<char>,
    replies: Seq<LaunchView>,
)
    requires
        replies.len() == 2,
        replies[0] matches LaunchView::Exited(patch) && patch.success && patch.stdout.len() > 0,
        replies[1] matches LaunchView::Exited(out) && !out.success && !shows_conflict(
            decoded(out.stdout),
            decoded(out.stderr),
        ),
    ensures
        apply(config, commit, replies) == NextView::<ApplyView>::Run(
            git(am_abort_args(), config.output_path@),
        ),
{
}


/// Once a discovery, the showing of a commit or an apply has come to its
/// end, further launches change nothing.
pub proof fn lemma_finished_operations_are_settled(
    config: &ProjectConfig,
    since: Option<Seq<char>>,
    commit: Seq<char>,
    replies: Seq<LaunchView>,
    more: Seq<LaunchView>,
)
    ensures
        discovery(config, since, replies) is Done ==> discovery(config, since, replies + more)
            == discovery(config, since, replies),
        relative_diff(config, commit, replies) is Done ==> relative_diff(
            config,
            commit,
            replies + more,
        ) == relative_diff(config, commit, replies),
        apply(config, commit, replies) is Done ==> apply(config, commit, replies + more) == apply(
            config,
            commit,
            replies,
        ),
        in_order(abort_commands(config.output_path@), replies) is Done ==> in_order(
            abort_commands(config.output_path@),
            replies + more,
        ) == in_order(abort_commands(config.output_path@), replies),
{
    let longer = replies + more;
    if replies.len() > 0 {
        assert(longer[0] == replies[0]);
    }
    if replies.len() > 1 {
        assert(longer[1] == replies[1]);
    }
    if in_order(abort_commands(config.output_path@), replies) is Done {
        crate::utils::lemma_in_order_is_settled(
            abort_commands(config.output_path@),
            replies,
            more,
        );
    }
}

} // verus!
