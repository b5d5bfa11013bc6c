//! The first extraction of a project: what may be extracted where, the
//! files that are added to the extract, the scan for secrets, and the
//! commands that set up the new repository.

use crate::state::text_is_blank;
use crate::text::{
    any_piece_is, decimal, decode_lossy, decoded, is_blank, join_path, joined_path, lines, owned,
    pieces, push_text, rows,
    split_lines, to_chars, to_decimal, to_text, to_upper, uppercased,
};
use crate::utils::{
    check_tool_exists, git, git_in, in_order, outcome_of, run_git_command, run_in_order,
    tool_check, Invocation, InvocationView, Launch, LaunchView, Next, NextView, ToolProbe,
};
use crate::{ErrorView, ExtractionResult, PorterError, ProjectConfig};
use regex::Regex;
use vstd::prelude::*;
use vstd::string::*;

verus! {

/// Whether a text is a pattern that the regular-expression engine accepts.
pub uninterp spec fn regex_valid(pattern: Seq<char>) -> bool;

/// Whether the regular expression `pattern` matches somewhere in `text`.
pub uninterp spec fn regex_is_match(pattern: Seq<char>, text: Seq<char>) -> bool;

/// `Regex::new` followed by `Regex::is_match`: whether the pattern matches
/// somewhere in the text, or nothing where the engine rejects the pattern.
/// Both depend on the two texts alone.
#[verifier::external_body]
pub(crate) fn pattern_matches(pattern: &str, text: &str) -> (r: Option<bool>)
    ensures
        r == if regex_valid(pattern@) {
            Some(regex_is_match(pattern@, text@))
        } else {
            None
        },
{
    match Regex::new(pattern) {
        Ok(re) => Some(re.is_match(text)),
        Err(_) => None,
    }
}

/// The pattern for a key, secret or password that is assigned a quoted value.
pub const ASSIGNED_SECRET: &'static str =
    "(?i)(api_?key|secret|password)\\s*[:=]\\s*['\"]\\S+['\"]";

/// The pattern for a long run of the characters of base64.
pub const LONG_TOKEN: &'static str = "([A-Za-z0-9+/]{40,})";

/// A line looks as if it held a secret: one of the two patterns matches.
pub open spec fn is_suspect(line: Seq<char>) -> bool {
    ||| regex_valid(ASSIGNED_SECRET@) && regex_is_match(ASSIGNED_SECRET@, line)
    ||| regex_valid(LONG_TOKEN@) && regex_is_match(LONG_TOKEN@, line)
}

/// The finding for line number `number` of the file at `path`.
pub open spec fn finding(path: Seq<char>, number: nat) -> Seq<char> {
    "Potential secret found in "@ + path + ":"@ + decimal(number)
}

/// The findings for the first `n` lines of a file, given for each line
/// whether it is suspect, in the order of the lines; lines are numbered from 1.
pub open spec fn findings_among(path: Seq<char>, suspect: Seq<bool>, n: nat) -> Seq<Seq<char>>
    decreases n,
{
    if n == 0 || n > suspect.len() {
        Seq::empty()
    } else {
        let before = findings_among(path, suspect, (n - 1) as nat);
        if suspect[n - 1] {
            before.push(finding(path, n))
        } else {
            before
        }
    }
}

/// The findings for a file, given for each of its lines whether it is suspect.
pub open spec fn findings(path: Seq<char>, suspect: Seq<bool>) -> Seq<Seq<char>> {
    findings_among(path, suspect, suspect.len())
}

/// Whether a line looks as if it held a secret.
pub fn line_is_suspect(line: &str) -> (r: bool)
    ensures
        r == is_suspect(line@),
{
    match pattern_matches(ASSIGNED_SECRET, line) {
        Some(true) => true,
        _ => match pattern_matches(LONG_TOKEN, line) {
            Some(true) => true,
            _ => false,
        },
    }
}

/// Reports each suspect line of a file, once, by the file's path and the
/// line's number.
pub fn report_findings(path: &str, suspect: &Vec<bool>) -> (found: Vec<String>)
    ensures
        found.deep_view() == findings(path@, suspect@),
{
    let mut found: Vec<String> = Vec::new();
    let mut i: usize = 0;
    assert(found.deep_view() =~= Seq::<Seq<char>>::empty());
    while i < suspect.len()
        invariant
            i <= suspect.len(),
            found.deep_view() == findings_among(path@, suspect@, i as nat),
        decreases suspect.len() - i,
    {
        if suspect[i] {
            let mut message = owned("Potential secret found in ");
            message.append(path);
            message.append(":");
            let number = to_decimal(i + 1);
            message.append(number.as_str());
            let ghost before = found.deep_view();
            found.push(message);
            assert(found.deep_view() =~= before.push(finding(path@, (i + 1) as nat)));
        }
        i += 1;
    }
    found
}

/// For each line of a text, whether it is suspect.
pub open spec fn suspect_lines(content: Seq<char>) -> Seq<bool> {
    Seq::new(lines(content).len(), |i: int| is_suspect(lines(content)[i]))
}

/// Scans the text of one file and reports each line that looks as if it
/// held a secret.
pub fn scan_text(path: &str, content: &str) -> (found: Vec<String>)
    ensures
        found.deep_view() == findings(path@, suspect_lines(content@)),
{
    let chars = to_chars(content);
    let file_lines = split_lines(&chars, 0, chars.len());
    assert(chars@.subrange(0, chars.len() as int) =~= chars@);
    let mut suspect: Vec<bool> = Vec::new();
    let mut i: usize = 0;
    while i < file_lines.len()
        invariant
            i <= file_lines.len(),
            rows(file_lines@) == lines(content@),
            suspect.len() == i,
            forall|j: int| 0 <= j < i ==> suspect@[j] == is_suspect(#[trigger] lines(content@)[j]),
        decreases file_lines.len() - i,
    {
        let line = to_text(&file_lines[i], 0, file_lines[i].len());
        assert(line@ =~= file_lines@[i as int]@);
        assert(rows(file_lines@)[i as int] == file_lines@[i as int]@);
        suspect.push(line_is_suspect(line.as_str()));
        i += 1;
    }
    assert(suspect@ =~= suspect_lines(content@));
    report_findings(path, &suspect)
}

/// A path that is left out of the scan: one of its components is the
/// build directory or the repository's own directory.
pub open spec fn is_excluded(path: Seq<char>) -> bool {
    exists|i: int|
        0 <= i < pieces(path, '/').len() && (#[trigger] pieces(path, '/')[i] == "target"@
            || pieces(path, '/')[i] == ".git"@)
}

/// Whether a path is left out of the scan.
pub fn path_is_excluded(path: &str) -> (r: bool)
    ensures
        r == is_excluded(path@),
{
    let v = to_chars(path);
    let target = to_chars("target");
    let repository = to_chars(".git");
    any_piece_is(&v, '/', &target, &repository)
}

/// What has to be done to the output path before files are put there.
#[derive(Debug, Clone, Copy, PartialEq, Eq, Structural)]
pub enum TargetAction {
    /// The directory is there and empty.
    UseAsIs,
    /// The directory has to be made.
    Create,
}

/// Whether a project can be extracted, given what was found on disk: the
/// source has to exist, and the output path must not hold anything yet.
pub open spec fn target_check(
    source: Seq<char>,
    source_exists: bool,
    output: Seq<char>,
    output_exists: bool,
    output_has_entries: bool,
) -> Result<TargetAction, ErrorView> {
    if !source_exists {
        Err(ErrorView::PathNotFound(source))
    } else if output_exists && output_has_entries {
        Err(ErrorView::OutputPathExists(output))
    } else if !output_exists {
        Ok(TargetAction::Create)
    } else {
        Ok(TargetAction::UseAsIs)
    }
}

/// Judges whether a project can be extracted: see [`target_check`].
pub fn validate_target(
    source: &str,
    source_exists: bool,
    output: &str,
    output_exists: bool,
    output_has_entries: bool,
) -> (r: Result<TargetAction, PorterError>)
    ensures
        match r {
            Ok(action) => target_check(
                source@,
                source_exists,
                output@,
                output_exists,
                output_has_entries,
            ) == Ok::<TargetAction, ErrorView>(action),
            Err(e) => target_check(
                source@,
                source_exists,
                output@,
                output_exists,
                output_has_entries,
            ) == Err::<TargetAction, ErrorView>(e.deep_view()),
        },
{
    if !source_exists {
        Err(PorterError::PathNotFound(owned(source)))
    } else if output_exists && output_has_entries {
        Err(PorterError::OutputPathExists(owned(output)))
    } else if !output_exists {
        Ok(TargetAction::Create)
    } else {
        Ok(TargetAction::UseAsIs)
    }
}

/// The content of the ignore file that an extract gets when it has none.
pub const GITIGNORE_CONTENT: &'static str = "/target\nCargo.lock\n";

/// The name of the license file of a license, given the license's
/// identifier in uppercase.
pub fn license_file_named(upper_id: &str) -> (name: String)
    ensures
        name@ == "LICENSE-"@ + upper_id@,
{
    let mut name = owned("LICENSE-");
    name.append(upper_id);
    name
}

/// The name of the license file of a license.
pub fn license_file_name(license_id: &str) -> (name: String)
    ensures
        name@ == "LICENSE-"@ + uppercased(license_id@),
{
    let upper = to_upper(license_id);
    license_file_named(upper.as_str())
}

/// The text that stands in for the text of a license.
pub fn license_placeholder(license_id: &str) -> (content: String)
    ensures
        content@ == "Placeholder for "@ + license_id@ + " License Text."@,
{
    let mut content = owned("Placeholder for ");
    content.append(license_id);
    content.append(" License Text.");
    content
}

/// Whether a license file has to be written: a license is named, and
/// neither its own file nor a general license file exists.
pub fn needs_license_file(
    license_id: Option<&str>,
    own_exists: bool,
    general_exists: bool,
) -> (r: bool)
    ensures
        r == (license_id is Some && !own_exists && !general_exists),
{
    license_id.is_some() && !own_exists && !general_exists
}

/// The note about what the scan found, where it found something.
pub fn secrets_warning(count: usize, of_final_state: bool) -> (note: Option<String>)
    ensures
        note.deep_view() == if count == 0 {
            None
        } else if of_final_state {
            Some(
                "Warning: "@ + decimal(count as nat)
                    + " potential secrets found during basic scan of final code state."@,
            )
        } else {
            Some(
                "Warning: "@ + decimal(count as nat)
                    + " potential secrets found during basic scan."@,
            )
        },
{
    if count == 0 {
        return None;
    }
    let mut note = owned("Warning: ");
    let number = to_decimal(count);
    note.append(number.as_str());
    if of_final_state {
        note.append(" potential secrets found during basic scan of final code state.");
    } else {
        note.append(" potential secrets found during basic scan.");
    }
    Some(note)
}

/// The command that makes the output path a repository.
pub open spec fn init_commands(config: &ProjectConfig) -> Seq<InvocationView> {
    seq![git(seq!["init"@], config.output_path@)]
}

/// Makes the output path a repository.
pub fn initialize_repository(config: &ProjectConfig, replies: &Vec<Launch>) -> (r: Next<()>)
    ensures
        r.deep_view() == in_order(init_commands(config), replies.deep_view()),
{
    let mut init: Vec<String> = Vec::new();
    push_text(&mut init, "init");
    assert(init.deep_view() =~= seq!["init"@]);
    let mut commands: Vec<Invocation> = Vec::new();
    commands.push(git_in(init, config.output_path.as_str()));
    assert(commands.deep_view() =~= init_commands(config));
    assert(replies.deep_view().skip(0) =~= replies.deep_view());
    run_in_order(commands, replies, 0)
}

/// The commands that stage everything and make the first commit.
pub open spec fn initial_commit_commands(
    project_id: Seq<char>,
    config: &ProjectConfig,
) -> Seq<InvocationView> {
    seq![
        git(seq!["add"@, "."@], config.output_path@),
        git(
            seq![
                "commit"@,
                "-m"@,
                "Initial commit of open source project '"@ + project_id + "'"@,
            ],
            config.output_path@,
        ),
    ]
}

/// Stages everything in the output path and makes the first commit.
pub fn commit_initial(
    project_id: &str,
    config: &ProjectConfig,
    replies: &Vec<Launch>,
) -> (r: Next<()>)
    ensures
        r.deep_view() == in_order(
            initial_commit_commands(project_id@, config),
            replies.deep_view(),
        ),
{
    let cwd = config.output_path.as_str();
    let mut add: Vec<String> = Vec::new();
    push_text(&mut add, "add");
    push_text(&mut add, ".");
    assert(add.deep_view() =~= seq!["add"@, "."@]);
    let mut message = owned("Initial commit of open source project '");
    message.append(project_id);
    message.append("'");
    let mut commit: Vec<String> = Vec::new();
    push_text(&mut commit, "commit");
    push_text(&mut commit, "-m");
    push_text(&mut commit, message.as_str());
    assert(commit.deep_view() =~= seq!["commit"@, "-m"@, message@]);
    let mut commands: Vec<Invocation> = Vec::new();
    commands.push(git_in(add, cwd));
    commands.push(git_in(commit, cwd));
    assert(commands.deep_view() =~= initial_commit_commands(project_id@, config));
    assert(replies.deep_view().skip(0) =~= replies.deep_view());
    run_in_order(commands, replies, 0)
}

/// The commands that clone the internal repository into `work_dir` and
/// reduce the clone's history to the tracked subdirectory.
pub open spec fn filter_commands(
    config: &ProjectConfig,
    work_dir: Seq<char>,
) -> Seq<InvocationView> {
    seq![
        git(
            seq!["clone"@, "--no-local"@, "--bare"@, config.internal_repo_path@, "."@],
            work_dir,
        ),
        git(seq!["clone"@, "--no-local"@, config.internal_repo_path@, "."@], work_dir),
        InvocationView {
            program: "git-filter-repo"@,
            args: seq!["--path"@, config.project_subdir@, "--force"@],
            cwd: work_dir,
            stdin: None,
        },
    ]
}

/// Clones the internal repository into `work_dir` and reduces the clone's
/// history to the tracked subdirectory.
pub fn clone_and_filter(
    config: &ProjectConfig,
    work_dir: &str,
    replies: &Vec<Launch>,
) -> (r: Next<()>)
    ensures
        r.deep_view() == in_order(filter_commands(config, work_dir@), replies.deep_view()),
{
    let source = config.internal_repo_path.as_str();
    let mut bare: Vec<String> = Vec::new();
    push_text(&mut bare, "clone");
    push_text(&mut bare, "--no-local");
    push_text(&mut bare, "--bare");
    push_text(&mut bare, source);
    push_text(&mut bare, ".");
    assert(bare.deep_view() =~= seq!["clone"@, "--no-local"@, "--bare"@, source@, "."@]);
    let mut full: Vec<String> = Vec::new();
    push_text(&mut full, "clone");
    push_text(&mut full, "--no-local");
    push_text(&mut full, source);
    push_text(&mut full, ".");
    assert(full.deep_view() =~= seq!["clone"@, "--no-local"@, source@, "."@]);
    let mut filter: Vec<String> = Vec::new();
    push_text(&mut filter, "--path");
    push_text(&mut filter, config.project_subdir.as_str());
    push_text(&mut filter, "--force");
    assert(filter.deep_view() =~= seq!["--path"@, config.project_subdir@, "--force"@]);
    let mut commands: Vec<Invocation> = Vec::new();
    commands.push(git_in(bare, work_dir));
    commands.push(git_in(full, work_dir));
    commands.push(
        Invocation {
            program: owned("git-filter-repo"),
            args: filter,
            cwd: owned(work_dir),
            stdin: None,
        },
    );
    assert(commands.deep_view() =~= filter_commands(config, work_dir@));
    assert(replies.deep_view().skip(0) =~= replies.deep_view());
    run_in_order(commands, replies, 0)
}

/// The command that forgets the remote that a clone came from.
pub open spec fn detach_command(config: &ProjectConfig) -> InvocationView {
    git(seq!["remote"@, "rm"@, "origin"@], config.output_path@)
}

/// The next move of forgetting the remote that the clone came from. That
/// the remote cannot be removed is no failure: the result says whether it
/// was removed.
pub open spec fn detachment(config: &ProjectConfig, replies: Seq<LaunchView>) -> NextView<bool> {
    if replies.len() == 0 {
        NextView::Run(detach_command(config))
    } else {
        NextView::Done(Ok(outcome_of(detach_command(config), replies[0]) is Ok))
    }
}

/// Forgets the remote that the clone came from: see [`detachment`].
pub fn detach_origin(config: &ProjectConfig, replies: &Vec<Launch>) -> (r: Next<bool>)
    ensures
        r.deep_view() == detachment(config, replies.deep_view()),
{
    let mut args: Vec<String> = Vec::new();
    push_text(&mut args, "remote");
    push_text(&mut args, "rm");
    push_text(&mut args, "origin");
    assert(args.deep_view() =~= seq!["remote"@, "rm"@, "origin"@]);
    if replies.len() == 0 {
        return Next::Run(git_in(args, config.output_path.as_str()));
    }
    assert(replies.deep_view()[0] == replies[0].deep_view());
    match run_git_command(&args, config.output_path.as_str(), &replies[0]) {
        Ok(_) => Next::Done(Ok(true)),
        Err(_) => Next::Done(Ok(false)),
    }
}

/// The command that asks what has changed in the output path.
pub open spec fn cleanup_status(config: &ProjectConfig) -> InvocationView {
    git(seq!["status"@, "--porcelain"@], config.output_path@)
}

/// The commands that commit the license and ignore files.
pub open spec fn cleanup_commands(config: &ProjectConfig) -> Seq<InvocationView> {
    seq![
        git(seq!["add"@, "LICENSE*"@, ".gitignore"@], config.output_path@),
        git(
            seq![
                "commit"@,
                "-m"@,
                "chore: Add license and/or gitignore after history filtering"@,
            ],
            config.output_path@,
        ),
    ]
}

/// The next move of committing the files that were added after the
/// history was filtered. Where the status reports no change there is
/// nothing to commit. The result says whether a commit was made.
pub open spec fn cleanup(config: &ProjectConfig, replies: Seq<LaunchView>) -> NextView<bool> {
    if replies.len() == 0 {
        NextView::Run(cleanup_status(config))
    } else {
        match outcome_of(cleanup_status(config), replies[0]) {
            Err(e) => NextView::Done(Err(e)),
            Ok(out) => if is_blank(decoded(out.stdout)) {
                NextView::Done(Ok(false))
            } else {
                match in_order(cleanup_commands(config), replies.skip(1)) {
                    NextView::Run(command) => NextView::Run(command),
                    NextView::Done(Ok(_)) => NextView::Done(Ok(true)),
                    NextView::Done(Err(e)) => NextView::Done(Err(e)),
                }
            },
        }
    }
}

/// Commits the files that were added after the history was filtered: see [`cleanup`].
pub fn commit_cleanup(config: &ProjectConfig, replies: &Vec<Launch>) -> (r: Next<bool>)
    ensures
        r.deep_view() == cleanup(config, replies.deep_view()),
{
    let cwd = config.output_path.as_str();
    let mut status: Vec<String> = Vec::new();
    push_text(&mut status, "status");
    push_text(&mut status, "--porcelain");
    assert(status.deep_view() =~= seq!["status"@, "--porcelain"@]);
    if replies.len() == 0 {
        return Next::Run(git_in(status, cwd));
    }
    assert(replies.deep_view()[0] == replies[0].deep_view());
    match run_git_command(&status, cwd, &replies[0]) {
        Err(e) => {
            return Next::Done(Err(e));
        },
        Ok(out) => {
            let listing = decode_lossy(&out.stdout);
            if text_is_blank(listing.as_str()) {
                return Next::Done(Ok(false));
            }
        },
    }
    let mut add: Vec<String> = Vec::new();
    push_text(&mut add, "add");
    push_text(&mut add, "LICENSE*");
    push_text(&mut add, ".gitignore");
    assert(add.deep_view() =~= seq!["add"@, "LICENSE*"@, ".gitignore"@]);
    let mut commit: Vec<String> = Vec::new();
    push_text(&mut commit, "commit");
    push_text(&mut commit, "-m");
    push_text(&mut commit, "chore: Add license and/or gitignore after history filtering");
    assert(commit.deep_view() =~= seq![
        "commit"@,
        "-m"@,
        "chore: Add license and/or gitignore after history filtering"@,
    ]);
    let mut commands: Vec<Invocation> = Vec::new();
    commands.push(git_in(add, cwd));
    commands.push(git_in(commit, cwd));
    assert(commands.deep_view() =~= cleanup_commands(config));
    match run_in_order(commands, replies, 1) {
        Next::Run(command) => Next::Run(command),
        Next::Done(Ok(_)) => Next::Done(Ok(true)),
        Next::Done(Err(e)) => Next::Done(Err(e)),
    }
}

/// What was found on disk where a project is to be extracted.
#[derive(Debug, Clone, Copy)]
pub struct TargetProbe {
    /// The tracked subdirectory exists in the internal repository.
    pub source_exists: bool,
    /// The output path exists.
    pub output_exists: bool,
    /// The output path holds at least one entry.
    pub output_has_entries: bool,
}

/// The next move of an extraction: carry out its steps, preparing the
/// output path as said, or nothing more, with the extraction's result.
#[derive(Debug)]
pub enum Extraction {
    Carry(TargetAction),
    Done(Result<ExtractionResult, PorterError>),
}

/// The mathematical content of an [`ExtractionResult`].
#[verifier::ext_equal]
pub struct ReportView {
    pub project_id: Seq<char>,
    pub output_path: Seq<char>,
    pub messages: Seq<Seq<char>>,
    pub secrets_found: Seq<Seq<char>>,
}

impl DeepView for ExtractionResult {
    type V = ReportView;

    open spec fn deep_view(&self) -> ReportView {
        ReportView {
            project_id: self.project_id@,
            output_path: self.output_path@,
            messages: self.messages.deep_view(),
            secrets_found: self.secrets_found.deep_view(),
        }
    }
}

/// The mathematical content of an [`Extraction`].
pub enum ExtractionView {
    Carry(TargetAction),
    Done(Result<ReportView, ErrorView>),
}

impl DeepView for Extraction {
    type V = ExtractionView;

    open spec fn deep_view(&self) -> ExtractionView {
        match self {
            Extraction::Carry(action) => ExtractionView::Carry(*action),
            Extraction::Done(Ok(r)) => ExtractionView::Done(Ok(r.deep_view())),
            Extraction::Done(Err(e)) => ExtractionView::Done(Err(e.deep_view())),
        }
    }
}

/// The directory that is extracted: the tracked subdirectory inside the
/// internal repository.
pub open spec fn source_dir(config: &ProjectConfig) -> Seq<char> {
    joined_path(config.internal_repo_path@, config.project_subdir@)
}

/// Whether the project can be extracted to its output path, given what
/// was found on disk.
pub open spec fn target_of(config: &ProjectConfig, found: TargetProbe) -> Result<
    TargetAction,
    ErrorView,
> {
    target_check(
        source_dir(config),
        found.source_exists,
        config.output_path@,
        found.output_exists,
        found.output_has_entries,
    )
}

/// The notes of a clean-slate extraction that went through: what was
/// copied, that the repository was set up, what the scan found if it found
/// anything, and that the first commit was made.
pub open spec fn clean_slate_notes(source: Seq<char>, secrets: nat) -> Seq<Seq<char>> {
    seq!["Copied project files from "@ + source, "Initialized Git repository."@] + (if secrets
        == 0 {
        Seq::<Seq<char>>::empty()
    } else {
        seq!["Warning: "@ + decimal(secrets) + " potential secrets found during basic scan."@]
    }) + seq!["Created initial Git commit."@]
}

/// The next move of a clean-slate extraction, given what was found on
/// disk and, once its steps have been carried out, what the scan of the
/// output reported.
///
/// A missing source and an output path that holds entries refuse the
/// extraction, whatever else is given: nothing is to be carried out.
/// Otherwise the steps are to be carried out, and once they are, the
/// result is the report.
pub open spec fn clean_slate(
    project_id: Seq<char>,
    config: &ProjectConfig,
    found: TargetProbe,
    carried: Option<Seq<Seq<char>>>,
) -> ExtractionView {
    match target_of(config, found) {
        Err(e) => ExtractionView::Done(Err(e)),
        Ok(action) => match carried {
            None => ExtractionView::Carry(action),
            Some(secrets) => ExtractionView::Done(
                Ok(
                    ReportView {
                        project_id: project_id,
                        output_path: config.output_path@,
                        messages: clean_slate_notes(source_dir(config), secrets.len()),
                        secrets_found: secrets,
                    },
                ),
            ),
        },
    }
}

/// Extracts a project without its history: see [`clean_slate`].
pub fn extract_clean_slate(
    project_id: &str,
    config: &ProjectConfig,
    found: &TargetProbe,
    carried: Option<Vec<String>>,
) -> (r: Extraction)
    ensures
        r.deep_view() == clean_slate(project_id@, config, *found, carried.deep_view()),
{
    let source = join_path(config.internal_repo_path.as_str(), config.project_subdir.as_str());
    let action = match validate_target(
        source.as_str(),
        found.source_exists,
        config.output_path.as_str(),
        found.output_exists,
        found.output_has_entries,
    ) {
        Ok(action) => action,
        Err(e) => {
            return Extraction::Done(Err(e));
        },
    };
    let secrets_found = match carried {
        Some(secrets) => secrets,
        None => {
            return Extraction::Carry(action);
        },
    };
    let mut messages: Vec<String> = Vec::new();
    let mut copied = owned("Copied project files from ");
    copied.append(source.as_str());
    push_text(&mut messages, copied.as_str());
    push_text(&mut messages, "Initialized Git repository.");
    match secrets_warning(secrets_found.len(), false) {
        Some(note) => push_text(&mut messages, note.as_str()),
        None => {},
    }
    push_text(&mut messages, "Created initial Git commit.");
    assert(messages.deep_view() =~= clean_slate_notes(source@, secrets_found.len() as nat));
    assert(secrets_found.deep_view().len() == secrets_found.len());
    Extraction::Done(
        Ok(
            ExtractionResult {
                project_id: owned(project_id),
                output_path: owned(config.output_path.as_str()),
                messages,
                secrets_found,
            },
        ),
    )
}

/// What was found before an extraction with history: whether the tools
/// are there, whether the internal repository path holds a repository, and
/// what is on disk at the source and at the output path.
#[derive(Debug, Clone)]
pub struct HistoryProbe {
    pub git: ToolProbe,
    pub filter_repo: ToolProbe,
    pub repository_root: bool,
    pub target: TargetProbe,
}

/// What happened while the steps of an extraction with history were
/// carried out.
#[derive(Debug)]
pub struct Carried {
    /// The directory that held the temporary clone.
    pub work_dir: String,
    /// Whether the clone's remote could be removed.
    pub origin_removed: bool,
    /// Whether a cleanup commit was made.
    pub cleanup_committed: bool,
    /// What the scan of the output reported.
    pub secrets_found: Vec<String>,
}

/// The mathematical content of a [`Carried`].
pub struct CarriedView {
    pub work_dir: Seq<char>,
    pub origin_removed: bool,
    pub cleanup_committed: bool,
    pub secrets_found: Seq<Seq<char>>,
}

impl DeepView for Carried {
    type V = CarriedView;

    open spec fn deep_view(&self) -> CarriedView {
        CarriedView {
            work_dir: self.work_dir@,
            origin_removed: self.origin_removed,
            cleanup_committed: self.cleanup_committed,
            secrets_found: self.secrets_found.deep_view(),
        }
    }
}

/// The notes of an extraction with history that went through, in the
/// order of its steps. Whether the clone's remote could be removed and
/// whether a cleanup commit was needed decide if their notes are there.
pub open spec fn preserve_history_notes(
    config: &ProjectConfig,
    work_dir: Seq<char>,
    origin_removed: bool,
    cleanup_committed: bool,
    secrets: nat,
) -> Seq<Seq<char>> {
    seq![
        "Checked prerequisites (git, git-filter-repo)."@,
        "Created temporary clone in "@ + work_dir,
        "Ran git-filter-repo on path '"@ + config.project_subdir@ + "'"@,
        "Moved filtered content to "@ + config.output_path@,
    ] + (if origin_removed {
        seq!["Removed original 'origin' remote."@]
    } else {
        Seq::<Seq<char>>::empty()
    }) + (if cleanup_committed {
        seq!["Created cleanup commit for license/gitignore."@]
    } else {
        Seq::<Seq<char>>::empty()
    }) + (if secrets == 0 {
        Seq::<Seq<char>>::empty()
    } else {
        seq![
            "Warning: "@ + decimal(secrets)
                + " potential secrets found during basic scan of final code state."@,
        ]
    })
}

/// The error for an internal repository path that holds no repository.
pub open spec fn no_repository_root(config: &ProjectConfig) -> ErrorView {
    ErrorView::GitOperation(
        "Internal repo path '"@ + config.internal_repo_path@
            + "' does not appear to be a git repository root."@,
    )
}

/// The next move of an extraction with history, given what was found
/// before it and, once its steps have been carried out, what happened.
///
/// The extraction is refused, in this order, where the version-control
/// tool or the history filter is not available, where the internal
/// repository path holds no repository, where the source is missing, and
/// where the output path holds entries. Nothing is to be carried out then.
/// Otherwise the steps are to be carried out, and once they are, the
/// result is the report.
pub open spec fn preserve_history(
    project_id: Seq<char>,
    config: &ProjectConfig,
    found: HistoryProbe,
    carried: Option<CarriedView>,
) -> ExtractionView {
    match tool_check("git"@, found.git.deep_view()) {
        Err(e) => ExtractionView::Done(Err(e)),
        Ok(_) => match tool_check("git-filter-repo"@, found.filter_repo.deep_view()) {
            Err(e) => ExtractionView::Done(Err(e)),
            Ok(_) => if !found.repository_root {
                ExtractionView::Done(Err(no_repository_root(config)))
            } else {
                match target_of(config, found.target) {
                    Err(e) => ExtractionView::Done(Err(e)),
                    Ok(action) => match carried {
                        None => ExtractionView::Carry(action),
                        Some(done) => ExtractionView::Done(
                            Ok(
                                ReportView {
                                    project_id: project_id,
                                    output_path: config.output_path@,
                                    messages: preserve_history_notes(
                                        config,
                                        done.work_dir,
                                        done.origin_removed,
                                        done.cleanup_committed,
                                        done.secrets_found.len(),
                                    ),
                                    secrets_found: done.secrets_found,
                                },
                            ),
                        ),
                    },
                }
            },
        },
    }
}

/// Extracts a project with its history: see [`preserve_history`].
pub fn extract_preserve_history(
    project_id: &str,
    config: &ProjectConfig,
    found: &HistoryProbe,
    carried: Option<Carried>,
) -> (r: Extraction)
    ensures
        r.deep_view() == preserve_history(project_id@, config, *found, carried.deep_view()),
{
    match check_tool_exists("git", &found.git) {
        Err(e) => {
            return Extraction::Done(Err(e));
        },
        Ok(_) => {},
    }
    match check_tool_exists("git-filter-repo", &found.filter_repo) {
        Err(e) => {
            return Extraction::Done(Err(e));
        },
        Ok(_) => {},
    }
    if !found.repository_root {
        let mut message = owned("Internal repo path '");
        message.append(config.internal_repo_path.as_str());
        message.append("' does not appear to be a git repository root.");
        return Extraction::Done(Err(PorterError::GitOperation(message)));
    }
    let source = join_path(config.internal_repo_path.as_str(), config.project_subdir.as_str());
    let action = match validate_target(
        source.as_str(),
        found.target.source_exists,
        config.output_path.as_str(),
        found.target.output_exists,
        found.target.output_has_entries,
    ) {
        Ok(action) => action,
        Err(e) => {
            return Extraction::Done(Err(e));
        },
    };
    let done = match carried {
        Some(done) => done,
        None => {
            return Extraction::Carry(action);
        },
    };
    let Carried { work_dir, origin_removed, cleanup_committed, secrets_found } = done;
    let mut messages: Vec<String> = Vec::new();
    push_text(&mut messages, "Checked prerequisites (git, git-filter-repo).");
    let mut cloned = owned("Created temporary clone in ");
    cloned.append(work_dir.as_str());
    push_text(&mut messages, cloned.as_str());
    let mut filtered = owned("Ran git-filter-repo on path '");
    filtered.append(config.project_subdir.as_str());
    filtered.append("'");
    push_text(&mut messages, filtered.as_str());
    let mut moved = owned("Moved filtered content to ");
    moved.append(config.output_path.as_str());
    push_text(&mut messages, moved.as_str());
    if origin_removed {
        push_text(&mut messages, "Removed original 'origin' remote.");
    }
    if cleanup_committed {
        push_text(&mut messages, "Created cleanup commit for license/gitignore.");
    }
    match secrets_warning(secrets_found.len(), true) {
        Some(note) => push_text(&mut messages, note.as_str()),
        None => {},
    }
    assert(messages.deep_view() =~= preserve_history_notes(
        config,
        work_dir@,
        origin_removed,
        cleanup_committed,
        secrets_found.len() as nat,
    ));
    assert(secrets_found.deep_view().len() == secrets_found.len());
    Extraction::Done(
        Ok(
            ExtractionResult {
                project_id: owned(project_id),
                output_path: owned(config.output_path.as_str()),
                messages,
                secrets_found,
            },
        ),
    )
}

/// An output path that holds entries refuses a clean-slate extraction,
/// whatever else is given, and so does a missing source.
pub proof fn lemma_clean_slate_refusals(
    project_id: Seq<char>,
    config: &ProjectConfig,
    found: TargetProbe,
    carried: Option<Seq<Seq<char>>>,
)
    ensures
        !found.source_exists ==> clean_slate(project_id, config, found, carried)
            == ExtractionView::Done(Err(ErrorView::PathNotFound(source_dir(config)))),
        found.source_exists && found.output_exists && found.output_has_entries ==> clean_slate(
            project_id,
            config,
            found,
            carried,
        ) == ExtractionView::Done(Err(ErrorView::OutputPathExists(config.output_path@))),
{
}

/// Where both tools are available, an internal repository path that
/// holds no repository refuses an extraction with history, whatever else
/// is given.
pub proof fn lemma_preserve_history_needs_a_repository(
    project_id: Seq<char>,
    config: &ProjectConfig,
    found: HistoryProbe,
    carried: Option<CarriedView>,
)
    requires
        tool_check("git"@, found.git.deep_view()) is Ok,
        tool_check("git-filter-repo"@, found.filter_repo.deep_view()) is Ok,
        !found.repository_root,
    ensures
        preserve_history(project_id, config, found, carried) == ExtractionView::Done(
            Err(no_repository_root(config)),
        ),
{
}

} // verus!
