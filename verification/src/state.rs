//! The synchronization cursor and the record that holds it.
//!
//! The record lives inside the tracked subdirectory of the internal
//! repository, so that it travels with the source. Reading and writing the
//! file is the caller's part; what the record means, and how a change of it
//! is committed, is decided here.

use crate::text::{
    char_is_whitespace, decode_lossy, decoded, is_blank, is_whitespace, join_path, joined_path,
    owned, push_text, to_chars,
};
use crate::utils::{
    git, git_in, in_order, outcome_of, run_git_command, run_in_order, Invocation, InvocationView,
    Launch, LaunchView, Next, NextView,
};
use crate::ProjectConfig;
use vstd::prelude::*;
use vstd::string::*;

verus! {

/// The name of the record's file inside the tracked subdirectory.
pub const STATE_FILE_NAME: &'static str = ".sync_state";

/// The record as it is stored: one optional field.
#[derive(Debug, Clone)]
pub struct StateFileContent {
    pub last_synced_internal_commit: Option<String>,
}

/// The directory of the tracked project inside the internal repository.
pub open spec fn project_dir(config: &ProjectConfig) -> Seq<char> {
    joined_path(config.internal_repo_path@, config.project_subdir@)
}

/// The path of the record of a project.
pub fn get_internal_state_file_path(config: &ProjectConfig) -> (path: String)
    ensures
        path@ == joined_path(project_dir(config), STATE_FILE_NAME@),
{
    let dir = join_path(config.internal_repo_path.as_str(), config.project_subdir.as_str());
    join_path(dir.as_str(), STATE_FILE_NAME)
}

/// Whether a text holds nothing but whitespace.
pub fn text_is_blank(text: &str) -> (r: bool)
    ensures
        r == is_blank(text@),
{
    let chars = to_chars(text);
    let mut i: usize = 0;
    while i < chars.len()
        invariant
            i <= chars.len(),
            chars@ == text@,
            forall|j: int| 0 <= j < i ==> is_whitespace(#[trigger] chars@[j]),
        decreases chars.len() - i,
    {
        if !char_is_whitespace(chars[i]) {
            assert(!is_whitespace(text@[i as int]));
            return false;
        }
        i += 1;
    }
    true
}

/// The cursor that a stored field stands for: a missing or blank
/// identifier means that nothing has been synchronized yet.
pub open spec fn cursor_of(field: Option<Seq<char>>) -> Option<Seq<char>> {
    match field {
        Some(id) => if is_blank(id) {
            None
        } else {
            Some(id)
        },
        None => None,
    }
}

/// The cursor that the contents of the record's file stand for, before
/// they are parsed: a missing file and a blank file hold no cursor, and
/// need no parsing. `None` is returned where the contents have to be parsed.
pub fn cursor_without_parsing(contents: Option<&str>) -> (r: Option<Option<String>>)
    ensures
        match contents {
            None => r == Some(None::<String>),
            Some(text) => if is_blank(text@) {
                r == Some(None::<String>)
            } else {
                r is None
            },
        },
{
    match contents {
        None => Some(None),
        Some(text) => {
            if text_is_blank(text) {
                Some(None)
            } else {
                None
            }
        },
    }
}

/// The cursor that a parsed record holds.
pub fn read_last_synced_commit(record: StateFileContent) -> (cursor: Option<String>)
    ensures
        cursor.deep_view() == cursor_of(record.last_synced_internal_commit.deep_view()),
{
    match record.last_synced_internal_commit {
        Some(id) => {
            if text_is_blank(id.as_str()) {
                None
            } else {
                Some(id)
            }
        },
        None => None,
    }
}

/// The record that stores a cursor.
pub fn write_last_synced_commit(commit_hash: Option<&str>) -> (record: StateFileContent)
    ensures
        record.last_synced_internal_commit.deep_view() == match commit_hash {
            Some(id) => Some(id@),
            None => None,
        },
{
    StateFileContent {
        last_synced_internal_commit: match commit_hash {
            Some(id) => Some(owned(id)),
            None => None,
        },
    }
}

/// A cursor that is written and read back is the cursor that was written,
/// and an absent cursor reads back as absent: where `record` holds what
/// [`write_last_synced_commit`] stores for `cursor`, the cursor that
/// [`read_last_synced_commit`] finds in it is `cursor`. This holds for every
/// cursor that is absent or not blank; a blank identifier is no cursor, and
/// reads back as absent.
pub proof fn lemma_cursor_round_trip(cursor: Option<Seq<char>>, record: StateFileContent)
    requires
        record.last_synced_internal_commit.deep_view() == cursor,
    ensures
        cursor is None ==> cursor_of(record.last_synced_internal_commit.deep_view()) is None,
        cursor matches Some(id) && !is_blank(id) ==> cursor_of(
            record.last_synced_internal_commit.deep_view(),
        ) == cursor,
        cursor matches Some(id) && is_blank(id) ==> cursor_of(
            record.last_synced_internal_commit.deep_view(),
        ) is None,
{
}

/// The message of the commit that records a cursor.
pub open spec fn state_commit_message(cursor: Option<Seq<char>>) -> Seq<char> {
    "chore(oss-porter): Update sync state to "@ + (match cursor {
        Some(id) => id,
        None => "<none>"@,
    })
}

/// The command that asks whether the record differs from what is committed.
pub open spec fn status_command(config: &ProjectConfig) -> InvocationView {
    git(seq!["status"@, "--porcelain"@, STATE_FILE_NAME@], project_dir(config))
}

/// The commands that stage the record and commit it.
pub open spec fn record_commands(
    config: &ProjectConfig,
    cursor: Option<Seq<char>>,
) -> Seq<InvocationView> {
    seq![
        git(seq!["add"@, STATE_FILE_NAME@], project_dir(config)),
        git(seq!["commit"@, "-m"@, state_commit_message(cursor)], project_dir(config)),
    ]
}

/// The next move of committing the record into the internal repository.
///
/// The status of the record's file is asked for first. Where it reports
/// nothing, the record is unchanged and there is nothing to commit.
/// Otherwise the file is staged and committed; the first command that
/// fails ends the operation with its error.
pub open spec fn record_commit(
    config: &ProjectConfig,
    cursor: Option<Seq<char>>,
    replies: Seq<LaunchView>,
) -> NextView<()> {
    if replies.len() == 0 {
        NextView::Run(status_command(config))
    } else {
        match outcome_of(status_command(config), replies[0]) {
            Err(e) => NextView::Done(Err(e)),
            Ok(out) => if is_blank(decoded(out.stdout)) {
                NextView::Done(Ok(()))
            } else {
                in_order(record_commands(config, cursor), replies.skip(1))
            },
        }
    }
}

/// Commits the record into the internal repository: see [`record_commit`].
pub fn commit_state_file_change(
    config: &ProjectConfig,
    commit_hash: Option<&str>,
    replies: &Vec<Launch>,
) -> (r: Next<()>)
    ensures
        r.deep_view() == record_commit(
            config,
            match commit_hash {
                Some(id) => Some(id@),
                None => None,
            },
            replies.deep_view(),
        ),
{
    let dir = join_path(config.internal_repo_path.as_str(), config.project_subdir.as_str());
    let mut status: Vec<String> = Vec::new();
    push_text(&mut status, "status");
    push_text(&mut status, "--porcelain");
    push_text(&mut status, STATE_FILE_NAME);
    assert(status.deep_view() =~= seq!["status"@, "--porcelain"@, STATE_FILE_NAME@]);
    if replies.len() == 0 {
        return Next::Run(git_in(status, dir.as_str()));
    }
    assert(replies.deep_view()[0] == replies[0].deep_view());
    match run_git_command(&status, dir.as_str(), &replies[0]) {
        Err(e) => {
            return Next::Done(Err(e));
        },
        Ok(out) => {
            let listing = decode_lossy(&out.stdout);
            if text_is_blank(listing.as_str()) {
                return Next::Done(Ok(()));
            }
        },
    }
    let mut message = owned("chore(oss-porter): Update sync state to ");
    match commit_hash {
        Some(id) => message.append(id),
        None => message.append("<none>"),
    }
    let mut add: Vec<String> = Vec::new();
    push_text(&mut add, "add");
    push_text(&mut add, STATE_FILE_NAME);
    assert(add.deep_view() =~= seq!["add"@, STATE_FILE_NAME@]);
    let mut commit: Vec<String> = Vec::new();
    push_text(&mut commit, "commit");
    push_text(&mut commit, "-m");
    push_text(&mut commit, message.as_str());
    assert(commit.deep_view() =~= seq!["commit"@, "-m"@, message@]);
    let mut commands: Vec<Invocation> = Vec::new();
    commands.push(git_in(add, dir.as_str()));
    commands.push(git_in(commit, dir.as_str()));
    assert(commands.deep_view() =~= record_commands(
        config,
        match commit_hash {
            Some(id) => Some(id@),
            None => None,
        },
    ));
    run_in_order(commands, replies, 1)
}

/// Committing the record asks for three commands at most.
pub proof fn lemma_record_commit_ends(
    config: &ProjectConfig,
    cursor: Option<Seq<char>>,
    replies: Seq<LaunchView>,
)
    requires
        replies.len() >= 3,
    ensures
        record_commit(config, cursor, replies) is Done,
{
    crate::utils::lemma_in_order_ends(record_commands(config, cursor), replies.skip(1));
}

/// Where the status reports no change of the record, nothing is staged or
/// committed and the operation succeeds.
pub proof fn lemma_unchanged_record_is_not_committed(
    config: &ProjectConfig,
    cursor: Option<Seq<char>>,
    replies: Seq<LaunchView>,
)
    requires
        replies.len() >= 1,
        replies[0] matches LaunchView::Exited(out) && out.success && is_blank(decoded(out.stdout)),
    ensures
        record_commit(config, cursor, replies) == NextView::Done(Ok(())),
{
}


/// Once the committing of the record has come to its end, further
/// launches change nothing.
pub proof fn lemma_record_commit_is_settled(
    config: &ProjectConfig,
    cursor: Option<Seq<char>>,
    replies: Seq<LaunchView>,
    more: Seq<LaunchView>,
)
    requires
        record_commit(config, cursor, replies) is Done,
    ensures
        record_commit(config, cursor, replies + more) == record_commit(config, cursor, replies),
{
    let longer = replies + more;
    assert(longer[0] == replies[0]);
    assert(longer.skip(1) =~= replies.skip(1) + more);
    if in_order(record_commands(config, cursor), replies.skip(1)) is Done {
        crate::utils::lemma_in_order_is_settled(
            record_commands(config, cursor),
            replies.skip(1),
            more,
        );
    }
}

} // verus!
