//! Publishing the public repository to its remote.

use crate::text::{
    after_first_word, decode_lossy, decoded, first_word, first_word_bounds, lines, owned, push_text,
    rows, split_lines, to_chars, to_text,
};
use crate::utils::{
    git, git_in, in_order, outcome_of, run_git_command, run_in_order, Invocation, InvocationView,
    Launch, LaunchView, Next, NextView,
};
use crate::{ErrorView, PorterError, ProjectConfig};
use vstd::prelude::*;
use vstd::string::*;

verus! {

/// What a listing of remotes says about the remote named `origin`.
pub enum OriginState {
    /// No line of the listing names it.
    Absent,
    /// Every line that names it gives the expected address.
    Matches,
    /// A line names it with another address, which is carried.
    PointsElsewhere(String),
}

/// The mathematical content of an [`OriginState`].
pub enum OriginView {
    Absent,
    Matches,
    PointsElsewhere(Seq<char>),
}

impl DeepView for OriginState {
    type V = OriginView;

    open spec fn deep_view(&self) -> OriginView {
        match self {
            OriginState::Absent => OriginView::Absent,
            OriginState::Matches => OriginView::Matches,
            OriginState::PointsElsewhere(u) => OriginView::PointsElsewhere(u@),
        }
    }
}

/// The address that a line of the listing gives for `origin`: the second
/// word of a line whose first word is `origin`.
pub open spec fn origin_address(line: Seq<char>) -> Option<Seq<char>> {
    let address = first_word(after_first_word(line));
    if first_word(line) == "origin"@ && address.len() > 0 {
        Some(address)
    } else {
        None
    }
}

/// What the lines of a listing say about `origin`, given the address that
/// is expected. The first line that gives another address decides.
pub open spec fn origin_in(listing: Seq<Seq<char>>, expected: Seq<char>) -> OriginView
    decreases listing.len(),
{
    if listing.len() == 0 {
        OriginView::Absent
    } else {
        match origin_address(listing[0]) {
            Some(address) => if address != expected {
                OriginView::PointsElsewhere(address)
            } else {
                match origin_in(listing.drop_first(), expected) {
                    OriginView::Absent => OriginView::Matches,
                    other => other,
                }
            },
            None => origin_in(listing.drop_first(), expected),
        }
    }
}

/// What the text of a listing of remotes says about `origin`.
pub open spec fn origin_state(listing: Seq<char>, expected: Seq<char>) -> OriginView {
    origin_in(lines(listing), expected)
}

spec fn seen_so_far(seen: bool, rest: OriginView) -> OriginView {
    match rest {
        OriginView::Absent => if seen {
            OriginView::Matches
        } else {
            OriginView::Absent
        },
        other => other,
    }
}

fn address_of_origin(line: &Vec<char>) -> (r: Option<String>)
    ensures
        r.deep_view() == origin_address(line@),
{
    let (a, b) = first_word_bounds(line, 0);
    let (c, d) = first_word_bounds(line, b);
    assert(line@.skip(0) =~= line@);
    let name = to_text(line, a, b);
    let origin = owned("origin");
    if name == origin && d > c {
        Some(to_text(line, c, d))
    } else {
        None
    }
}

/// Reads a listing of remotes for what it says about `origin`.
pub fn inspect_remotes(listing: &str, expected: &str) -> (r: OriginState)
    ensures
        r.deep_view() == origin_state(listing@, expected@),
{
    let chars = to_chars(listing);
    let all_lines = split_lines(&chars, 0, chars.len());
    assert(chars@.subrange(0, chars.len() as int) =~= chars@);
    let ghost all = rows(all_lines@);
    let wanted = owned(expected);
    let mut seen = false;
    let mut i: usize = 0;
    assert(all.skip(0) =~= all);
    while i < all_lines.len()
        invariant
            i <= all_lines.len(),
            all == rows(all_lines@),
            all == lines(listing@),
            wanted@ == expected@,
            origin_in(all, expected@) == seen_so_far(
                seen,
                origin_in(all.skip(i as int), expected@),
            ),
        decreases all_lines.len() - i,
    {
        assert(all.skip(i as int).drop_first() =~= all.skip(i + 1));
        assert(all.skip(i as int)[0] == all_lines@[i as int]@);
        match address_of_origin(&all_lines[i]) {
            Some(address) => {
                if !(address == wanted) {
                    return OriginState::PointsElsewhere(address);
                }
                seen = true;
            },
            None => {},
        }
        i += 1;
    }
    if seen {
        OriginState::Matches
    } else {
        OriginState::Absent
    }
}

/// The command that lists the remotes of the public repository.
pub open spec fn list_remotes(config: &ProjectConfig) -> InvocationView {
    git(seq!["remote"@, "-v"@], config.output_path@)
}

/// The command that makes `address` the remote named `origin`.
pub open spec fn add_origin(config: &ProjectConfig, address: Seq<char>) -> InvocationView {
    git(seq!["remote"@, "add"@, "origin"@, address], config.output_path@)
}

/// The command that pushes the public branch to the branch of the same
/// name at `origin` and makes it the upstream.
pub open spec fn push_branch(config: &ProjectConfig) -> InvocationView {
    git(
        seq!["push"@, "-u"@, "origin"@, config.public_branch@ + ":"@ + config.public_branch@],
        config.output_path@,
    )
}

/// The error for an output path that holds no repository.
pub open spec fn not_a_repository(config: &ProjectConfig) -> ErrorView {
    ErrorView::GitOperation(
        "Output path '"@ + config.output_path@ + "' is not a Git repository. Cannot push."@,
    )
}

/// The error for a project without a public address.
pub open spec fn no_public_address(project_id: Seq<char>) -> ErrorView {
    ErrorView::Config(
        "Project '"@ + project_id + "' does not have 'public_repo_url' configured. Cannot push."@,
    )
}

/// The error for an `origin` that gives `found` where `expected` is configured.
pub open spec fn wrong_origin(
    config: &ProjectConfig,
    found: Seq<char>,
    expected: Seq<char>,
) -> ErrorView {
    ErrorView::GitOperation(
        "Git remote 'origin' in '"@ + config.output_path@
            + "' exists but points to the wrong URL ('"@ + found + "'). Expected '"@ + expected
            + "'. Please fix manually."@,
    )
}

/// The next move of publishing a project.
///
/// The output path has to hold a repository and the project has to name
/// its public address; otherwise the operation fails at once. The remotes
/// are listed. An `origin` with another address is an error that a person
/// has to mend. A missing `origin` is added. Then the public branch is pushed.
pub open spec fn publication(
    project_id: Seq<char>,
    config: &ProjectConfig,
    output_is_repository: bool,
    replies: Seq<LaunchView>,
) -> NextView<()> {
    if !output_is_repository {
        NextView::Done(Err(not_a_repository(config)))
    } else {
        match config.public_repo_url {
            None => NextView::Done(Err(no_public_address(project_id))),
            Some(address) => if replies.len() == 0 {
                NextView::Run(list_remotes(config))
            } else {
                match outcome_of(list_remotes(config), replies[0]) {
                    Err(e) => NextView::Done(Err(e)),
                    Ok(listing) => match origin_state(decoded(listing.stdout), address@) {
                        OriginView::PointsElsewhere(found) => NextView::Done(
                            Err(wrong_origin(config, found, address@)),
                        ),
                        OriginView::Matches => in_order(seq![push_branch(config)], replies.skip(1)),
                        OriginView::Absent => in_order(
                            seq![add_origin(config, address@), push_branch(config)],
                            replies.skip(1),
                        ),
                    },
                }
            },
        }
    }
}

/// Publishes a project: see [`publication`]. `output_is_repository` says
/// whether the output path holds a repository.
pub fn push_to_remote(
    project_id: &str,
    config: &ProjectConfig,
    output_is_repository: bool,
    replies: &Vec<Launch>,
) -> (r: Next<()>)
    ensures
        r.deep_view() == publication(
            project_id@,
            config,
            output_is_repository,
            replies.deep_view(),
        ),
{
    let cwd = config.output_path.as_str();
    if !output_is_repository {
        let mut message = owned("Output path '");
        message.append(cwd);
        message.append("' is not a Git repository. Cannot push.");
        return Next::Done(Err(PorterError::GitOperation(message)));
    }
    let address = match &config.public_repo_url {
        Some(address) => address.as_str(),
        None => {
            let mut message = owned("Project '");
            message.append(project_id);
            message.append("' does not have 'public_repo_url' configured. Cannot push.");
            return Next::Done(Err(PorterError::Config(message)));
        },
    };
    let mut list: Vec<String> = Vec::new();
    push_text(&mut list, "remote");
    push_text(&mut list, "-v");
    assert(list.deep_view() =~= seq!["remote"@, "-v"@]);
    if replies.len() == 0 {
        return Next::Run(git_in(list, cwd));
    }
    assert(replies.deep_view()[0] == replies[0].deep_view());
    let listing = match run_git_command(&list, cwd, &replies[0]) {
        Ok(out) => decode_lossy(&out.stdout),
        Err(e) => {
            return Next::Done(Err(e));
        },
    };
    let mut commands: Vec<Invocation> = Vec::new();
    let ghost found = origin_state(listing@, address@);
    assert(commands.deep_view() =~= Seq::<InvocationView>::empty());
    match inspect_remotes(listing.as_str(), address) {
        OriginState::PointsElsewhere(found) => {
            let mut message = owned("Git remote 'origin' in '");
            message.append(cwd);
            message.append("' exists but points to the wrong URL ('");
            message.append(found.as_str());
            message.append("'). Expected '");
            message.append(address);
            message.append("'. Please fix manually.");
            return Next::Done(Err(PorterError::GitOperation(message)));
        },
        OriginState::Matches => {},
        OriginState::Absent => {
            let mut add: Vec<String> = Vec::new();
            push_text(&mut add, "remote");
            push_text(&mut add, "add");
            push_text(&mut add, "origin");
            push_text(&mut add, address);
            assert(add.deep_view() =~= seq!["remote"@, "add"@, "origin"@, address@]);
            commands.push(git_in(add, cwd));
            assert(commands.deep_view() =~= seq![add_origin(config, address@)]);
        },
    }
    assert(commands.deep_view() == if found is Absent {
        seq![add_origin(config, address@)]
    } else {
        Seq::<InvocationView>::empty()
    });
    let mut branches = owned(config.public_branch.as_str());
    branches.append(":");
    branches.append(config.public_branch.as_str());
    let mut push: Vec<String> = Vec::new();
    push_text(&mut push, "push");
    push_text(&mut push, "-u");
    push_text(&mut push, "origin");
    push_text(&mut push, branches.as_str());
    assert(push.deep_view() =~= seq!["push"@, "-u"@, "origin"@, branches@]);
    let ghost before = commands.deep_view();
    commands.push(git_in(push, cwd));
    assert(commands.deep_view() =~= before.push(push_branch(config)));
    assert(commands.deep_view() =~= if found is Absent {
        seq![add_origin(config, address@), push_branch(config)]
    } else {
        seq![push_branch(config)]
    });
    run_in_order(commands, replies, 1)
}

/// Publishing asks for three commands at most.
pub proof fn lemma_publication_ends(
    project_id: Seq<char>,
    config: &ProjectConfig,
    output_is_repository: bool,
    replies: Seq<LaunchView>,
)
    requires
        replies.len() >= 3,
    ensures
        publication(project_id, config, output_is_repository, replies) is Done,
{
    let rest = replies.skip(1);
    if config.public_repo_url is Some {
        let address = config.public_repo_url->0@;
        crate::utils::lemma_in_order_ends(seq![push_branch(config)], rest);
        crate::utils::lemma_in_order_ends(
            seq![add_origin(config, address), push_branch(config)],
            rest,
        );
    }
}


/// Once publishing has come to its end, further launches change nothing.
pub proof fn lemma_publication_is_settled(
    project_id: Seq<char>,
    config: &ProjectConfig,
    output_is_repository: bool,
    replies: Seq<LaunchView>,
    more: Seq<LaunchView>,
)
    requires
        publication(project_id, config, output_is_repository, replies) is Done,
    ensures
        publication(project_id, config, output_is_repository, replies + more) == publication(
            project_id,
            config,
            output_is_repository,
            replies,
        ),
{
    if output_is_repository && config.public_repo_url is Some {
        let address = config.public_repo_url->0@;
        let longer = replies + more;
        assert(longer[0] == replies[0]);
        assert(longer.skip(1) =~= replies.skip(1) + more);
        let push = seq![push_branch(config)];
        let add_and_push = seq![add_origin(config, address), push_branch(config)];
        if in_order(push, replies.skip(1)) is Done {
            crate::utils::lemma_in_order_is_settled(push, replies.skip(1), more);
        }
        if in_order(add_and_push, replies.skip(1)) is Done {
            crate::utils::lemma_in_order_is_settled(add_and_push, replies.skip(1), more);
        }
    }
}

} // verus!
