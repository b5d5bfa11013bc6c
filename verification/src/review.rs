//! The review loop as a state machine.
//!
//! A session holds the queue of candidate commits, oldest first, and the
//! cursor as it stands. It says what it is waiting for: the operator's
//! choice about a commit, or the outcome of applying one. The caller obtains
//! that and hands it in as an event; the session moves on. Nothing here
//! prompts or runs a command.

use crate::update::{ApplyResult, ApplyView, CommitInfo, CommitView};
use crate::{ErrorView, PorterError};
use std::collections::VecDeque;
use vstd::multiset::Multiset;
use vstd::prelude::*;

verus! {

/// The three states of a run.
#[derive(Debug, Clone, Copy, PartialEq, Eq, Structural)]
pub enum Mode {
    /// Each commit is shown and the operator decides.
    Reviewing,
    /// Every remaining commit is applied without asking.
    ApplyAllMode,
    /// The run has been ended, by the operator or by an apply that did not succeed.
    Quit,
}

/// What the operator can decide about the commit under review.
#[derive(Debug, Clone, Copy, PartialEq, Eq, Structural)]
pub enum ReviewChoice {
    Apply,
    SkipPermanently,
    Defer,
    ApplyAll,
    Quit,
}

/// What a session needs from its caller before it can move on.
#[derive(Debug)]
pub enum Awaiting {
    /// Show this commit and hand in the operator's choice.
    Choice(CommitInfo),
    /// Apply this commit and hand in how that ended.
    Outcome(CommitInfo),
    /// The run is over.
    Nothing,
}

/// The mathematical content of an [`Awaiting`].
pub enum AwaitingView {
    Choice(CommitView),
    Outcome(CommitView),
    Nothing,
}

impl DeepView for Awaiting {
    type V = AwaitingView;

    open spec fn deep_view(&self) -> AwaitingView {
        match self {
            Awaiting::Choice(c) => AwaitingView::Choice(c.deep_view()),
            Awaiting::Outcome(c) => AwaitingView::Outcome(c.deep_view()),
            Awaiting::Nothing => AwaitingView::Nothing,
        }
    }
}

/// How a commit left the review.
#[derive(Debug, Clone, Copy, PartialEq, Eq, Structural)]
pub enum Disposition {
    Applied,
    Skipped,
}

/// A commit that the run has dealt with, and how.
#[derive(Debug)]
pub struct Resolved {
    pub commit: CommitInfo,
    pub disposition: Disposition,
}

/// The mathematical content of a [`Resolved`].
pub struct ResolvedView {
    pub commit: CommitView,
    pub disposition: Disposition,
}

impl DeepView for Resolved {
    type V = ResolvedView;

    open spec fn deep_view(&self) -> ResolvedView {
        ResolvedView { commit: self.commit.deep_view(), disposition: self.disposition }
    }
}

/// The commit whose apply ended the run, with that apply's outcome.
#[derive(Debug)]
pub struct Halt {
    pub commit: CommitInfo,
    pub outcome: ApplyResult,
}

/// The mathematical content of a [`Halt`].
pub struct HaltView {
    pub commit: CommitView,
    pub outcome: ApplyView,
}

impl DeepView for Halt {
    type V = HaltView;

    open spec fn deep_view(&self) -> HaltView {
        HaltView { commit: self.commit.deep_view(), outcome: self.outcome.deep_view() }
    }
}

/// What the caller reports to a session.
#[derive(Debug)]
pub enum ReviewEvent {
    /// The operator's decision about the commit under review.
    Choice(ReviewChoice),
    /// The commit under review could not be shown; `skip` says whether the
    /// operator wants to pass over it or to end the run.
    DiffFailed { skip: bool },
    /// How applying the commit ended, or why it could not be attempted.
    Applied(Result<ApplyResult, PorterError>),
    /// The run cannot go on, for the reason given: the operator cannot be
    /// asked, for example.
    Aborted(PorterError),
}

/// The mathematical content of a [`ReviewEvent`].
pub enum EventView {
    Choice(ReviewChoice),
    DiffFailed { skip: bool },
    Applied(Result<ApplyView, ErrorView>),
    Aborted(ErrorView),
}

impl DeepView for ReviewEvent {
    type V = EventView;

    open spec fn deep_view(&self) -> EventView {
        match self {
            ReviewEvent::Choice(c) => EventView::Choice(*c),
            ReviewEvent::DiffFailed { skip } => EventView::DiffFailed { skip: *skip },
            ReviewEvent::Applied(Ok(r)) => EventView::Applied(Ok(r.deep_view())),
            ReviewEvent::Applied(Err(e)) => EventView::Applied(Err(e.deep_view())),
            ReviewEvent::Aborted(e) => EventView::Aborted(e.deep_view()),
        }
    }
}

/// One run of the review loop.
#[derive(Debug)]
pub struct ReviewSession {
    /// The commits not yet looked at, oldest first.
    pub queue: VecDeque<CommitInfo>,
    /// The cursor as it stands: the last commit whose apply succeeded, or
    /// the cursor the run began with.
    pub last_applied: Option<String>,
    pub mode: Mode,
    pub awaiting: Awaiting,
    /// The commits dealt with so far, in the order in which that happened.
    pub log: Vec<Resolved>,
    /// Set when a conflict or a failure ended the run.
    pub halt: Option<Halt>,
    /// Set when an apply could not be attempted at all.
    pub failure: Option<PorterError>,
    /// Whether there was nothing to review when the run began.
    pub up_to_date: bool,
}

/// The mathematical content of a [`ReviewSession`].
#[verifier::ext_equal]
pub struct SessionView {
    pub queue: Seq<CommitView>,
    pub last_applied: Option<Seq<char>>,
    pub mode: Mode,
    pub awaiting: AwaitingView,
    pub log: Seq<ResolvedView>,
    pub halt: Option<HaltView>,
    pub failure: Option<ErrorView>,
    pub up_to_date: bool,
}

impl DeepView for ReviewSession {
    type V = SessionView;

    open spec fn deep_view(&self) -> SessionView {
        SessionView {
            queue: self.queue.deep_view(),
            last_applied: self.last_applied.deep_view(),
            mode: self.mode,
            awaiting: self.awaiting.deep_view(),
            log: self.log.deep_view(),
            halt: self.halt.deep_view(),
            failure: self.failure.deep_view(),
            up_to_date: self.up_to_date,
        }
    }
}

/// Takes the next commit from the front of the queue. In `ApplyAllMode` it
/// is to be applied, otherwise it is to be reviewed. With an empty queue the
/// run is over.
pub open spec fn advance(s: SessionView) -> SessionView {
    if s.queue.len() == 0 {
        SessionView { awaiting: AwaitingView::Nothing, ..s }
    } else {
        SessionView {
            queue: s.queue.drop_first(),
            awaiting: if s.mode == Mode::ApplyAllMode {
                AwaitingView::Outcome(s.queue[0])
            } else {
                AwaitingView::Choice(s.queue[0])
            },
            ..s
        }
    }
}

/// The session at the start of a run.
pub open spec fn begin(cursor: Option<Seq<char>>, queue: Seq<CommitView>) -> SessionView {
    advance(
        SessionView {
            queue: queue,
            last_applied: cursor,
            mode: Mode::Reviewing,
            awaiting: AwaitingView::Nothing,
            log: Seq::empty(),
            halt: None,
            failure: None,
            up_to_date: queue.len() == 0,
        },
    )
}

/// The commit is passed over for this run: it is logged as skipped and the
/// cursor stays.
pub open spec fn skip(s: SessionView, c: CommitView) -> SessionView {
    advance(
        SessionView {
            log: s.log.push(ResolvedView { commit: c, disposition: Disposition::Skipped }),
            ..s
        },
    )
}

/// The run ends at the operator's wish; the commit under review goes back
/// to the front of the queue, unprocessed.
pub open spec fn quit(s: SessionView, c: CommitView) -> SessionView {
    SessionView {
        queue: seq![c] + s.queue,
        mode: Mode::Quit,
        awaiting: AwaitingView::Nothing,
        ..s
    }
}

/// The run ends because it cannot go on; the commit in hand goes back to
/// the front of the queue, unprocessed, and the error is kept. The cursor
/// stays where it is.
pub open spec fn fail(s: SessionView, c: CommitView, error: ErrorView) -> SessionView {
    SessionView {
        queue: seq![c] + s.queue,
        mode: Mode::Quit,
        awaiting: AwaitingView::Nothing,
        failure: Some(error),
        ..s
    }
}

/// The transition function. An event that does not answer what the session
/// is waiting for leaves the session as it is.
pub open spec fn transition(s: SessionView, e: EventView) -> SessionView {
    match (s.awaiting, e) {
        (AwaitingView::Choice(c), EventView::Choice(ReviewChoice::Apply)) => SessionView {
            awaiting: AwaitingView::Outcome(c),
            ..s
        },
        (AwaitingView::Choice(c), EventView::Choice(ReviewChoice::SkipPermanently)) => skip(s, c),
        (AwaitingView::Choice(c), EventView::Choice(ReviewChoice::Defer)) => advance(
            SessionView { queue: s.queue.push(c), ..s },
        ),
        (AwaitingView::Choice(c), EventView::Choice(ReviewChoice::ApplyAll)) => advance(
            SessionView { queue: seq![c] + s.queue, mode: Mode::ApplyAllMode, ..s },
        ),
        (AwaitingView::Choice(c), EventView::Choice(ReviewChoice::Quit)) => quit(s, c),
        (AwaitingView::Choice(c), EventView::DiffFailed { skip: true }) => skip(s, c),
        (AwaitingView::Choice(c), EventView::DiffFailed { skip: false }) => quit(s, c),
        (AwaitingView::Outcome(c), EventView::Applied(Ok(ApplyView::Success))) => advance(
            SessionView {
                last_applied: Some(c.hash),
                log: s.log.push(ResolvedView { commit: c, disposition: Disposition::Applied }),
                ..s
            },
        ),
        (AwaitingView::Outcome(c), EventView::Applied(Ok(outcome))) => SessionView {
            mode: Mode::Quit,
            awaiting: AwaitingView::Nothing,
            halt: Some(HaltView { commit: c, outcome: outcome }),
            ..s
        },
        (AwaitingView::Outcome(c), EventView::Applied(Err(error))) => fail(s, c, error),
        (AwaitingView::Choice(c), EventView::Aborted(error)) => fail(s, c, error),
        (AwaitingView::Outcome(c), EventView::Aborted(error)) => fail(s, c, error),
        _ => s,
    }
}

impl ReviewSession {
    /// Begins a run on the discovered commits, given oldest first, with the
    /// cursor as it was read.
    pub fn start(cursor: Option<String>, queue: VecDeque<CommitInfo>) -> (r: ReviewSession)
        ensures
            r.deep_view() == begin(cursor.deep_view(), queue.deep_view()),
    {
        let up_to_date = queue.len() == 0;
        let s = ReviewSession {
            queue: queue,
            last_applied: cursor,
            mode: Mode::Reviewing,
            awaiting: Awaiting::Nothing,
            log: Vec::new(),
            halt: None,
            failure: None,
            up_to_date: up_to_date,
        };
        assert(s.log.deep_view() =~= Seq::<ResolvedView>::empty());
        s.advanced()
    }

    fn advanced(self) -> (r: ReviewSession)
        ensures
            r.deep_view() == advance(self.deep_view()),
    {
        let mut s = self;
        let ghost before = s.queue.deep_view();
        match s.queue.pop_front() {
            None => {
                assert(s.queue.deep_view() =~= before);
                s.awaiting = Awaiting::Nothing;
            },
            Some(c) => {
                assert(s.queue.deep_view() =~= before.drop_first());
                s.awaiting = match s.mode {
                    Mode::ApplyAllMode => Awaiting::Outcome(c),
                    _ => Awaiting::Choice(c),
                };
            },
        }
        s
    }

    fn resolved(self, commit: CommitInfo, disposition: Disposition) -> (r: ReviewSession)
        ensures
            r.deep_view() == (SessionView {
                log: self.log.deep_view().push(
                    ResolvedView { commit: commit.deep_view(), disposition: disposition },
                ),
                ..self.deep_view()
            }),
    {
        let mut s = self;
        let ghost before = s.log.deep_view();
        s.log.push(Resolved { commit, disposition });
        assert(s.log.deep_view() =~= before.push(
            ResolvedView { commit: commit.deep_view(), disposition: disposition },
        ));
        s
    }

    fn stopped(self, commit: CommitInfo) -> (r: ReviewSession)
        ensures
            r.deep_view() == quit(self.deep_view(), commit.deep_view()),
    {
        let mut s = self.requeued(commit, true);
        s.mode = Mode::Quit;
        s.awaiting = Awaiting::Nothing;
        s
    }

    fn requeued(self, commit: CommitInfo, at_front: bool) -> (r: ReviewSession)
        ensures
            r.deep_view() == (SessionView {
                queue: if at_front {
                    seq![commit.deep_view()] + self.queue.deep_view()
                } else {
                    self.queue.deep_view().push(commit.deep_view())
                },
                ..self.deep_view()
            }),
    {
        let mut s = self;
        let ghost before = s.queue.deep_view();
        if at_front {
            s.queue.push_front(commit);
            assert(s.queue.deep_view() =~= seq![commit.deep_view()] + before);
        } else {
            s.queue.push_back(commit);
            assert(s.queue.deep_view() =~= before.push(commit.deep_view()));
        }
        s
    }

    /// Moves the session on by one event.
    pub fn step(self, event: ReviewEvent) -> (r: ReviewSession)
        ensures
            r.deep_view() == transition(self.deep_view(), event.deep_view()),
    {
        let mut s = self;
        let mut awaiting = Awaiting::Nothing;
        core::mem::swap(&mut s.awaiting, &mut awaiting);
        match (awaiting, event) {
            (Awaiting::Choice(c), ReviewEvent::Choice(ReviewChoice::Apply)) => {
                s.awaiting = Awaiting::Outcome(c);
                s
            },
            (Awaiting::Choice(c), ReviewEvent::Choice(ReviewChoice::SkipPermanently)) => s.resolved(
                c,
                Disposition::Skipped,
            ).advanced(),
            (Awaiting::Choice(c), ReviewEvent::Choice(ReviewChoice::Defer)) => s.requeued(
                c,
                false,
            ).advanced(),
            (Awaiting::Choice(c), ReviewEvent::Choice(ReviewChoice::ApplyAll)) => {
                s.mode = Mode::ApplyAllMode;
                s.requeued(c, true).advanced()
            },
            (Awaiting::Choice(c), ReviewEvent::Choice(ReviewChoice::Quit)) => s.stopped(c),
            (Awaiting::Choice(c), ReviewEvent::DiffFailed { skip }) => {
                if skip {
                    s.resolved(c, Disposition::Skipped).advanced()
                } else {
                    s.stopped(c)
                }
            },
            (Awaiting::Outcome(c), ReviewEvent::Applied(Ok(ApplyResult::Success))) => {
                s.last_applied = Some(c.hash.clone());
                s.resolved(c, Disposition::Applied).advanced()
            },
            (Awaiting::Outcome(c), ReviewEvent::Applied(Ok(outcome))) => {
                s.mode = Mode::Quit;
                s.halt = Some(Halt { commit: c, outcome: outcome });
                s
            },
            (Awaiting::Outcome(c), ReviewEvent::Applied(Err(error))) => {
                s.failure = Some(error);
                s.stopped(c)
            },
            (Awaiting::Choice(c), ReviewEvent::Aborted(error)) => {
                s.failure = Some(error);
                s.stopped(c)
            },
            (Awaiting::Outcome(c), ReviewEvent::Aborted(error)) => {
                s.failure = Some(error);
                s.stopped(c)
            },
            (unanswered, _) => {
                s.awaiting = unanswered;
                s
            },
        }
    }
}

/// The session after a sequence of events, first event first.
pub open spec fn run(s: SessionView, events: Seq<EventView>) -> SessionView
    decreases events.len(),
{
    if events.len() == 0 {
        s
    } else {
        transition(run(s, events.drop_last()), events.last())
    }
}

/// The identifier of the commit that was applied last, if any was.
pub open spec fn last_success(log: Seq<ResolvedView>) -> Option<Seq<char>>
    decreases log.len(),
{
    if log.len() == 0 {
        None
    } else if log.last().disposition == Disposition::Applied {
        Some(log.last().commit.hash)
    } else {
        last_success(log.drop_last())
    }
}

/// The cursor that a run leaves: the commit applied last, or the cursor it
/// began with when nothing was applied.
pub open spec fn cursor_after(
    initial: Option<Seq<char>>,
    log: Seq<ResolvedView>,
) -> Option<Seq<char>> {
    match last_success(log) {
        Some(hash) => Some(hash),
        None => initial,
    }
}

/// The commits of a log, in its order.
pub open spec fn commits_of(log: Seq<ResolvedView>) -> Seq<CommitView> {
    Seq::new(log.len(), |i: int| log[i].commit)
}

/// The commits that a session has not dealt with, in the order in which
/// they stand: the one whose apply ended the run, the one it is waiting on,
/// and those still queued.
pub open spec fn unresolved(s: SessionView) -> Seq<CommitView> {
    (match s.halt {
        Some(h) => seq![h.commit],
        None => Seq::empty(),
    }) + (match s.awaiting {
        AwaitingView::Choice(c) => seq![c],
        AwaitingView::Outcome(c) => seq![c],
        AwaitingView::Nothing => Seq::empty(),
    }) + s.queue
}

/// No event of the sequence defers a commit.
pub open spec fn without_defer(events: Seq<EventView>) -> bool {
    forall|i: int|
        0 <= i < events.len() ==> #[trigger] events[i] != EventView::Choice(ReviewChoice::Defer)
}

/// A finished session ignores every further event.
pub proof fn lemma_finished_is_final(s: SessionView, e: EventView)
    requires
        s.awaiting is Nothing,
    ensures
        transition(s, e) == s,
{
}

/// The cursor moves only when an apply succeeds, and then to the commit
/// that was applied.
pub proof fn lemma_cursor_moves_on_success_only(s: SessionView, e: EventView)
    ensures
        transition(s, e).last_applied != s.last_applied ==> {
            &&& s.awaiting matches AwaitingView::Outcome(c)
            &&& e == EventView::Applied(Ok(ApplyView::Success))
            &&& transition(s, e).last_applied == Some(c.hash)
        },
{
}

proof fn lemma_step_keeps_cursor_on_log(initial: Option<Seq<char>>, s: SessionView, e: EventView)
    requires
        s.last_applied == cursor_after(initial, s.log),
    ensures
        transition(s, e).last_applied == cursor_after(initial, transition(s, e).log),
{
    let t = transition(s, e);
    if t.log != s.log {
        assert(t.log.drop_last() =~= s.log);
    }
}

/// After any events whatever, the cursor of a run is the commit that was
/// applied last, or the cursor the run began with if no apply succeeded.
pub proof fn lemma_cursor_is_last_success(
    cursor: Option<Seq<char>>,
    queue: Seq<CommitView>,
    events: Seq<EventView>,
)
    ensures
        run(begin(cursor, queue), events).last_applied == cursor_after(
            cursor,
            run(begin(cursor, queue), events).log,
        ),
    decreases events.len(),
{
    if events.len() > 0 {
        lemma_cursor_is_last_success(cursor, queue, events.drop_last());
        lemma_step_keeps_cursor_on_log(
            cursor,
            run(begin(cursor, queue), events.drop_last()),
            events.last(),
        );
    }
}

spec fn in_replay_order(queue: Seq<CommitView>, s: SessionView) -> bool {
    &&& commits_of(s.log) + unresolved(s) == queue
    &&& s.halt is Some ==> s.awaiting is Nothing
}

proof fn lemma_step_keeps_replay_order(queue: Seq<CommitView>, s: SessionView, e: EventView)
    requires
        in_replay_order(queue, s),
        e != EventView::Choice(ReviewChoice::Defer),
    ensures
        in_replay_order(queue, transition(s, e)),
{
    let t = transition(s, e);
    assert(commits_of(t.log) + unresolved(t) =~= commits_of(s.log) + unresolved(s));
}

/// As long as no commit is deferred, a run works through the queue in its
/// order: the commits dealt with, followed by those not dealt with, are the
/// queue it began with. So the cursor never stands on a commit that comes
/// after one that is still unresolved, be it queued, under review, or the
/// one whose conflict or failure ended the run.
pub proof fn lemma_replay_order(
    cursor: Option<Seq<char>>,
    queue: Seq<CommitView>,
    events: Seq<EventView>,
)
    requires
        without_defer(events),
    ensures
        commits_of(run(begin(cursor, queue), events).log) + unresolved(
            run(begin(cursor, queue), events),
        ) == queue,
        run(begin(cursor, queue), events).last_applied == cursor_after(
            cursor,
            run(begin(cursor, queue), events).log,
        ),
{
    lemma_replay_order_holds(cursor, queue, events);
    lemma_cursor_is_last_success(cursor, queue, events);
}

proof fn lemma_replay_order_holds(
    cursor: Option<Seq<char>>,
    queue: Seq<CommitView>,
    events: Seq<EventView>,
)
    requires
        without_defer(events),
    ensures
        in_replay_order(queue, run(begin(cursor, queue), events)),
    decreases events.len(),
{
    if events.len() == 0 {
        let s = begin(cursor, queue);
        assert(commits_of(s.log) + unresolved(s) =~= queue);
    } else {
        let front = events.drop_last();
        assert forall|i: int| 0 <= i < front.len() implies #[trigger] front[i]
            != EventView::Choice(ReviewChoice::Defer) by {
            assert(front[i] == events[i]);
        }
        lemma_replay_order_holds(cursor, queue, front);
        assert(events.last() == events[events.len() - 1]);
        lemma_step_keeps_replay_order(queue, run(begin(cursor, queue), front), events.last());
    }
}

/// All commits that a session holds, dealt with or not, as a multiset.
pub open spec fn all_commits(s: SessionView) -> Multiset<CommitView> {
    (commits_of(s.log) + unresolved(s)).to_multiset()
}

spec fn halted_is_finished(s: SessionView) -> bool {
    s.halt is Some ==> s.awaiting is Nothing
}

proof fn lemma_step_keeps_commits(s: SessionView, e: EventView)
    requires
        halted_is_finished(s),
    ensures
        halted_is_finished(transition(s, e)),
        all_commits(transition(s, e)) == all_commits(s),
{
    let t = transition(s, e);
    if e == EventView::Choice(ReviewChoice::Defer) && s.awaiting is Choice {
        let c = s.awaiting->Choice_0;
        let done = commits_of(s.log);
        assert(commits_of(t.log) == done);
        assert(unresolved(s) =~= seq![c] + s.queue);
        assert(unresolved(t) =~= s.queue + seq![c]);
        vstd::seq_lib::lemma_multiset_commutative(done, seq![c] + s.queue);
        vstd::seq_lib::lemma_multiset_commutative(done, s.queue + seq![c]);
        vstd::seq_lib::lemma_seq_union_to_multiset_commutative(seq![c], s.queue);
    } else {
        assert(commits_of(t.log) + unresolved(t) =~= commits_of(s.log) + unresolved(s));
    }
}

proof fn lemma_run_keeps_commits(
    cursor: Option<Seq<char>>,
    queue: Seq<CommitView>,
    events: Seq<EventView>,
)
    ensures
        halted_is_finished(run(begin(cursor, queue), events)),
        all_commits(run(begin(cursor, queue), events)) == queue.to_multiset(),
    decreases events.len(),
{
    if events.len() == 0 {
        let s = begin(cursor, queue);
        assert(commits_of(s.log) + unresolved(s) =~= queue);
    } else {
        lemma_run_keeps_commits(cursor, queue, events.drop_last());
        lemma_step_keeps_commits(run(begin(cursor, queue), events.drop_last()), events.last());
    }
}

/// Whatever happens in a run, no commit is lost and none is added:
/// the commits dealt with and those not dealt with are, taken together,
/// the commits of the queue the run began with. Deferring changes their
/// order and nothing else.
pub proof fn lemma_no_commit_is_lost(
    cursor: Option<Seq<char>>,
    queue: Seq<CommitView>,
    events: Seq<EventView>,
)
    ensures
        all_commits(run(begin(cursor, queue), events)) == queue.to_multiset(),
{
    lemma_run_keeps_commits(cursor, queue, events);
}

/// The events of a run in which the operator chooses to apply each of `n`
/// commits in turn and each apply succeeds.
pub open spec fn applying_each(n: nat) -> Seq<EventView>
    decreases n,
{
    if n == 0 {
        Seq::empty()
    } else {
        applying_each((n - 1) as nat).push(EventView::Choice(ReviewChoice::Apply)).push(
            EventView::Applied(Ok(ApplyView::Success)),
        )
    }
}

/// The log in which each of the commits was applied, in their order.
pub open spec fn applied_in_order(commits: Seq<CommitView>) -> Seq<ResolvedView> {
    Seq::new(
        commits.len(),
        |i: int| ResolvedView { commit: commits[i], disposition: Disposition::Applied },
    )
}

/// The session in which the first `k` commits of the queue have been
/// applied, one after the other, and nothing else has happened.
pub open spec fn after_successes(
    cursor: Option<Seq<char>>,
    queue: Seq<CommitView>,
    mode: Mode,
    k: nat,
) -> SessionView {
    SessionView {
        queue: if k < queue.len() {
            queue.skip(k as int + 1)
        } else {
            Seq::empty()
        },
        last_applied: if k == 0 {
            cursor
        } else {
            Some(queue[k - 1].hash)
        },
        mode: mode,
        awaiting: if k >= queue.len() {
            AwaitingView::Nothing
        } else if mode == Mode::ApplyAllMode {
            AwaitingView::Outcome(queue[k as int])
        } else {
            AwaitingView::Choice(queue[k as int])
        },
        log: applied_in_order(queue.take(k as int)),
        halt: None,
        failure: None,
        up_to_date: queue.len() == 0,
    }
}

proof fn lemma_one_more_success(
    cursor: Option<Seq<char>>,
    queue: Seq<CommitView>,
    mode: Mode,
    k: nat,
)
    requires
        k < queue.len(),
        mode != Mode::Quit,
    ensures
        transition(
            SessionView {
                awaiting: AwaitingView::Outcome(queue[k as int]),
                ..after_successes(cursor, queue, mode, k)
            },
            EventView::Applied(Ok(ApplyView::Success)),
        ) == after_successes(cursor, queue, mode, k + 1),
{
    let s = SessionView {
        awaiting: AwaitingView::Outcome(queue[k as int]),
        ..after_successes(cursor, queue, mode, k)
    };
    let t = transition(s, EventView::Applied(Ok(ApplyView::Success)));
    let u = after_successes(cursor, queue, mode, k + 1);
    assert(t.log =~= u.log);
    assert(t.queue =~= u.queue);
    assert(t =~= u);
}

proof fn lemma_after_applying_each(cursor: Option<Seq<char>>, queue: Seq<CommitView>, k: nat)
    requires
        k <= queue.len(),
    ensures
        run(begin(cursor, queue), applying_each(k)) == after_successes(
            cursor,
            queue,
            Mode::Reviewing,
            k,
        ),
    decreases k,
{
    if k == 0 {
        assert(begin(cursor, queue) =~= after_successes(cursor, queue, Mode::Reviewing, 0));
    } else {
        let j = (k - 1) as nat;
        lemma_after_applying_each(cursor, queue, j);
        let start = begin(cursor, queue);
        let chosen = applying_each(j).push(EventView::Choice(ReviewChoice::Apply));
        assert(chosen.drop_last() =~= applying_each(j));
        assert(applying_each(k).drop_last() =~= chosen);
        assert(run(start, chosen) == transition(run(start, applying_each(j)), chosen.last()));
        assert(run(start, chosen) == (SessionView {
            awaiting: AwaitingView::Outcome(queue[j as int]),
            ..after_successes(cursor, queue, Mode::Reviewing, j)
        }));
        assert(run(start, applying_each(k)) == transition(
            run(start, chosen),
            applying_each(k).last(),
        ));
        lemma_one_more_success(cursor, queue, Mode::Reviewing, j);
    }
}

/// When every commit of the queue is chosen for applying and every apply
/// succeeds, the run ends with an empty queue, the log holds the commits in
/// the order of the queue, and the cursor is the newest commit.
pub proof fn lemma_all_applied_reaches_newest(cursor: Option<Seq<char>>, queue: Seq<CommitView>)
    ensures
        ({
            let end = run(begin(cursor, queue), applying_each(queue.len()));
            &&& end.awaiting is Nothing
            &&& end.mode == Mode::Reviewing
            &&& end.halt is None
            &&& end.failure is None
            &&& end.queue.len() == 0
            &&& end.log == applied_in_order(queue)
            &&& end.last_applied == if queue.len() > 0 {
                Some(queue.last().hash)
            } else {
                cursor
            }
        }),
{
    lemma_after_applying_each(cursor, queue, queue.len());
    assert(queue.take(queue.len() as int) =~= queue);
}

/// The events of a run in which the operator chooses to apply all
/// remaining commits at the first one, and then `n` applies succeed.
pub open spec fn applying_all(n: nat) -> Seq<EventView>
    decreases n,
{
    if n == 0 {
        seq![EventView::Choice(ReviewChoice::ApplyAll)]
    } else {
        applying_all((n - 1) as nat).push(EventView::Applied(Ok(ApplyView::Success)))
    }
}

proof fn lemma_after_applying_all(cursor: Option<Seq<char>>, queue: Seq<CommitView>, k: nat)
    requires
        k <= queue.len(),
        queue.len() > 0,
    ensures
        run(begin(cursor, queue), applying_all(k)) == after_successes(
            cursor,
            queue,
            Mode::ApplyAllMode,
            k,
        ),
    decreases k,
{
    if k == 0 {
        let first = seq![EventView::Choice(ReviewChoice::ApplyAll)];
        assert(first.drop_last() =~= Seq::<EventView>::empty());
        assert(run(begin(cursor, queue), first.drop_last()) == begin(cursor, queue));
        assert(run(begin(cursor, queue), first) =~= after_successes(
            cursor,
            queue,
            Mode::ApplyAllMode,
            0,
        ));
    } else {
        let j = (k - 1) as nat;
        lemma_after_applying_all(cursor, queue, j);
        assert(applying_all(k).drop_last() =~= applying_all(j));
        lemma_one_more_success(cursor, queue, Mode::ApplyAllMode, j);
    }
}

/// When the operator asks at the first commit to apply all that remain and
/// every apply succeeds, the run ends with an empty queue, the log holds
/// the commits in the order of the queue, and the cursor is the newest commit.
pub proof fn lemma_apply_all_reaches_newest(cursor: Option<Seq<char>>, queue: Seq<CommitView>)
    requires
        queue.len() > 0,
    ensures
        ({
            let end = run(begin(cursor, queue), applying_all(queue.len()));
            &&& end.awaiting is Nothing
            &&& end.mode == Mode::ApplyAllMode
            &&& end.halt is None
            &&& end.failure is None
            &&& end.queue.len() == 0
            &&& end.log == applied_in_order(queue)
            &&& end.last_applied == Some(queue.last().hash)
        }),
{
    lemma_after_applying_all(cursor, queue, queue.len());
    assert(queue.take(queue.len() as int) =~= queue);
}

/// When the first `k` applies succeed and the next one ends in a conflict
/// or a failure, the run stops there: the cursor is the last commit that
/// was applied (or unchanged when `k` is 0), the halting commit is
/// recorded, and the commits after it stay in the queue untouched.
pub proof fn lemma_halt_keeps_cursor(
    cursor: Option<Seq<char>>,
    queue: Seq<CommitView>,
    k: nat,
    outcome: ApplyView,
)
    requires
        k < queue.len(),
        outcome != ApplyView::Success,
    ensures
        ({
            let end = run(
                begin(cursor, queue),
                applying_each(k).push(EventView::Choice(ReviewChoice::Apply)).push(
                    EventView::Applied(Ok(outcome)),
                ),
            );
            &&& end.awaiting is Nothing
            &&& end.mode == Mode::Quit
            &&& end.halt == Some(HaltView { commit: queue[k as int], outcome: outcome })
            &&& end.failure is None
            &&& end.last_applied == if k > 0 {
                Some(queue[k - 1].hash)
            } else {
                cursor
            }
            &&& end.log == applied_in_order(queue.take(k as int))
            &&& end.queue == queue.skip(k as int + 1)
        }),
{
    lemma_after_applying_each(cursor, queue, k);
    let start = begin(cursor, queue);
    let chosen = applying_each(k).push(EventView::Choice(ReviewChoice::Apply));
    let events = chosen.push(EventView::Applied(Ok(outcome)));
    assert(chosen.drop_last() =~= applying_each(k));
    assert(events.drop_last() =~= chosen);
    assert(run(start, chosen) == transition(run(start, applying_each(k)), chosen.last()));
    assert(run(start, events) == transition(run(start, chosen), events.last()));
}

/// A commit whose patch is empty advances the cursor: the apply of such a
/// commit succeeds without touching the public repository, and the
/// session that waits for it moves its cursor to that commit.
pub proof fn lemma_empty_patch_advances_cursor(
    config: &crate::ProjectConfig,
    s: SessionView,
    replies: Seq<crate::utils::LaunchView>,
)
    requires
        s.awaiting is Outcome,
        replies.len() >= 1,
        replies[0] matches crate::utils::LaunchView::Exited(out) && out.success && out.stdout.len()
            == 0,
    ensures
        ({
            let commit = s.awaiting->Outcome_0;
            &&& crate::update::apply(config, commit.hash, replies) == crate::utils::NextView::Done(
                Ok(ApplyView::Success),
            )
            &&& transition(s, EventView::Applied(Ok(ApplyView::Success))).last_applied == Some(
                commit.hash,
            )
        }),
{
}

/// What a run leaves behind for its caller.
#[derive(Debug)]
pub struct RunSummary {
    /// The cursor to persist.
    pub final_cursor: Option<String>,
    /// The commits that were passed over, in the order in which that happened.
    pub skipped: Vec<CommitInfo>,
    /// The commits that were applied, in the order in which that happened.
    pub applied: Vec<CommitInfo>,
    /// `Quit` where the run was ended before the queue was empty.
    pub mode: Mode,
    /// The conflict or failure that ended the run, if one did.
    pub halt: Option<Halt>,
    /// The error of an apply that could not be attempted, if there was one.
    pub failure: Option<PorterError>,
    /// Whether there was nothing to review when the run began.
    pub up_to_date: bool,
}

/// The mathematical content of a [`RunSummary`].
#[verifier::ext_equal]
pub struct SummaryView {
    pub final_cursor: Option<Seq<char>>,
    pub skipped: Seq<CommitView>,
    pub applied: Seq<CommitView>,
    pub mode: Mode,
    pub halt: Option<HaltView>,
    pub failure: Option<ErrorView>,
    pub up_to_date: bool,
}

impl DeepView for RunSummary {
    type V = SummaryView;

    open spec fn deep_view(&self) -> SummaryView {
        SummaryView {
            final_cursor: self.final_cursor.deep_view(),
            skipped: self.skipped.deep_view(),
            applied: self.applied.deep_view(),
            mode: self.mode,
            halt: self.halt.deep_view(),
            failure: self.failure.deep_view(),
            up_to_date: self.up_to_date,
        }
    }
}

/// The commits of a log that left the review in the given way.
pub open spec fn with_disposition(log: Seq<ResolvedView>, d: Disposition) -> Seq<CommitView> {
    commits_of(log.filter(|r: ResolvedView| r.disposition == d))
}

/// The summary of a session. Its cursor is the session's cursor, whatever
/// else happened: an apply that could not be attempted is reported beside
/// the cursor and does not take its place.
pub open spec fn summary(s: SessionView) -> SummaryView {
    SummaryView {
        final_cursor: s.last_applied,
        skipped: with_disposition(s.log, Disposition::Skipped),
        applied: with_disposition(s.log, Disposition::Applied),
        mode: s.mode,
        halt: s.halt,
        failure: s.failure,
        up_to_date: s.up_to_date,
    }
}

proof fn lemma_with_disposition_push(log: Seq<ResolvedView>, r: ResolvedView, d: Disposition)
    ensures
        with_disposition(log.push(r), d) == if r.disposition == d {
            with_disposition(log, d).push(r.commit)
        } else {
            with_disposition(log, d)
        },
{
    let pred = |x: ResolvedView| x.disposition == d;
    log.lemma_filter_push(r, pred);
    if r.disposition == d {
        assert(commits_of(log.filter(pred).push(r)) =~= commits_of(log.filter(pred)).push(
            r.commit,
        ));
    }
}

impl ReviewSession {
    /// Ends the session and yields what is to be reported and persisted.
    pub fn conclude(self) -> (r: RunSummary)
        ensures
            r.deep_view() == summary(self.deep_view()),
            r.deep_view().final_cursor == self.deep_view().last_applied,
    {
        let ReviewSession {
            queue,
            last_applied,
            mode,
            awaiting,
            log,
            halt,
            failure,
            up_to_date,
        } = self;
        let ghost whole = log.deep_view();
        let mut skipped: Vec<CommitInfo> = Vec::new();
        let mut applied: Vec<CommitInfo> = Vec::new();
        assert(whole.take(0) =~= Seq::<ResolvedView>::empty());
        assert(skipped.deep_view() =~= with_disposition(whole.take(0), Disposition::Skipped));
        assert(applied.deep_view() =~= with_disposition(whole.take(0), Disposition::Applied));
        for entry in it: log
            invariant
                whole == log.deep_view(),
                it.seq() == log@,
                skipped.deep_view() == with_disposition(
                    whole.take(it.index() as int),
                    Disposition::Skipped,
                ),
                applied.deep_view() == with_disposition(
                    whole.take(it.index() as int),
                    Disposition::Applied,
                ),
        {
            let ghost i = it.index() as int;
            let ghost before_skipped = skipped.deep_view();
            let ghost before_applied = applied.deep_view();
            proof {
                assert(whole.take(i + 1) =~= whole.take(i).push(entry.deep_view()));
                lemma_with_disposition_push(whole.take(i), entry.deep_view(), Disposition::Skipped);
                lemma_with_disposition_push(whole.take(i), entry.deep_view(), Disposition::Applied);
            }
            let Resolved { commit, disposition } = entry;
            match disposition {
                Disposition::Skipped => {
                    skipped.push(commit);
                    assert(skipped.deep_view() =~= before_skipped.push(commit.deep_view()));
                },
                Disposition::Applied => {
                    applied.push(commit);
                    assert(applied.deep_view() =~= before_applied.push(commit.deep_view()));
                },
            }
        }
        assert(whole.take(whole.len() as int) =~= whole);
        RunSummary {
            final_cursor: last_applied,
            skipped,
            applied,
            mode,
            halt,
            failure,
            up_to_date,
        }
    }
}


/// Whatever happened in a run, its summary carries the cursor of the last
/// apply that succeeded, or the cursor the run began with if none did; an
/// apply that could not be attempted does not change that. The summary
/// says that there was nothing to review exactly when the queue was empty.
pub proof fn lemma_summary_carries_last_success(
    cursor: Option<Seq<char>>,
    queue: Seq<CommitView>,
    events: Seq<EventView>,
)
    ensures
        summary(run(begin(cursor, queue), events)).final_cursor == cursor_after(
            cursor,
            run(begin(cursor, queue), events).log,
        ),
        summary(run(begin(cursor, queue), events)).up_to_date == (queue.len() == 0),
        queue.len() == 0 ==> summary(run(begin(cursor, queue), events)).final_cursor == cursor,
    decreases events.len(),
{
    lemma_cursor_is_last_success(cursor, queue, events);
    if events.len() > 0 {
        lemma_summary_carries_last_success(cursor, queue, events.drop_last());
    }
    if queue.len() == 0 {
        assert(queue =~= Seq::<CommitView>::empty());
        lemma_run_of_nothing(cursor, events);
    }
}

proof fn lemma_run_of_nothing(cursor: Option<Seq<char>>, events: Seq<EventView>)
    ensures
        run(begin(cursor, Seq::empty()), events) == begin(cursor, Seq::empty()),
    decreases events.len(),
{
    if events.len() > 0 {
        lemma_run_of_nothing(cursor, events.drop_last());
    }
}

/// The cursor that a run needs to begin with. A project that has never
/// been synchronized has none, and cannot be updated.
pub fn require_cursor(cursor: Option<String>) -> (r: Result<String, PorterError>)
    ensures
        match cursor {
            Some(id) => r == Ok::<String, PorterError>(id),
            None => r matches Err(e) && e.deep_view() == ErrorView::Config(
                "Missing initial sync state."@,
            ),
        },
{
    match cursor {
        Some(id) => Ok(id),
        None => Err(PorterError::Config(crate::text::owned("Missing initial sync state."))),
    }
}

/// How a run ended, once nothing is left to do.
#[derive(Debug)]
pub enum Ending {
    /// There was nothing to review; nothing was written.
    UpToDate,
    /// The cursor was written and the operator declined to commit it.
    NotCommitted,
    /// The cursor was written and committed.
    Committed,
    /// The cursor was written; committing it failed with this error, which
    /// is reported and does not fail the run.
    CommitFailed(PorterError),
}

/// The mathematical content of an [`Ending`].
pub enum EndingView {
    UpToDate,
    NotCommitted,
    Committed,
    CommitFailed(ErrorView),
}

impl DeepView for Ending {
    type V = EndingView;

    open spec fn deep_view(&self) -> EndingView {
        match self {
            Ending::UpToDate => EndingView::UpToDate,
            Ending::NotCommitted => EndingView::NotCommitted,
            Ending::Committed => EndingView::Committed,
            Ending::CommitFailed(e) => EndingView::CommitFailed(e.deep_view()),
        }
    }
}

/// What is to be done next once the review is over.
#[derive(Debug)]
pub enum Closing {
    /// Write this cursor to the record.
    WriteCursor(Option<String>),
    /// Ask the operator whether the record with this cursor is to be committed.
    AskToCommit(Option<String>),
    /// Commit the record with this cursor.
    CommitRecord(Option<String>),
    /// Nothing: the run is over, with this result.
    Done(Result<Ending, PorterError>),
}

/// The mathematical content of a [`Closing`].
pub enum ClosingView {
    WriteCursor(Option<Seq<char>>),
    AskToCommit(Option<Seq<char>>),
    CommitRecord(Option<Seq<char>>),
    Done(Result<EndingView, ErrorView>),
}

impl DeepView for Closing {
    type V = ClosingView;

    open spec fn deep_view(&self) -> ClosingView {
        match self {
            Closing::WriteCursor(c) => ClosingView::WriteCursor(c.deep_view()),
            Closing::AskToCommit(c) => ClosingView::AskToCommit(c.deep_view()),
            Closing::CommitRecord(c) => ClosingView::CommitRecord(c.deep_view()),
            Closing::Done(Ok(e)) => ClosingView::Done(Ok(e.deep_view())),
            Closing::Done(Err(e)) => ClosingView::Done(Err(e.deep_view())),
        }
    }
}

/// The content of what is known of a step that may not have been taken yet.
pub open spec fn attempt_view(a: Option<Result<(), PorterError>>) -> Option<Result<(), ErrorView>> {
    match a {
        None => None,
        Some(Ok(_)) => Some(Ok(())),
        Some(Err(e)) => Some(Err(e.deep_view())),
    }
}

/// The next move once the review is over, given what has been done since:
/// how the write of the cursor ended, what the operator answered, and how
/// the commit of the record ended, each absent as long as it has not happened.
///
/// Where there was nothing to review, the run is over and nothing is
/// written. Otherwise the cursor is written first, whatever happened in
/// the review. A failed write ends the run with its error, before anything
/// is offered. After the write, an apply that could not be attempted ends
/// the run with its error. Otherwise the operator is asked whether to
/// commit the record; a declined commit and a failed commit both end the
/// run successfully.
pub open spec fn closing(
    summary: SummaryView,
    written: Option<Result<(), ErrorView>>,
    commit_wanted: Option<bool>,
    committed: Option<Result<(), ErrorView>>,
) -> ClosingView {
    if summary.up_to_date {
        ClosingView::Done(Ok(EndingView::UpToDate))
    } else {
        match written {
            None => ClosingView::WriteCursor(summary.final_cursor),
            Some(Err(e)) => ClosingView::Done(Err(e)),
            Some(Ok(_)) => match summary.failure {
                Some(e) => ClosingView::Done(Err(e)),
                None => match commit_wanted {
                    None => ClosingView::AskToCommit(summary.final_cursor),
                    Some(false) => ClosingView::Done(Ok(EndingView::NotCommitted)),
                    Some(true) => match committed {
                        None => ClosingView::CommitRecord(summary.final_cursor),
                        Some(Ok(_)) => ClosingView::Done(Ok(EndingView::Committed)),
                        Some(Err(e)) => ClosingView::Done(Ok(EndingView::CommitFailed(e))),
                    },
                },
            },
        }
    }
}

fn copy_of(cursor: &Option<String>) -> (r: Option<String>)
    ensures
        r.deep_view() == cursor.deep_view(),
{
    match cursor {
        Some(id) => Some(id.clone()),
        None => None,
    }
}

/// The next move once the review is over: see [`closing`].
pub fn closing_step(
    summary: &RunSummary,
    written: &Option<Result<(), PorterError>>,
    commit_wanted: Option<bool>,
    committed: &Option<Result<(), PorterError>>,
) -> (r: Closing)
    ensures
        r.deep_view() == closing(
            summary.deep_view(),
            attempt_view(*written),
            commit_wanted,
            attempt_view(*committed),
        ),
{
    if summary.up_to_date {
        return Closing::Done(Ok(Ending::UpToDate));
    }
    match written {
        None => {
            return Closing::WriteCursor(copy_of(&summary.final_cursor));
        },
        Some(Err(e)) => {
            return Closing::Done(Err(e.duplicate()));
        },
        Some(Ok(_)) => {},
    }
    match &summary.failure {
        Some(e) => {
            return Closing::Done(Err(e.duplicate()));
        },
        None => {},
    }
    match commit_wanted {
        None => Closing::AskToCommit(copy_of(&summary.final_cursor)),
        Some(false) => Closing::Done(Ok(Ending::NotCommitted)),
        Some(true) => match committed {
            None => Closing::CommitRecord(copy_of(&summary.final_cursor)),
            Some(Ok(_)) => Closing::Done(Ok(Ending::Committed)),
            Some(Err(e)) => Closing::Done(Ok(Ending::CommitFailed(e.duplicate()))),
        },
    }
}

/// The cursor is written before the run can end, unless there was nothing
/// to review: as long as the write has not happened, the next move is to
/// write the summary's cursor, whatever else is known.
pub proof fn lemma_cursor_is_written_first(
    summary: SummaryView,
    commit_wanted: Option<bool>,
    committed: Option<Result<(), ErrorView>>,
)
    requires
        !summary.up_to_date,
    ensures
        closing(summary, None, commit_wanted, committed) == ClosingView::WriteCursor(
            summary.final_cursor,
        ),
{
}

/// A failed write ends the run with its error before any offer is made,
/// and neither a declined nor a failed commit fails the run: the run ends
/// in an error only where the write failed, or where an apply could not
/// be attempted and the cursor had been written.
pub proof fn lemma_closing_results(
    summary: SummaryView,
    written: Option<Result<(), ErrorView>>,
    commit_wanted: Option<bool>,
    committed: Option<Result<(), ErrorView>>,
)
    requires
        !summary.up_to_date,
    ensures
        written is Some && written->0 is Err ==> closing(summary, written, commit_wanted, committed)
            == ClosingView::Done(Err(written->0->Err_0)),
        written is Some && written->0 is Ok && summary.failure is None && commit_wanted == Some(
            false,
        ) ==> closing(summary, written, commit_wanted, committed) == ClosingView::Done(
            Ok(EndingView::NotCommitted),
        ),
        written is Some && written->0 is Ok && summary.failure is None && commit_wanted == Some(
            true,
        ) && committed is Some && committed->0 is Err ==> closing(
            summary,
            written,
            commit_wanted,
            committed,
        ) == ClosingView::Done(Ok(EndingView::CommitFailed(committed->0->Err_0))),
        closing(summary, written, commit_wanted, committed) is Done && closing(
            summary,
            written,
            commit_wanted,
            committed,
        )->Done_0 is Err ==> (written is Some && written->0 is Err) || (written is Some
            && written->0 is Ok && summary.failure is Some),
{
}


/// Whatever happens in a run that had something to review, the first move
/// after it is to write the cursor of the last apply that succeeded, or
/// the cursor the run began with if none did. A run that had nothing to
/// review writes nothing, so the cursor stays as it was.
pub proof fn lemma_run_persists_last_success(
    cursor: Option<Seq<char>>,
    queue: Seq<CommitView>,
    events: Seq<EventView>,
    commit_wanted: Option<bool>,
    committed: Option<Result<(), ErrorView>>,
)
    ensures
        queue.len() > 0 ==> closing(
            summary(run(begin(cursor, queue), events)),
            None,
            commit_wanted,
            committed,
        ) == ClosingView::WriteCursor(
            cursor_after(cursor, run(begin(cursor, queue), events).log),
        ),
        queue.len() == 0 ==> closing(
            summary(run(begin(cursor, queue), events)),
            None,
            commit_wanted,
            committed,
        ) == ClosingView::Done(Ok(EndingView::UpToDate)),
{
    lemma_summary_carries_last_success(cursor, queue, events);
}

} // verus!
