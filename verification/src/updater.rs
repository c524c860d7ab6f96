use vstd::prelude::*;
use crate::outcome::{ErrorKind, Outcome};

verus! {

/// A commit identifier, held as plain integers so that the update logic can
/// compare identifiers without consulting the git engine. A 20-byte object
/// id fits in the 160 bits of `hi` and `lo`.
#[derive(Clone, Copy, PartialEq, Eq, Structural, Debug)]
pub struct CommitId {
    pub hi: u128,
    pub lo: u32,
}

/// What the git engine reported back for the step the machine asked for.
/// A `StepFailed` event may arrive in any non-terminal state; every other
/// event answers exactly one action.
#[derive(Clone, Copy, PartialEq, Eq, Structural, Debug)]
pub enum RepoEvent {
    /// The repository opened.
    Opened,
    /// The working-tree status query finished; `clean` is true when the
    /// status list (untracked files included, ignored files excluded) is
    /// empty.
    StatusChecked { clean: bool },
    /// HEAD resolved to a commit.
    HeadResolved { id: CommitId },
    /// The fetch of the `origin` remote finished.
    Fetched,
    /// Upstream resolution finished; `None` means the current branch has no
    /// configured upstream.
    UpstreamResolved { upstream: Option<CommitId> },
    /// HEAD's target was moved to the upstream commit.
    TargetSet,
    /// The working tree was force-checked-out to match HEAD.
    CheckedOut,
    /// The tree-to-tree diff between the old and new commits counted this
    /// many changed file entries.
    DiffCounted { files_changed: usize },
    /// The step the machine asked for failed.
    StepFailed,
}

/// The per-repository update sequence, one state per step. Each task walks
/// these states strictly in order; no step is retried.
#[derive(Clone, Copy, PartialEq, Eq, Structural, Debug)]
pub enum UpdateState {
    /// Opening the repository at the task's path.
    Opening,
    /// Querying working-tree status, untracked files included.
    CheckingClean,
    /// Reading the commit the current HEAD points at.
    ResolvingHead,
    /// Fetching the `origin` remote.
    Fetching { old_id: CommitId },
    /// Resolving the current branch's configured upstream to a commit.
    ResolvingUpstream { old_id: CommitId },
    /// Moving HEAD's target forward to the upstream commit.
    FastForwarding { old_id: CommitId, new_id: CommitId },
    /// Force-checking-out the working tree to match the moved HEAD.
    CheckingOut { old_id: CommitId, new_id: CommitId },
    /// Counting changed file entries between the old and new trees.
    CountingDiff { old_id: CommitId, new_id: CommitId },
    /// Terminal: the task's outcome is decided.
    Done { outcome: Outcome },
}

/// What the machine asks the git engine to do next in a given state.
#[derive(Clone, Copy, PartialEq, Eq, Structural, Debug)]
pub enum RepoAction {
    /// Open the repository at the task's path.
    Open,
    /// Query working-tree status, untracked files included, ignored files
    /// excluded.
    QueryStatus,
    /// Read the commit id the current HEAD points at.
    ResolveHead,
    /// Fetch the `origin` remote's HEAD ref, authenticating with an
    /// ssh-agent identity (username defaulting to `git`).
    Fetch,
    /// Resolve the current branch's configured upstream to a commit id.
    ResolveUpstream,
    /// Move HEAD's target to `new_id` as a fast-forward.
    SetHeadTarget { new_id: CommitId },
    /// Force-checkout the working tree to match HEAD.
    ForceCheckout,
    /// Count the file entries differing between the trees at the two
    /// commits.
    CountDiff { old_id: CommitId, new_id: CommitId },
    /// The task is finished; report the outcome.
    Finish { outcome: Outcome },
}

/// The error an engine failure maps to, by the step it interrupted.
/// Resolving the current HEAD reference is part of upstream resolution:
/// it identifies the branch whose upstream is sought.
pub open spec fn spec_failure_kind(s: UpdateState) -> ErrorKind {
    match s {
        UpdateState::Opening => ErrorKind::OpenFailed,
        UpdateState::CheckingClean => ErrorKind::StatusQueryFailed,
        UpdateState::ResolvingHead => ErrorKind::UpstreamResolutionFailed,
        UpdateState::Fetching { .. } => ErrorKind::FetchFailed,
        UpdateState::ResolvingUpstream { .. } => ErrorKind::UpstreamResolutionFailed,
        UpdateState::FastForwarding { .. } => ErrorKind::ReferenceUpdateFailed,
        UpdateState::CheckingOut { .. } => ErrorKind::CheckoutFailed,
        UpdateState::CountingDiff { .. } => ErrorKind::DiffFailed,
        UpdateState::Done { .. } => ErrorKind::OpenFailed,
    }
}

/// Whether an event is the answer the machine expects in a state. A
/// `StepFailed` event fits every non-terminal state; a terminal state
/// expects no event at all.
pub open spec fn spec_expects(s: UpdateState, e: RepoEvent) -> bool {
    if s is Done {
        false
    } else if e is StepFailed {
        true
    } else {
        match (s, e) {
            (UpdateState::Opening, RepoEvent::Opened) => true,
            (UpdateState::CheckingClean, RepoEvent::StatusChecked { .. }) => true,
            (UpdateState::ResolvingHead, RepoEvent::HeadResolved { .. }) => true,
            (UpdateState::Fetching { .. }, RepoEvent::Fetched) => true,
            (UpdateState::ResolvingUpstream { .. }, RepoEvent::UpstreamResolved { .. }) => true,
            (UpdateState::FastForwarding { .. }, RepoEvent::TargetSet) => true,
            (UpdateState::CheckingOut { .. }, RepoEvent::CheckedOut) => true,
            (UpdateState::CountingDiff { .. }, RepoEvent::DiffCounted { .. }) => true,
            _ => false,
        }
    }
}

/// One transition of the update sequence. An event that does not answer the
/// current state's action leaves the state unchanged; a terminal state
/// absorbs every event.
pub open spec fn spec_step(s: UpdateState, e: RepoEvent) -> UpdateState {
    if !spec_expects(s, e) {
        s
    } else if e is StepFailed {
        UpdateState::Done { outcome: Outcome::Error { kind: spec_failure_kind(s) } }
    } else {
        match (s, e) {
            (UpdateState::Opening, RepoEvent::Opened) => UpdateState::CheckingClean,
            (UpdateState::CheckingClean, RepoEvent::StatusChecked { clean }) => if clean {
                UpdateState::ResolvingHead
            } else {
                UpdateState::Done { outcome: Outcome::Unclean }
            },
            (UpdateState::ResolvingHead, RepoEvent::HeadResolved { id }) => UpdateState::Fetching {
                old_id: id,
            },
            (UpdateState::Fetching { old_id }, RepoEvent::Fetched) => UpdateState::ResolvingUpstream {
                old_id,
            },
            (
                UpdateState::ResolvingUpstream { old_id },
                RepoEvent::UpstreamResolved { upstream },
            ) => match upstream {
                None => UpdateState::Done { outcome: Outcome::NoUpstream },
                Some(new_id) => if new_id == old_id {
                    UpdateState::Done { outcome: Outcome::UpToDate }
                } else {
                    UpdateState::FastForwarding { old_id, new_id }
                },
            },
            (
                UpdateState::FastForwarding { old_id, new_id },
                RepoEvent::TargetSet,
            ) => UpdateState::CheckingOut { old_id, new_id },
            (
                UpdateState::CheckingOut { old_id, new_id },
                RepoEvent::CheckedOut,
            ) => UpdateState::CountingDiff { old_id, new_id },
            (
                UpdateState::CountingDiff { .. },
                RepoEvent::DiffCounted { files_changed },
            ) => UpdateState::Done { outcome: Outcome::Updated { files_changed } },
            _ => s,
        }
    }
}

/// The action the machine asks for in a state.
pub open spec fn spec_action(s: UpdateState) -> RepoAction {
    match s {
        UpdateState::Opening => RepoAction::Open,
        UpdateState::CheckingClean => RepoAction::QueryStatus,
        UpdateState::ResolvingHead => RepoAction::ResolveHead,
        UpdateState::Fetching { .. } => RepoAction::Fetch,
        UpdateState::ResolvingUpstream { .. } => RepoAction::ResolveUpstream,
        UpdateState::FastForwarding { new_id, .. } => RepoAction::SetHeadTarget { new_id },
        UpdateState::CheckingOut { .. } => RepoAction::ForceCheckout,
        UpdateState::CountingDiff { old_id, new_id } => RepoAction::CountDiff { old_id, new_id },
        UpdateState::Done { outcome } => RepoAction::Finish { outcome },
    }
}

/// Whether an action writes to the repository beyond the fetch itself
/// (which only updates remote-tracking refs). Only the fast-forward path
/// moves HEAD or touches the working tree.
pub open spec fn spec_mutates_repo(a: RepoAction) -> bool {
    match a {
        RepoAction::SetHeadTarget { .. } => true,
        RepoAction::ForceCheckout => true,
        _ => false,
    }
}

/// The state after feeding a whole event trace to the machine, in order:
/// the fold of `spec_step` over the trace.
pub open spec fn spec_run_from(s: UpdateState, trace: Seq<RepoEvent>) -> UpdateState
    decreases trace.len(),
{
    if trace.len() == 0 {
        s
    } else {
        spec_step(spec_run_from(s, trace.drop_last()), trace.last())
    }
}

/// The state a fresh task reaches on an event trace.
pub open spec fn spec_run(trace: Seq<RepoEvent>) -> UpdateState {
    spec_run_from(UpdateState::Opening, trace)
}

/// The update state machine's initial state for a freshly dequeued task.
pub fn initial_state() -> (s: UpdateState)
    ensures
        s == UpdateState::Opening,
{
    UpdateState::Opening
}

/// Advances the update sequence by one observed event.
pub fn step(s: &UpdateState, e: &RepoEvent) -> (next: UpdateState)
    ensures
        next == spec_step(*s, *e),
{
    if matches!(s, UpdateState::Done { .. }) {
        return *s;
    }
    match e {
        RepoEvent::StepFailed => UpdateState::Done {
            outcome: Outcome::Error { kind: failure_kind(s) },
        },
        RepoEvent::Opened => match s {
            UpdateState::Opening => UpdateState::CheckingClean,
            _ => *s,
        },
        RepoEvent::StatusChecked { clean } => match s {
            UpdateState::CheckingClean => if *clean {
                UpdateState::ResolvingHead
            } else {
                UpdateState::Done { outcome: Outcome::Unclean }
            },
            _ => *s,
        },
        RepoEvent::HeadResolved { id } => match s {
            UpdateState::ResolvingHead => UpdateState::Fetching { old_id: *id },
            _ => *s,
        },
        RepoEvent::Fetched => match s {
            UpdateState::Fetching { old_id } => UpdateState::ResolvingUpstream { old_id: *old_id },
            _ => *s,
        },
        RepoEvent::UpstreamResolved { upstream } => match s {
            UpdateState::ResolvingUpstream { old_id } => match upstream {
                None => UpdateState::Done { outcome: Outcome::NoUpstream },
                Some(new_id) => if new_id == old_id {
                    UpdateState::Done { outcome: Outcome::UpToDate }
                } else {
                    UpdateState::FastForwarding { old_id: *old_id, new_id: *new_id }
                },
            },
            _ => *s,
        },
        RepoEvent::TargetSet => match s {
            UpdateState::FastForwarding { old_id, new_id } => UpdateState::CheckingOut {
                old_id: *old_id,
                new_id: *new_id,
            },
            _ => *s,
        },
        RepoEvent::CheckedOut => match s {
            UpdateState::CheckingOut { old_id, new_id } => UpdateState::CountingDiff {
                old_id: *old_id,
                new_id: *new_id,
            },
            _ => *s,
        },
        RepoEvent::DiffCounted { files_changed } => match s {
            UpdateState::CountingDiff { .. } => UpdateState::Done {
                outcome: Outcome::Updated { files_changed: *files_changed },
            },
            _ => *s,
        },
    }
}

/// The error kind an engine failure in state `s` maps to.
pub fn failure_kind(s: &UpdateState) -> (k: ErrorKind)
    ensures
        k == spec_failure_kind(*s),
{
    match s {
        UpdateState::Opening => ErrorKind::OpenFailed,
        UpdateState::CheckingClean => ErrorKind::StatusQueryFailed,
        UpdateState::ResolvingHead => ErrorKind::UpstreamResolutionFailed,
        UpdateState::Fetching { .. } => ErrorKind::FetchFailed,
        UpdateState::ResolvingUpstream { .. } => ErrorKind::UpstreamResolutionFailed,
        UpdateState::FastForwarding { .. } => ErrorKind::ReferenceUpdateFailed,
        UpdateState::CheckingOut { .. } => ErrorKind::CheckoutFailed,
        UpdateState::CountingDiff { .. } => ErrorKind::DiffFailed,
        UpdateState::Done { .. } => ErrorKind::OpenFailed,
    }
}

/// The action the engine performs next for a repository in state `s`.
pub fn next_action(s: &UpdateState) -> (a: RepoAction)
    ensures
        a == spec_action(*s),
{
    match s {
        UpdateState::Opening => RepoAction::Open,
        UpdateState::CheckingClean => RepoAction::QueryStatus,
        UpdateState::ResolvingHead => RepoAction::ResolveHead,
        UpdateState::Fetching { .. } => RepoAction::Fetch,
        UpdateState::ResolvingUpstream { .. } => RepoAction::ResolveUpstream,
        UpdateState::FastForwarding { new_id, .. } => RepoAction::SetHeadTarget { new_id: *new_id },
        UpdateState::CheckingOut { .. } => RepoAction::ForceCheckout,
        UpdateState::CountingDiff { old_id, new_id } => RepoAction::CountDiff {
            old_id: *old_id,
            new_id: *new_id,
        },
        UpdateState::Done { outcome } => RepoAction::Finish { outcome: *outcome },
    }
}

/// One prefix step of a run: the state after `n + 1` events is one
/// transition past the state after `n` events.
pub proof fn lemma_run_take_step(trace: Seq<RepoEvent>, n: int)
    requires
        0 <= n < trace.len(),
    ensures
        spec_run(trace.take(n + 1)) == spec_step(spec_run(trace.take(n)), trace[n]),
{
    assert(trace.take(n + 1).drop_last() =~= trace.take(n));
    assert(trace.take(n + 1).last() == trace[n]);
}

/// The events of a repository whose working tree is clean and whose
/// upstream already equals its HEAD commit.
pub open spec fn spec_settled_trace(id: CommitId) -> Seq<RepoEvent> {
    seq![
        RepoEvent::Opened,
        RepoEvent::StatusChecked { clean: true },
        RepoEvent::HeadResolved { id },
        RepoEvent::Fetched,
        RepoEvent::UpstreamResolved { upstream: Some(id) },
    ]
}

/// The events of a repository whose current branch has no configured
/// upstream.
pub open spec fn spec_no_upstream_trace(id: CommitId) -> Seq<RepoEvent> {
    seq![
        RepoEvent::Opened,
        RepoEvent::StatusChecked { clean: true },
        RepoEvent::HeadResolved { id },
        RepoEvent::Fetched,
        RepoEvent::UpstreamResolved { upstream: None },
    ]
}

/// The events of a repository whose status query reports local changes,
/// an untracked file included.
pub open spec fn spec_unclean_trace() -> Seq<RepoEvent> {
    seq![RepoEvent::Opened, RepoEvent::StatusChecked { clean: false }]
}

/// The events of a clean repository whose upstream has moved to `new_id`,
/// whose fast-forward and checkout succeed, and whose tree diff counts
/// `files_changed` changed file entries.
pub open spec fn spec_update_trace(
    old_id: CommitId,
    new_id: CommitId,
    files_changed: usize,
) -> Seq<RepoEvent> {
    seq![
        RepoEvent::Opened,
        RepoEvent::StatusChecked { clean: true },
        RepoEvent::HeadResolved { id: old_id },
        RepoEvent::Fetched,
        RepoEvent::UpstreamResolved { upstream: Some(new_id) },
        RepoEvent::TargetSet,
        RepoEvent::CheckedOut,
        RepoEvent::DiffCounted { files_changed },
    ]
}

/// Idempotence of a task: a repository that is clean and already at its
/// upstream commit ends up-to-date, and no point of the run asks the engine
/// to move HEAD or touch the working tree. A second engine run over
/// repositories the first run fast-forwarded sees exactly such tasks.
pub proof fn lemma_settled_repo_up_to_date(id: CommitId)
    ensures
        spec_run(spec_settled_trace(id)) == (UpdateState::Done { outcome: Outcome::UpToDate }),
        forall|n: int|
            0 <= n <= spec_settled_trace(id).len() ==> !spec_mutates_repo(
                spec_action(#[trigger] spec_run(spec_settled_trace(id).take(n))),
            ),
{
    let t = spec_settled_trace(id);
    assert(t.take(0) =~= Seq::<RepoEvent>::empty());
    assert(spec_run(t.take(0)) == UpdateState::Opening);
    lemma_run_take_step(t, 0);
    lemma_run_take_step(t, 1);
    lemma_run_take_step(t, 2);
    lemma_run_take_step(t, 3);
    lemma_run_take_step(t, 4);
    assert(spec_run(t.take(5)) == (UpdateState::Done { outcome: Outcome::UpToDate }));
    assert(t.take(5) =~= t);
    assert forall|n: int| 0 <= n <= t.len() implies !spec_mutates_repo(
        spec_action(spec_run(t.take(n))),
    ) by {
        if n == 0 {
        } else if n == 1 {
        } else if n == 2 {
        } else if n == 3 {
        } else if n == 4 {
        } else {
            assert(n == 5);
        }
    }
}

/// No-upstream handling: a clean repository whose branch has no configured
/// upstream ends in the no-upstream outcome, and no point of the run asks
/// the engine to move HEAD or touch the working tree — the fetch alone,
/// which only updates remote-tracking refs, has run.
pub proof fn lemma_no_upstream_leaves_tree_alone(id: CommitId)
    ensures
        spec_run(spec_no_upstream_trace(id)) == (UpdateState::Done {
            outcome: Outcome::NoUpstream,
        }),
        forall|n: int|
            0 <= n <= spec_no_upstream_trace(id).len() ==> !spec_mutates_repo(
                spec_action(#[trigger] spec_run(spec_no_upstream_trace(id).take(n))),
            ),
{
    let t = spec_no_upstream_trace(id);
    assert(t.take(0) =~= Seq::<RepoEvent>::empty());
    assert(spec_run(t.take(0)) == UpdateState::Opening);
    lemma_run_take_step(t, 0);
    lemma_run_take_step(t, 1);
    lemma_run_take_step(t, 2);
    lemma_run_take_step(t, 3);
    lemma_run_take_step(t, 4);
    assert(spec_run(t.take(5)) == (UpdateState::Done { outcome: Outcome::NoUpstream }));
    assert(t.take(5) =~= t);
    assert forall|n: int| 0 <= n <= t.len() implies !spec_mutates_repo(
        spec_action(spec_run(t.take(n))),
    ) by {
        if n == 0 {
        } else if n == 1 {
        } else if n == 2 {
        } else if n == 3 {
        } else if n == 4 {
        } else {
            assert(n == 5);
        }
    }
}

/// Unclean detection: a repository whose status reports local changes ends
/// unclean at once; the run never asks the engine to fetch, move HEAD, or
/// touch the working tree.
pub proof fn lemma_unclean_detected()
    ensures
        spec_run(spec_unclean_trace()) == (UpdateState::Done { outcome: Outcome::Unclean }),
        forall|n: int|
            0 <= n <= spec_unclean_trace().len() ==> {
                let a = spec_action(#[trigger] spec_run(spec_unclean_trace().take(n)));
                !spec_mutates_repo(a) && a != RepoAction::Fetch
            },
{
    let t = spec_unclean_trace();
    assert(t.take(0) =~= Seq::<RepoEvent>::empty());
    assert(spec_run(t.take(0)) == UpdateState::Opening);
    lemma_run_take_step(t, 0);
    lemma_run_take_step(t, 1);
    assert(spec_run(t.take(2)) == (UpdateState::Done { outcome: Outcome::Unclean }));
    assert(t.take(2) =~= t);
    assert forall|n: int| 0 <= n <= t.len() implies {
        let a = spec_action(#[trigger] spec_run(t.take(n)));
        !spec_mutates_repo(a) && a != RepoAction::Fetch
    } by {
        if n == 0 {
        } else if n == 1 {
        } else {
            assert(n == 2);
        }
    }
}

/// Fast-forward correctness: on a clean repository whose upstream resolved
/// to a commit other than HEAD's, the machine asks the engine to set HEAD's
/// target to exactly the upstream identifier it observed, and the updated
/// outcome carries exactly the count the tree-to-tree diff reported.
pub proof fn lemma_fast_forward_correct(old_id: CommitId, new_id: CommitId, files_changed: usize)
    requires
        new_id != old_id,
    ensures
        spec_run(spec_update_trace(old_id, new_id, files_changed)) == (UpdateState::Done {
            outcome: Outcome::Updated { files_changed },
        }),
        spec_action(spec_run(spec_update_trace(old_id, new_id, files_changed).take(5)))
            == (RepoAction::SetHeadTarget { new_id }),
{
    let t = spec_update_trace(old_id, new_id, files_changed);
    assert(t.take(0) =~= Seq::<RepoEvent>::empty());
    assert(spec_run(t.take(0)) == UpdateState::Opening);
    lemma_run_take_step(t, 0);
    lemma_run_take_step(t, 1);
    lemma_run_take_step(t, 2);
    lemma_run_take_step(t, 3);
    lemma_run_take_step(t, 4);
    assert(spec_run(t.take(5)) == (UpdateState::FastForwarding { old_id, new_id }));
    lemma_run_take_step(t, 5);
    lemma_run_take_step(t, 6);
    lemma_run_take_step(t, 7);
    assert(t.take(8) =~= t);
}

/// The machine reaches the fast-forward step only from upstream resolution,
/// and only when the observed upstream commit differs from HEAD's.
pub proof fn lemma_fast_forward_entry(
    s: UpdateState,
    e: RepoEvent,
    old_id: CommitId,
    new_id: CommitId,
)
    requires
        !(s is FastForwarding),
        spec_step(s, e) == (UpdateState::FastForwarding { old_id, new_id }),
    ensures
        s == (UpdateState::ResolvingUpstream { old_id }),
        e == (RepoEvent::UpstreamResolved { upstream: Some(new_id) }),
        new_id != old_id,
{
}

/// An updated outcome arises only when the diff count comes back: its file
/// count is the diff's, word for word.
pub proof fn lemma_updated_entry(s: UpdateState, e: RepoEvent, files_changed: usize)
    requires
        !(s is Done),
        spec_step(s, e) == (UpdateState::Done { outcome: Outcome::Updated { files_changed } }),
    ensures
        s is CountingDiff,
        e == (RepoEvent::DiffCounted { files_changed }),
{
}

/// Only the fast-forward and checkout steps ask the engine to write to the
/// repository; every other state's action leaves HEAD and the working tree
/// alone.
pub proof fn lemma_mutation_only_when_fast_forwarding(s: UpdateState)
    ensures
        spec_mutates_repo(spec_action(s)) <==> (s is FastForwarding || s is CheckingOut),
{
}

/// Provenance of every repository write, over any run whatever: whenever
/// the machine stands at or past the fast-forward step with identifiers
/// `old_id`, `new_id`, it earlier stood at upstream resolution with HEAD at
/// `old_id` and was answered exactly `new_id` — and the two differ. HEAD is
/// therefore only ever moved to an upstream commit the engine reported.
pub proof fn lemma_fast_forward_provenance(
    t: Seq<RepoEvent>,
    n: int,
    old_id: CommitId,
    new_id: CommitId,
)
    requires
        0 <= n <= t.len(),
        spec_run(t.take(n)) == (UpdateState::FastForwarding { old_id, new_id })
            || spec_run(t.take(n)) == (UpdateState::CheckingOut { old_id, new_id })
            || spec_run(t.take(n)) == (UpdateState::CountingDiff { old_id, new_id }),
    ensures
        new_id != old_id,
        exists|k: int|
            0 <= k < n && #[trigger] t[k] == (RepoEvent::UpstreamResolved {
                upstream: Some(new_id),
            }) && spec_run(t.take(k)) == (UpdateState::ResolvingUpstream { old_id }),
    decreases n,
{
    if n == 0 {
        assert(t.take(0) =~= Seq::<RepoEvent>::empty());
        assert(spec_run(t.take(0)) == UpdateState::Opening);
    } else {
        lemma_run_take_step(t, n - 1);
        let sp = spec_run(t.take(n - 1));
        let e = t[n - 1];
        if sp == (UpdateState::FastForwarding { old_id, new_id }) || sp
            == (UpdateState::CheckingOut { old_id, new_id }) || sp == (UpdateState::CountingDiff {
            old_id,
            new_id,
        }) {
            lemma_fast_forward_provenance(t, n - 1, old_id, new_id);
        } else {
            lemma_fast_forward_entry(sp, e, old_id, new_id);
            assert(0 <= n - 1 < n && t[n - 1] == (RepoEvent::UpstreamResolved {
                upstream: Some(new_id),
            }) && spec_run(t.take(n - 1)) == (UpdateState::ResolvingUpstream { old_id }));
        }
    }
}

/// The states a run can stand in without any repository write having been
/// requested earlier in it: every state up to and including upstream
/// resolution, and the three terminal outcomes that leave the tree alone.
/// The set is closed backwards under transitions, which is what the
/// write-freedom lemmas rest on.
pub open spec fn spec_untouched(s: UpdateState) -> bool {
    match s {
        UpdateState::Opening => true,
        UpdateState::CheckingClean => true,
        UpdateState::ResolvingHead => true,
        UpdateState::Fetching { .. } => true,
        UpdateState::ResolvingUpstream { .. } => true,
        UpdateState::Done { outcome } => outcome == Outcome::Unclean || outcome
            == Outcome::NoUpstream || outcome == Outcome::UpToDate,
        _ => false,
    }
}

/// The states a run can stand in without the remote having been contacted:
/// opening, the status query, and the unclean outcome.
pub open spec fn spec_fetch_free(s: UpdateState) -> bool {
    s == UpdateState::Opening || s == UpdateState::CheckingClean || s == (UpdateState::Done {
        outcome: Outcome::Unclean,
    })
}

/// No transition enters the write-free states from outside them.
pub proof fn lemma_untouched_backward(s: UpdateState, e: RepoEvent)
    requires
        spec_untouched(spec_step(s, e)),
    ensures
        spec_untouched(s),
{
}

/// No transition enters the fetch-free states from outside them.
pub proof fn lemma_fetch_free_backward(s: UpdateState, e: RepoEvent)
    requires
        spec_fetch_free(spec_step(s, e)),
    ensures
        spec_fetch_free(s),
{
}

/// Side-effect freedom of the benign outcomes, over any run whatever: a run
/// that ends unclean, with no upstream, or already up to date never asked
/// the engine to move HEAD or touch the working tree at any point.
pub proof fn lemma_benign_run_never_mutates(t: Seq<RepoEvent>, n: int, m: int)
    requires
        0 <= m <= n <= t.len(),
        spec_untouched(spec_run(t.take(n))),
    ensures
        spec_untouched(spec_run(t.take(m))),
        !spec_mutates_repo(spec_action(spec_run(t.take(m)))),
    decreases n - m,
{
    if m < n {
        lemma_run_take_step(t, n - 1);
        lemma_untouched_backward(spec_run(t.take(n - 1)), t[n - 1]);
        lemma_benign_run_never_mutates(t, n - 1, m);
    }
}

/// Unclean detection is free of remote and local side effects, over any run
/// whatever: a run that ends unclean never asked the engine to fetch, move
/// HEAD, or touch the working tree at any point.
pub proof fn lemma_unclean_run_never_fetches(t: Seq<RepoEvent>, n: int, m: int)
    requires
        0 <= m <= n <= t.len(),
        spec_fetch_free(spec_run(t.take(n))),
    ensures
        spec_fetch_free(spec_run(t.take(m))),
        spec_action(spec_run(t.take(m))) != RepoAction::Fetch,
        !spec_mutates_repo(spec_action(spec_run(t.take(m)))),
    decreases n - m,
{
    if m < n {
        lemma_run_take_step(t, n - 1);
        lemma_fetch_free_backward(spec_run(t.take(n - 1)), t[n - 1]);
        lemma_unclean_run_never_fetches(t, n - 1, m);
    }
}

/// The reported change count, over any run whatever: an updated outcome
/// carries exactly a count that the tree-to-tree diff reported while the
/// machine stood at the diff step.
pub proof fn lemma_updated_count_observed(t: Seq<RepoEvent>, n: int, files_changed: usize)
    requires
        0 <= n <= t.len(),
        spec_run(t.take(n)) == (UpdateState::Done {
            outcome: Outcome::Updated { files_changed },
        }),
    ensures
        exists|k: int|
            0 <= k < n && #[trigger] t[k] == (RepoEvent::DiffCounted { files_changed })
                && spec_run(t.take(k)) is CountingDiff,
    decreases n,
{
    if n == 0 {
        assert(t.take(0) =~= Seq::<RepoEvent>::empty());
        assert(spec_run(t.take(0)) == UpdateState::Opening);
    } else {
        lemma_run_take_step(t, n - 1);
        let sp = spec_run(t.take(n - 1));
        let e = t[n - 1];
        if sp is Done {
            lemma_updated_count_observed(t, n - 1, files_changed);
        } else {
            lemma_updated_entry(sp, e, files_changed);
            assert(0 <= n - 1 < n && t[n - 1] == (RepoEvent::DiffCounted { files_changed })
                && spec_run(t.take(n - 1)) is CountingDiff);
        }
    }
}

} // verus!
