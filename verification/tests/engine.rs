use groppy::outcome::{ErrorKind, Outcome};
use groppy::updater::{
    failure_kind, initial_state, next_action, step, CommitId, RepoAction, RepoEvent, UpdateState,
};

fn id(n: u32) -> CommitId {
    CommitId { hi: 0, lo: n }
}

fn run(events: &[RepoEvent]) -> UpdateState {
    let mut s = initial_state();
    for e in events {
        s = step(&s, e);
    }
    s
}

#[test]
fn updated_path_reaches_updated_outcome() {
    let old = id(1);
    let new = id(2);
    let s = run(&[
        RepoEvent::Opened,
        RepoEvent::StatusChecked { clean: true },
        RepoEvent::HeadResolved { id: old },
        RepoEvent::Fetched,
        RepoEvent::UpstreamResolved { upstream: Some(new) },
        RepoEvent::TargetSet,
        RepoEvent::CheckedOut,
        RepoEvent::DiffCounted { files_changed: 7 },
    ]);
    assert_eq!(s, UpdateState::Done { outcome: Outcome::Updated { files_changed: 7 } });
}

#[test]
fn head_target_set_to_observed_upstream() {
    let old = id(1);
    let new = id(2);
    let s = run(&[
        RepoEvent::Opened,
        RepoEvent::StatusChecked { clean: true },
        RepoEvent::HeadResolved { id: old },
        RepoEvent::Fetched,
        RepoEvent::UpstreamResolved { upstream: Some(new) },
    ]);
    assert_eq!(s, UpdateState::FastForwarding { old_id: old, new_id: new });
    assert_eq!(next_action(&s), RepoAction::SetHeadTarget { new_id: new });
}

#[test]
fn equal_ids_mean_up_to_date() {
    let s = run(&[
        RepoEvent::Opened,
        RepoEvent::StatusChecked { clean: true },
        RepoEvent::HeadResolved { id: id(9) },
        RepoEvent::Fetched,
        RepoEvent::UpstreamResolved { upstream: Some(id(9)) },
    ]);
    assert_eq!(s, UpdateState::Done { outcome: Outcome::UpToDate });
}

#[test]
fn dirty_status_means_unclean() {
    let s = run(&[RepoEvent::Opened, RepoEvent::StatusChecked { clean: false }]);
    assert_eq!(s, UpdateState::Done { outcome: Outcome::Unclean });
}

#[test]
fn missing_upstream_is_not_an_error() {
    let s = run(&[
        RepoEvent::Opened,
        RepoEvent::StatusChecked { clean: true },
        RepoEvent::HeadResolved { id: id(3) },
        RepoEvent::Fetched,
        RepoEvent::UpstreamResolved { upstream: None },
    ]);
    assert_eq!(s, UpdateState::Done { outcome: Outcome::NoUpstream });
}

#[test]
fn failure_kinds_follow_the_interrupted_step() {
    let open_fail = run(&[RepoEvent::StepFailed]);
    assert_eq!(open_fail, UpdateState::Done {
        outcome: Outcome::Error { kind: ErrorKind::OpenFailed },
    });

    let status_fail = run(&[RepoEvent::Opened, RepoEvent::StepFailed]);
    assert_eq!(status_fail, UpdateState::Done {
        outcome: Outcome::Error { kind: ErrorKind::StatusQueryFailed },
    });

    let head_fail = run(&[
        RepoEvent::Opened,
        RepoEvent::StatusChecked { clean: true },
        RepoEvent::StepFailed,
    ]);
    assert_eq!(head_fail, UpdateState::Done {
        outcome: Outcome::Error { kind: ErrorKind::UpstreamResolutionFailed },
    });

    let fetch_fail = run(&[
        RepoEvent::Opened,
        RepoEvent::StatusChecked { clean: true },
        RepoEvent::HeadResolved { id: id(1) },
        RepoEvent::StepFailed,
    ]);
    assert_eq!(fetch_fail, UpdateState::Done {
        outcome: Outcome::Error { kind: ErrorKind::FetchFailed },
    });

    let upstream_fail = run(&[
        RepoEvent::Opened,
        RepoEvent::StatusChecked { clean: true },
        RepoEvent::HeadResolved { id: id(1) },
        RepoEvent::Fetched,
        RepoEvent::StepFailed,
    ]);
    assert_eq!(upstream_fail, UpdateState::Done {
        outcome: Outcome::Error { kind: ErrorKind::UpstreamResolutionFailed },
    });

    let target_fail = run(&[
        RepoEvent::Opened,
        RepoEvent::StatusChecked { clean: true },
        RepoEvent::HeadResolved { id: id(1) },
        RepoEvent::Fetched,
        RepoEvent::UpstreamResolved { upstream: Some(id(2)) },
        RepoEvent::StepFailed,
    ]);
    assert_eq!(target_fail, UpdateState::Done {
        outcome: Outcome::Error { kind: ErrorKind::ReferenceUpdateFailed },
    });

    let checkout_fail = run(&[
        RepoEvent::Opened,
        RepoEvent::StatusChecked { clean: true },
        RepoEvent::HeadResolved { id: id(1) },
        RepoEvent::Fetched,
        RepoEvent::UpstreamResolved { upstream: Some(id(2)) },
        RepoEvent::TargetSet,
        RepoEvent::StepFailed,
    ]);
    assert_eq!(checkout_fail, UpdateState::Done {
        outcome: Outcome::Error { kind: ErrorKind::CheckoutFailed },
    });

    let diff_fail = run(&[
        RepoEvent::Opened,
        RepoEvent::StatusChecked { clean: true },
        RepoEvent::HeadResolved { id: id(1) },
        RepoEvent::Fetched,
        RepoEvent::UpstreamResolved { upstream: Some(id(2)) },
        RepoEvent::TargetSet,
        RepoEvent::CheckedOut,
        RepoEvent::StepFailed,
    ]);
    assert_eq!(diff_fail, UpdateState::Done {
        outcome: Outcome::Error { kind: ErrorKind::DiffFailed },
    });
}

#[test]
fn failure_kind_maps_each_state() {
    assert_eq!(failure_kind(&UpdateState::Opening), ErrorKind::OpenFailed);
    assert_eq!(failure_kind(&UpdateState::CheckingClean), ErrorKind::StatusQueryFailed);
    assert_eq!(failure_kind(&UpdateState::Fetching { old_id: id(1) }), ErrorKind::FetchFailed);
}

#[test]
fn terminal_state_absorbs_events() {
    let done = run(&[RepoEvent::Opened, RepoEvent::StatusChecked { clean: false }]);
    let after = step(&done, &RepoEvent::Opened);
    assert_eq!(after, done);
    let after_fail = step(&done, &RepoEvent::StepFailed);
    assert_eq!(after_fail, done);
}

#[test]
fn unexpected_event_leaves_state_unchanged() {
    let s = run(&[RepoEvent::Opened]);
    assert_eq!(s, UpdateState::CheckingClean);
    let same = step(&s, &RepoEvent::Fetched);
    assert_eq!(same, UpdateState::CheckingClean);
}

#[test]
fn actions_follow_the_sequence_in_order() {
    let mut s = initial_state();
    assert_eq!(next_action(&s), RepoAction::Open);
    s = step(&s, &RepoEvent::Opened);
    assert_eq!(next_action(&s), RepoAction::QueryStatus);
    s = step(&s, &RepoEvent::StatusChecked { clean: true });
    assert_eq!(next_action(&s), RepoAction::ResolveHead);
    s = step(&s, &RepoEvent::HeadResolved { id: id(4) });
    assert_eq!(next_action(&s), RepoAction::Fetch);
    s = step(&s, &RepoEvent::Fetched);
    assert_eq!(next_action(&s), RepoAction::ResolveUpstream);
    s = step(&s, &RepoEvent::UpstreamResolved { upstream: Some(id(5)) });
    assert_eq!(next_action(&s), RepoAction::SetHeadTarget { new_id: id(5) });
    s = step(&s, &RepoEvent::TargetSet);
    assert_eq!(next_action(&s), RepoAction::ForceCheckout);
    s = step(&s, &RepoEvent::CheckedOut);
    assert_eq!(next_action(&s), RepoAction::CountDiff { old_id: id(4), new_id: id(5) });
    s = step(&s, &RepoEvent::DiffCounted { files_changed: 2 });
    assert_eq!(
        next_action(&s),
        RepoAction::Finish { outcome: Outcome::Updated { files_changed: 2 } },
    );
}
