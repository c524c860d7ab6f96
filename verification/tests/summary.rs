use groppy::outcome::{ErrorKind, Outcome};
use groppy::progress::percent_complete;
use groppy::stats::{tally, Stats};

#[test]
fn fresh_stats_start_at_zero() {
    let s = Stats::new(12);
    assert_eq!(s.checked, 0);
    assert_eq!(s.updated, 0);
    assert_eq!(s.unclean, 0);
    assert_eq!(s.total, 12);
}

#[test]
fn increments_tick_one_counter_each() {
    let mut s = Stats::new(3);
    s.inc_checked();
    s.inc_checked();
    s.inc_updated();
    s.inc_unclean();
    assert_eq!(s.checked, 2);
    assert_eq!(s.updated, 1);
    assert_eq!(s.unclean, 1);
    assert_eq!(s.total, 3);
}

#[test]
fn record_ticks_checked_and_the_matching_counter() {
    let mut s = Stats::new(5);
    s.record(&Outcome::Updated { files_changed: 4 });
    s.record(&Outcome::UpToDate);
    s.record(&Outcome::Unclean);
    s.record(&Outcome::NoUpstream);
    s.record(&Outcome::Error { kind: ErrorKind::FetchFailed });
    assert_eq!(s.checked, 5);
    assert_eq!(s.updated, 1);
    assert_eq!(s.unclean, 1);
}

#[test]
fn completed_run_checks_every_task() {
    let outcomes = vec![
        Outcome::Updated { files_changed: 1 },
        Outcome::Updated { files_changed: 0 },
        Outcome::UpToDate,
        Outcome::Unclean,
        Outcome::NoUpstream,
        Outcome::Error { kind: ErrorKind::OpenFailed },
    ];
    let total = outcomes.len();
    let s = tally(&outcomes, total);
    assert_eq!(s.checked, total);
    assert_eq!(s.total, total);
    assert_eq!(s.updated, 2);
    assert_eq!(s.unclean, 1);
    assert!(s.updated + s.unclean <= s.checked);
}

#[test]
fn second_run_over_settled_repositories_counts_nothing() {
    // Every repository already fast-forwarded: each comes back up-to-date.
    let outcomes = vec![Outcome::UpToDate, Outcome::UpToDate, Outcome::UpToDate];
    let s = tally(&outcomes, 3);
    assert_eq!(s.checked, 3);
    assert_eq!(s.updated, 0);
    assert_eq!(s.unclean, 0);
}

#[test]
fn tallies_ignore_reporting_order() {
    let one = vec![Outcome::Unclean, Outcome::UpToDate, Outcome::Updated { files_changed: 2 }];
    let other = vec![Outcome::Updated { files_changed: 2 }, Outcome::Unclean, Outcome::UpToDate];
    let a = tally(&one, 3);
    let b = tally(&other, 3);
    assert_eq!(a.checked, b.checked);
    assert_eq!(a.updated, b.updated);
    assert_eq!(a.unclean, b.unclean);
}

#[test]
fn percent_follows_the_integer_formula() {
    assert_eq!(percent_complete(0, 4), 0);
    assert_eq!(percent_complete(1, 4), 25);
    assert_eq!(percent_complete(1, 3), 33);
    assert_eq!(percent_complete(2, 3), 66);
    assert_eq!(percent_complete(3, 3), 100);
    assert_eq!(percent_complete(7, 7), 100);
}

#[test]
fn only_noteworthy_outcomes_get_a_line() {
    assert!(Outcome::Updated { files_changed: 0 }.reports_line());
    assert!(Outcome::Unclean.reports_line());
    assert!(Outcome::Error { kind: ErrorKind::DiffFailed }.reports_line());
    assert!(!Outcome::UpToDate.reports_line());
    assert!(!Outcome::NoUpstream.reports_line());
}
