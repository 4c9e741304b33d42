use github_backup::exit::ExitStatus;
use github_backup::fetch::{FetchOrchestrator, FetchResult, WorkItem};
use github_backup::records::EntryKind;
use github_backup::run::{conclude_run, status_after_store, FetchFailure, RunConclusion};
use github_backup::state::{BackupState, ListSort, ListingQuery, StateDocument, UtcInstant, STATE_VERSION};

fn instant(secs: i64) -> UtcInstant {
    UtcInstant { secs, nanos: 0 }
}

fn prior(failed_issues: Vec<u64>, failed_pulls: Vec<u64>) -> BackupState {
    BackupState { version: 2, last_backup: instant(1_700_000_000), failed_issues, failed_pulls }
}

#[test]
fn version_one_document_loads_with_empty_failures() {
    let doc = StateDocument { version: 1, last_backup: instant(42), failed_issues: None, failed_pulls: None };
    let s = BackupState::from_document(doc).expect("version 1 is understood");
    assert_eq!(s.version, 1);
    assert_eq!(s.last_backup, instant(42));
    assert!(s.failed_issues.is_empty());
    assert!(s.failed_pulls.is_empty());
}

#[test]
fn version_two_document_keeps_failures() {
    let doc = StateDocument {
        version: 2,
        last_backup: instant(42),
        failed_issues: Some(vec![7, 8]),
        failed_pulls: Some(vec![9]),
    };
    let s = BackupState::from_document(doc).unwrap();
    assert_eq!(s.failed_issues, vec![7, 8]);
    assert_eq!(s.failed_pulls, vec![9]);
}

#[test]
fn unknown_versions_are_not_trusted() {
    for v in [0u32, 3, 100] {
        let doc = StateDocument { version: v, last_backup: instant(42), failed_issues: None, failed_pulls: None };
        assert!(BackupState::from_document(doc).is_none());
    }
}

#[test]
fn listing_query_follows_prior_state() {
    let q = ListingQuery::for_state(&None);
    assert_eq!(q.sort, ListSort::Created);
    assert_eq!(q.since, instant(86400));
    let q = ListingQuery::for_state(&Some(prior(vec![], vec![])));
    assert_eq!(q.sort, ListSort::Updated);
    assert_eq!(q.since, instant(1_700_000_000));
}

#[test]
fn failed_issue_is_retried_on_last_page() {
    let mut o = FetchOrchestrator::new(Some(prior(vec![7], vec![])));
    assert_eq!(o.next_page(), Some(1));
    let plan = o.on_listing_page(Vec::new(), false);
    assert_eq!(plan.len(), 1);
    assert!(matches!(plan[0], WorkItem::Issue { number: 7, listed: None }));
    assert_eq!(o.next_page(), None);
}

#[test]
fn retries_wait_for_the_last_page() {
    let mut o = FetchOrchestrator::new(Some(prior(vec![7], vec![11])));
    let first = o.on_listing_page(Vec::new(), true);
    assert!(first.is_empty());
    assert_eq!(o.next_page(), Some(2));
    let last = o.on_listing_page(Vec::new(), false);
    assert_eq!(last.len(), 2);
    assert_eq!(last[0].kind(), EntryKind::Issue);
    assert_eq!(last[0].number(), 7);
    assert_eq!(last[1].kind(), EntryKind::Pull);
    assert_eq!(last[1].number(), 11);
}

#[test]
fn state_records_start_time() {
    let start = instant(1_800_000_000);
    let res = FetchResult { failed_issues: vec![], failed_pulls: vec![] };
    match conclude_run(Ok(res), true, start) {
        RunConclusion::StoreState(s, st) => {
            assert_eq!(s.version, STATE_VERSION);
            assert_eq!(s.last_backup, start);
            assert_eq!(st, ExitStatus::Success);
        }
        RunConclusion::Finish(_) => panic!("state must be stored"),
    }
}

#[test]
fn no_op_run_succeeds_without_state() {
    let mut o = FetchOrchestrator::new(None);
    let plan = o.on_listing_page(Vec::new(), false);
    assert!(plan.is_empty());
    let res = o.finish();
    assert!(!res.has_failures());
    match conclude_run(Ok(res), false, instant(5)) {
        RunConclusion::Finish(st) => assert_eq!(st.code(), 0),
        RunConclusion::StoreState(..) => panic!("state must not be rewritten"),
    }
}

#[test]
fn partial_failures_are_accounted() {
    let mut o = FetchOrchestrator::new(None);
    o.on_entry(EntryKind::Issue, 1, true);
    o.on_entry(EntryKind::Issue, 3, false);
    o.on_entry(EntryKind::Pull, 4, true);
    o.on_entry(EntryKind::Issue, 5, true);
    o.on_entry(EntryKind::Pull, 9, false);
    o.on_entry(EntryKind::Pull, 10, true);
    o.on_entry(EntryKind::Issue, 12, true);
    let res = o.finish();
    assert_eq!(res.failed_issues, vec![3]);
    assert_eq!(res.failed_pulls, vec![9]);
    match conclude_run(Ok(res), true, instant(77)) {
        RunConclusion::StoreState(s, st) => {
            assert_eq!(s.failed_issues, vec![3]);
            assert_eq!(s.failed_pulls, vec![9]);
            assert_eq!(s.last_backup, instant(77));
            assert_eq!(st, ExitStatus::ApiError);
            assert_eq!(status_after_store(st, true).code(), 3);
            assert_eq!(status_after_store(st, false).code(), 6);
        }
        RunConclusion::Finish(_) => panic!("state must be stored"),
    }
}

#[test]
fn failures_without_records_still_report_api_error() {
    let res = FetchResult { failed_issues: vec![3], failed_pulls: vec![] };
    match conclude_run(Ok(res), false, instant(1)) {
        RunConclusion::Finish(st) => assert_eq!(st, ExitStatus::ApiError),
        RunConclusion::StoreState(..) => panic!("nothing was written"),
    }
}

#[test]
fn fatal_fetch_failures() {
    assert!(matches!(conclude_run(Err(FetchFailure::Listing), true, instant(1)), RunConclusion::Finish(ExitStatus::ApiError)));
    assert!(matches!(conclude_run(Err(FetchFailure::Join), false, instant(1)), RunConclusion::Finish(ExitStatus::Internal)));
}

#[test]
fn failed_state_write_is_a_write_error() {
    assert_eq!(status_after_store(ExitStatus::Success, false), ExitStatus::Writing);
    assert_eq!(status_after_store(ExitStatus::Success, true), ExitStatus::Success);
}

#[test]
fn exit_codes() {
    assert_eq!(ExitStatus::Success.code(), 0);
    assert_eq!(ExitStatus::CreatingDirs.code(), 1);
    assert_eq!(ExitStatus::CreatingClient.code(), 2);
    assert_eq!(ExitStatus::ApiError.code(), 3);
    assert_eq!(ExitStatus::Writing.code(), 6);
    assert_eq!(ExitStatus::NoCredential.code(), 4);
    assert_eq!(ExitStatus::Internal.code(), 5);
}
