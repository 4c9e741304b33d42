//! How a run ends: whether the backup state is rewritten, and the exit status.
use vstd::prelude::*;
use crate::exit::ExitStatus;
use crate::fetch::{enriched_count, failures, page_plan, EntryOutcome, FetchResult, ListedEntry, WorkItem};
use crate::records::EntryKind;
use crate::state::{BackupState, UtcInstant, STATE_VERSION};

verus! {

/// Why the orchestrator produced no result.
#[derive(Clone, Copy, Debug, PartialEq, Eq, Structural)]
pub enum FetchFailure {
    /// A listing page could not be fetched.
    Listing,
    /// The orchestrating task could not be joined.
    Join,
}

/// What remains to do once the orchestrator and the writer have stopped.
pub enum RunConclusion {
    /// Exit with this status; the state file is left as it is.
    Finish(ExitStatus),
    /// Write this state, then exit with the status (or as a write failure,
    /// should writing the state fail).
    StoreState(BackupState, ExitStatus),
}

/// The status of a run that fetched its listing: an incomplete mirror is
/// reported as an API error.
pub open spec fn failure_status(failed_issues: Seq<u64>, failed_pulls: Seq<u64>) -> ExitStatus {
    if failed_issues.len() == 0 && failed_pulls.len() == 0 {
        ExitStatus::Success
    } else {
        ExitStatus::ApiError
    }
}

/// Decides the end of a run from the orchestrator's result, whether the
/// writer stored at least one record, and the instant the run started.
pub fn conclude_run(fetched: Result<FetchResult, FetchFailure>, written_anything: bool, start_time: UtcInstant) -> (r: RunConclusion)
    ensures
        match fetched {
            Err(FetchFailure::Listing) => r == RunConclusion::Finish(ExitStatus::ApiError),
            Err(FetchFailure::Join) => r == RunConclusion::Finish(ExitStatus::Internal),
            Ok(res) => if written_anything {
                r matches RunConclusion::StoreState(s, st) && s.version == STATE_VERSION
                    && s.last_backup == start_time && s.failed_issues@ == res.failed_issues@
                    && s.failed_pulls@ == res.failed_pulls@
                    && st == failure_status(res.failed_issues@, res.failed_pulls@)
            } else {
                r == RunConclusion::Finish(failure_status(res.failed_issues@, res.failed_pulls@))
            },
        },
{
    match fetched {
        Err(FetchFailure::Listing) => RunConclusion::Finish(ExitStatus::ApiError),
        Err(FetchFailure::Join) => RunConclusion::Finish(ExitStatus::Internal),
        Ok(res) => {
            let status = if res.failed_issues.len() == 0 && res.failed_pulls.len() == 0 {
                ExitStatus::Success
            } else {
                ExitStatus::ApiError
            };
            if written_anything {
                RunConclusion::StoreState(
                    BackupState::for_run(start_time, res.failed_issues, res.failed_pulls),
                    status,
                )
            } else {
                RunConclusion::Finish(status)
            }
        },
    }
}

/// The exit status once the state was (or was not) written.
pub fn status_after_store(planned: ExitStatus, stored: bool) -> (r: ExitStatus)
    ensures
        r == (if stored {
            planned
        } else {
            ExitStatus::Writing
        }),
{
    if stored {
        planned
    } else {
        ExitStatus::Writing
    }
}

/// Every reported outcome is counted once: as a success, or under the
/// failures of its kind.
pub proof fn lemma_outcomes_partitioned(outcomes: Seq<EntryOutcome>)
    ensures
        failures(outcomes, EntryKind::Issue).len() + failures(outcomes, EntryKind::Pull).len()
            + enriched_count(outcomes) == outcomes.len(),
    decreases outcomes.len(),
{
    if outcomes.len() > 0 {
        lemma_outcomes_partitioned(outcomes.drop_last());
    }
}

/// When some enrichments fail and others succeed, the run stores one record
/// per success, the failure lists name exactly the failed entries (issues and
/// pull requests apart, in order), and the run ends with the API-error status.
pub proof fn lemma_partial_failure_accounting(outcomes: Seq<EntryOutcome>)
    requires
        exists|i: int| 0 <= i < outcomes.len() && !outcomes[i].enriched,
    ensures
        enriched_count(outcomes) == outcomes.len() - failures(outcomes, EntryKind::Issue).len()
            - failures(outcomes, EntryKind::Pull).len(),
        failure_status(failures(outcomes, EntryKind::Issue), failures(outcomes, EntryKind::Pull))
            == ExitStatus::ApiError,
    decreases outcomes.len(),
{
    lemma_outcomes_partitioned(outcomes);
    let last = outcomes.last();
    if !last.enriched {
        assert(failures(outcomes, last.kind).len() > 0);
    } else {
        let i = choose|i: int| 0 <= i < outcomes.len() && !outcomes[i].enriched;
        assert(outcomes.drop_last()[i] == outcomes[i]);
        lemma_partial_failure_accounting(outcomes.drop_last());
    }
}

/// A run whose listing is empty and that has nothing to retry plans no work,
/// so it stores no record, leaves the state file alone and succeeds.
pub proof fn lemma_no_op_run(prior: Option<BackupState>)
    requires
        prior matches Some(s) ==> s.failed_issues@.len() == 0 && s.failed_pulls@.len() == 0,
    ensures
        page_plan(Seq::<ListedEntry>::empty(), false, prior) == Seq::<WorkItem>::empty(),
        failures(Seq::<EntryOutcome>::empty(), EntryKind::Issue) == Seq::<u64>::empty(),
        failures(Seq::<EntryOutcome>::empty(), EntryKind::Pull) == Seq::<u64>::empty(),
        failure_status(Seq::empty(), Seq::empty()) == ExitStatus::Success,
{
    assert(page_plan(Seq::<ListedEntry>::empty(), false, prior) =~= Seq::<WorkItem>::empty());
}

} // verus!
