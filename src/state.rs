//! The persisted backup state, and how it steers the next listing.
use vstd::prelude::*;

verus! {

/// The schema version this library writes.
pub const STATE_VERSION: u32 = 2;

/// The name of the state file under the destination directory.
pub const STATE_FILE: &'static str = "state.json";

/// An instant in UTC: whole seconds since the Unix epoch and the nanoseconds
/// past that second.
#[derive(Clone, Copy, Debug, PartialEq, Eq, Structural)]
pub struct UtcInstant {
    pub secs: i64,
    pub nanos: u32,
}

impl UtcInstant {
    pub open spec fn wf(&self) -> bool {
        self.nanos < 1_000_000_000
    }

    /// 1970-01-02T00:00:00Z: the remote service ignores a `since` at the epoch
    /// itself, so a full listing starts one day later.
    pub fn day_after_epoch() -> (r: Self)
        ensures
            r.wf(),
            r.secs == 86400,
            r.nanos == 0,
    {
        UtcInstant { secs: 86400, nanos: 0 }
    }
}

/// What the last run left behind.
pub struct BackupState {
    /// Version of the state's schema.
    pub version: u32,
    /// When the last run that stored anything started.
    pub last_backup: UtcInstant,
    /// Issues that could not be fetched in that run.
    pub failed_issues: Vec<u64>,
    /// Pull requests that could not be fetched in that run.
    pub failed_pulls: Vec<u64>,
}

/// The versions of the schema this library reads.
pub open spec fn is_known_version(version: u32) -> bool {
    version == 1 || version == STATE_VERSION
}

/// The fields of a state document as decoded; the failure lists are absent
/// from version 1.
pub struct StateDocument {
    pub version: u32,
    pub last_backup: UtcInstant,
    pub failed_issues: Option<Vec<u64>>,
    pub failed_pulls: Option<Vec<u64>>,
}

pub open spec fn list_or_empty(v: Option<Vec<u64>>) -> Seq<u64> {
    match v {
        Some(v) => v@,
        None => Seq::empty(),
    }
}

fn take_list(v: Option<Vec<u64>>) -> (r: Vec<u64>)
    ensures
        r@ == list_or_empty(v),
{
    match v {
        Some(v) => v,
        None => Vec::new(),
    }
}

impl BackupState {
    /// The state recorded by a run that started at `start_time` and failed
    /// on the given entries.
    pub fn for_run(start_time: UtcInstant, failed_issues: Vec<u64>, failed_pulls: Vec<u64>) -> (r:
        Self)
        ensures
            r.version == STATE_VERSION,
            r.last_backup == start_time,
            r.failed_issues@ == failed_issues@,
            r.failed_pulls@ == failed_pulls@,
    {
        BackupState { version: STATE_VERSION, last_backup: start_time, failed_issues, failed_pulls }
    }

    /// Accepts a decoded state document of a known version, with absent
    /// failure lists read as empty; a document of any other version is
    /// not trusted at all.
    pub fn from_document(doc: StateDocument) -> (r: Option<Self>)
        ensures
            is_known_version(doc.version) <==> r is Some,
            r matches Some(s) ==> {
                &&& s.version == doc.version
                &&& s.last_backup == doc.last_backup
                &&& s.failed_issues@ == list_or_empty(doc.failed_issues)
                &&& s.failed_pulls@ == list_or_empty(doc.failed_pulls)
            },
            (doc.version == 1 && doc.failed_issues is None && doc.failed_pulls is None) ==> (
            r matches Some(s) && s.failed_issues@.len() == 0 && s.failed_pulls@.len() == 0),
    {
        if doc.version == 1 || doc.version == STATE_VERSION {
            Some(
                BackupState {
                    version: doc.version,
                    last_backup: doc.last_backup,
                    failed_issues: take_list(doc.failed_issues),
                    failed_pulls: take_list(doc.failed_pulls),
                },
            )
        } else {
            None
        }
    }
}

/// The order in which the listing is requested.
#[derive(Clone, Copy, Debug, PartialEq, Eq, Structural)]
pub enum ListSort {
    Created,
    Updated,
}

/// The listing request of a run: ascending by creation from one day after
/// the epoch when nothing was backed up before, else ascending by last update
/// from the last backup.
#[derive(Clone, Copy, Debug, PartialEq, Eq, Structural)]
pub struct ListingQuery {
    pub sort: ListSort,
    pub since: UtcInstant,
}

impl ListingQuery {
    pub open spec fn for_state_spec(prior: Option<BackupState>) -> ListingQuery {
        match prior {
            None => ListingQuery { sort: ListSort::Created, since: UtcInstant { secs: 86400, nanos: 0 } },
            Some(s) => ListingQuery { sort: ListSort::Updated, since: s.last_backup },
        }
    }

    pub fn for_state(prior: &Option<BackupState>) -> (r: Self)
        ensures
            r == Self::for_state_spec(*prior),
    {
        match prior {
            None => ListingQuery { sort: ListSort::Created, since: UtcInstant::day_after_epoch() },
            Some(s) => ListingQuery { sort: ListSort::Updated, since: s.last_backup },
        }
    }
}

} // verus!
