//! The decisions of the fetch orchestrator: which entries to enrich, and
//! which of them failed.
use vstd::prelude::*;
use octocrab::models::issues::Issue;
use crate::paging::{PageCursor, START_PAGE};
use crate::records::EntryKind;
use crate::state::{BackupState, ListingQuery};

verus! {

/// One item of a listing page: its number, whether it carries the
/// pull-request marker, and the listed issue itself.
pub struct ListedEntry {
    pub number: u64,
    pub is_pull: bool,
    pub issue: Issue,
}

/// An entry to enrich. A listed issue carries the body already fetched;
/// a retried one does not.
pub enum WorkItem {
    Issue { number: u64, listed: Option<Issue> },
    Pull { number: u64 },
}

impl WorkItem {
    pub open spec fn spec_kind(&self) -> EntryKind {
        match self {
            WorkItem::Issue { .. } => EntryKind::Issue,
            WorkItem::Pull { .. } => EntryKind::Pull,
        }
    }

    pub open spec fn spec_number(&self) -> u64 {
        match self {
            WorkItem::Issue { number, .. } => *number,
            WorkItem::Pull { number } => *number,
        }
    }

    pub fn kind(&self) -> (r: EntryKind)
        ensures
            r == self.spec_kind(),
    {
        match self {
            WorkItem::Issue { .. } => EntryKind::Issue,
            WorkItem::Pull { .. } => EntryKind::Pull,
        }
    }

    pub fn number(&self) -> (r: u64)
        ensures
            r == self.spec_number(),
    {
        match self {
            WorkItem::Issue { number, .. } => *number,
            WorkItem::Pull { number } => *number,
        }
    }
}

/// The work item for a listed entry.
pub open spec fn planned(e: ListedEntry) -> WorkItem {
    if e.is_pull {
        WorkItem::Pull { number: e.number }
    } else {
        WorkItem::Issue { number: e.number, listed: Some(e.issue) }
    }
}

/// The work items for the entries that failed in the previous run: issues
/// first, then pull requests, each in recorded order.
pub open spec fn retry_items(prior: Option<BackupState>) -> Seq<WorkItem> {
    match prior {
        None => Seq::empty(),
        Some(s) => s.failed_issues@.map_values(|n: u64| WorkItem::Issue { number: n, listed: None })
            + s.failed_pulls@.map_values(|n: u64| WorkItem::Pull { number: n }),
    }
}

/// The work items for one listing page: its entries in listed order, and
/// after the last page the retried entries.
pub open spec fn page_plan(listed: Seq<ListedEntry>, has_next: bool, prior: Option<BackupState>) -> Seq<
    WorkItem,
> {
    listed.map_values(|e: ListedEntry| planned(e)) + if has_next {
        Seq::empty()
    } else {
        retry_items(prior)
    }
}

fn push_retries(out: &mut Vec<WorkItem>, prior: &Option<BackupState>)
    ensures
        final(out)@ == old(out)@ + retry_items(*prior),
{
    match prior {
        None => {
            assert(old(out)@ + retry_items(*prior) =~= old(out)@);
        },
        Some(s) => {
            let ghost start = out@;
            let mut i: usize = 0;
            while i < s.failed_issues.len()
                invariant
                    i <= s.failed_issues@.len(),
                    out@ == start + s.failed_issues@.take(i as int).map_values(
                        |n: u64| WorkItem::Issue { number: n, listed: None },
                    ),
                decreases s.failed_issues@.len() - i,
            {
                out.push(WorkItem::Issue { number: s.failed_issues[i], listed: None });
                i = i + 1;
                assert(out@ =~= start + s.failed_issues@.take(i as int).map_values(
                    |n: u64| WorkItem::Issue { number: n, listed: None },
                ));
            }
            assert(s.failed_issues@.take(i as int) =~= s.failed_issues@);
            let ghost mid = out@;
            let mut j: usize = 0;
            while j < s.failed_pulls.len()
                invariant
                    j <= s.failed_pulls@.len(),
                    out@ == mid + s.failed_pulls@.take(j as int).map_values(
                        |n: u64| WorkItem::Pull { number: n },
                    ),
                decreases s.failed_pulls@.len() - j,
            {
                out.push(WorkItem::Pull { number: s.failed_pulls[j] });
                j = j + 1;
                assert(out@ =~= mid + s.failed_pulls@.take(j as int).map_values(
                    |n: u64| WorkItem::Pull { number: n },
                ));
            }
            assert(s.failed_pulls@.take(j as int) =~= s.failed_pulls@);
            assert(out@ =~= start + retry_items(*prior));
        },
    }
}

/// The work items for one listing page, as `page_plan` states.
pub fn plan_page(listed: Vec<ListedEntry>, has_next: bool, prior: &Option<BackupState>) -> (r: Vec<
    WorkItem,
>)
    ensures
        r@ == page_plan(listed@, has_next, *prior),
{
    let ghost all = listed@;
    let mut rest = listed;
    let mut out: Vec<WorkItem> = Vec::new();
    while rest.len() > 0
        invariant
            out@.len() + rest@.len() == all.len(),
            rest@ == all.skip(out@.len() as int),
            out@ == all.take(out@.len() as int).map_values(|e: ListedEntry| planned(e)),
        decreases rest@.len(),
    {
        let ghost k = out@.len() as int;
        let e = rest.remove(0);
        let item = if e.is_pull {
            WorkItem::Pull { number: e.number }
        } else {
            WorkItem::Issue { number: e.number, listed: Some(e.issue) }
        };
        out.push(item);
        assert(all.take(k + 1) =~= all.take(k).push(all[k]));
        assert(out@ =~= all.take(k + 1).map_values(|e: ListedEntry| planned(e)));
        assert(rest@ =~= all.skip(k + 1));
    }
    assert(all.take(all.len() as int) =~= all);
    if !has_next {
        push_retries(&mut out, prior);
    }
    assert(out@ =~= page_plan(all, has_next, *prior));
    out
}

/// Whether the enrichment of one work item succeeded.
#[derive(Clone, Copy, Debug, PartialEq, Eq, Structural)]
pub struct EntryOutcome {
    pub kind: EntryKind,
    pub number: u64,
    pub enriched: bool,
}

/// The numbers of the entries of `kind` whose enrichment failed, in order.
pub open spec fn failures(outcomes: Seq<EntryOutcome>, kind: EntryKind) -> Seq<u64>
    decreases outcomes.len(),
{
    if outcomes.len() == 0 {
        Seq::empty()
    } else {
        let o = outcomes.last();
        failures(outcomes.drop_last(), kind) + if o.kind == kind && !o.enriched {
            seq![o.number]
        } else {
            Seq::empty()
        }
    }
}

/// How many enrichments succeeded.
pub open spec fn enriched_count(outcomes: Seq<EntryOutcome>) -> nat
    decreases outcomes.len(),
{
    if outcomes.len() == 0 {
        0
    } else {
        enriched_count(outcomes.drop_last()) + if outcomes.last().enriched {
            1nat
        } else {
            0nat
        }
    }
}

/// The orchestrator's terminal output: the entries that could not be enriched.
pub struct FetchResult {
    pub failed_issues: Vec<u64>,
    pub failed_pulls: Vec<u64>,
}

impl FetchResult {
    pub open spec fn has_failures_spec(&self) -> bool {
        self.failed_issues@.len() > 0 || self.failed_pulls@.len() > 0
    }

    pub fn has_failures(&self) -> (r: bool)
        ensures
            r == self.has_failures_spec(),
    {
        self.failed_issues.len() > 0 || self.failed_pulls.len() > 0
    }
}

/// Walks the listing pages of one run, plans the work items of each, and
/// keeps the failures apart by kind.
pub struct FetchOrchestrator {
    prior: Option<BackupState>,
    query: ListingQuery,
    cursor: PageCursor,
    failed_issues: Vec<u64>,
    failed_pulls: Vec<u64>,
    outcomes: Ghost<Seq<EntryOutcome>>,
}

impl FetchOrchestrator {
    pub closed spec fn prior(&self) -> Option<BackupState> {
        self.prior
    }

    pub closed spec fn spec_query(&self) -> ListingQuery {
        self.query
    }

    /// The outcomes of the enrichments so far, in the order they were reported.
    pub closed spec fn outcomes(&self) -> Seq<EntryOutcome> {
        self.outcomes@
    }

    /// Whether the last listing page has been planned.
    pub closed spec fn listing_done(&self) -> bool {
        self.cursor.finished
    }

    pub closed spec fn page_number(&self) -> u32 {
        self.cursor.page
    }

    pub closed spec fn wf(&self) -> bool {
        &&& self.cursor.wf()
        &&& self.failed_issues@ == failures(self.outcomes@, EntryKind::Issue)
        &&& self.failed_pulls@ == failures(self.outcomes@, EntryKind::Pull)
    }

    /// A run that resumes from `prior`, if any.
    pub fn new(prior: Option<BackupState>) -> (r: Self)
        ensures
            r.wf(),
            r.prior() == prior,
            r.spec_query() == ListingQuery::for_state_spec(prior),
            r.outcomes() == Seq::<EntryOutcome>::empty(),
            !r.listing_done(),
            r.page_number() == START_PAGE,
    {
        let query = ListingQuery::for_state(&prior);
        FetchOrchestrator {
            prior,
            query,
            cursor: PageCursor::new(),
            failed_issues: Vec::new(),
            failed_pulls: Vec::new(),
            outcomes: Ghost(Seq::empty()),
        }
    }

    /// The listing request of this run.
    pub fn query(&self) -> (r: ListingQuery)
        ensures
            r == self.spec_query(),
    {
        self.query
    }

    /// The listing page to request next, or `None` after the last one.
    pub fn next_page(&self) -> (r: Option<u32>)
        ensures
            r == (if self.listing_done() {
                None
            } else {
                Some(self.page_number())
            }),
    {
        self.cursor.current()
    }

    /// Plans the work items of the listing page just fetched.
    pub fn on_listing_page(&mut self, listed: Vec<ListedEntry>, has_next: bool) -> (r: Vec<WorkItem>)
        requires
            old(self).wf(),
            !old(self).listing_done(),
        ensures
            final(self).wf(),
            r@ == page_plan(listed@, has_next, old(self).prior()),
            final(self).prior() == old(self).prior(),
            final(self).spec_query() == old(self).spec_query(),
            final(self).outcomes() == old(self).outcomes(),
            !has_next ==> final(self).listing_done(),
            has_next && old(self).page_number() + 1 < u32::MAX ==> (!final(self).listing_done()
                && final(self).page_number() == old(self).page_number() + 1),
    {
        let r = plan_page(listed, has_next, &self.prior);
        self.cursor.advance(has_next);
        r
    }

    /// Records whether the enrichment of an entry succeeded.
    pub fn on_entry(&mut self, kind: EntryKind, number: u64, enriched: bool)
        requires
            old(self).wf(),
        ensures
            final(self).wf(),
            final(self).outcomes() == old(self).outcomes().push(
                EntryOutcome { kind, number, enriched },
            ),
            final(self).prior() == old(self).prior(),
            final(self).spec_query() == old(self).spec_query(),
            final(self).listing_done() == old(self).listing_done(),
            final(self).page_number() == old(self).page_number(),
    {
        let ghost o = EntryOutcome { kind, number, enriched };
        let ghost before = self.outcomes@;
        let ghost after = before.push(o);
        assert(after.drop_last() =~= before);
        if !enriched {
            match kind {
                EntryKind::Issue => self.failed_issues.push(number),
                EntryKind::Pull => self.failed_pulls.push(number),
            }
        }
        self.outcomes = Ghost(after);
        assert(self.failed_issues@ =~= failures(after, EntryKind::Issue));
        assert(self.failed_pulls@ =~= failures(after, EntryKind::Pull));
    }

    /// The failures of the run, by kind, in the order they were reported.
    pub fn finish(self) -> (r: FetchResult)
        requires
            self.wf(),
        ensures
            r.failed_issues@ == failures(self.outcomes(), EntryKind::Issue),
            r.failed_pulls@ == failures(self.outcomes(), EntryKind::Pull),
    {
        FetchResult { failed_issues: self.failed_issues, failed_pulls: self.failed_pulls }
    }
}

/// Whatever the last listing page holds, every issue and every pull request
/// that failed in the previous run is among the work items of that page.
pub proof fn lemma_failed_entries_retried(listed: Seq<ListedEntry>, prior: BackupState)
    ensures
        forall|i: int|
            0 <= i < prior.failed_issues@.len() ==> page_plan(listed, false, Some(prior)).contains(
                WorkItem::Issue { number: prior.failed_issues@[i], listed: None },
            ),
        forall|i: int|
            0 <= i < prior.failed_pulls@.len() ==> page_plan(listed, false, Some(prior)).contains(
                WorkItem::Pull { number: prior.failed_pulls@[i] },
            ),
{
    let plan = page_plan(listed, false, Some(prior));
    let n = listed.len() as int;
    let m = prior.failed_issues@.len() as int;
    assert forall|i: int| 0 <= i < prior.failed_issues@.len() implies plan.contains(
        WorkItem::Issue { number: prior.failed_issues@[i], listed: None },
    ) by {
        assert(plan[n + i] == WorkItem::Issue { number: prior.failed_issues@[i], listed: None });
    }
    assert forall|i: int| 0 <= i < prior.failed_pulls@.len() implies plan.contains(
        WorkItem::Pull { number: prior.failed_pulls@[i] },
    ) by {
        assert(plan[n + m + i] == WorkItem::Pull { number: prior.failed_pulls@[i] });
    }
}

} // verus!
