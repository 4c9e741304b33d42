//! Self-contained records of issues and pull requests, ready to be stored.
use vstd::prelude::*;
use octocrab::models::issues::Issue;
use octocrab::models::pulls::{Comment, PullRequest};
use octocrab::models::timelines::TimelineEvent;
use crate::text::{decimal, push_decimal};

verus! {

/// The two kinds of entries of a repository.
#[derive(Clone, Copy, Debug, PartialEq, Eq, Structural)]
pub enum EntryKind {
    Issue,
    Pull,
}

pub open spec fn kind_directory(kind: EntryKind) -> Seq<char> {
    match kind {
        EntryKind::Issue => "issues"@,
        EntryKind::Pull => "pulls"@,
    }
}

pub open spec fn kind_label(kind: EntryKind) -> Seq<char> {
    match kind {
        EntryKind::Issue => "issue #"@,
        EntryKind::Pull => "pull-request #"@,
    }
}

impl EntryKind {
    /// The directory, under the destination, that holds entries of this kind.
    pub fn directory(self) -> (r: &'static str)
        ensures
            r@ == kind_directory(self),
    {
        match self {
            EntryKind::Issue => "issues",
            EntryKind::Pull => "pulls",
        }
    }
}

/// The name of the file that holds entry `number`: its decimal number and `.json`.
pub open spec fn entry_file_name(number: u64) -> Seq<char> {
    decimal(number as nat) + ".json"@
}

/// An issue together with its timeline.
pub struct IssueWithMetadata {
    pub number: u64,
    pub issue: Issue,
    pub events: Vec<TimelineEvent>,
}

impl IssueWithMetadata {
    pub fn new(number: u64, issue: Issue, events: Vec<TimelineEvent>) -> (r: Self)
        ensures
            r.number == number,
            r.issue == issue,
            r.events@ == events@,
    {
        IssueWithMetadata { number, issue, events }
    }
}

/// A pull request together with its timeline and its review comments.
pub struct PullWithMetadata {
    pub number: u64,
    pub pull: PullRequest,
    pub events: Vec<TimelineEvent>,
    pub comments: Vec<Comment>,
}

impl PullWithMetadata {
    pub fn new(number: u64, pull: PullRequest, events: Vec<TimelineEvent>, comments: Vec<Comment>) -> (r: Self)
        ensures
            r.number == number,
            r.pull == pull,
            r.events@ == events@,
            r.comments@ == comments@,
    {
        PullWithMetadata { number, pull, events, comments }
    }
}

/// One enriched entry, as handed from the fetching side to the writer.
pub enum EntryWithMetadata {
    Issue(IssueWithMetadata),
    Pull(PullWithMetadata),
}

/// The result of assembling an issue record from its two sub-fetches: the
/// first failure in the order issue body, timeline.
pub open spec fn issue_assembly<E>(
    number: u64,
    issue: Result<Issue, E>,
    events: Result<Vec<TimelineEvent>, E>,
) -> Result<(u64, Issue, Seq<TimelineEvent>), E> {
    match issue {
        Err(e) => Err(e),
        Ok(i) => match events {
            Err(e) => Err(e),
            Ok(ev) => Ok((number, i, ev@)),
        },
    }
}

/// The result of assembling a pull-request record from its three
/// sub-fetches: the first failure in the order body, timeline, comments.
pub open spec fn pull_assembly<E>(
    number: u64,
    pull: Result<PullRequest, E>,
    events: Result<Vec<TimelineEvent>, E>,
    comments: Result<Vec<Comment>, E>,
) -> Result<(u64, PullRequest, Seq<TimelineEvent>, Seq<Comment>), E> {
    match pull {
        Err(e) => Err(e),
        Ok(p) => match events {
            Err(e) => Err(e),
            Ok(ev) => match comments {
                Err(e) => Err(e),
                Ok(c) => Ok((number, p, ev@, c@)),
            },
        },
    }
}

impl EntryWithMetadata {
    pub open spec fn spec_kind(&self) -> EntryKind {
        match self {
            EntryWithMetadata::Issue(_) => EntryKind::Issue,
            EntryWithMetadata::Pull(_) => EntryKind::Pull,
        }
    }

    pub open spec fn spec_number(&self) -> u64 {
        match self {
            EntryWithMetadata::Issue(i) => i.number,
            EntryWithMetadata::Pull(p) => p.number,
        }
    }

    pub fn kind(&self) -> (r: EntryKind)
        ensures
            r == self.spec_kind(),
    {
        match self {
            EntryWithMetadata::Issue(_) => EntryKind::Issue,
            EntryWithMetadata::Pull(_) => EntryKind::Pull,
        }
    }

    pub fn number(&self) -> (r: u64)
        ensures
            r == self.spec_number(),
    {
        match self {
            EntryWithMetadata::Issue(i) => i.number,
            EntryWithMetadata::Pull(p) => p.number,
        }
    }

    /// Builds an issue record; any failed sub-fetch fails the whole entry.
    pub fn assemble_issue<E>(
        number: u64,
        issue: Result<Issue, E>,
        events: Result<Vec<TimelineEvent>, E>,
    ) -> (r: Result<EntryWithMetadata, E>)
        ensures
            match (r, issue_assembly(number, issue, events)) {
                (Ok(EntryWithMetadata::Issue(rec)), Ok((n, i, ev))) => rec.number == n
                    && rec.issue == i && rec.events@ == ev,
                (Err(e), Err(f)) => e == f,
                _ => false,
            },
    {
        match issue {
            Err(e) => Err(e),
            Ok(i) => match events {
                Err(e) => Err(e),
                Ok(ev) => Ok(EntryWithMetadata::Issue(IssueWithMetadata::new(number, i, ev))),
            },
        }
    }

    /// Builds a pull-request record; any failed sub-fetch fails the whole entry.
    pub fn assemble_pull<E>(
        number: u64,
        pull: Result<PullRequest, E>,
        events: Result<Vec<TimelineEvent>, E>,
        comments: Result<Vec<Comment>, E>,
    ) -> (r: Result<EntryWithMetadata, E>)
        ensures
            match (r, pull_assembly(number, pull, events, comments)) {
                (Ok(EntryWithMetadata::Pull(rec)), Ok((n, p, ev, c))) => rec.number == n
                    && rec.pull == p && rec.events@ == ev && rec.comments@ == c,
                (Err(e), Err(f)) => e == f,
                _ => false,
            },
    {
        match pull {
            Err(e) => Err(e),
            Ok(p) => match events {
                Err(e) => Err(e),
                Ok(ev) => match comments {
                    Err(e) => Err(e),
                    Ok(c) => Ok(EntryWithMetadata::Pull(PullWithMetadata::new(number, p, ev, c))),
                },
            },
        }
    }

    /// The name of the file this record is stored in, inside its kind's directory.
    pub fn file_name(&self) -> (r: String)
        ensures
            r@ == entry_file_name(self.spec_number()),
    {
        proof {
            reveal_strlit(".json");
        }
        let mut out = String::new();
        push_decimal(&mut out, self.number());
        out.append(".json");
        assert(out@ =~= entry_file_name(self.spec_number()));
        out
    }

    /// A short description for messages, such as `issue #12`.
    pub fn describe(&self) -> (r: String)
        ensures
            r@ == kind_label(self.spec_kind()) + decimal(self.spec_number() as nat),
    {
        let mut out = match self.kind() {
            EntryKind::Issue => String::from_str("issue #"),
            EntryKind::Pull => String::from_str("pull-request #"),
        };
        push_decimal(&mut out, self.number());
        out
    }
}

} // verus!
