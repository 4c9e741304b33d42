//! The remote service's data, carried through the library without being read.
use vstd::prelude::*;

verus! {

/// An issue as the remote service lists or returns it.
#[verifier::external_type_specification]
#[verifier::external_body]
pub struct ExIssue(octocrab::models::issues::Issue);

/// A pull request as the remote service returns it.
#[verifier::external_type_specification]
#[verifier::external_body]
pub struct ExPullRequest(octocrab::models::pulls::PullRequest);

/// One event of an issue's or pull request's timeline.
#[verifier::external_type_specification]
#[verifier::external_body]
pub struct ExTimelineEvent(octocrab::models::timelines::TimelineEvent);

/// One review comment of a pull request.
#[verifier::external_type_specification]
#[verifier::external_body]
pub struct ExComment(octocrab::models::pulls::Comment);

} // verus!
