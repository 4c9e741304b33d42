//! Incremental backup of a repository's issues and pull requests: the
//! retry policy for remote calls, pagination, the planning and failure
//! accounting of a run, the persisted backup state, and how a run ends.
pub mod args;
pub mod exit;
pub mod fetch;
pub mod paging;
pub mod records;
pub mod remote;
pub mod retry;
pub mod run;
pub mod state;
pub mod text;
