use vstd::prelude::*;

verus! {

/// How a run ends, as seen by the process that started it.
#[derive(Clone, Copy, Debug, PartialEq, Eq, Structural)]
pub enum ExitStatus {
    Success,
    CreatingDirs,
    CreatingClient,
    ApiError,
    Writing,
    NoCredential,
    Internal,
}

pub open spec fn status_code(s: ExitStatus) -> u8 {
    match s {
        ExitStatus::Success => 0,
        ExitStatus::CreatingDirs => 1,
        ExitStatus::CreatingClient => 2,
        ExitStatus::ApiError => 3,
        ExitStatus::Writing => 6,
        ExitStatus::NoCredential => 4,
        ExitStatus::Internal => 5,
    }
}

/// Every status has an exit code of its own, so a caller can tell any two
/// outcomes apart (a failed write from an incomplete mirror, say).
pub proof fn lemma_codes_distinct(a: ExitStatus, b: ExitStatus)
    ensures
        status_code(a) == status_code(b) <==> a == b,
{
}

impl ExitStatus {
    /// The process exit code of this status.
    pub fn code(self) -> (r: u8)
        ensures
            r == status_code(self),
    {
        match self {
            ExitStatus::Success => 0,
            ExitStatus::CreatingDirs => 1,
            ExitStatus::CreatingClient => 2,
            ExitStatus::ApiError => 3,
            ExitStatus::Writing => 6,
            ExitStatus::NoCredential => 4,
            ExitStatus::Internal => 5,
        }
    }
}

} // verus!
