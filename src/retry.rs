use vstd::prelude::*;

verus! {

/// How one attempt of a remote call ended.
#[derive(Clone, Copy, Debug, PartialEq, Eq, Structural)]
pub enum CallOutcome {
    /// The call returned a value.
    Success,
    /// The remote service rejected the request (this is where a rate limit shows).
    ApiError,
    /// Anything else: transport failure, malformed response.
    OtherError,
}

/// What the caller of a [`RequestExecutor`] must do next.
#[derive(Clone, Copy, Debug, PartialEq, Eq, Structural)]
pub enum ExecutorStep {
    /// Hand the value of the last call back to the caller.
    Return,
    /// Hand the error of the last call back to the caller.
    Fail,
    /// Ask the remote service for its rate-limit status, then call `on_quota`.
    QueryQuota,
    /// Sleep this many seconds, then make the call once more.
    WaitThenRetry(u64),
}

#[derive(Clone, Copy, Debug, PartialEq, Eq, Structural)]
pub enum ExecutorPhase {
    /// A call may be made.
    Ready,
    /// The first call was rejected: the rate-limit status is awaited.
    AwaitingQuota,
    /// The outcome has been decided; no further call is made.
    Finished,
}

pub struct ExecutorView {
    pub calls: nat,
    pub saw_exhausted_quota: bool,
    pub phase: ExecutorPhase,
}

/// Runs one remote call with at most one retry, made only after the rate-limit
/// quota was observed to be used up.
pub struct RequestExecutor {
    calls: u8,
    saw_exhausted_quota: bool,
    phase: ExecutorPhase,
}

/// Seconds to sleep so that the clock passes `reset + 2`, saturated to `u64`.
pub open spec fn rate_limit_wait(reset: u64, now: u64) -> int {
    let w = reset + 2 - now;
    if w <= 0 {
        0
    } else if w > u64::MAX {
        u64::MAX as int
    } else {
        w
    }
}

/// Seconds to wait, from a rate-limit reset instant and the current instant
/// (both in seconds since the Unix epoch), until two seconds past the reset.
pub fn rate_limit_wait_secs(reset: u64, now: u64) -> (r: u64)
    ensures
        r == rate_limit_wait(reset, now),
{
    if reset >= now {
        (reset - now).saturating_add(2)
    } else if now - reset < 2 {
        2 - (now - reset)
    } else {
        0
    }
}

impl View for RequestExecutor {
    type V = ExecutorView;

    closed spec fn view(&self) -> ExecutorView {
        ExecutorView {
            calls: self.calls as nat,
            saw_exhausted_quota: self.saw_exhausted_quota,
            phase: self.phase,
        }
    }
}

impl RequestExecutor {
    /// The executor's invariant: at most two calls, the second one only after
    /// an exhausted quota was seen.
    pub open spec fn wf(&self) -> bool {
        &&& self@.calls <= 2
        &&& self@.calls == 2 ==> self@.saw_exhausted_quota
        &&& self@.phase == ExecutorPhase::Ready ==> self@.calls < 2
        &&& self@.phase == ExecutorPhase::Ready ==> (self@.calls == 1 <==> self@.saw_exhausted_quota)
        &&& self@.phase == ExecutorPhase::AwaitingQuota ==> (self@.calls == 1
            && !self@.saw_exhausted_quota)
    }

    /// An executor before its first call.
    pub fn new() -> (r: Self)
        ensures
            r.wf(),
            r@.calls == 0,
            !r@.saw_exhausted_quota,
            r@.phase == ExecutorPhase::Ready,
    {
        RequestExecutor { calls: 0, saw_exhausted_quota: false, phase: ExecutorPhase::Ready }
    }

    /// Whether the caller may make the call now.
    pub fn may_call(&self) -> (r: bool)
        ensures
            r == (self@.phase == ExecutorPhase::Ready),
    {
        self.phase == ExecutorPhase::Ready
    }

    /// Number of calls made so far.
    pub fn calls(&self) -> (r: u8)
        ensures
            r == self@.calls,
    {
        self.calls
    }

    /// Records the outcome of a call just made and says what comes next.
    /// A rejected first call leads to a rate-limit query; every other
    /// failure is handed back at once.
    pub fn on_call(&mut self, outcome: CallOutcome) -> (step: ExecutorStep)
        requires
            old(self).wf(),
            old(self)@.phase == ExecutorPhase::Ready,
        ensures
            final(self).wf(),
            final(self)@.calls == old(self)@.calls + 1,
            final(self)@.saw_exhausted_quota == old(self)@.saw_exhausted_quota,
            outcome == CallOutcome::Success ==> step == ExecutorStep::Return,
            outcome == CallOutcome::OtherError ==> step == ExecutorStep::Fail,
            outcome == CallOutcome::ApiError ==> step == (if old(self)@.calls == 0 {
                ExecutorStep::QueryQuota
            } else {
                ExecutorStep::Fail
            }),
            step == ExecutorStep::QueryQuota ==> final(self)@.phase == ExecutorPhase::AwaitingQuota,
            step != ExecutorStep::QueryQuota ==> final(self)@.phase == ExecutorPhase::Finished,
    {
        self.calls = self.calls + 1;
        match outcome {
            CallOutcome::Success => {
                self.phase = ExecutorPhase::Finished;
                ExecutorStep::Return
            },
            CallOutcome::OtherError => {
                self.phase = ExecutorPhase::Finished;
                ExecutorStep::Fail
            },
            CallOutcome::ApiError => {
                if self.calls == 1 {
                    self.phase = ExecutorPhase::AwaitingQuota;
                    ExecutorStep::QueryQuota
                } else {
                    self.phase = ExecutorPhase::Finished;
                    ExecutorStep::Fail
                }
            },
        }
    }

    /// Records the rate-limit status (remaining quota, reset instant, current
    /// instant) after a rejected first call. An exhausted quota leads to one
    /// wait and one more call; otherwise the rejection is handed back.
    pub fn on_quota(&mut self, remaining: u64, reset: u64, now: u64) -> (step: ExecutorStep)
        requires
            old(self).wf(),
            old(self)@.phase == ExecutorPhase::AwaitingQuota,
        ensures
            final(self).wf(),
            final(self)@.calls == old(self)@.calls,
            remaining == 0 ==> (step == ExecutorStep::WaitThenRetry(rate_limit_wait(reset, now) as u64)
                && final(self)@.phase == ExecutorPhase::Ready && final(self)@.saw_exhausted_quota),
            remaining != 0 ==> (step == ExecutorStep::Fail && final(self)@.phase
                == ExecutorPhase::Finished && !final(self)@.saw_exhausted_quota),
    {
        if remaining == 0 {
            self.saw_exhausted_quota = true;
            self.phase = ExecutorPhase::Ready;
            ExecutorStep::WaitThenRetry(rate_limit_wait_secs(reset, now))
        } else {
            self.phase = ExecutorPhase::Finished;
            ExecutorStep::Fail
        }
    }
}

/// Whatever sequence of outcomes is fed to an executor, the operation is
/// invoked at most twice, a second invocation happens only after a zero
/// remaining quota was observed, and no call is permitted after the second.
pub proof fn lemma_retry_bound(e: RequestExecutor)
    requires
        e.wf(),
    ensures
        e@.calls <= 2,
        e@.calls == 2 ==> e@.saw_exhausted_quota,
        e@.phase == ExecutorPhase::Ready ==> e@.calls + 1 <= 2,
{
}

} // verus!
