use vstd::prelude::*;

verus! {

/// How many times the materialized item count is measured before giving up.
pub const DEFAULT_MAX_ATTEMPTS: u32 = 10;

#[derive(Debug, Clone, Copy, PartialEq, Eq, Structural)]
pub struct RetryPolicy {
    pub max_attempts: u32,
}

impl RetryPolicy {
    pub fn standard() -> (r: RetryPolicy)
        ensures
            r.max_attempts == DEFAULT_MAX_ATTEMPTS,
    {
        RetryPolicy { max_attempts: DEFAULT_MAX_ATTEMPTS }
    }
}

/// What the caller does next with the session.
#[derive(Debug, Clone, Copy, PartialEq, Eq, Structural)]
pub enum PollAction {
    /// The view holds every advertised item: read them.
    Done,
    /// Trigger another load (scroll to the bottom), wait, and measure again.
    LoadMore,
}

#[derive(Debug, Clone, Copy, PartialEq, Eq, Structural)]
pub enum ConvergenceError {
    CountMismatch { expected: u64, actual: u64 },
}

#[derive(Debug, Clone, Copy, PartialEq, Eq, Structural)]
pub enum PollStatus {
    Polling,
    Converged,
    /// Gave up; holds the last measured count.
    Failed(u64),
}

/// The decisions of one convergence run: it is told each measured item count
/// and answers whether the view is complete, needs another load, or has
/// exhausted its attempts.
pub struct Poller {
    expected: u64,
    attempts: u32,
    max_attempts: u32,
    status: PollStatus,
}

pub struct PollerView {
    pub expected: u64,
    pub attempts: nat,
    pub max_attempts: nat,
    pub status: PollStatus,
}

/// The number of measurements a policy allows: at least one.
pub open spec fn attempt_bound(max_attempts: nat) -> nat {
    if max_attempts == 0 {
        1
    } else {
        max_attempts
    }
}

/// One measurement: the next state and the answer.
pub open spec fn step(v: PollerView, count: u64) -> (PollerView, Result<PollAction, ConvergenceError>) {
    match v.status {
        PollStatus::Polling => {
            let a = v.attempts + 1;
            if count == v.expected {
                (
                    PollerView { attempts: a, status: PollStatus::Converged, ..v },
                    Ok(PollAction::Done),
                )
            } else if a >= attempt_bound(v.max_attempts) {
                (
                    PollerView { attempts: a, status: PollStatus::Failed(count), ..v },
                    Err(ConvergenceError::CountMismatch { expected: v.expected, actual: count }),
                )
            } else {
                (PollerView { attempts: a, ..v }, Ok(PollAction::LoadMore))
            }
        },
        PollStatus::Converged => (v, Ok(PollAction::Done)),
        PollStatus::Failed(actual) => (
            v,
            Err(ConvergenceError::CountMismatch { expected: v.expected, actual }),
        ),
    }
}

/// The state after a sequence of measurements.
pub open spec fn run(v: PollerView, counts: Seq<u64>) -> PollerView
    decreases counts.len(),
{
    if counts.len() == 0 {
        v
    } else {
        run(step(v, counts[0]).0, counts.drop_first())
    }
}

pub open spec fn view_wf(v: PollerView) -> bool {
    &&& v.attempts <= attempt_bound(v.max_attempts)
    &&& v.status is Polling ==> v.attempts < attempt_bound(v.max_attempts)
}

impl View for Poller {
    type V = PollerView;

    closed spec fn view(&self) -> PollerView {
        PollerView {
            expected: self.expected,
            attempts: self.attempts as nat,
            max_attempts: self.max_attempts as nat,
            status: self.status,
        }
    }
}

impl Poller {
    pub closed spec fn wf(&self) -> bool {
        view_wf(self@)
    }

    /// Starts a run for a view that advertises `total` items. Without a
    /// counter (`None`) the view is empty and the run is complete at once.
    pub fn new(total: Option<u64>, policy: RetryPolicy) -> (r: Poller)
        ensures
            r.wf(),
            r@.attempts == 0,
            r@.max_attempts == policy.max_attempts,
            total is None ==> r@.expected == 0 && r@.status is Converged,
            total is Some ==> r@.expected == total->0 && r@.status is Polling,
    {
        match total {
            Some(t) => Poller {
                expected: t,
                attempts: 0,
                max_attempts: policy.max_attempts,
                status: PollStatus::Polling,
            },
            None => Poller {
                expected: 0,
                attempts: 0,
                max_attempts: policy.max_attempts,
                status: PollStatus::Converged,
            },
        }
    }

    /// Takes one measured item count and decides what comes next.
    pub fn observe(&mut self, count: u64) -> (r: Result<PollAction, ConvergenceError>)
        requires
            old(self).wf(),
        ensures
            final(self).wf(),
            (final(self)@, r) == step(old(self)@, count),
    {
        match self.status {
            PollStatus::Polling => {
                self.attempts = self.attempts + 1;
                let bound: u32 = if self.max_attempts == 0 {
                    1
                } else {
                    self.max_attempts
                };
                if count == self.expected {
                    self.status = PollStatus::Converged;
                    Ok(PollAction::Done)
                } else if self.attempts >= bound {
                    self.status = PollStatus::Failed(count);
                    Err(ConvergenceError::CountMismatch { expected: self.expected, actual: count })
                } else {
                    Ok(PollAction::LoadMore)
                }
            },
            PollStatus::Converged => Ok(PollAction::Done),
            PollStatus::Failed(actual) => Err(
                ConvergenceError::CountMismatch { expected: self.expected, actual },
            ),
        }
    }

    pub fn status(&self) -> (r: PollStatus)
        ensures
            r == self@.status,
    {
        self.status
    }

    pub fn attempts(&self) -> (r: u32)
        ensures
            r == self@.attempts,
    {
        self.attempts
    }

    pub fn expected(&self) -> (r: u64)
        ensures
            r == self@.expected,
    {
        self.expected
    }
}

/// A run never takes more measurements than its policy allows, and once it
/// has taken that many it has either converged or failed with a count
/// mismatch, whatever the counts were.
pub proof fn lemma_converge_terminates(v: PollerView, counts: Seq<u64>)
    requires
        view_wf(v),
    ensures
        run(v, counts).attempts <= attempt_bound(v.max_attempts),
        !(v.status is Polling) ==> !(run(v, counts).status is Polling),
        counts.len() + v.attempts >= attempt_bound(v.max_attempts) ==> !(run(
            v,
            counts,
        ).status is Polling),
    decreases counts.len(),
{
    if counts.len() > 0 {
        let next = step(v, counts[0]).0;
        assert(view_wf(next));
        assert(next.max_attempts == v.max_attempts);
        lemma_converge_terminates(next, counts.drop_first());
        if v.status is Polling {
            assert(next.attempts == v.attempts + 1);
        }
    }
}

} // verus!
