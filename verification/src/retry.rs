//! The retry policy of the native-format strategy.
//!
//! A failed attempt is repeated up to a fixed number of times. Before the
//! `k`-th repetition the worker waits `k` times the base delay. Waiting and
//! extracting are the caller's part; the policy says after each attempt what
//! comes next.

use crate::adapter::{ExtractError, Outcome, OutcomeView};
use crate::record::Record;
use vstd::prelude::*;

verus! {

/// Number of repetitions that the pipeline allows by default.
pub const DEFAULT_MAX_RETRIES: u64 = 10;

/// Base delay between attempts in milliseconds.
pub const DEFAULT_BASE_DELAY_MS: u64 = 500;

/// How often a failed extraction is repeated, and how long to wait between
/// attempts. The longest delay fits in 64 bits.
#[derive(Clone, Copy, Debug, PartialEq, Eq)]
pub struct RetryPolicy {
    max_retries: u64,
    base_delay_ms: u64,
}

/// What the worker does after an attempt.
#[derive(Clone, Debug, PartialEq, Eq)]
pub enum RetryStep {
    /// The file is done, with this outcome.
    Finish(Outcome),
    /// Wait `delay_ms` milliseconds, then try again as repetition `retries`.
    Wait { delay_ms: u64, retries: u64 },
}

impl RetryPolicy {
    #[verifier::type_invariant]
    spec fn delays_fit(self) -> bool {
        self.max_retries * self.base_delay_ms <= u64::MAX
    }

    /// The number of repetitions allowed.
    pub closed spec fn limit(self) -> nat {
        self.max_retries as nat
    }

    /// The base delay in milliseconds.
    pub closed spec fn base(self) -> nat {
        self.base_delay_ms as nat
    }

    /// What follows a failed attempt that was repetition `retries` (0 for
    /// the first attempt): the delay and the number of the next repetition,
    /// or nothing where the repetitions are used up.
    pub open spec fn after_failure(self, retries: nat) -> Option<(nat, nat)> {
        if retries < self.limit() {
            Some(((retries + 1) * self.base(), retries + 1))
        } else {
            None
        }
    }

    /// The delays between the attempts on a file whose extraction fails
    /// every time, from repetition `retries` on.
    pub open spec fn delays_when_failing(self, retries: nat) -> Seq<nat>
        decreases self.limit() - retries,
    {
        match self.after_failure(retries) {
            Some((delay, next)) => seq![delay] + self.delays_when_failing(next),
            None => Seq::empty(),
        }
    }

    /// The number of attempts on a file whose extraction fails every time:
    /// one more than there are delays.
    pub open spec fn attempts_when_failing(self) -> nat {
        self.delays_when_failing(0).len() + 1
    }

    /// A policy with the given limits; `None` where the longest delay,
    /// `max_retries * base_delay_ms`, does not fit in 64 bits.
    pub fn new(max_retries: u64, base_delay_ms: u64) -> (out: Option<RetryPolicy>)
        ensures
            out is Some <==> max_retries * base_delay_ms <= u64::MAX,
            out matches Some(p) ==> p.limit() == max_retries && p.base() == base_delay_ms,
    {
        match max_retries.checked_mul(base_delay_ms) {
            Some(_) => Some(RetryPolicy { max_retries, base_delay_ms }),
            None => None,
        }
    }

    /// The policy of the pipeline: ten repetitions, half a second more of
    /// delay before each.
    pub fn standard() -> (out: RetryPolicy)
        ensures
            out.limit() == DEFAULT_MAX_RETRIES,
            out.base() == DEFAULT_BASE_DELAY_MS,
    {
        assert(DEFAULT_MAX_RETRIES * DEFAULT_BASE_DELAY_MS <= u64::MAX) by (nonlinear_arith)
            requires
                DEFAULT_MAX_RETRIES == 10,
                DEFAULT_BASE_DELAY_MS == 500,
        ;
        RetryPolicy { max_retries: DEFAULT_MAX_RETRIES, base_delay_ms: DEFAULT_BASE_DELAY_MS }
    }

    /// The number of repetitions allowed.
    pub fn max_retries(&self) -> (out: u64)
        ensures
            out == self.limit(),
    {
        self.max_retries
    }

    /// The base delay in milliseconds.
    pub fn base_delay_ms(&self) -> (out: u64)
        ensures
            out == self.base(),
    {
        self.base_delay_ms
    }

    /// Decides what follows an attempt that was repetition `retries` (0 for
    /// the first attempt). A record ends the work on the file. A failure is
    /// followed by a wait and another attempt while repetitions are left;
    /// after the last one the file is given up with the failure.
    pub fn on_attempt(&self, retries: u64, attempt: Result<Record, ExtractError>) -> (step:
        RetryStep)
        ensures
            match attempt {
                Ok(r) => step matches RetryStep::Finish(o) && o@ == OutcomeView::Success(r@),
                Err(e) => match self.after_failure(retries as nat) {
                    Some((delay, next)) => step == (RetryStep::Wait {
                        delay_ms: delay as u64,
                        retries: next as u64,
                    }) && delay <= u64::MAX && next <= u64::MAX,
                    None => step matches RetryStep::Finish(o) && o@ == (OutcomeView::Failed {
                        error: e@,
                        retries_exhausted: true,
                    }),
                },
            },
    {
        proof {
            use_type_invariant(self);
        }
        match attempt {
            Ok(r) => RetryStep::Finish(Outcome::Success(r)),
            Err(error) => {
                if retries < self.max_retries {
                    let next: u64 = retries + 1;
                    assert(next * self.base_delay_ms <= self.max_retries * self.base_delay_ms)
                        by (nonlinear_arith)
                        requires
                            next <= self.max_retries,
                    ;
                    RetryStep::Wait { delay_ms: next * self.base_delay_ms, retries: next }
                } else {
                    RetryStep::Finish(Outcome::Failed { error, retries_exhausted: true })
                }
            },
        }
    }
}

/// From repetition `retries` on, a file that always fails is tried until the
/// repetitions are used up, and the `i`-th delay from there is the base
/// delay times the number of the repetition that it precedes.
pub proof fn lemma_delays_from(policy: RetryPolicy, retries: nat)
    requires
        retries <= policy.limit(),
    ensures
        policy.delays_when_failing(retries).len() == policy.limit() - retries,
        forall|i: int|
            0 <= i < policy.limit() - retries ==> #[trigger] policy.delays_when_failing(
                retries,
            )[i] == (retries + i + 1) * policy.base(),
    decreases policy.limit() - retries,
{
    if retries < policy.limit() {
        lemma_delays_from(policy, retries + 1);
        let rest = policy.delays_when_failing(retries + 1);
        let all = policy.delays_when_failing(retries);
        assert(all == seq![(retries + 1) * policy.base()] + rest);
        assert forall|i: int| 0 <= i < policy.limit() - retries implies #[trigger] all[i] == (
        retries + i + 1) * policy.base() by {
            if i > 0 {
                assert(all[i] == rest[i - 1]);
                assert((retries + 1 + (i - 1) + 1) == retries + i + 1);
            }
        }
    }
}

/// A file whose extraction always fails is attempted exactly one more time
/// than the policy allows repetitions, and the delay between attempts never
/// gets shorter.
pub proof fn lemma_retry_exhaustion(policy: RetryPolicy)
    ensures
        policy.attempts_when_failing() == policy.limit() + 1,
        forall|i: int|
            0 <= i < policy.limit() ==> #[trigger] policy.delays_when_failing(0)[i] == (i + 1)
                * policy.base(),
        forall|i: int, j: int|
            0 <= i <= j < policy.limit() ==> policy.delays_when_failing(0)[i]
                <= policy.delays_when_failing(0)[j],
{
    lemma_delays_from(policy, 0);
    let delays = policy.delays_when_failing(0);
    assert forall|i: int, j: int| 0 <= i <= j < policy.limit() implies delays[i] <= delays[j] by {
        let b = policy.base();
        assert(delays[i] == (i + 1) * b);
        assert(delays[j] == (j + 1) * b);
        assert((i + 1) * b <= (j + 1) * b) by (nonlinear_arith)
            requires
                0 <= i <= j,
                b >= 0,
        ;
    }
}

} // verus!
