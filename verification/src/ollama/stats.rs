//! Usage statistics of a response.

use vstd::prelude::*;
use crate::ollama::ollama_response::{tokens_of, OllamaResponse2, OllamaResponse2View};

verus! {

/// What a response cost: the exact counts from which the time elapsed and the rate of
/// tokens follow.
#[derive(Clone, Copy, Debug, PartialEq, Eq, Structural)]
pub struct OllamaStats {
    /// The tokens used: those evaluated and those of the prompt.
    pub tokens_used: u64,
    /// The tokens evaluated.
    pub eval_tokens: u32,
    /// The time spent on the evaluation, in nanoseconds.
    pub elapsed_nanos: u64,
}

/// The statistics of a response; a count or duration that is absent counts as zero.
pub open spec fn stats_of(r: OllamaResponse2View) -> OllamaStats {
    OllamaStats {
        tokens_used: tokens_of(r) as u64,
        eval_tokens: match r.eval_count {
            Some(n) => n,
            None => 0,
        },
        elapsed_nanos: match r.eval_duration {
            Some(n) => n,
            None => 0,
        },
    }
}

/// The time elapsed in whole milliseconds.
pub open spec fn millis_of(s: OllamaStats) -> int {
    s.elapsed_nanos as int / 1_000_000
}

/// The tokens evaluated per second, in thousandths and rounded down: the tokens evaluated
/// divided by the seconds elapsed, and zero where no time elapsed.
pub open spec fn rate_of(s: OllamaStats) -> int {
    if s.elapsed_nanos == 0 {
        0
    } else {
        (s.eval_tokens as int * 1_000_000_000_000) / (s.elapsed_nanos as int)
    }
}

impl OllamaStats {
    /// The time elapsed in whole milliseconds.
    pub fn elapsed_millis(&self) -> (ms: u64)
        ensures
            ms == millis_of(*self),
    {
        self.elapsed_nanos / 1_000_000
    }

    /// The tokens evaluated per second, in thousandths and rounded down; zero where no
    /// time elapsed.
    pub fn tokens_per_second_milli(&self) -> (rate: u128)
        ensures
            rate == rate_of(*self),
    {
        if self.elapsed_nanos == 0 {
            0
        } else {
            let scaled: u128 = (self.eval_tokens as u128) * 1_000_000_000_000u128;
            scaled / (self.elapsed_nanos as u128)
        }
    }
}

impl OllamaResponse2 {
    /// The usage statistics of the response.
    pub fn stats(&self) -> (s: OllamaStats)
        ensures
            s == stats_of(self@),
    {
        let eval_tokens: u32 = match self.eval_count() {
            Some(n) => *n,
            None => 0,
        };
        let elapsed_nanos: u64 = match self.eval_duration() {
            Some(n) => *n,
            None => 0,
        };
        OllamaStats { tokens_used: self.tokens_used(), eval_tokens, elapsed_nanos }
    }
}

/// The statistics depend on nothing but what the response holds: responses that hold the
/// same give the same statistics, and so does the same response asked twice.
pub proof fn lemma_stats_repeatable(a: OllamaResponse2, b: OllamaResponse2)
    requires
        a@ == b@,
    ensures
        stats_of(a@) == stats_of(b@),
        millis_of(stats_of(a@)) == millis_of(stats_of(b@)),
        rate_of(stats_of(a@)) == rate_of(stats_of(b@)),
{
}

/// The rate is never more than what the tokens allow in the shortest time: it is zero where
/// no time elapsed or no token was evaluated.
pub proof fn lemma_rate_zero(s: OllamaStats)
    ensures
        s.elapsed_nanos == 0 || s.eval_tokens == 0 ==> rate_of(s) == 0,
        rate_of(s) >= 0,
{
    if s.elapsed_nanos != 0 {
        let n = s.eval_tokens as int * 1_000_000_000_000;
        let d = s.elapsed_nanos as int;
        assert(n >= 0);
        assert(n / d >= 0) by (nonlinear_arith)
            requires
                n >= 0,
                d > 0,
        ;
        if s.eval_tokens == 0 {
            assert(n == 0);
            assert(0int / d == 0) by (nonlinear_arith)
                requires
                    d > 0,
            ;
        }
    }
}

} // verus!
