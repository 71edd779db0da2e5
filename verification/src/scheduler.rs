//! The periodic refill scheduler.
//!
//! One scheduler is bound to one gate for the life of the service: a timer in
//! the surrounding runtime fires once per interval and hands control here, and
//! the scheduler delivers the discrete refill ticks. Tokens appear in bursts of
//! `refill_amount` per tick, never fractionally over time, so a caller just
//! under the limit may wait up to a full interval. Because `reset` mutates the
//! bucket's fields in place, the scheduler keeps ticking the live bucket and
//! never a stale, replaced one. A reset leaves the running cadence untouched:
//! the next tick stays where the timer already put it.

use vstd::prelude::*;

use crate::gate::TokenBucketGate;

verus! {

/// The fixed cadence at which refill ticks are delivered.
pub struct RefillScheduler {
    interval_ms: u64,
}

impl RefillScheduler {
    /// Period between ticks, in milliseconds; fixed at construction.
    pub closed spec fn spec_interval_ms(&self) -> u64 {
        self.interval_ms
    }

    /// A scheduler is well formed when its period is a real duration.
    pub open spec fn wf(&self) -> bool {
        self.spec_interval_ms() >= 1
    }

    pub fn new(interval_ms: u64) -> (s: RefillScheduler)
        requires
            interval_ms >= 1,
        ensures
            s.spec_interval_ms() == interval_ms,
            s.wf(),
    {
        RefillScheduler { interval_ms }
    }

    pub fn interval_ms(&self) -> (r: u64)
        ensures
            r == self.spec_interval_ms(),
    {
        self.interval_ms
    }

    /// How many whole intervals fit in `elapsed_ms`: the number of ticks owed
    /// after that much time has passed since the last delivered tick.
    pub fn ticks_due(&self, elapsed_ms: u64) -> (k: u64)
        requires
            self.wf(),
        ensures
            k == elapsed_ms as int / self.spec_interval_ms() as int,
    {
        elapsed_ms / self.interval_ms
    }

    /// Hand the bucket a single refill, on the timer's behalf.
    pub fn tick(&self, gate: &mut TokenBucketGate)
        requires
            old(gate).wf(),
        ensures
            *final(gate) == TokenBucketGate::spec_tick(*old(gate)),
            final(gate).wf(),
    {
        gate.refill_tick();
    }

    /// Deliver `k` ticks at once (catching up after `k` intervals have gone
    /// by). The result is exactly `k` single ticks, so the refill bound holds:
    /// the tokens end at most at capacity.
    pub fn catch_up(&self, gate: &mut TokenBucketGate, k: u64)
        requires
            old(gate).wf(),
        ensures
            *final(gate) == TokenBucketGate::spec_ticks(*old(gate), k as nat),
            final(gate).spec_tokens() <= old(gate).spec_capacity(),
            final(gate).wf(),
    {
        let ghost g0 = *gate;
        let mut i: u64 = 0;
        while i < k
            invariant
                i <= k,
                gate.wf(),
                *gate == TokenBucketGate::spec_ticks(g0, i as nat),
            decreases k - i,
        {
            proof {
                Self::lemma_ticks_snoc(g0, i as nat);
            }
            gate.refill_tick();
            i = i + 1;
        }
        proof {
            TokenBucketGate::lemma_refill_bound(g0, k as nat);
        }
    }

    /// Appending one more tick after `k` is the same as ticking the `k`-fold
    /// result once.
    proof fn lemma_ticks_snoc(s: TokenBucketGate, k: nat)
        ensures
            TokenBucketGate::spec_ticks(s, k + 1) == TokenBucketGate::spec_tick(
                TokenBucketGate::spec_ticks(s, k),
            ),
        decreases k,
    {
        assert(TokenBucketGate::spec_ticks(s, k + 1) == TokenBucketGate::spec_ticks(
            TokenBucketGate::spec_tick(s),
            k,
        ));
        if k == 0 {
            assert(TokenBucketGate::spec_ticks(TokenBucketGate::spec_tick(s), 0)
                == TokenBucketGate::spec_tick(s));
            assert(TokenBucketGate::spec_ticks(s, 0) == s);
        } else {
            Self::lemma_ticks_snoc(TokenBucketGate::spec_tick(s), (k - 1) as nat);
            assert(TokenBucketGate::spec_ticks(s, k) == TokenBucketGate::spec_ticks(
                TokenBucketGate::spec_tick(s),
                (k - 1) as nat,
            ));
        }
    }
}

} // verus!
