//! The token-bucket admission gate.
//!
//! A gate holds a counter of available permits (`tokens`), bounded by a fixed
//! `capacity`, together with the refill parameters that a scheduler uses to
//! replenish it. Callers ask for admission with [`TokenBucketGate::try_acquire`];
//! the scheduler adds tokens back with [`TokenBucketGate::refill_tick`]; an
//! administrative [`TokenBucketGate::reset`] reinitializes the whole bucket in
//! place. Every operation is a total, constant-time read-modify-write, so a
//! caller that serializes them (one lock acquisition per call) gets linearizable
//! behaviour; the contracts below pin down the exact state transition of each.

use vstd::prelude::*;

verus! {

/// The fixed configuration a bucket is (re)initialized from.
#[derive(Clone, Copy, Debug)]
pub struct GateConfig {
    /// Tokens available immediately after initialization.
    pub initial: u64,
    /// Most tokens the bucket can ever hold.
    pub capacity: u64,
    /// Tokens added back per scheduler tick.
    pub refill_amount: u64,
    /// Wall-clock period between scheduler ticks, in milliseconds.
    pub refill_interval_ms: u64,
}

impl GateConfig {
    /// A configuration is well formed when it does not start over capacity and
    /// names a real (nonzero) refill period.
    pub open spec fn wf(&self) -> bool {
        &&& self.initial <= self.capacity
        &&& self.refill_interval_ms >= 1
    }

    pub fn is_valid(&self) -> (r: bool)
        ensures
            r == self.wf(),
    {
        self.initial <= self.capacity && self.refill_interval_ms >= 1
    }

    /// The default configuration the milk endpoint resets to: a bucket of five,
    /// starting full, regaining one token per one-second tick.
    pub fn milk_default() -> (c: GateConfig)
        ensures
            c == (GateConfig { initial: 5u64, capacity: 5u64, refill_amount: 1u64, refill_interval_ms: 1000u64 }),
            c.wf(),
    {
        GateConfig { initial: 5, capacity: 5, refill_amount: 1, refill_interval_ms: 1000 }
    }
}

/// The shared counter plus its refill parameters. The fields are private:
/// the counter is observed and mutated only through the operations below.
pub struct TokenBucketGate {
    tokens: u64,
    capacity: u64,
    refill_amount: u64,
    refill_interval_ms: u64,
}

impl TokenBucketGate {
    /// Currently available permits.
    pub closed spec fn spec_tokens(&self) -> u64 {
        self.tokens
    }

    /// Most permits the bucket can hold.
    pub closed spec fn spec_capacity(&self) -> u64 {
        self.capacity
    }

    /// Permits added back per tick.
    pub closed spec fn spec_refill_amount(&self) -> u64 {
        self.refill_amount
    }

    /// Period between ticks, in milliseconds.
    pub closed spec fn spec_refill_interval_ms(&self) -> u64 {
        self.refill_interval_ms
    }

    /// The bucket invariant: the counter never exceeds capacity (and, being
    /// unsigned, is never negative).
    pub open spec fn wf(&self) -> bool {
        self.spec_tokens() <= self.spec_capacity()
    }

    /// The state a bucket has right after initialization from `c`.
    pub closed spec fn spec_fresh(c: GateConfig) -> TokenBucketGate {
        TokenBucketGate {
            tokens: c.initial,
            capacity: c.capacity,
            refill_amount: c.refill_amount,
            refill_interval_ms: c.refill_interval_ms,
        }
    }

    /// The transition `try_acquire(n)` makes: grants exactly when `n` is
    /// positive and within the available tokens, and only then decrements.
    pub closed spec fn spec_try_acquire(s: TokenBucketGate, n: u64) -> (TokenBucketGate, bool) {
        if 1 <= n && n <= s.tokens {
            (
                TokenBucketGate {
                    tokens: (s.tokens - n) as u64,
                    capacity: s.capacity,
                    refill_amount: s.refill_amount,
                    refill_interval_ms: s.refill_interval_ms,
                },
                true,
            )
        } else {
            (s, false)
        }
    }

    /// The transition one refill tick makes: add `refill_amount`, saturating
    /// at `capacity`.
    pub closed spec fn spec_tick(s: TokenBucketGate) -> TokenBucketGate {
        TokenBucketGate {
            tokens: if s.tokens + s.refill_amount >= s.capacity {
                s.capacity
            } else {
                (s.tokens + s.refill_amount) as u64
            },
            capacity: s.capacity,
            refill_amount: s.refill_amount,
            refill_interval_ms: s.refill_interval_ms,
        }
    }

    /// Create a bucket from a well-formed configuration.
    pub fn new(c: GateConfig) -> (g: TokenBucketGate)
        requires
            c.wf(),
        ensures
            g == Self::spec_fresh(c),
            g.spec_tokens() == c.initial,
            g.spec_capacity() == c.capacity,
            g.spec_refill_amount() == c.refill_amount,
            g.spec_refill_interval_ms() == c.refill_interval_ms,
            g.wf(),
    {
        TokenBucketGate {
            tokens: c.initial,
            capacity: c.capacity,
            refill_amount: c.refill_amount,
            refill_interval_ms: c.refill_interval_ms,
        }
    }

    /// Non-blocking admission check: grants and deducts `n` tokens exactly when
    /// `n` is positive and no more than the tokens available; otherwise leaves
    /// the bucket unchanged. Rejection is a normal outcome, not an error, and a
    /// non-positive request is rejected before the counter is touched.
    pub fn try_acquire(&mut self, n: u64) -> (granted: bool)
        requires
            old(self).wf(),
        ensures
            (*final(self), granted) == Self::spec_try_acquire(*old(self), n),
            granted == (1 <= n && n <= old(self).spec_tokens()),
            granted ==> final(self).spec_tokens() == old(self).spec_tokens() - n,
            !granted ==> *final(self) == *old(self),
            final(self).spec_capacity() == old(self).spec_capacity(),
            final(self).spec_refill_amount() == old(self).spec_refill_amount(),
            final(self).spec_refill_interval_ms() == old(self).spec_refill_interval_ms(),
            final(self).wf(),
    {
        if 1 <= n && n <= self.tokens {
            self.tokens = self.tokens - n;
            true
        } else {
            false
        }
    }

    /// One discrete refill: add `refill_amount` tokens, never past `capacity`.
    /// Invoked by the scheduler, once per interval, independent of traffic.
    pub fn refill_tick(&mut self)
        requires
            old(self).wf(),
        ensures
            *final(self) == Self::spec_tick(*old(self)),
            final(self).spec_tokens() as int == vstd::math::min(
                old(self).spec_capacity() as int,
                old(self).spec_tokens() + old(self).spec_refill_amount(),
            ),
            final(self).spec_capacity() == old(self).spec_capacity(),
            final(self).spec_refill_amount() == old(self).spec_refill_amount(),
            final(self).spec_refill_interval_ms() == old(self).spec_refill_interval_ms(),
            final(self).wf(),
    {
        if self.capacity - self.tokens <= self.refill_amount {
            self.tokens = self.capacity;
        } else {
            self.tokens = self.tokens + self.refill_amount;
        }
    }

    /// Administrative reset: discard the whole state and reinitialize from `c`,
    /// in place. The new state depends on `c` alone, never on what the bucket
    /// held before.
    pub fn reset(&mut self, c: GateConfig)
        requires
            c.wf(),
        ensures
            *final(self) == Self::spec_fresh(c),
            final(self).spec_tokens() == c.initial,
            final(self).spec_capacity() == c.capacity,
            final(self).spec_refill_amount() == c.refill_amount,
            final(self).spec_refill_interval_ms() == c.refill_interval_ms,
            final(self).wf(),
    {
        self.tokens = c.initial;
        self.capacity = c.capacity;
        self.refill_amount = c.refill_amount;
        self.refill_interval_ms = c.refill_interval_ms;
    }

    /// Reset, but with the configuration checked first: an invalid one is
    /// rejected whole, leaving the bucket untouched (no partial reset).
    pub fn try_reset(&mut self, c: GateConfig) -> (accepted: bool)
        ensures
            accepted == c.wf(),
            accepted ==> *final(self) == Self::spec_fresh(c),
            !accepted ==> *final(self) == *old(self),
    {
        if c.is_valid() {
            self.reset(c);
            true
        } else {
            false
        }
    }

    /// Observe the current token count (for confirmation responses and tests).
    pub fn tokens(&self) -> (t: u64)
        ensures
            t == self.spec_tokens(),
    {
        self.tokens
    }

    pub fn capacity(&self) -> (c: u64)
        ensures
            c == self.spec_capacity(),
    {
        self.capacity
    }

    pub fn refill_amount(&self) -> (r: u64)
        ensures
            r == self.spec_refill_amount(),
    {
        self.refill_amount
    }

    pub fn refill_interval_ms(&self) -> (r: u64)
        ensures
            r == self.spec_refill_interval_ms(),
    {
        self.refill_interval_ms
    }

    /// The state after `k` sequential `try_acquire(1)` calls, earliest first.
    pub open spec fn spec_acquires1(s: TokenBucketGate, k: nat) -> TokenBucketGate
        decreases k,
    {
        if k == 0 {
            s
        } else {
            Self::spec_acquires1(Self::spec_try_acquire(s, 1).0, (k - 1) as nat)
        }
    }

    /// How many of `k` sequential `try_acquire(1)` calls are granted.
    pub open spec fn spec_successes1(s: TokenBucketGate, k: nat) -> nat
        decreases k,
    {
        if k == 0 {
            0
        } else {
            (if Self::spec_try_acquire(s, 1).1 {
                1nat
            } else {
                0nat
            }) + Self::spec_successes1(Self::spec_try_acquire(s, 1).0, (k - 1) as nat)
        }
    }

    /// The state after `k` refill ticks.
    pub open spec fn spec_ticks(s: TokenBucketGate, k: nat) -> TokenBucketGate
        decreases k,
    {
        if k == 0 {
            s
        } else {
            Self::spec_ticks(Self::spec_tick(s), (k - 1) as nat)
        }
    }

    /// Conservation: with no refill in between, `k` sequential `try_acquire(1)`
    /// calls against a bucket holding `k` or more tokens are all granted, leave
    /// exactly `old tokens - k` behind, and touch nothing else; and once the
    /// bucket is drained (`k` equal to the tokens held), the next call fails.
    pub proof fn lemma_conservation(s: TokenBucketGate, k: nat)
        requires
            s.wf(),
            k <= s.spec_tokens(),
        ensures
            Self::spec_successes1(s, k) == k,
            Self::spec_acquires1(s, k).spec_tokens() == s.spec_tokens() - k,
            Self::spec_acquires1(s, k).spec_capacity() == s.spec_capacity(),
            Self::spec_acquires1(s, k).spec_refill_amount() == s.spec_refill_amount(),
            Self::spec_acquires1(s, k).spec_refill_interval_ms() == s.spec_refill_interval_ms(),
            Self::spec_acquires1(s, k).wf(),
            k == s.spec_tokens() ==> !Self::spec_try_acquire(Self::spec_acquires1(s, k), 1).1,
        decreases k,
    {
        if k > 0 {
            Self::lemma_conservation(Self::spec_try_acquire(s, 1).0, (k - 1) as nat);
        }
    }

    /// Atomicity under contention: when `n` callers each issue `try_acquire(1)`
    /// and the calls take effect in some serial order (as they do under the
    /// gate's mutual exclusion), exactly `min(n, tokens)` of them are granted
    /// and the rest are refused — no grant is lost or duplicated, whatever the
    /// order, since every serialization is `n` sequential calls.
    pub proof fn lemma_contention(s: TokenBucketGate, n: nat)
        requires
            s.wf(),
        ensures
            Self::spec_successes1(s, n) == vstd::math::min(n as int, s.spec_tokens() as int),
            Self::spec_acquires1(s, n).spec_tokens() == s.spec_tokens() - vstd::math::min(
                n as int,
                s.spec_tokens() as int,
            ),
            Self::spec_acquires1(s, n).wf(),
        decreases n,
    {
        if n > 0 {
            Self::lemma_contention(Self::spec_try_acquire(s, 1).0, (n - 1) as nat);
        }
    }

    /// Refill bound: however many ticks run, and whatever they start from, the
    /// token count never exceeds the (unchanged) capacity.
    pub proof fn lemma_refill_bound(s: TokenBucketGate, k: nat)
        requires
            s.wf(),
        ensures
            Self::spec_ticks(s, k).wf(),
            Self::spec_ticks(s, k).spec_tokens() <= s.spec_capacity(),
            Self::spec_ticks(s, k).spec_capacity() == s.spec_capacity(),
            Self::spec_ticks(s, k).spec_refill_amount() == s.spec_refill_amount(),
            Self::spec_ticks(s, k).spec_refill_interval_ms() == s.spec_refill_interval_ms(),
        decreases k,
    {
        if k > 0 {
            Self::lemma_refill_bound(Self::spec_tick(s), (k - 1) as nat);
        }
    }

}

/// A single bucket operation, used to reason about whole operation
/// sequences at once.
pub enum GateOp {
    Acquire(u64),
    Tick,
    Reset(GateConfig),
}

/// The transition one operation makes. A reset with an invalid configuration
/// is rejected whole (as `try_reset` does), so every operation is total.
pub open spec fn spec_step(s: TokenBucketGate, op: GateOp) -> TokenBucketGate {
    match op {
        GateOp::Acquire(n) => TokenBucketGate::spec_try_acquire(s, n).0,
        GateOp::Tick => TokenBucketGate::spec_tick(s),
        GateOp::Reset(c) => if c.wf() {
            TokenBucketGate::spec_fresh(c)
        } else {
            s
        },
    }
}

/// The state after a whole sequence of operations, earliest first.
pub open spec fn spec_run(s: TokenBucketGate, ops: Seq<GateOp>) -> TokenBucketGate
    decreases ops.len(),
{
    if ops.len() == 0 {
        s
    } else {
        spec_run(spec_step(s, ops[0]), ops.drop_first())
    }
}

/// Reset idempotence of effect: resetting twice in a row with one configuration
/// yields the same observable state as resetting once — the second reset
/// changes nothing, whatever the bucket held before and whether or not the
/// configuration is even valid.
pub proof fn lemma_reset_idempotent(s: TokenBucketGate, c: GateConfig)
    ensures
        spec_step(spec_step(s, GateOp::Reset(c)), GateOp::Reset(c)) == spec_step(
            s,
            GateOp::Reset(c),
        ),
{
}

/// Invariant: for every sequence of acquire, tick and reset operations, a
/// well-formed bucket stays well formed — `0 <= tokens <= capacity` holds
/// after every operation.
pub proof fn lemma_invariant_all_ops(s: TokenBucketGate, ops: Seq<GateOp>)
    requires
        s.wf(),
    ensures
        spec_run(s, ops).wf(),
    decreases ops.len(),
{
    if ops.len() > 0 {
        lemma_invariant_all_ops(spec_step(s, ops[0]), ops.drop_first());
    }
}

} // verus!
