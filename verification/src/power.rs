//! The power accumulator: input activity adds to it, every dispatch tick
//! drains it by one decay step.

use vstd::prelude::*;

verus! {

/// Number of fixed-point units in a power of exactly one.
pub const POWER_ONE: u64 = 100_000;

/// Upper bound of the power level, one and a half.
pub const MAX_POWER: u64 = 150_000;

/// What one tick takes off the accumulated power, a quarter.
pub const DECAY_STEP: u64 = 25_000;

/// Number of ticks after which an accumulator that receives no input is
/// empty: `MAX_POWER / DECAY_STEP`, rounded up.
pub const DECAY_TICKS: u64 = 6;

/// `v` limited to `MAX_POWER`.
pub open spec fn clamp_power(v: nat) -> nat {
    if v > MAX_POWER {
        MAX_POWER as nat
    } else {
        v
    }
}

/// `v` less one decay step, but never below zero.
pub open spec fn decay(v: nat) -> nat {
    if v > DECAY_STEP {
        (v - DECAY_STEP) as nat
    } else {
        0
    }
}

/// What an accumulator holding `v` holds after one drain.
pub open spec fn after_drain(v: nat) -> nat {
    decay(clamp_power(v))
}

/// What an accumulator holding `v` holds after `n` drains in a row.
pub open spec fn after_drains(v: nat, n: nat) -> nat
    decreases n,
{
    if n == 0 {
        v
    } else {
        after_drains(after_drain(v), (n - 1) as nat)
    }
}

/// One use of an accumulator: an addition of some units, or a drain.
pub enum PowerOp {
    /// So many units are added.
    Add(nat),
    /// One decay tick.
    Drain,
}

/// What an accumulator holding `v` holds after `op`.
pub open spec fn after_op(v: nat, op: PowerOp) -> nat {
    match op {
        PowerOp::Add(delta) => v + delta,
        PowerOp::Drain => after_drain(v),
    }
}

/// What an accumulator holding `v` holds after the uses `ops`, first to
/// last.
pub open spec fn after_ops(v: nat, ops: Seq<PowerOp>) -> nat
    decreases ops.len(),
{
    if ops.len() == 0 {
        v
    } else {
        after_op(after_ops(v, ops.drop_last()), ops.last())
    }
}

/// The accumulated power. Its view is the exact sum of what was added less
/// what the drains took; the machine word behind it saturates, which no
/// drain can observe.
pub struct PowerAccumulator {
    stored: u64,
    exact: Ghost<nat>,
}

impl View for PowerAccumulator {
    type V = nat;

    closed spec fn view(&self) -> nat {
        self.exact@
    }
}

impl PowerAccumulator {
    #[verifier::type_invariant]
    spec fn stored_tracks_exact(self) -> bool {
        self.stored as nat == if self.exact@ > u64::MAX {
            u64::MAX as nat
        } else {
            self.exact@
        }
    }

    /// An empty accumulator.
    pub fn new() -> (acc: Self)
        ensures
            acc@ == 0,
    {
        PowerAccumulator { stored: 0, exact: Ghost(0) }
    }

    /// Adds `delta` units to the accumulated power, however many.
    pub fn add(&mut self, delta: u128)
        ensures
            final(self)@ == old(self)@ + delta,
    {
        proof {
            use_type_invariant(&*self);
        }
        let stored: u64 = if delta > u64::MAX as u128 {
            u64::MAX
        } else {
            self.stored.saturating_add(delta as u64)
        };
        let ghost exact: nat = self.exact@ + delta as nat;
        *self = PowerAccumulator { stored, exact: Ghost(exact) };
    }

    /// One decay tick: returns the accumulated power limited to
    /// `MAX_POWER` and leaves that value less `DECAY_STEP` behind.
    pub fn drain_decayed(&mut self) -> (out: u64)
        ensures
            out == clamp_power(old(self)@),
            final(self)@ == decay(out as nat),
            out <= MAX_POWER,
            final(self)@ <= MAX_POWER - DECAY_STEP,
    {
        proof {
            use_type_invariant(&*self);
        }
        let out: u64 = if self.stored > MAX_POWER {
            MAX_POWER
        } else {
            self.stored
        };
        let rest: u64 = if out > DECAY_STEP {
            out - DECAY_STEP
        } else {
            0
        };
        *self = PowerAccumulator { stored: rest, exact: Ghost(rest as nat) };
        out
    }
}

/// A drain leaves at most `MAX_POWER - DECAY_STEP` behind, whatever was
/// accumulated before, and a later drain returns exactly that.
pub proof fn lemma_drain_bounds(v: nat)
    ensures
        clamp_power(v) <= MAX_POWER,
        after_drain(v) <= MAX_POWER - DECAY_STEP,
        clamp_power(after_drain(v)) == after_drain(v),
{
}

/// However additions and drains were mixed before, right after a drain
/// the accumulator holds at most `MAX_POWER`; it never holds less than
/// nothing.
pub proof fn lemma_bounded_after_drain(v: nat, ops: Seq<PowerOp>)
    requires
        ops.len() > 0,
        ops.last() is Drain,
    ensures
        0 <= after_ops(v, ops) <= MAX_POWER - DECAY_STEP,
{
    lemma_drain_bounds(after_ops(v, ops.drop_last()));
}

/// After `n >= 1` drains in a row an accumulator that held `v` holds the
/// clamped `v` less `n` decay steps, or zero where that would be negative.
pub proof fn lemma_after_drains(v: nat, n: nat)
    requires
        n >= 1,
    ensures
        after_drains(v, n) == if clamp_power(v) > n * DECAY_STEP {
            (clamp_power(v) - n * DECAY_STEP) as nat
        } else {
            0
        },
    decreases n,
{
    if n == 1 {
        assert(after_drains(after_drain(v), 0) == after_drain(v));
    } else {
        let m: nat = (n - 1) as nat;
        lemma_after_drains(after_drain(v), m);
        assert(n * DECAY_STEP == m * DECAY_STEP + DECAY_STEP) by (nonlinear_arith)
            requires
                n == m + 1,
        ;
    }
}

/// Drained `DECAY_TICKS` times or more with nothing added in between, an
/// accumulator is empty, whatever it held; and `DECAY_TICKS` is the least
/// count of which this is true.
pub proof fn lemma_drains_to_zero(v: nat, n: nat)
    requires
        n >= DECAY_TICKS,
    ensures
        after_drains(v, n) == 0,
        DECAY_TICKS * DECAY_STEP >= MAX_POWER > (DECAY_TICKS - 1) * DECAY_STEP,
        after_drains(MAX_POWER as nat, (DECAY_TICKS - 1) as nat) > 0,
{
    lemma_after_drains(v, n);
    assert(n * DECAY_STEP >= DECAY_TICKS * DECAY_STEP) by (nonlinear_arith)
        requires
            n >= DECAY_TICKS,
    ;
    lemma_after_drains(MAX_POWER as nat, (DECAY_TICKS - 1) as nat);
}

} // verus!
