//! What pointer travel and wheel scrolling are worth in power.
//!
//! A pointer that travels a distance of `d` pixels adds `d / 1000` to the
//! power, a wheel event with deltas `dx` and `dy` adds `(|dx| + |dy|) / 5`.
//! Both are computed in power units, rounded down to a whole unit.

use vstd::prelude::*;

verus! {

/// Power units that one pixel of pointer travel is worth: a thousandth of
/// `POWER_ONE`.
pub const UNITS_PER_PIXEL: u64 = 100;

/// Power units that one step of the wheel is worth: a fifth of `POWER_ONE`.
pub const UNITS_PER_WHEEL_STEP: u64 = 20_000;

/// A pointer position in whole pixels.
#[derive(Clone, Copy, Debug, PartialEq, Eq, Structural)]
pub struct Position {
    pub x: i32,
    pub y: i32,
}

/// `r` is the square root of `n`, rounded down.
pub open spec fn is_floor_sqrt(r: int, n: int) -> bool {
    0 <= r && r * r <= n < (r + 1) * (r + 1)
}

/// The square root of `n`, rounded down.
pub open spec fn floor_sqrt(n: int) -> int {
    choose|r: int| is_floor_sqrt(r, n)
}

/// The square of the Euclidean distance between two positions.
pub open spec fn squared_distance(from: Position, to: Position) -> int {
    (to.x - from.x) * (to.x - from.x) + (to.y - from.y) * (to.y - from.y)
}

/// The power that a pointer sample at `to` adds when the sample before it,
/// if there was one, was at `last`: the distance between the two in pixels,
/// times `UNITS_PER_PIXEL`, rounded down. The first sample adds nothing.
pub open spec fn movement_power(last: Option<Position>, to: Position) -> int {
    match last {
        None => 0,
        Some(from) => floor_sqrt(squared_distance(from, to) * UNITS_PER_PIXEL * UNITS_PER_PIXEL),
    }
}

/// The absolute value of `v`.
pub open spec fn magnitude(v: int) -> int {
    if v < 0 {
        -v
    } else {
        v
    }
}

/// The power that a wheel event adds: the sum of the two deltas' absolute
/// values, times `UNITS_PER_WHEEL_STEP`.
pub open spec fn wheel_power_of(delta_x: int, delta_y: int) -> int {
    (magnitude(delta_x) + magnitude(delta_y)) * UNITS_PER_WHEEL_STEP
}

/// A number has at most one rounded-down square root.
pub proof fn lemma_floor_sqrt_unique(r1: int, r2: int, n: int)
    requires
        is_floor_sqrt(r1, n),
        is_floor_sqrt(r2, n),
    ensures
        r1 == r2,
{
    if r1 < r2 {
        assert((r1 + 1) * (r1 + 1) <= r2 * r2) by (nonlinear_arith)
            requires
                0 <= r1,
                r1 + 1 <= r2,
        ;
    } else if r2 < r1 {
        assert((r2 + 1) * (r2 + 1) <= r1 * r1) by (nonlinear_arith)
            requires
                0 <= r2,
                r2 + 1 <= r1,
        ;
    }
}

/// Whatever meets `is_floor_sqrt` for `n` is `floor_sqrt(n)`.
pub proof fn lemma_floor_sqrt_is(r: int, n: int)
    requires
        is_floor_sqrt(r, n),
    ensures
        floor_sqrt(n) == r,
{
    lemma_floor_sqrt_unique(r, floor_sqrt(n), n);
}

/// The square root of `n`, rounded down.
pub fn isqrt(n: u128) -> (r: u64)
    ensures
        is_floor_sqrt(r as int, n as int),
        r == floor_sqrt(n as int),
{
    let mut lo: u128 = 0;
    let mut hi: u128 = 0x1_0000_0000_0000_0000;
    assert(0x1_0000_0000_0000_0000int * 0x1_0000_0000_0000_0000int > u128::MAX) by (nonlinear_arith);
    while hi - lo > 1
        invariant
            lo < hi <= 0x1_0000_0000_0000_0000,
            lo * lo <= n < hi * hi,
        decreases hi - lo,
    {
        let mid: u128 = lo + (hi - lo) / 2;
        assert(mid * mid <= 0xffff_ffff_ffff_ffffint * 0xffff_ffff_ffff_ffffint)
            by (nonlinear_arith)
            requires
                0 <= mid <= 0xffff_ffff_ffff_ffffint,
        ;
        assert(0xffff_ffff_ffff_ffffint * 0xffff_ffff_ffff_ffffint <= u128::MAX)
            by (nonlinear_arith);
        if mid * mid <= n {
            lo = mid;
        } else {
            hi = mid;
        }
    }
    proof {
        lemma_floor_sqrt_is(lo as int, n as int);
    }
    lo as u64
}

/// The square of the distance between two positions.
fn squared_distance_of(from: Position, to: Position) -> (d2: u128)
    ensures
        d2 == squared_distance(from, to),
        d2 <= 0x2_0000_0000_0000_0000,
{
    let dx: i64 = to.x as i64 - from.x as i64;
    let dy: i64 = to.y as i64 - from.y as i64;
    let ax: u128 = if dx < 0 {
        (-dx) as u128
    } else {
        dx as u128
    };
    let ay: u128 = if dy < 0 {
        (-dy) as u128
    } else {
        dy as u128
    };
    assert(ax * ax <= 0x1_0000_0000_0000_0000 && ax * ax == dx * dx) by (nonlinear_arith)
        requires
            ax <= 0xffff_ffff,
            ax == dx || ax == -dx,
    ;
    assert(ay * ay <= 0x1_0000_0000_0000_0000 && ay * ay == dy * dy) by (nonlinear_arith)
        requires
            ay <= 0xffff_ffff,
            ay == dy || ay == -dy,
    ;
    ax * ax + ay * ay
}

/// Remembers where the pointer was last seen, so that each new sample can
/// be measured against the one before it.
pub struct PointerTracker {
    last: Option<Position>,
}

impl View for PointerTracker {
    type V = Option<Position>;

    closed spec fn view(&self) -> Option<Position> {
        self.last
    }
}

impl PointerTracker {
    /// A tracker that has not seen the pointer yet.
    pub fn new() -> (tracker: Self)
        ensures
            tracker@ is None,
    {
        PointerTracker { last: None }
    }

    /// Takes in a pointer sample and returns the power that it adds.
    pub fn on_move(&mut self, to: Position) -> (delta: u64)
        ensures
            delta == movement_power(old(self)@, to),
            final(self)@ == Some(to),
            old(self)@ is None ==> delta == 0,
    {
        let delta: u64 = match self.last {
            None => 0,
            Some(from) => {
                let d2: u128 = squared_distance_of(from, to);
                let per_pixel: u128 = UNITS_PER_PIXEL as u128;
                assert(d2 * per_pixel * per_pixel <= 0x2_0000_0000_0000_0000 * 10_000 && d2
                    * per_pixel <= 0x2_0000_0000_0000_0000 * 100) by (nonlinear_arith)
                    requires
                        d2 <= 0x2_0000_0000_0000_0000,
                        per_pixel == 100,
                ;
                isqrt(d2 * per_pixel * per_pixel)
            },
        };
        self.last = Some(to);
        delta
    }
}

/// The power that a wheel event with the given deltas adds.
pub fn wheel_power(delta_x: i64, delta_y: i64) -> (delta: u128)
    ensures
        delta == wheel_power_of(delta_x as int, delta_y as int),
{
    let ax: u128 = if delta_x < 0 {
        (-(delta_x as i128)) as u128
    } else {
        delta_x as u128
    };
    let ay: u128 = if delta_y < 0 {
        (-(delta_y as i128)) as u128
    } else {
        delta_y as u128
    };
    assert((ax + ay) * UNITS_PER_WHEEL_STEP <= 0x1_0000_0000_0000_0000 * 20_000)
        by (nonlinear_arith)
        requires
            ax + ay <= 0x1_0000_0000_0000_0000,
            UNITS_PER_WHEEL_STEP == 20_000,
    ;
    (ax + ay) * UNITS_PER_WHEEL_STEP as u128
}

/// The first sample that a tracker sees adds nothing, wherever it lies.
pub proof fn lemma_first_sample_adds_nothing(to: Position)
    ensures
        movement_power(None, to) == 0,
{
}

} // verus!
