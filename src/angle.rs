//! Angles in millionths of a radian, kept within one full turn.
use vstd::arithmetic::div_mod::{lemma_add_mod_noop, lemma_small_mod};
use vstd::prelude::*;

verus! {

/// One full turn (2π) in millionths of a radian.
pub const FULL_TURN: i64 = 6_283_185;

/// A quarter turn (π/2) in millionths of a radian.
pub const QUARTER_TURN: i64 = 1_570_796;

/// The angle `a`, brought into `[0, FULL_TURN)`.
pub open spec fn wrapped(a: int) -> int {
    a % (FULL_TURN as int)
}

/// An orientation is an angle in `[0, FULL_TURN)`.
pub open spec fn is_orientation(a: int) -> bool {
    0 <= a < FULL_TURN
}

/// The orientation reached from `theta` after turning by `delta`.
pub open spec fn turned(theta: int, delta: int) -> int {
    wrapped(theta + delta)
}

/// Brings any angle into `[0, FULL_TURN)`.
pub fn wrap_angle(a: i64) -> (r: i64)
    ensures
        r == wrapped(a as int),
        is_orientation(r as int),
{
    let m: i64 = a % FULL_TURN;
    if m < 0 {
        m + FULL_TURN
    } else {
        m
    }
}

/// Turns the angle `theta` by `delta` and brings the result into `[0, FULL_TURN)`.
pub fn turn(theta: i64, delta: i64) -> (r: i64)
    ensures
        r == turned(theta as int, delta as int),
        is_orientation(r as int),
{
    let a = wrap_angle(theta);
    let d = wrap_angle(delta);
    proof {
        lemma_add_mod_noop(theta as int, delta as int, FULL_TURN as int);
    }
    wrap_angle(a + d)
}

/// Turning never leaves the range of orientations.
pub proof fn lemma_turn_in_range(theta: int, delta: int)
    ensures
        is_orientation(turned(theta, delta)),
{
}

/// Turning an orientation by nothing leaves it as it was.
pub proof fn lemma_turn_by_zero(theta: int)
    requires
        is_orientation(theta),
    ensures
        turned(theta, 0) == theta,
{
    lemma_small_mod(theta as nat, FULL_TURN as nat);
}

} // verus!
