//! Headings as discrete angles.
//!
//! A vehicle's heading is its yaw around the vertical axis, kept as a number
//! of micro-turns in `[0, FULL_TURN)`: `FULL_TURN` micro-turns make one full
//! revolution, `HALF_TURN` is the 180-degree reversal used by boundary
//! avoidance.  Steering rotates at `TURN_RATE_UTURN_PER_MS` micro-turns per
//! millisecond (0.3 revolutions per second).

use vstd::prelude::*;

verus! {

/// Micro-turns in one full revolution.
pub const FULL_TURN: u32 = 1_000_000;

/// Micro-turns in a 180-degree reversal.
pub const HALF_TURN: u32 = 500_000;

/// The representative of an angle in `[0, FULL_TURN)`.
pub open spec fn norm_angle(a: int) -> int {
    a % (FULL_TURN as int)
}

/// The heading reached from `yaw` by a signed rotation of `delta` micro-turns.
pub open spec fn rotated(yaw: int, delta: int) -> int {
    norm_angle(yaw + delta)
}

/// How far one tick of held steering rotates, given the elapsed time: the
/// steering rate is 0.3 revolutions per second, that is 300 micro-turns per
/// millisecond.
pub open spec fn spec_turn_delta(dt_ms: int) -> int {
    norm_angle(300 * dt_ms)
}

/// Micro-turns that one tick of held steering rotates by.
pub fn turn_delta(dt_ms: u32) -> (d: u32)
    ensures
        d == spec_turn_delta(dt_ms as int),
        d < FULL_TURN,
{
    let wide: u64 = (dt_ms as u64) * 300;
    let r: u64 = wide % (FULL_TURN as u64);
    r as u32
}

/// Rotate counter-clockwise (towards larger yaw) by `delta` micro-turns.
pub fn rotate_ccw(yaw: u32, delta: u32) -> (r: u32)
    requires
        yaw < FULL_TURN,
        delta < FULL_TURN,
    ensures
        r == rotated(yaw as int, delta as int),
        r < FULL_TURN,
{
    let s: u32 = yaw + delta;
    if s >= FULL_TURN {
        s - FULL_TURN
    } else {
        s
    }
}

/// Rotate clockwise (towards smaller yaw) by `delta` micro-turns.
pub fn rotate_cw(yaw: u32, delta: u32) -> (r: u32)
    requires
        yaw < FULL_TURN,
        delta < FULL_TURN,
    ensures
        r == rotated(yaw as int, -(delta as int)),
        r < FULL_TURN,
{
    if delta > yaw {
        yaw + FULL_TURN - delta
    } else {
        yaw - delta
    }
}

/// The heading opposite to `yaw`: a 180-degree reversal.
pub fn reverse_heading(yaw: u32) -> (r: u32)
    requires
        yaw < FULL_TURN,
    ensures
        r == rotated(yaw as int, HALF_TURN as int),
        r < FULL_TURN,
{
    rotate_ccw(yaw, HALF_TURN)
}

/// The heading after one tick of steering: rotate counter-clockwise while
/// the left control is held, clockwise while the right control is held, each
/// by one tick's turn delta.  With both or neither held the heading is back
/// where it started.
pub open spec fn steered_yaw(yaw: int, left: bool, right: bool, dt_ms: int) -> int {
    let d = spec_turn_delta(dt_ms);
    let after_left = if left {
        rotated(yaw, d)
    } else {
        yaw
    };
    if right {
        rotated(after_left, -d)
    } else {
        after_left
    }
}

/// Rotations about the vertical axis compose by addition of angles, so the
/// order in which two rotations of one tick are applied does not matter.
pub proof fn lemma_rotation_order_immaterial(yaw: int, d1: int, d2: int)
    ensures
        rotated(rotated(yaw, d1), d2) == rotated(rotated(yaw, d2), d1),
{
    let m = FULL_TURN as int;
    vstd::arithmetic::div_mod::lemma_add_mod_noop_right(d2, yaw + d1, m);
    vstd::arithmetic::div_mod::lemma_add_mod_noop_right(d1, yaw + d2, m);
}

} // verus!
