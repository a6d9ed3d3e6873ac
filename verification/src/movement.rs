//! Movement: intent-driven velocity, forward thrust, Euler integration and
//! screen-space wrapping.
//!
//! Positions and velocities are in milliunits (thousandths of a world
//! unit); velocities are per second, frame deltas in milliseconds.

use vstd::prelude::*;

verus! {

use crate::num::{euclid_rem, in_i64, scale_milli};
use crate::vec2::{Vec2, MILLI};
use vstd::arithmetic::div_mod::{
    lemma_mod_division_less_than_divisor,
    lemma_mod_multiples_vanish,
};

/// Default maximum speed of the controlled character, world units per second.
pub const DEFAULT_MAX_SPEED: i64 = 400;

/// Extra wrap margin around the viewport, in milliunits: half a sprite's
/// worth of space off-screen on each side, so entities wrap only once fully
/// out of sight instead of popping at the exact edge.
pub const WRAP_MARGIN: i64 = 256000;

/// Marker for entities that take part in screen wrapping; no state.
#[derive(Clone, Copy, Debug, PartialEq, Eq, Structural)]
pub struct ScreenWrap;

/// Movement parameters of a character: the direction it wants to move in
/// this tick and its maximum speed.
#[derive(Clone, Copy, Debug, PartialEq, Eq, Structural)]
pub struct MovementController {
    /// Unit-or-zero direction in milliunits: each coordinate in
    /// `[-MILLI, MILLI]`, the whole of length at most one world unit.
    pub intent: Vec2,
    /// Maximum speed in world units per second.
    pub max_speed: i64,
}

impl MovementController {
    /// Well-formed: intent coordinates within one unit, speed nonnegative
    /// and small enough that scaling the intent cannot overflow.
    pub open spec fn inv(self) -> bool {
        &&& -MILLI <= self.intent.x <= MILLI
        &&& -MILLI <= self.intent.y <= MILLI
        &&& 0 <= self.max_speed <= i64::MAX as int / MILLI as int
    }
}

impl Default for MovementController {
    /// No intent yet, and the default maximum speed.
    fn default() -> (c: MovementController)
        ensures
            c == (MovementController { intent: Vec2 { x: 0, y: 0 }, max_speed: DEFAULT_MAX_SPEED }),
            c.inv(),
    {
        MovementController { intent: Vec2 { x: 0, y: 0 }, max_speed: DEFAULT_MAX_SPEED }
    }
}

/// Forward thrust speed of the ship, world units per second.
#[derive(Clone, Copy, Debug, PartialEq, Eq, Structural)]
pub struct ShipSpeed(pub i64);

/// How fast the ship may turn, in millidegrees per second.
#[derive(Clone, Copy, Debug, PartialEq, Eq, Structural)]
pub struct RotationSpeed(pub u64);

/// The linear velocity a controller asks for: its intent scaled by its
/// maximum speed, set directly each tick with no smoothing.
pub fn velocity_from_intent(controller: &MovementController) -> (v: Vec2)
    requires
        controller.inv(),
    ensures
        v.x == controller.intent.x * controller.max_speed,
        v.y == controller.intent.y * controller.max_speed,
        controller.intent.is_zero() ==> v.is_zero(),
{
    proof {
        assert(controller.intent.x * controller.max_speed <= i64::MAX
            && controller.intent.x * controller.max_speed >= i64::MIN
            && controller.intent.y * controller.max_speed <= i64::MAX
            && controller.intent.y * controller.max_speed >= i64::MIN) by (nonlinear_arith)
            requires
                -MILLI <= controller.intent.x <= MILLI,
                -MILLI <= controller.intent.y <= MILLI,
                0 <= controller.max_speed <= i64::MAX as int / MILLI as int,
                MILLI == 1000,
        ;
        assert(0 * controller.max_speed == 0) by (nonlinear_arith);
    }
    Vec2 { x: controller.intent.x * controller.max_speed, y: controller.intent.y * controller.max_speed }
}

/// The ship-style linear velocity: the forward axis scaled by the thrust
/// speed while the thrust input is held, zero otherwise.
pub fn thrust_velocity(forward: Vec2, thrust_held: bool, speed: &ShipSpeed) -> (v: Vec2)
    requires
        -MILLI <= forward.x <= MILLI,
        -MILLI <= forward.y <= MILLI,
        0 <= speed.0 <= i64::MAX as int / MILLI as int,
    ensures
        thrust_held ==> v.x == forward.x * speed.0 && v.y == forward.y * speed.0,
        !thrust_held ==> v.is_zero(),
{
    if thrust_held {
        proof {
            assert(forward.x * speed.0 <= i64::MAX && forward.x * speed.0 >= i64::MIN
                && forward.y * speed.0 <= i64::MAX && forward.y * speed.0 >= i64::MIN)
                by (nonlinear_arith)
                requires
                    -MILLI <= forward.x <= MILLI,
                    -MILLI <= forward.y <= MILLI,
                    0 <= speed.0 <= i64::MAX as int / MILLI as int,
                    MILLI == 1000,
            ;
        }
        Vec2 { x: forward.x * speed.0, y: forward.y * speed.0 }
    } else {
        Vec2 { x: 0, y: 0 }
    }
}

/// One Euler step: the position advanced by the velocity over the frame's
/// delta, each axis by `floor(v * dt / 1000)` milliunits.
pub fn integrate(pos: &mut Vec2, velocity: Vec2, dt_ms: u64)
    requires
        in_i64(velocity.x * dt_ms / 1000),
        in_i64(velocity.y * dt_ms / 1000),
        in_i64(old(pos).x + velocity.x * dt_ms / 1000),
        in_i64(old(pos).y + velocity.y * dt_ms / 1000),
    ensures
        final(pos).x == old(pos).x + velocity.x * dt_ms / 1000,
        final(pos).y == old(pos).y + velocity.y * dt_ms / 1000,
{
    let dx: i64 = scale_milli(velocity.x, dt_ms);
    let dy: i64 = scale_milli(velocity.y, dt_ms);
    pos.x = pos.x + dx;
    pos.y = pos.y + dy;
}

/// Where a coordinate lands after wrapping in a span of size `s` centred on
/// the origin: the representative of `p` in `[-s/2, s - s/2)`.
pub open spec fn wrap_coord_spec(p: int, s: int) -> int {
    (p + s / 2) % s - s / 2
}

/// Wrap one coordinate into the centred span of size `s`.
pub fn wrap_coord(p: i64, s: i64) -> (r: i64)
    requires
        s > 0,
        p + s / 2 <= i64::MAX,
    ensures
        r == wrap_coord_spec(p as int, s as int),
{
    let half: i64 = ((s as u64) / 2) as i64;
    let rem: i64 = euclid_rem(p + half, s);
    rem - half
}

/// Screen wrap is periodic: shifting a coordinate by any whole number of
/// spans lands it on the same wrapped coordinate.
pub proof fn lemma_wrap_periodic(p: int, s: int, k: int)
    requires
        s > 0,
    ensures
        wrap_coord_spec(p + k * s, s) == wrap_coord_spec(p, s),
{
    lemma_mod_multiples_vanish(k, p + s / 2, s);
}

/// A wrapped coordinate always lies in `[-s/2, s - s/2)`; for an even span
/// that is exactly `[-s/2, s/2)`.
pub proof fn lemma_wrap_range(p: int, s: int)
    requires
        s > 0,
    ensures
        -(s / 2) <= wrap_coord_spec(p, s) < s - s / 2,
        s % 2 == 0 ==> -(s / 2) <= wrap_coord_spec(p, s) < s / 2,
{
    lemma_mod_division_less_than_divisor(p + s / 2, s);
}

/// Teleport an entity that has drifted beyond the viewport (plus the wrap
/// margin) to the opposite edge, each axis independently; the rendering
/// depth is not part of the plane position and is untouched.
pub fn apply_screen_wrap(pos: &mut Vec2, viewport: Vec2)
    requires
        0 < viewport.x <= i64::MAX - WRAP_MARGIN,
        0 < viewport.y <= i64::MAX - WRAP_MARGIN,
        old(pos).x + (viewport.x + WRAP_MARGIN) / 2 <= i64::MAX,
        old(pos).y + (viewport.y + WRAP_MARGIN) / 2 <= i64::MAX,
    ensures
        final(pos).x == wrap_coord_spec(old(pos).x as int, viewport.x + WRAP_MARGIN),
        final(pos).y == wrap_coord_spec(old(pos).y as int, viewport.y + WRAP_MARGIN),
{
    let sx: i64 = viewport.x + WRAP_MARGIN;
    let sy: i64 = viewport.y + WRAP_MARGIN;
    pos.x = wrap_coord(pos.x, sx);
    pos.y = wrap_coord(pos.y, sy);
}

} // verus!
