//! Rotation steering: turn the ship toward the cursor at a bounded angular
//! rate, without ever overshooting the target bearing.
//!
//! The trigonometry that turns transforms into bearings lives with the
//! engine glue; the steering pass itself works on what it actually reads:
//! whether the steer button is held, the resolved cursor position (which
//! can fail), the ship's position, the remaining angular distance to the
//! cursor bearing in millidegrees, and which side the cursor is on.

use vstd::prelude::*;

verus! {

use crate::movement::RotationSpeed;
use crate::num::euclid_rem;
use crate::vec2::Vec2;

/// Point-blank guard: while the cursor is within 50 world units
/// (50000 milliunits) of the ship, steering is a no-op.
pub const AIM_DEADZONE: i64 = 50000;

/// Half a turn in millidegrees: the largest possible angular distance.
pub const HALF_TURN_MDEG: u64 = 180000;

/// A full turn in millidegrees.
pub const FULL_TURN_MDEG: u64 = 360000;

/// Angular rate of the ship, millidegrees per second (360 degrees/s).
pub const ROTATION_RATE_MDEG: u64 = 360000;

/// Coordinate bound under which squared distances fit in an `i128`.
pub const COORD_LIMIT: i64 = 0x3fff_ffff_ffff_ffff;

/// Why the cursor's world position could not be resolved this tick.
#[derive(Clone, Copy, Debug, PartialEq, Eq, Structural)]
pub enum CursorError {
    /// The cursor is outside the primary window.
    NoCursorInWindow,
    /// Unprojecting the cursor through the camera failed.
    ViewportUnprojectionFailed,
}

/// Squared distance between two points, in squared milliunits.
pub open spec fn dist_sq(a: Vec2, b: Vec2) -> int {
    (b.x - a.x) * (b.x - a.x) + (b.y - a.y) * (b.y - a.y)
}

/// Whether steering does anything this tick: the steer button is held, the
/// cursor resolved, the cursor is beyond the point-blank guard, and the
/// ship is not already aligned with it.
pub open spec fn steering_active(
    rotate_held: bool,
    cursor: Result<Vec2, CursorError>,
    player_pos: Vec2,
    remaining_mdeg: u64,
) -> bool {
    &&& rotate_held
    &&& cursor is Ok
    &&& dist_sq(player_pos, cursor->Ok_0) > AIM_DEADZONE * AIM_DEADZONE
    &&& remaining_mdeg > 0
}

/// The signed rotation applied this tick, in millidegrees
/// (counter-clockwise positive): zero when steering is inactive, otherwise
/// the remaining angular distance clamped by the rate budget `rate * dt`,
/// turned clockwise when the cursor lies on the ship's right.
pub open spec fn rotation_step_spec(
    rotate_held: bool,
    cursor: Result<Vec2, CursorError>,
    player_pos: Vec2,
    remaining_mdeg: u64,
    cursor_to_right: bool,
    rate: RotationSpeed,
    dt_ms: u64,
) -> int {
    if steering_active(rotate_held, cursor, player_pos, remaining_mdeg) {
        let budget = rate.0 * dt_ms / 1000;
        let mag = if budget < remaining_mdeg {
            budget
        } else {
            remaining_mdeg as int
        };
        if cursor_to_right {
            -mag
        } else {
            mag
        }
    } else {
        0
    }
}

/// Whether the cursor lies strictly beyond the point-blank guard distance.
pub fn beyond_deadzone(player_pos: Vec2, cursor_pos: Vec2) -> (r: bool)
    requires
        -COORD_LIMIT <= player_pos.x <= COORD_LIMIT,
        -COORD_LIMIT <= player_pos.y <= COORD_LIMIT,
        -COORD_LIMIT <= cursor_pos.x <= COORD_LIMIT,
        -COORD_LIMIT <= cursor_pos.y <= COORD_LIMIT,
    ensures
        r == (dist_sq(player_pos, cursor_pos) > AIM_DEADZONE * AIM_DEADZONE),
{
    let dx: i128 = (cursor_pos.x as i128) - (player_pos.x as i128);
    let dy: i128 = (cursor_pos.y as i128) - (player_pos.y as i128);
    proof {
        assert(dx * dx + dy * dy <= 2 * ((COORD_LIMIT as int * 2) * (COORD_LIMIT as int * 2))
            && 0 <= dx * dx && 0 <= dy * dy) by (nonlinear_arith)
            requires
                -(COORD_LIMIT as int * 2) <= dx as int <= COORD_LIMIT as int * 2,
                -(COORD_LIMIT as int * 2) <= dy as int <= COORD_LIMIT as int * 2,
        ;
    }
    let d2: i128 = dx * dx + dy * dy;
    d2 > (AIM_DEADZONE as i128) * (AIM_DEADZONE as i128)
}

/// One steering application: how far to rotate this tick.
///
/// The guards of the steering algorithm, in order: steer button, cursor
/// resolution, point-blank distance, alignment. When all pass, the step is
/// the remaining angular distance, clamped so one tick never turns more
/// than the angular rate allows, signed away from the side the cursor is
/// on (rotation is counter-clockwise positive).
pub fn rotation_step(
    rotate_held: bool,
    cursor: Result<Vec2, CursorError>,
    player_pos: Vec2,
    remaining_mdeg: u64,
    cursor_to_right: bool,
    rate: &RotationSpeed,
    dt_ms: u64,
) -> (step: i64)
    requires
        remaining_mdeg <= HALF_TURN_MDEG,
        rate.0 * dt_ms <= u64::MAX,
        -COORD_LIMIT <= player_pos.x <= COORD_LIMIT,
        -COORD_LIMIT <= player_pos.y <= COORD_LIMIT,
        cursor is Ok ==> -COORD_LIMIT <= cursor->Ok_0.x <= COORD_LIMIT
            && -COORD_LIMIT <= cursor->Ok_0.y <= COORD_LIMIT,
    ensures
        step == rotation_step_spec(
            rotate_held,
            cursor,
            player_pos,
            remaining_mdeg,
            cursor_to_right,
            *rate,
            dt_ms,
        ),
{
    if !rotate_held {
        return 0;
    }
    let cursor_pos: Vec2 = match cursor {
        Ok(p) => p,
        Err(_) => {
            return 0;
        },
    };
    if !beyond_deadzone(player_pos, cursor_pos) {
        return 0;
    }
    if remaining_mdeg == 0 {
        return 0;
    }
    let budget: u64 = rate.0 * dt_ms / 1000;
    let mag: u64 = if budget < remaining_mdeg {
        budget
    } else {
        remaining_mdeg
    };
    if cursor_to_right {
        -(mag as i64)
    } else {
        mag as i64
    }
}

/// Rotation steering never overshoots: one application shrinks the angular
/// distance to the cursor bearing without passing it, and its magnitude
/// stays within the rate budget for the tick.
pub proof fn lemma_steering_never_overshoots(
    rotate_held: bool,
    cursor: Result<Vec2, CursorError>,
    player_pos: Vec2,
    remaining_mdeg: u64,
    cursor_to_right: bool,
    rate: RotationSpeed,
    dt_ms: u64,
)
    ensures
        ({
            let step = rotation_step_spec(
                rotate_held,
                cursor,
                player_pos,
                remaining_mdeg,
                cursor_to_right,
                rate,
                dt_ms,
            );
            let mag = if step >= 0 {
                step
            } else {
                -step
            };
            &&& mag <= remaining_mdeg
            &&& 0 <= remaining_mdeg - mag <= remaining_mdeg
            &&& mag <= rate.0 * dt_ms / 1000
        }),
{
}

/// Rotation steering is a no-op whenever any of its guards trips: the
/// steer button is not held, the cursor did not resolve, the cursor is
/// within the point-blank guard, or the ship is already aligned.
pub proof fn lemma_steering_noop_cases(
    rotate_held: bool,
    cursor: Result<Vec2, CursorError>,
    player_pos: Vec2,
    remaining_mdeg: u64,
    cursor_to_right: bool,
    rate: RotationSpeed,
    dt_ms: u64,
)
    requires
        !rotate_held || cursor is Err || dist_sq(player_pos, cursor->Ok_0) <= AIM_DEADZONE
            * AIM_DEADZONE || remaining_mdeg == 0,
    ensures
        rotation_step_spec(
            rotate_held,
            cursor,
            player_pos,
            remaining_mdeg,
            cursor_to_right,
            rate,
            dt_ms,
        ) == 0,
{
}

/// A heading rotated by a signed step, wrapped back into `[0, 360000)`
/// millidegrees.
pub fn rotate_heading(heading_mdeg: u64, step: i64) -> (r: u64)
    requires
        heading_mdeg < FULL_TURN_MDEG,
        -(FULL_TURN_MDEG as int) <= step <= FULL_TURN_MDEG as int,
    ensures
        r == (heading_mdeg + step) % (FULL_TURN_MDEG as int),
        r < FULL_TURN_MDEG,
{
    let shifted: i64 = (heading_mdeg as i64) + step;
    let wrapped: i64 = euclid_rem(shifted, 360000);
    wrapped as u64
}

} // verus!
