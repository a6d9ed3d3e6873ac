//! Player-specific pieces: turning raw directional input into a movement
//! intent, the fire-trigger policy, and the simulation-side make-up of the
//! player's fighter ship.

use vstd::prelude::*;

verus! {

use crate::animation::{AnimationIndices, AnimationTimer, TriggeredAnimation};
use crate::movement::{MovementController, RotationSpeed, ShipSpeed};
use crate::timer::{Timer, TimerMode};
use crate::vec2::{Vec2, MILLI};
use crate::weapon::Weapon;

/// Forward thrust speed of the fighter, world units per second.
pub const SHIP_SPEED: i64 = 320;

/// Turn rate of the fighter, millidegrees per second (360 degrees/s).
pub const ROTATION_SPEED_MDEG: u64 = 360000;

/// Component of a diagonal unit intent, in milliunits: one over the square
/// root of two, rounded to the nearest thousandth.
pub const DIAG: i64 = 707;

/// Frames per second of the engine-exhaust effect.
pub const ENGINE_EFFECT_FPS: u64 = 12;

/// First atlas cell of the engine-exhaust frame range.
pub const ENGINE_EFFECT_FIRST: usize = 0;

/// Last atlas cell of the engine-exhaust frame range.
pub const ENGINE_EFFECT_LAST: usize = 7;

/// Marker for the player-controlled entity; no state.
#[derive(Clone, Copy, Debug, PartialEq, Eq, Structural)]
pub struct Player;

/// Marker for the player ship's engine-exhaust effect entity; no state.
#[derive(Clone, Copy, Debug, PartialEq, Eq, Structural)]
pub struct PlayerShipEngineEffect;

/// One directional axis read from a key pair: +1, 0 or -1.
pub open spec fn axis_value(pos_held: bool, neg_held: bool) -> int {
    (if pos_held {
        1int
    } else {
        0int
    }) - (if neg_held {
        1int
    } else {
        0int
    })
}

/// The movement intent the held direction keys ask for: a unit-or-zero
/// vector in milliunits. Diagonals are normalized so diagonal movement is
/// no faster than movement along an axis.
pub open spec fn intent_spec(up: bool, down: bool, left: bool, right: bool) -> Vec2 {
    let x = axis_value(right, left);
    let y = axis_value(up, down);
    if x != 0 && y != 0 {
        Vec2 { x: (x * DIAG) as i64, y: (y * DIAG) as i64 }
    } else {
        Vec2 { x: (x * MILLI) as i64, y: (y * MILLI) as i64 }
    }
}

/// Collect the held direction keys into this tick's movement intent.
pub fn intent_from_input(up: bool, down: bool, left: bool, right: bool) -> (intent: Vec2)
    ensures
        intent == intent_spec(up, down, left, right),
        -MILLI <= intent.x <= MILLI,
        -MILLI <= intent.y <= MILLI,
        intent.is_zero() <==> (up == down && left == right),
{
    let x: i64 = (if right {
        1i64
    } else {
        0i64
    }) - (if left {
        1i64
    } else {
        0i64
    });
    let y: i64 = (if up {
        1i64
    } else {
        0i64
    }) - (if down {
        1i64
    } else {
        0i64
    });
    if x != 0 && y != 0 {
        Vec2 { x: x * DIAG, y: y * DIAG }
    } else {
        Vec2 { x: x * MILLI, y: y * MILLI }
    }
}

/// The fire-trigger policy: a fire request goes out only while the aim
/// button is held and, at the same time, the trigger button or the fire
/// key is down.
pub fn wants_fire(aim_held: bool, trigger_held: bool, fire_key_held: bool) -> (r: bool)
    ensures
        r == (aim_held && (trigger_held || fire_key_held)),
{
    aim_held && (trigger_held || fire_key_held)
}

/// The simulation-side components of the player's fighter: a movement
/// controller capped at the ship's speed, a weapon with its cooldown
/// running, the ship's thrust and turn rates, and the engine-exhaust
/// effect looping the engine sheet, created hidden and stopped.
/// Sprites, colliders and transforms belong to the engine glue.
pub fn fighter_ship() -> (parts: (
    MovementController,
    Weapon,
    ShipSpeed,
    RotationSpeed,
    TriggeredAnimation,
))
    ensures
        parts.0 == (MovementController { intent: Vec2 { x: 0, y: 0 }, max_speed: SHIP_SPEED }),
        parts.0.inv(),
        parts.1 == Weapon::new_spec(),
        parts.2 == ShipSpeed(SHIP_SPEED),
        parts.3 == RotationSpeed(ROTATION_SPEED_MDEG),
        parts.4.indices == (AnimationIndices {
            first: ENGINE_EFFECT_FIRST,
            last: ENGINE_EFFECT_LAST,
        }),
        parts.4.frame == ENGINE_EFFECT_FIRST,
        !parts.4.playing,
        !parts.4.visible,
        parts.4.timer.0 == Timer::new_spec(
            (1000 as int / ENGINE_EFFECT_FPS as int) as u64,
            TimerMode::Repeating,
        ),
        parts.4.inv(),
{
    let controller = MovementController { intent: Vec2 { x: 0, y: 0 }, max_speed: SHIP_SPEED };
    let weapon = Weapon::new();
    let indices = AnimationIndices { first: ENGINE_EFFECT_FIRST, last: ENGINE_EFFECT_LAST };
    let timer = AnimationTimer::with_fps(ENGINE_EFFECT_FPS);
    let effect = TriggeredAnimation::new(indices, timer);
    (controller, weapon, ShipSpeed(SHIP_SPEED), RotationSpeed(ROTATION_SPEED_MDEG), effect)
}

} // verus!
