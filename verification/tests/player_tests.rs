use arcade_core::player::{fighter_ship, intent_from_input, wants_fire};
use arcade_core::vec2::Vec2;

#[test]
fn intent_covers_axes_and_diagonals() {
    // up, down, left, right
    assert_eq!(intent_from_input(false, false, false, false), Vec2::zero());
    assert_eq!(intent_from_input(true, false, false, false), Vec2::new(0, 1000));
    assert_eq!(intent_from_input(false, true, false, false), Vec2::new(0, -1000));
    assert_eq!(intent_from_input(false, false, true, false), Vec2::new(-1000, 0));
    assert_eq!(intent_from_input(false, false, false, true), Vec2::new(1000, 0));

    // Diagonals are normalized: no faster than movement along an axis.
    assert_eq!(intent_from_input(true, false, false, true), Vec2::new(707, 707));
    assert_eq!(intent_from_input(false, true, true, false), Vec2::new(-707, -707));
    assert_eq!(intent_from_input(true, false, true, false), Vec2::new(-707, 707));

    // Opposite keys cancel.
    assert_eq!(intent_from_input(true, true, false, false), Vec2::zero());
    assert_eq!(intent_from_input(true, true, true, false), Vec2::new(-1000, 0));
    assert_eq!(intent_from_input(true, true, true, true), Vec2::zero());
}

#[test]
fn fire_requires_aim_and_a_trigger() {
    // aim, trigger button, fire key
    assert!(!wants_fire(false, true, true));
    assert!(!wants_fire(false, false, false));
    assert!(!wants_fire(true, false, false));
    assert!(wants_fire(true, true, false));
    assert!(wants_fire(true, false, true));
    assert!(wants_fire(true, true, true));
}

#[test]
fn fighter_ship_components_match_the_design() {
    let (controller, weapon, ship_speed, rotation_speed, effect) = fighter_ship();

    assert_eq!(controller.intent, Vec2::zero());
    assert_eq!(controller.max_speed, 320);

    assert_eq!(weapon.fire_rate_timer.duration_ms, 160);
    assert_eq!(weapon.fire_rate_timer.elapsed_ms, 0);

    assert_eq!(ship_speed.0, 320);
    assert_eq!(rotation_speed.0, 360_000);

    assert_eq!(effect.indices.first, 0);
    assert_eq!(effect.indices.last, 7);
    assert_eq!(effect.frame, 0);
    assert!(!effect.playing);
    assert!(!effect.visible);
    assert_eq!(effect.timer.0.duration_ms, 83); // 12 fps
}
