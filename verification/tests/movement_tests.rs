use arcade_core::movement::{
    apply_screen_wrap, integrate, thrust_velocity, velocity_from_intent, wrap_coord,
    MovementController, ShipSpeed,
};
use arcade_core::num::{euclid_rem, scale_milli};
use arcade_core::vec2::Vec2;

#[test]
fn euclid_rem_is_never_negative() {
    assert_eq!(euclid_rem(-5, 3), 1);
    assert_eq!(euclid_rem(5, 3), 2);
    assert_eq!(euclid_rem(-6, 3), 0);
    assert_eq!(euclid_rem(0, 7), 0);
    assert_eq!(euclid_rem(-1, 7), 6);
}

#[test]
fn scale_milli_rounds_toward_negative_infinity() {
    assert_eq!(scale_milli(400_000, 16), 6_400);
    assert_eq!(scale_milli(1_234, 10), 12);
    assert_eq!(scale_milli(-1_500, 100), -150);
    assert_eq!(scale_milli(-1, 1), -1);
    assert_eq!(scale_milli(0, 1_000_000), 0);
}

// End-to-end scenario: intent=(1,0) with max_speed=400 gives linear
// velocity (400,0) world units per second; zero intent gives zero velocity.
#[test]
fn intent_velocity_scenario() {
    let controller = MovementController {
        intent: Vec2::new(1000, 0),
        max_speed: 400,
    };
    let v = velocity_from_intent(&controller);
    assert_eq!(v, Vec2::new(400_000, 0));

    let still = MovementController {
        intent: Vec2::zero(),
        max_speed: 400,
    };
    assert_eq!(velocity_from_intent(&still), Vec2::zero());
}

#[test]
fn default_controller_has_no_intent_and_default_speed() {
    let c = MovementController::default();
    assert_eq!(c.intent, Vec2::zero());
    assert_eq!(c.max_speed, 400);
}

#[test]
fn thrust_velocity_follows_forward_axis() {
    let forward = Vec2::new(0, 1000);
    let v = thrust_velocity(forward, true, &ShipSpeed(320));
    assert_eq!(v, Vec2::new(0, 320_000));

    let idle = thrust_velocity(forward, false, &ShipSpeed(320));
    assert_eq!(idle, Vec2::zero());
}

#[test]
fn integrate_advances_each_axis_independently() {
    let mut pos = Vec2::new(1000, -2000);
    integrate(&mut pos, Vec2::new(400_000, -250_000), 16);
    assert_eq!(pos, Vec2::new(1000 + 6_400, -2000 - 4_000));
}

// Screen wrap is periodic: shifting by whole spans lands on the same spot.
#[test]
fn wrap_is_periodic() {
    let s: i64 = 1_536_000;
    let p: i64 = 123_456;
    let w = wrap_coord(p, s);
    assert_eq!(wrap_coord(p + s, s), w);
    assert_eq!(wrap_coord(p + 3 * s, s), w);
    assert_eq!(wrap_coord(p - 2 * s, s), w);
}

// The wrapped coordinate always lies in [-s/2, s/2) for the even spans the
// game uses.
#[test]
fn wrap_stays_in_centred_span() {
    let s: i64 = 1_536_000;
    for &p in &[0i64, 1, -1, 767_999, 768_000, -768_000, 5_000_000, -5_000_000] {
        let w = wrap_coord(p, s);
        assert!(-s / 2 <= w && w < s / 2, "wrap({p}) = {w} out of span");
    }
    // Inside the span, wrapping changes nothing.
    assert_eq!(wrap_coord(100_000, s), 100_000);
    assert_eq!(wrap_coord(-767_000, s), -767_000);
    // The half-span boundary belongs to the far edge.
    assert_eq!(wrap_coord(768_000, s), -768_000);
}

#[test]
fn screen_wrap_adds_margin_around_viewport() {
    // A 1280x720-unit viewport wraps in a (1280+256)x(720+256) span.
    let viewport = Vec2::new(1_280_000, 720_000);
    let mut pos = Vec2::new(800_000, 0);
    apply_screen_wrap(&mut pos, viewport);
    assert_eq!(pos, Vec2::new(-736_000, 0));

    // An on-screen position is untouched.
    let mut home = Vec2::new(200_000, -300_000);
    apply_screen_wrap(&mut home, viewport);
    assert_eq!(home, Vec2::new(200_000, -300_000));

    // The y axis wraps in its own, smaller span.
    let mut below = Vec2::new(0, -500_000);
    apply_screen_wrap(&mut below, viewport);
    assert_eq!(below, Vec2::new(0, 476_000));
}
