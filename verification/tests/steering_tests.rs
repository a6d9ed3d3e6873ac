use arcade_core::movement::RotationSpeed;
use arcade_core::steering::{beyond_deadzone, rotate_heading, rotation_step, CursorError};
use arcade_core::vec2::Vec2;

fn rate() -> RotationSpeed {
    RotationSpeed(360_000)
}

// Rotation steering is a no-op when the trigger button is not held.
#[test]
fn steering_noop_without_button() {
    let step = rotation_step(
        false,
        Ok(Vec2::new(500_000, 0)),
        Vec2::zero(),
        90_000,
        true,
        &rate(),
        16,
    );
    assert_eq!(step, 0);
}

// Rotation steering is a no-op when the cursor does not resolve.
#[test]
fn steering_noop_without_cursor() {
    for err in [
        CursorError::NoCursorInWindow,
        CursorError::ViewportUnprojectionFailed,
    ] {
        let step = rotation_step(true, Err(err), Vec2::zero(), 90_000, true, &rate(), 16);
        assert_eq!(step, 0);
    }
}

// Rotation steering is a no-op while the cursor is within 50 world units.
#[test]
fn steering_noop_at_point_blank() {
    // 30 units away: inside the guard.
    let step = rotation_step(
        true,
        Ok(Vec2::new(30_000, 0)),
        Vec2::zero(),
        90_000,
        true,
        &rate(),
        16,
    );
    assert_eq!(step, 0);

    // Exactly 50 units away still counts as point-blank.
    assert!(!beyond_deadzone(Vec2::zero(), Vec2::new(50_000, 0)));
    assert!(beyond_deadzone(Vec2::zero(), Vec2::new(50_001, 0)));
}

// Rotation steering is a no-op when already aligned with the cursor.
#[test]
fn steering_noop_when_aligned() {
    let step = rotation_step(
        true,
        Ok(Vec2::new(500_000, 0)),
        Vec2::zero(),
        0,
        true,
        &rate(),
        16,
    );
    assert_eq!(step, 0);
}

// One application turns by at most rate*dt, toward the cursor's side.
#[test]
fn steering_clamps_to_rate_budget() {
    let cursor = Ok(Vec2::new(500_000, 0));
    // 360 deg/s over 16 ms budgets 5.76 degrees; 90 degrees remain.
    let step = rotation_step(true, cursor, Vec2::zero(), 90_000, true, &rate(), 16);
    assert_eq!(step, -5_760);
    let ccw = rotation_step(true, cursor, Vec2::zero(), 90_000, false, &rate(), 16);
    assert_eq!(ccw, 5_760);
}

// One application never turns past the target bearing.
#[test]
fn steering_never_overshoots() {
    let cursor = Ok(Vec2::new(500_000, 0));
    // A whole second budgets a full turn, but only 90 degrees remain.
    let step = rotation_step(true, cursor, Vec2::zero(), 90_000, false, &rate(), 1000);
    assert_eq!(step, 90_000);
    let cw = rotation_step(true, cursor, Vec2::zero(), 90_000, true, &rate(), 1000);
    assert_eq!(cw, -90_000);
}

#[test]
fn heading_wraps_around_the_full_turn() {
    assert_eq!(rotate_heading(350_000, 20_000), 10_000);
    assert_eq!(rotate_heading(10_000, -20_000), 350_000);
    assert_eq!(rotate_heading(0, -5_760), 354_240);
    assert_eq!(rotate_heading(180_000, 180_000), 0);
}
