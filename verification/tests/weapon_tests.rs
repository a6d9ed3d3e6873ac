use arcade_core::timer::TimerMode;
use arcade_core::vec2::Vec2;
use arcade_core::weapon::{Projectile, ProjectileSpawn, Weapon};

fn ready_weapon() -> Weapon {
    let mut w = Weapon::new();
    w.tick(160);
    w
}

#[test]
fn fresh_weapon_starts_cooling() {
    let mut w = Weapon::new();
    assert_eq!(w.fire_rate_timer.duration_ms, 160);
    assert_eq!(w.fire_rate_timer.mode, TimerMode::Once);
    // The cooldown starts running on creation, so the very first request is dropped.
    let spawn = w.try_fire(Vec2::zero(), Vec2::new(0, 1000));
    assert!(spawn.is_none());
}

// End-to-end scenario: a fire request with the cooldown Ready spawns one
// projectile at firerPos + forward*30 with velocity forward*500, and the
// cooldown becomes Cooling for 0.16 s.
#[test]
fn ready_fire_spawns_ahead_of_firer() {
    let mut w = ready_weapon();
    let spawn = w.try_fire(Vec2::new(10_000, 20_000), Vec2::new(0, 1000));
    let ProjectileSpawn {
        position,
        velocity,
        projectile,
    } = spawn.expect("a ready weapon fires");

    assert_eq!(position, Vec2::new(10_000, 50_000));
    assert_eq!(velocity, Vec2::new(0, 500_000));
    assert_eq!(projectile.despawn_timer.duration_ms, 2000);
    assert_eq!(projectile.despawn_timer.elapsed_ms, 0);

    // Cooling: a request right away is dropped, one after 0.16 s succeeds.
    assert!(!w.fire_rate_timer.finished());
    assert!(w.try_fire(Vec2::zero(), Vec2::new(0, 1000)).is_none());
    w.tick(160);
    assert!(w.try_fire(Vec2::zero(), Vec2::new(0, 1000)).is_some());
}

// Weapon fire-control: two requests closer together than the cooldown
// produce exactly one spawn; two at least the cooldown apart produce two.
#[test]
fn cooldown_gates_the_second_request() {
    let forward = Vec2::new(1000, 0);

    let mut w = ready_weapon();
    let mut spawns = 0;
    if w.try_fire(Vec2::zero(), forward).is_some() {
        spawns += 1;
    }
    w.tick(100); // less than the 160 ms cooldown
    if w.try_fire(Vec2::zero(), forward).is_some() {
        spawns += 1;
    }
    assert_eq!(spawns, 1);

    let mut w2 = ready_weapon();
    let mut spawns2 = 0;
    if w2.try_fire(Vec2::zero(), forward).is_some() {
        spawns2 += 1;
    }
    w2.tick(160); // the full cooldown
    if w2.try_fire(Vec2::zero(), forward).is_some() {
        spawns2 += 1;
    }
    assert_eq!(spawns2, 2);
}

#[test]
fn dropped_request_leaves_the_weapon_alone() {
    let mut w = Weapon::new();
    w.tick(40);
    let before = w;
    assert!(w.try_fire(Vec2::zero(), Vec2::new(0, 1000)).is_none());
    assert_eq!(w, before);
}

// Projectile lifecycle: alive strictly before 2.0 s, destroyed exactly on
// the first tick at which 2.0 s have elapsed, and never again.
#[test]
fn projectile_despawns_exactly_once() {
    let mut w = ready_weapon();
    let spawn = w.try_fire(Vec2::zero(), Vec2::new(0, 1000)).unwrap();
    let mut p: Projectile = spawn.projectile;

    p.tick(1000);
    assert!(!p.should_despawn());
    p.tick(999);
    assert!(!p.should_despawn());
    p.tick(1); // 2000 ms total: the despawn edge
    assert!(p.should_despawn());
    p.tick(16);
    assert!(!p.should_despawn());
    p.tick(2000);
    assert!(!p.should_despawn());
}

#[test]
fn projectile_despawns_on_the_crossing_tick_even_mid_frame() {
    let mut w = ready_weapon();
    let mut p = w.try_fire(Vec2::zero(), Vec2::new(0, 1000)).unwrap().projectile;
    p.tick(1990);
    assert!(!p.should_despawn());
    p.tick(100); // crosses 2000 ms inside this frame
    assert!(p.should_despawn());
}
