//! Weapon fire-control and projectile lifecycle.
//!
//! The weapon is a two-state machine: Ready (cooldown timer finished) and
//! Cooling (timer running). A fire request while Ready spawns a projectile
//! in front of the firer and rearms the cooldown; a request while Cooling
//! is silently dropped, never queued. Each projectile despawns exactly
//! once, on the tick its one-shot lifetime timer crosses its duration.

use vstd::prelude::*;

verus! {

use crate::timer::{edge_count, lemma_once_timer_edge_fires_at_most_once, sum_of, Timer, TimerMode};
use crate::vec2::{Vec2, MILLI};

/// Speed of a projectile, world units per second.
pub const PROJECTILE_SPEED: i64 = 500;

/// How far in front of the firer a projectile appears, world units.
pub const PROJECTILE_FORWARD_SPAWN_SCALAR: i64 = 30;

/// Lifetime of a projectile, milliseconds.
pub const PROJECTILE_DESPAWN_TIME_MS: u64 = 2000;

/// Cooldown between two shots, milliseconds.
pub const WEAPON_FIRE_RATE_MS: u64 = 160;

/// A per-tick fire request naming the entity that wants to shoot. The
/// request is consumed whether or not it leads to a spawn; one that names
/// an entity that no longer exists is dropped by the caller.
#[derive(Clone, Copy, Debug, PartialEq, Eq, Structural)]
pub struct FireWeapon {
    pub entity: u64,
}

/// The firing entity's weapon: only its cooldown timer.
#[derive(Clone, Copy, Debug, PartialEq, Eq, Structural)]
pub struct Weapon {
    pub fire_rate_timer: Timer,
}

/// A live projectile: only its one-shot despawn timer.
#[derive(Clone, Copy, Debug, PartialEq, Eq, Structural)]
pub struct Projectile {
    pub despawn_timer: Timer,
}

/// Everything a successful fire hands to the spawn collaborator: the
/// projectile's initial position and velocity, and its lifetime state.
#[derive(Clone, Copy, Debug, PartialEq, Eq, Structural)]
pub struct ProjectileSpawn {
    pub position: Vec2,
    pub velocity: Vec2,
    pub projectile: Projectile,
}

impl Weapon {
    /// Well-formed: a one-shot cooldown timer of the weapon's fire rate.
    pub open spec fn inv(self) -> bool {
        &&& self.fire_rate_timer.inv()
        &&& self.fire_rate_timer.mode == TimerMode::Once
        &&& self.fire_rate_timer.duration_ms == WEAPON_FIRE_RATE_MS
    }

    /// A fresh weapon: its cooldown starts running, so the first shot
    /// comes only a full cooldown after the weapon appears.
    pub open spec fn new_spec() -> Weapon {
        Weapon { fire_rate_timer: Timer::new_spec(WEAPON_FIRE_RATE_MS, TimerMode::Once) }
    }

    pub fn new() -> (w: Weapon)
        ensures
            w == Weapon::new_spec(),
            w.inv(),
    {
        Weapon { fire_rate_timer: Timer::new(WEAPON_FIRE_RATE_MS, TimerMode::Once) }
    }

    /// Ready: the cooldown has run out and a fire request would succeed.
    pub open spec fn ready(self) -> bool {
        self.fire_rate_timer.finished_spec()
    }

    /// Advance the cooldown by the frame's delta.
    pub fn tick(&mut self, delta_ms: u64)
        requires
            old(self).inv(),
            old(self).fire_rate_timer.elapsed_ms + delta_ms <= u64::MAX,
        ensures
            *final(self) == (Weapon {
                fire_rate_timer: old(self).fire_rate_timer.tick_spec(delta_ms),
            }),
            final(self).inv(),
    {
        self.fire_rate_timer.tick(delta_ms);
    }

    /// Consume a fire request: spawn a projectile and rearm the cooldown
    /// when Ready, drop the request without any other effect when Cooling.
    pub fn try_fire(&mut self, position: Vec2, forward: Vec2) -> (spawn: Option<ProjectileSpawn>)
        requires
            old(self).inv(),
            -MILLI <= forward.x <= MILLI,
            -MILLI <= forward.y <= MILLI,
            i64::MIN + PROJECTILE_FORWARD_SPAWN_SCALAR * MILLI <= position.x
                <= i64::MAX - PROJECTILE_FORWARD_SPAWN_SCALAR * MILLI,
            i64::MIN + PROJECTILE_FORWARD_SPAWN_SCALAR * MILLI <= position.y
                <= i64::MAX - PROJECTILE_FORWARD_SPAWN_SCALAR * MILLI,
        ensures
            final(self).inv(),
            spawn is Some == old(self).ready(),
            old(self).ready() ==> spawn == Some(projectile_spawn_spec(position, forward))
                && *final(self) == Weapon::new_spec(),
            !old(self).ready() ==> spawn is None && *final(self) == *old(self),
    {
        if self.fire_rate_timer.finished() {
            self.fire_rate_timer = Timer::new(WEAPON_FIRE_RATE_MS, TimerMode::Once);
            Some(ProjectileSpawn {
                position: Vec2 {
                    x: position.x + forward.x * PROJECTILE_FORWARD_SPAWN_SCALAR,
                    y: position.y + forward.y * PROJECTILE_FORWARD_SPAWN_SCALAR,
                },
                velocity: Vec2 {
                    x: forward.x * PROJECTILE_SPEED,
                    y: forward.y * PROJECTILE_SPEED,
                },
                projectile: Projectile::new_from_spec(),
            })
        } else {
            None
        }
    }
}

/// What a successful fire spawns: a projectile a fixed offset ahead of the
/// firer along its forward axis, moving along that axis at the projectile
/// speed, with a fresh one-shot lifetime.
pub open spec fn projectile_spawn_spec(position: Vec2, forward: Vec2) -> ProjectileSpawn {
    ProjectileSpawn {
        position: Vec2 {
            x: (position.x + forward.x * PROJECTILE_FORWARD_SPAWN_SCALAR) as i64,
            y: (position.y + forward.y * PROJECTILE_FORWARD_SPAWN_SCALAR) as i64,
        },
        velocity: Vec2 {
            x: (forward.x * PROJECTILE_SPEED) as i64,
            y: (forward.y * PROJECTILE_SPEED) as i64,
        },
        projectile: Projectile::new_spec(),
    }
}

impl Projectile {
    /// Well-formed: a one-shot lifetime timer of the projectile lifetime.
    pub open spec fn inv(self) -> bool {
        &&& self.despawn_timer.inv()
        &&& self.despawn_timer.mode == TimerMode::Once
        &&& self.despawn_timer.duration_ms == PROJECTILE_DESPAWN_TIME_MS
    }

    /// A fresh projectile with its whole lifetime ahead of it.
    pub open spec fn new_spec() -> Projectile {
        Projectile { despawn_timer: Timer::new_spec(PROJECTILE_DESPAWN_TIME_MS, TimerMode::Once) }
    }

    pub fn new_from_spec() -> (p: Projectile)
        ensures
            p == Projectile::new_spec(),
            p.inv(),
    {
        Projectile { despawn_timer: Timer::new(PROJECTILE_DESPAWN_TIME_MS, TimerMode::Once) }
    }

    /// Advance the lifetime by the frame's delta.
    pub fn tick(&mut self, delta_ms: u64)
        requires
            old(self).inv(),
            old(self).despawn_timer.elapsed_ms + delta_ms <= u64::MAX,
        ensures
            *final(self) == (Projectile {
                despawn_timer: old(self).despawn_timer.tick_spec(delta_ms),
            }),
            final(self).inv(),
    {
        self.despawn_timer.tick(delta_ms);
    }

    /// Whether the despawn pass destroys this projectile this tick: true
    /// exactly on the lifetime timer's "just finished" edge.
    pub fn should_despawn(&self) -> (r: bool)
        ensures
            r == self.despawn_timer.just_finished_spec(),
    {
        self.despawn_timer.just_finished()
    }
}

/// Weapon fire-control is cooldown-gated: from a Ready weapon a fire
/// request spawns (one projectile) and leaves the weapon Cooling; a second
/// request a single tick `delta_ms` later spawns again if and only if at
/// least the full cooldown has passed. Two requests closer together than
/// the cooldown therefore produce exactly one spawn, two requests at least
/// the cooldown apart produce two.
pub proof fn lemma_cooldown_gates_refire(w: Weapon, delta_ms: u64)
    requires
        w.inv(),
        w.ready(),
    ensures
        ({
            let after_first = Weapon::new_spec();  // the weapon right after the first, successful fire
            let at_second = Weapon {
                fire_rate_timer: after_first.fire_rate_timer.tick_spec(delta_ms),
            };
            at_second.ready() <==> delta_ms >= WEAPON_FIRE_RATE_MS
        }),
{
}

/// Projectile lifecycle: a projectile whose lifetime has not yet elapsed
/// survives the tick; the despawn edge fires exactly on the first tick in
/// which the accumulated time reaches the lifetime; and once the lifetime
/// has elapsed, no later tick raises the edge again.
pub proof fn lemma_projectile_lifecycle(p: Projectile, delta_ms: u64)
    requires
        p.inv(),
    ensures
        ({
            let after = Projectile { despawn_timer: p.despawn_timer.tick_spec(delta_ms) };
            &&& p.despawn_timer.elapsed_ms + delta_ms < PROJECTILE_DESPAWN_TIME_MS
                ==> !after.despawn_timer.just_finished_spec()
                    && !after.despawn_timer.finished_spec()
            &&& p.despawn_timer.elapsed_ms < PROJECTILE_DESPAWN_TIME_MS
                && p.despawn_timer.elapsed_ms + delta_ms >= PROJECTILE_DESPAWN_TIME_MS
                ==> after.despawn_timer.just_finished_spec()
            &&& p.despawn_timer.finished_spec() ==> !after.despawn_timer.just_finished_spec()
                && after.despawn_timer.finished_spec()
        }),
{
}

/// A projectile is destroyed exactly once in its life: over any run of
/// frames, a fresh projectile's despawn edge fires on exactly one frame if
/// the run covers its lifetime, and on none if the run falls short.
pub proof fn lemma_projectile_despawns_exactly_once(deltas: Seq<u64>)
    ensures
        edge_count(Projectile::new_spec().despawn_timer, deltas) <= 1,
        edge_count(Projectile::new_spec().despawn_timer, deltas) == 1 <==> sum_of(deltas)
            >= PROJECTILE_DESPAWN_TIME_MS,
{
    lemma_once_timer_edge_fires_at_most_once(Projectile::new_spec().despawn_timer, deltas);
}

} // verus!
