//! Core simulation of a small 2D arcade game, verified with Verus.
//!
//! The library covers the per-frame simulation loop: countdown/repeating
//! timers, movement intent and thrust velocity, rotation steering with an
//! angular-rate clamp, screen-space wrapping, a cooldown-gated weapon with
//! projectile lifetimes, and the sprite-animation state machines.
//!
//! All continuous quantities are held as integers: world coordinates and
//! velocities in thousandths of a world unit ("milliunits"), angles in
//! thousandths of a degree ("millidegrees"), and time in milliseconds.
//! The surrounding engine glue (input devices, rendering, audio, the cursor
//! unprojection) converts to and from these units at the edge.

pub mod animation;
pub mod movement;
pub mod num;
pub mod player;
pub mod steering;
pub mod timer;
pub mod vec2;
pub mod weapon;
