//! Sprite animation: the player's idle/walk state machine and the
//! triggered one-shot-looping effect used for the engine exhaust.
//!
//! Both machines are driven by repeating timers ticked once per frame; the
//! frame index advances on the timers' "just finished" edges.

use vstd::prelude::*;

use rand::RngExt;

verus! {

use crate::timer::{Timer, TimerMode};
use crate::vec2::Vec2;
use vstd::arithmetic::div_mod::{lemma_div_by_self, lemma_mod_self_0};

/// Number of idle frames in the sprite sheet.
pub const IDLE_FRAMES: usize = 2;

/// How long each idle frame shows, milliseconds.
pub const IDLE_INTERVAL_MS: u64 = 500;

/// Number of walking frames in the sprite sheet.
pub const WALKING_FRAMES: usize = 6;

/// How long each walking frame shows, milliseconds.
pub const WALKING_INTERVAL_MS: u64 = 50;

/// Where the walking row starts in the shared sprite sheet: one full row
/// of the 6-column grid past the idle frames.
pub const WALKING_ROW_OFFSET: usize = 6;

/// The walking frames on which a footstep sounds.
pub const STEP_FRAME_A: usize = 2;

/// The other walking frame on which a footstep sounds.
pub const STEP_FRAME_B: usize = 5;

/// What the player's body is doing, as far as animation cares.
#[derive(Clone, Copy, Debug, PartialEq, Eq, Structural)]
pub enum PlayerAnimationState {
    Idling,
    Walking,
}

/// How many frames the given state cycles through.
pub open spec fn frame_count(state: PlayerAnimationState) -> int {
    match state {
        PlayerAnimationState::Idling => IDLE_FRAMES as int,
        PlayerAnimationState::Walking => WALKING_FRAMES as int,
    }
}

/// The cadence of the given state: how long each frame shows.
pub open spec fn frame_interval_ms(state: PlayerAnimationState) -> u64 {
    match state {
        PlayerAnimationState::Idling => IDLE_INTERVAL_MS,
        PlayerAnimationState::Walking => WALKING_INTERVAL_MS,
    }
}

/// The player's animation: a repeating cadence timer, the current frame,
/// and the state the cadence and frame range belong to.
#[derive(Clone, Copy, Debug, PartialEq, Eq, Structural)]
pub struct PlayerAnimation {
    pub timer: Timer,
    pub frame: usize,
    pub state: PlayerAnimationState,
}

impl PlayerAnimation {
    /// Well-formed: a repeating timer with the state's cadence, and a
    /// frame within the state's frame count.
    pub open spec fn inv(self) -> bool {
        &&& self.timer.inv()
        &&& self.timer.mode == TimerMode::Repeating
        &&& self.timer.duration_ms == frame_interval_ms(self.state)
        &&& self.frame < frame_count(self.state)
    }

    /// A fresh Idling animation: frame 0, idle cadence, nothing elapsed.
    pub open spec fn idling_spec() -> PlayerAnimation {
        PlayerAnimation {
            timer: Timer::new_spec(IDLE_INTERVAL_MS, TimerMode::Repeating),
            frame: 0,
            state: PlayerAnimationState::Idling,
        }
    }

    /// A fresh Walking animation: frame 0, walk cadence, nothing elapsed.
    pub open spec fn walking_spec() -> PlayerAnimation {
        PlayerAnimation {
            timer: Timer::new_spec(WALKING_INTERVAL_MS, TimerMode::Repeating),
            frame: 0,
            state: PlayerAnimationState::Walking,
        }
    }

    fn idling() -> (a: PlayerAnimation)
        ensures
            a == PlayerAnimation::idling_spec(),
            a.inv(),
    {
        PlayerAnimation {
            timer: Timer::new(IDLE_INTERVAL_MS, TimerMode::Repeating),
            frame: 0,
            state: PlayerAnimationState::Idling,
        }
    }

    fn walking() -> (a: PlayerAnimation)
        ensures
            a == PlayerAnimation::walking_spec(),
            a.inv(),
    {
        PlayerAnimation {
            timer: Timer::new(WALKING_INTERVAL_MS, TimerMode::Repeating),
            frame: 0,
            state: PlayerAnimationState::Walking,
        }
    }

    /// A player starts out idling.
    pub fn new() -> (a: PlayerAnimation)
        ensures
            a == PlayerAnimation::idling_spec(),
            a.inv(),
    {
        PlayerAnimation::idling()
    }

    /// The animation after the cadence timer advanced by `delta_ms`: on
    /// the timer's edge the frame steps once, wrapping within the state's
    /// frame count; otherwise only the timer moves.
    pub open spec fn update_timer_spec(self, delta_ms: u64) -> PlayerAnimation {
        let ticked = self.timer.tick_spec(delta_ms);
        PlayerAnimation {
            timer: ticked,
            frame: if ticked.just_finished_spec() {
                ((self.frame + 1) % frame_count(self.state)) as usize
            } else {
                self.frame
            },
            state: self.state,
        }
    }

    /// Advance the cadence timer by the frame's delta and step the frame
    /// on the timer's edge.
    pub fn update_timer(&mut self, delta_ms: u64)
        requires
            old(self).inv(),
            old(self).timer.elapsed_ms + delta_ms <= u64::MAX,
        ensures
            *final(self) == old(self).update_timer_spec(delta_ms),
            final(self).inv(),
    {
        self.timer.tick(delta_ms);
        if !self.timer.finished() {
            return ;
        }
        self.frame = (self.frame + 1) % match self.state {
            PlayerAnimationState::Idling => IDLE_FRAMES,
            PlayerAnimationState::Walking => WALKING_FRAMES,
        };
    }

    /// The animation after a state request: a differing state fully resets
    /// (fresh timer with the new cadence, frame 0); the same state keeps
    /// everything as it is.
    pub open spec fn update_state_spec(self, state: PlayerAnimationState) -> PlayerAnimation {
        if self.state == state {
            self
        } else {
            match state {
                PlayerAnimationState::Idling => PlayerAnimation::idling_spec(),
                PlayerAnimationState::Walking => PlayerAnimation::walking_spec(),
            }
        }
    }

    /// Switch to the requested state, resetting frame and cadence if it
    /// differs from the current one.
    pub fn update_state(&mut self, state: PlayerAnimationState)
        requires
            old(self).inv(),
        ensures
            *final(self) == old(self).update_state_spec(state),
            final(self).inv(),
    {
        if self.state != state {
            match state {
                PlayerAnimationState::Idling => {
                    *self = PlayerAnimation::idling();
                },
                PlayerAnimationState::Walking => {
                    *self = PlayerAnimation::walking();
                },
            }
        }
    }

    /// Whether the animation changed this tick, i.e. whether the cadence
    /// timer's edge fired: the consumer rewrites the sprite's atlas index
    /// only then.
    pub fn changed(&self) -> (r: bool)
        ensures
            r == self.timer.finished_spec(),
    {
        self.timer.finished()
    }

    /// The atlas cell the animation shows: idle frames fill the start of
    /// the sheet's first row, walking frames the second row.
    pub open spec fn atlas_index_spec(self) -> int {
        match self.state {
            PlayerAnimationState::Idling => self.frame as int,
            PlayerAnimationState::Walking => WALKING_ROW_OFFSET + self.frame,
        }
    }

    /// Return the sprite's index in the atlas.
    pub fn get_atlas_index(&self) -> (i: usize)
        requires
            self.inv(),
        ensures
            i == self.atlas_index_spec(),
            i < WALKING_ROW_OFFSET + WALKING_FRAMES,
    {
        match self.state {
            PlayerAnimationState::Idling => self.frame,
            PlayerAnimationState::Walking => WALKING_ROW_OFFSET + self.frame,
        }
    }
}

/// Rewrite the sprite's atlas cell on the ticks the animation changed;
/// on every other tick the cell stays as the renderer last saw it.
pub fn update_animation_atlas(animation: &PlayerAnimation, atlas_index: &mut usize)
    requires
        animation.inv(),
    ensures
        *final(atlas_index) as int == if animation.timer.finished_spec() {
            animation.atlas_index_spec()
        } else {
            *old(atlas_index) as int
        },
{
    if animation.changed() {
        *atlas_index = animation.get_atlas_index();
    }
}

/// The animation state a movement intent asks for: Idling on zero intent,
/// Walking otherwise.
pub open spec fn state_for_intent(intent: Vec2) -> PlayerAnimationState {
    if intent.is_zero() {
        PlayerAnimationState::Idling
    } else {
        PlayerAnimationState::Walking
    }
}

/// Drive the sprite from this tick's movement intent: horizontal intent
/// updates the horizontal flip (left-facing on negative, untouched while
/// the intent is purely vertical or zero), and the animation switches to
/// the state the intent asks for.
pub fn update_animation_movement(intent: Vec2, flip_x: &mut bool, animation: &mut PlayerAnimation)
    requires
        old(animation).inv(),
    ensures
        *final(flip_x) == if intent.x != 0 {
            intent.x < 0
        } else {
            *old(flip_x)
        },
        *final(animation) == old(animation).update_state_spec(state_for_intent(intent)),
        final(animation).inv(),
{
    if intent.x != 0 {
        *flip_x = intent.x < 0;
    }
    let state = if intent.x == 0 && intent.y == 0 {
        PlayerAnimationState::Idling
    } else {
        PlayerAnimationState::Walking
    };
    animation.update_state(state);
}

/// Whether a footstep sounds this tick: the player is walking, the frame
/// advanced this tick, and it landed on one of the two step frames.
pub open spec fn step_sound_due(a: PlayerAnimation) -> bool {
    &&& a.state == PlayerAnimationState::Walking
    &&& a.timer.finished_spec()
    &&& (a.frame == STEP_FRAME_A || a.frame == STEP_FRAME_B)
}

/// Relies on rand::RngExt::random_range over `0..n`: sampling a nonempty
/// range yields a value within it (it panics only on an empty range, which
/// `n > 0` rules out).
#[verifier::external_body]
fn random_below(n: usize) -> (r: usize)
    requires
        n > 0,
    ensures
        r < n,
{
    rand::rng().random_range(0..n)
}

/// Pick the step sound to play this tick: on the step frames of a walking
/// animation that just advanced, a clip index drawn uniformly from the
/// pool; otherwise nothing.
pub fn step_sound_index(animation: &PlayerAnimation, pool_len: usize) -> (r: Option<usize>)
    requires
        pool_len > 0,
    ensures
        r is Some <==> step_sound_due(*animation),
        r is Some ==> r->0 < pool_len,
{
    let on_step_frame = animation.frame == STEP_FRAME_A || animation.frame == STEP_FRAME_B;
    if animation.state == PlayerAnimationState::Walking && animation.changed() && on_step_frame {
        Some(random_below(pool_len))
    } else {
        None
    }
}

/// The frame range a triggered effect loops through: a contiguous block of
/// atlas cells from `first` to `last`.
#[derive(Clone, Copy, Debug, PartialEq, Eq, Structural)]
pub struct AnimationIndices {
    pub first: usize,
    pub last: usize,
}

/// The cadence timer of a triggered effect.
#[derive(Clone, Copy, Debug, PartialEq, Eq, Structural)]
pub struct AnimationTimer(pub Timer);

impl AnimationTimer {
    /// A repeating cadence timer showing `fps` frames per second, the
    /// frame time rounded down to whole milliseconds.
    pub fn with_fps(fps: u64) -> (t: AnimationTimer)
        requires
            0 < fps <= 1000,
        ensures
            t.0 == Timer::new_spec((1000 as int / fps as int) as u64, TimerMode::Repeating),
            t.0.inv(),
    {
        proof {
            assert(1000 as int / fps as int >= 1) by (nonlinear_arith)
                requires
                    0 < fps <= 1000,
            ;
        }
        AnimationTimer(Timer::new(1000 / fps, TimerMode::Repeating))
    }

    /// Advance the cadence by the frame's delta.
    pub fn tick(&mut self, delta_ms: u64)
        requires
            old(self).0.inv(),
            old(self).0.elapsed_ms + delta_ms <= u64::MAX,
        ensures
            final(self).0 == old(self).0.tick_spec(delta_ms),
            final(self).0.inv(),
    {
        self.0.tick(delta_ms);
    }

    /// Whether the cadence edge fired this tick.
    pub fn just_finished(&self) -> (r: bool)
        ensures
            r == self.0.just_finished_spec(),
    {
        self.0.just_finished()
    }
}

/// A triggered one-shot-looping effect (the engine exhaust): started and
/// stopped by a control input's edges, looping its frame range while it
/// plays. Created hidden and stopped.
#[derive(Clone, Copy, Debug, PartialEq, Eq, Structural)]
pub struct TriggeredAnimation {
    pub indices: AnimationIndices,
    pub timer: AnimationTimer,
    pub frame: usize,
    /// Whether the effect is in the advancement pass at all; stands for
    /// the presence of the playing tag the pass filters on.
    pub playing: bool,
    pub visible: bool,
}

impl TriggeredAnimation {
    /// Well-formed: a repeating cadence timer and a frame within the
    /// effect's frame range.
    pub open spec fn inv(self) -> bool {
        &&& self.timer.0.inv()
        &&& self.timer.0.mode == TimerMode::Repeating
        &&& self.indices.first <= self.frame <= self.indices.last
    }

    /// A fresh effect: hidden, stopped, showing its first frame.
    pub fn new(indices: AnimationIndices, timer: AnimationTimer) -> (t: TriggeredAnimation)
        requires
            indices.first <= indices.last,
            timer.0.inv(),
            timer.0.mode == TimerMode::Repeating,
        ensures
            t == (TriggeredAnimation {
                indices,
                timer,
                frame: indices.first,
                playing: false,
                visible: false,
            }),
            t.inv(),
    {
        TriggeredAnimation { indices, timer, frame: indices.first, playing: false, visible: false }
    }

    /// The effect right after "start": first frame, cadence rewound,
    /// visible and playing — whatever it was doing before.
    pub open spec fn start_spec(self) -> TriggeredAnimation {
        TriggeredAnimation {
            indices: self.indices,
            timer: AnimationTimer(self.timer.0.reset_spec()),
            frame: self.indices.first,
            playing: true,
            visible: true,
        }
    }

    /// Start the effect: rewind it to its first frame and show it.
    pub fn start_animation(&mut self)
        requires
            old(self).inv(),
            old(self).indices.first <= old(self).indices.last,
        ensures
            *final(self) == old(self).start_spec(),
            final(self).inv(),
    {
        self.frame = self.indices.first;
        self.timer.0.reset();
        self.playing = true;
        self.visible = true;
    }

    /// The effect right after "stop": hidden and no longer playing, frame
    /// frozen; already-stopped effects are left entirely alone.
    pub open spec fn stop_spec(self) -> TriggeredAnimation {
        if self.playing {
            TriggeredAnimation { playing: false, visible: false, ..self }
        } else {
            self
        }
    }

    /// Stop the effect: hide it and take it out of the advancement pass.
    pub fn stop_animation(&mut self)
        ensures
            *final(self) == old(self).stop_spec(),
    {
        if self.playing {
            self.playing = false;
            self.visible = false;
        }
    }

    /// The effect after the advancement pass: effects that are not playing
    /// are excluded from the pass entirely; a playing one steps its frame
    /// on the cadence edge, wrapping from last back to first.
    pub open spec fn advance_spec(self) -> TriggeredAnimation {
        if self.playing && self.timer.0.just_finished_spec() {
            TriggeredAnimation {
                frame: if self.frame == self.indices.last {
                    self.indices.first
                } else {
                    (self.frame + 1) as usize
                },
                ..self
            }
        } else {
            self
        }
    }

    /// One advancement pass over this effect.
    pub fn execute_animation(&mut self)
        requires
            old(self).inv(),
        ensures
            *final(self) == old(self).advance_spec(),
            final(self).inv(),
    {
        if self.playing && self.timer.just_finished() {
            if self.frame == self.indices.last {
                self.frame = self.indices.first;
            } else {
                self.frame = self.frame + 1;
            }
        }
    }
}

/// "Start" while already playing is idempotent: it lands the effect in the
/// same state — frame and timer reset all the same — as a single start.
pub proof fn lemma_start_idempotent(t: TriggeredAnimation)
    ensures
        t.start_spec().start_spec() == t.start_spec(),
{
}

/// "Stop" while not playing is a no-op.
pub proof fn lemma_stop_noop_when_stopped(t: TriggeredAnimation)
    requires
        !t.playing,
    ensures
        t.stop_spec() == t,
{
}

/// While playing, the frame moves exactly on cadence edges: it wraps from
/// last back to first on an edge, and stands still on a tick without one.
pub proof fn lemma_triggered_frame_wraps(t: TriggeredAnimation)
    requires
        t.inv(),
        t.playing,
    ensures
        t.timer.0.just_finished_spec() && t.frame == t.indices.last ==> t.advance_spec().frame
            == t.indices.first,
        t.timer.0.just_finished_spec() && t.frame != t.indices.last ==> t.advance_spec().frame
            == t.frame + 1,
        !t.timer.0.just_finished_spec() ==> t.advance_spec() == t,
{
}

/// A fresh Idling animation ticked by whole idle cadences: after `n` ticks
/// of exactly the idle interval the frame is `n % 2` — the idle frame
/// flips 0 → 1 → 0 → … every interval.
pub open spec fn idle_after_steps(n: nat) -> PlayerAnimation
    decreases n,
{
    if n == 0 {
        PlayerAnimation::idling_spec()
    } else {
        idle_after_steps((n - 1) as nat).update_timer_spec(IDLE_INTERVAL_MS)
    }
}

/// The idle cadence law: see `idle_after_steps`.
pub proof fn lemma_idle_cadence(n: nat)
    ensures
        idle_after_steps(n).inv(),
        idle_after_steps(n).state == PlayerAnimationState::Idling,
        idle_after_steps(n).timer.elapsed_ms == 0,
        idle_after_steps(n).frame == n % 2,
    decreases n,
{
    if n > 0 {
        lemma_idle_cadence((n - 1) as nat);
        let prev = idle_after_steps((n - 1) as nat);
        lemma_mod_self_0(prev.timer.duration_ms as int);
        lemma_div_by_self(prev.timer.duration_ms as int);
    }
}

} // verus!
