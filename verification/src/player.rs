//! The dragon: where it is and how fast it falls.

use vstd::prelude::*;
use crate::sound::{Sound, SoundCue};

verus! {

/// Velocity gained per tick while falling, in tenths of a row per tick.
pub const GRAVITY: i32 = 2;

/// The fastest fall that gravity brings about.
pub const TERMINAL_VELOCITY: i32 = 20;

/// Number of pictures in the animation of the dragon.
pub const DRAGON_FRAMES: usize = 5;

/// The player. Velocities are fixed-point numbers counted in tenths of a row
/// per tick; a positive velocity points down, towards larger `y`.
#[derive(Clone, Copy, Debug, PartialEq, Eq, Structural)]
pub struct Player {
    /// Column in the world. Grows by one per tick.
    pub x: i32,
    /// Row on the screen, never negative after a tick.
    pub y: i32,
    /// Vertical velocity.
    pub velocity: i32,
    /// Which picture of the animation shows.
    pub current_frame: usize,
}

/// Whole rows travelled in one tick at velocity `v`: a tenth of `v`, rounded
/// towards zero.
pub open spec fn whole_rows(v: int) -> int {
    if v >= 0 {
        v / 10
    } else {
        -((-v) / 10)
    }
}

/// The smaller of two numbers.
pub open spec fn smaller(a: int, b: int) -> int {
    if a <= b {
        a
    } else {
        b
    }
}

/// Velocity after gravity has acted on `v` for one tick: below
/// [`TERMINAL_VELOCITY`] it grows by [`GRAVITY`], but not beyond the terminal
/// velocity; from there on it stays as it is.
pub open spec fn pulled(v: int) -> int {
    if v < TERMINAL_VELOCITY {
        smaller(v + GRAVITY, TERMINAL_VELOCITY as int)
    } else {
        v
    }
}

/// The column after `x`. The last column that an `i32` can hold is its own
/// successor.
pub open spec fn next_column(x: int) -> int {
    if x < i32::MAX {
        x + 1
    } else {
        x
    }
}

/// The row reached from row `y` by moving `rows` rows, kept between the top
/// of the screen and the largest row that an `i32` can hold.
pub open spec fn landed(y: int, rows: int) -> int {
    if y + rows < 0 {
        0
    } else if y + rows > i32::MAX {
        i32::MAX as int
    } else {
        y + rows
    }
}

impl Player {
    /// A player at rest at column `x` and row `y`.
    pub fn new(x: i32, y: i32) -> (p: Player)
        ensures
            p == (Player { x, y, velocity: 0, current_frame: 0 }),
    {
        Player { x, y, velocity: 0, current_frame: 0 }
    }

    /// The player one tick later.
    pub open spec fn after_tick(self) -> Player {
        let v = pulled(self.velocity as int);
        Player {
            x: next_column(self.x as int) as i32,
            y: landed(self.y as int, whole_rows(v)) as i32,
            velocity: v as i32,
            current_frame: ((self.current_frame + 1) % (DRAGON_FRAMES as int)) as usize,
        }
    }

    /// The player `n` ticks later, with no flap in between.
    pub open spec fn after_ticks(self, n: nat) -> Player
        decreases n,
    {
        if n == 0 {
            self
        } else {
            self.after_tick().after_ticks((n - 1) as nat)
        }
    }

    /// One tick of physics: gravity pulls up to the terminal velocity, the
    /// player moves by the whole rows
    /// of its new velocity without leaving the screen at the top, advances
    /// one column, and shows the next picture of its animation.
    pub fn gravity_and_move(&mut self)
        ensures
            *final(self) == old(self).after_tick(),
    {
        if self.velocity < TERMINAL_VELOCITY {
            if self.velocity > TERMINAL_VELOCITY - GRAVITY {
                self.velocity = TERMINAL_VELOCITY;
            } else {
                self.velocity = self.velocity + GRAVITY;
            }
        }
        let rows: i64 = (self.velocity / 10) as i64;
        let target: i64 = self.y as i64 + rows;
        if target < 0 {
            self.y = 0;
        } else if target > i32::MAX as i64 {
            self.y = i32::MAX;
        } else {
            self.y = target as i32;
        }
        if self.x < i32::MAX {
            self.x = self.x + 1;
        }
        self.current_frame = (self.current_frame % DRAGON_FRAMES + 1) % DRAGON_FRAMES;
    }

    /// A flap: the velocity becomes `velocity`, whatever it was. Returns the
    /// cue for the sound of the wings at volume level `volume_mod`.
    pub fn flap(&mut self, velocity: i32, volume_mod: i32) -> (cue: SoundCue)
        ensures
            *final(self) == (Player { velocity, ..*old(self) }),
            cue == (SoundCue { sound: Sound::Flap, volume: volume_mod }),
    {
        self.velocity = velocity;
        SoundCue::new(Sound::Flap, volume_mod)
    }
}

/// A tick never slows the fall, adds at most one step of gravity, adds
/// nothing from [`TERMINAL_VELOCITY`] on, and never takes a velocity at or
/// below the terminal velocity beyond it.
pub proof fn lemma_tick_accelerates(p: Player)
    ensures
        p.velocity <= p.after_tick().velocity <= p.velocity + GRAVITY,
        p.velocity >= TERMINAL_VELOCITY ==> p.after_tick().velocity == p.velocity,
        p.velocity <= TERMINAL_VELOCITY ==> p.after_tick().velocity <= TERMINAL_VELOCITY,
{
}

/// A velocity at or below [`TERMINAL_VELOCITY`] grows by [`GRAVITY`] per
/// tick until it reaches the terminal velocity, and never exceeds it however
/// many ticks pass.
pub proof fn lemma_fall_is_capped(p: Player, n: nat)
    requires
        p.velocity <= TERMINAL_VELOCITY,
    ensures
        p.after_ticks(n).velocity == smaller(p.velocity + GRAVITY * n, TERMINAL_VELOCITY as int),
        p.after_ticks(n).velocity <= TERMINAL_VELOCITY,
    decreases n,
{
    if n > 0 {
        lemma_fall_is_capped(p.after_tick(), (n - 1) as nat);
    }
}

/// A player at rest has velocity 0, gains [`GRAVITY`] per tick, and stays at
/// [`TERMINAL_VELOCITY`] once it has got there.
pub proof fn lemma_fall_from_rest(x: i32, y: i32, n: nat)
    ensures
        (Player { x, y, velocity: 0, current_frame: 0 }).after_ticks(n).velocity == smaller(
            GRAVITY * n,
            TERMINAL_VELOCITY as int,
        ),
{
    lemma_fall_is_capped(Player { x, y, velocity: 0, current_frame: 0 }, n);
}

/// Whatever the velocity at the start, no number of ticks slows the fall,
/// none takes a velocity at or below [`TERMINAL_VELOCITY`] beyond it, and
/// none changes a velocity at or above it.
pub proof fn lemma_velocity_is_bounded(p: Player, n: nat)
    ensures
        p.after_ticks(n).velocity >= p.velocity,
        p.velocity <= TERMINAL_VELOCITY ==> p.after_ticks(n).velocity <= TERMINAL_VELOCITY,
        p.velocity >= TERMINAL_VELOCITY ==> p.after_ticks(n).velocity == p.velocity,
    decreases n,
{
    if n > 0 {
        lemma_velocity_is_bounded(p.after_tick(), (n - 1) as nat);
    }
}

/// A flap replaces the velocity: what it was before leaves no trace.
pub proof fn lemma_flap_overwrites(p: Player, q: Player, impulse: i32)
    requires
        p.x == q.x,
        p.y == q.y,
        p.current_frame == q.current_frame,
    ensures
        (Player { velocity: impulse, ..p }) == (Player { velocity: impulse, ..q }),
        (Player { velocity: impulse, ..p }).velocity == impulse,
{
}

/// The column never decreases, and grows by exactly one per tick below the
/// last column.
pub proof fn lemma_column_advances(p: Player)
    ensures
        p.after_tick().x >= p.x,
        p.x < i32::MAX ==> p.after_tick().x == p.x + 1,
        p.after_tick().y >= 0,
        p.after_tick().current_frame < DRAGON_FRAMES,
{
}

} // verus!
