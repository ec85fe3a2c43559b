//! What the player can adjust on the settings screen.

use vstd::prelude::*;

verus! {

/// The strongest flap on offer, in tenths of a row per tick.
pub const STRONGEST_FLAP: i32 = -40;

/// The flap that follows the strongest one when cycling.
pub const WEAKEST_FLAP: i32 = -15;

/// How much stronger each step of the flap setting is.
pub const FLAP_STEP: i32 = 5;

/// The flap that a fresh game starts with.
pub const DEFAULT_FLAP: i32 = -20;

/// The minimum gap and the volume that a fresh game starts with.
pub const DEFAULT_LEVEL: i32 = 5;

/// Largest minimum gap on offer.
pub const MAX_MIN_GAP: i32 = 10;

/// Loudest volume level.
pub const MAX_VOLUME: i32 = 10;

/// The adjustable settings. Velocities are fixed-point numbers counted in
/// tenths of a row per tick; a negative velocity points up.
#[derive(Clone, Copy, Debug, PartialEq, Eq, Structural)]
pub struct Settings {
    /// Velocity that a flap gives the player.
    pub flap_velocity: i32,
    /// Floor below which the gap of a wall never shrinks.
    pub min_gap_size: i32,
    /// Volume level from 0 (silent) to 10.
    pub volume: i32,
}

/// The flap setting that follows `v`: one step stronger, and back to the
/// weakest once the strongest has been passed.
pub open spec fn next_flap_velocity(v: int) -> int {
    if v - FLAP_STEP < STRONGEST_FLAP {
        WEAKEST_FLAP as int
    } else {
        v - FLAP_STEP
    }
}

/// The minimum gap that follows `g`: one more, and back to 1 after the largest.
pub open spec fn next_min_gap(g: int) -> int {
    if g + 1 > MAX_MIN_GAP {
        1
    } else {
        g + 1
    }
}

/// The volume that follows `v`: one more, and back to 0 after the loudest.
pub open spec fn next_volume(v: int) -> int {
    if v + 1 > MAX_VOLUME {
        0
    } else {
        v + 1
    }
}

impl Settings {
    /// The settings that the settings screen can reach.
    pub open spec fn valid(self) -> bool {
        &&& STRONGEST_FLAP <= self.flap_velocity <= WEAKEST_FLAP
        &&& (self.flap_velocity - WEAKEST_FLAP) % (FLAP_STEP as int) == 0
        &&& 1 <= self.min_gap_size <= MAX_MIN_GAP
        &&& 0 <= self.volume <= MAX_VOLUME
    }

    /// Makes the flap one step stronger; after the strongest comes the
    /// weakest.
    pub fn cycle_flap_velocity(&mut self)
        ensures
            *final(self) == (Settings {
                flap_velocity: next_flap_velocity(old(self).flap_velocity as int) as i32,
                ..*old(self)
            }),
            old(self).valid() ==> final(self).valid(),
    {
        if self.flap_velocity < STRONGEST_FLAP + FLAP_STEP {
            self.flap_velocity = WEAKEST_FLAP;
        } else {
            self.flap_velocity = self.flap_velocity - FLAP_STEP;
        }
    }

    /// Raises the minimum gap by one row; after the largest comes 1.
    pub fn cycle_min_gap_size(&mut self)
        ensures
            *final(self) == (Settings {
                min_gap_size: next_min_gap(old(self).min_gap_size as int) as i32,
                ..*old(self)
            }),
            old(self).valid() ==> final(self).valid(),
    {
        if self.min_gap_size >= MAX_MIN_GAP {
            self.min_gap_size = 1;
        } else {
            self.min_gap_size = self.min_gap_size + 1;
        }
    }

    /// Raises the volume by one level; after the loudest comes silence.
    pub fn cycle_volume(&mut self)
        ensures
            *final(self) == (Settings {
                volume: next_volume(old(self).volume as int) as i32,
                ..*old(self)
            }),
            old(self).valid() ==> final(self).valid(),
    {
        if self.volume >= MAX_VOLUME {
            self.volume = 0;
        } else {
            self.volume = self.volume + 1;
        }
    }
}

impl Default for Settings {
    /// The settings of a fresh game.
    fn default() -> (s: Settings)
        ensures
            s == (Settings {
                flap_velocity: DEFAULT_FLAP,
                min_gap_size: DEFAULT_LEVEL,
                volume: DEFAULT_LEVEL,
            }),
            s.valid(),
    {
        Settings { flap_velocity: DEFAULT_FLAP, min_gap_size: DEFAULT_LEVEL, volume: DEFAULT_LEVEL }
    }
}

/// The flap grows stronger by one step at a time and, once it would pass the
/// strongest, falls back to the weakest.
pub proof fn lemma_flap_wraps(v: int)
    ensures
        v - FLAP_STEP >= STRONGEST_FLAP ==> next_flap_velocity(v) == v - FLAP_STEP,
        v - FLAP_STEP < STRONGEST_FLAP ==> next_flap_velocity(v) == WEAKEST_FLAP,
        next_flap_velocity(STRONGEST_FLAP as int) == WEAKEST_FLAP,
{
}

/// The minimum gap grows by one at a time and, once it would exceed the
/// largest, wraps to 1.
pub proof fn lemma_min_gap_wraps(g: int)
    ensures
        g + 1 <= MAX_MIN_GAP ==> next_min_gap(g) == g + 1,
        g + 1 > MAX_MIN_GAP ==> next_min_gap(g) == 1,
        next_min_gap(MAX_MIN_GAP as int) == 1,
{
}

/// The volume grows by one at a time and, once it would exceed the loudest,
/// wraps to 0.
pub proof fn lemma_volume_wraps(v: int)
    ensures
        v + 1 <= MAX_VOLUME ==> next_volume(v) == v + 1,
        v + 1 > MAX_VOLUME ==> next_volume(v) == 0,
        next_volume(MAX_VOLUME as int) == 0,
{
}

/// From valid settings each cycle comes round: six steps of the flap, ten of
/// the minimum gap and eleven of the volume lead back to where they began.
pub proof fn lemma_cycles_come_round(s: Settings)
    requires
        s.valid(),
    ensures
        next_flap_velocity(
            next_flap_velocity(
                next_flap_velocity(
                    next_flap_velocity(
                        next_flap_velocity(next_flap_velocity(s.flap_velocity as int)),
                    ),
                ),
            ),
        ) == s.flap_velocity,
        times_next_min_gap(s.min_gap_size as int, 10) == s.min_gap_size,
        times_next_volume(s.volume as int, 11) == s.volume,
{
    reveal_with_fuel(times_next_min_gap, 11);
    reveal_with_fuel(times_next_volume, 12);
}

/// The minimum gap after `n` steps from `g`.
pub open spec fn times_next_min_gap(g: int, n: nat) -> int
    decreases n,
{
    if n == 0 {
        g
    } else {
        times_next_min_gap(next_min_gap(g), (n - 1) as nat)
    }
}

/// The volume after `n` steps from `v`.
pub open spec fn times_next_volume(v: int, n: nat) -> int
    decreases n,
{
    if n == 0 {
        v
    } else {
        times_next_volume(next_volume(v), (n - 1) as nat)
    }
}

} // verus!
