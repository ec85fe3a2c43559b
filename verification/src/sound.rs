//! The sound effects of the game, and how loud each one plays.
//!
//! The library plays nothing itself. It hands out cues, and the front end
//! plays the clip that belongs to each cue at the gain that the cue asks for.

use vstd::prelude::*;

verus! {

/// The sound effects.
#[derive(Clone, Copy, Debug, PartialEq, Eq, Structural)]
pub enum Sound {
    /// A wall has been passed.
    Bell,
    /// The dragon beats its wings.
    Flap,
    /// The dragon has crashed.
    Splat,
    /// Something happened on the settings screen.
    SettingClick,
    /// A fresh encouragement appears.
    Encouragement,
}

/// A request to play one sound effect once.
#[derive(Clone, Copy, Debug, PartialEq, Eq, Structural)]
pub struct SoundCue {
    /// Which effect to play.
    pub sound: Sound,
    /// The volume level of the settings at the moment of the request.
    pub volume: i32,
}

impl Sound {
    /// Gain that one volume level adds to this effect, in thousandths of the
    /// clip's full amplitude.
    pub open spec fn level_gain(self) -> int {
        match self {
            Sound::Bell => 150,
            Sound::Flap => 300,
            Sound::Splat => 40,
            Sound::SettingClick => 40,
            Sound::Encouragement => 15,
        }
    }

    /// Computes [`Sound::level_gain`].
    pub fn gain_per_level(self) -> (g: i64)
        ensures
            g == self.level_gain(),
    {
        match self {
            Sound::Bell => 150,
            Sound::Flap => 300,
            Sound::Splat => 40,
            Sound::SettingClick => 40,
            Sound::Encouragement => 15,
        }
    }
}

impl SoundCue {
    /// The cue for `sound` at volume level `volume`.
    pub fn new(sound: Sound, volume: i32) -> (cue: SoundCue)
        ensures
            cue.sound == sound,
            cue.volume == volume,
    {
        SoundCue { sound, volume }
    }

    /// Gain at which to play the clip, in thousandths of its full amplitude:
    /// the effect's gain per level times the volume level.
    pub fn gain(&self) -> (g: i64)
        ensures
            g == self.sound.level_gain() * self.volume,
    {
        let per_level: i64 = self.sound.gain_per_level();
        assert(per_level * (self.volume as int) <= 300 * 0x8000_0000 && per_level * (self.volume as int) >= -300 * 0x8000_0000) by (nonlinear_arith)
            requires
                15 <= per_level <= 300,
                -0x8000_0000 <= self.volume < 0x8000_0000,
        ;
        per_level * (self.volume as i64)
    }
}

} // verus!
