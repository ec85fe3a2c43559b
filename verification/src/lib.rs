//! The rules of a one-button side-scrolling arcade game: a dragon that falls
//! under gravity, flaps upwards on command and has to pass through the gaps
//! of an endless row of walls.
//!
//! Everything here works on plain values. A front end reads the keyboard and
//! the clock, calls [`game::State::tick`] once per displayed frame, and then
//! draws and plays what the returned [`game::Frame`] and the state describe.

pub mod chance;
pub mod game;
pub mod input;
pub mod invariants;
pub mod messages;
pub mod obstacle;
pub mod player;
pub mod screen;
pub mod settings;
pub mod sound;
