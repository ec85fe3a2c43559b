//! Keys, and what each key asks for on each screen.

use vstd::prelude::*;

verus! {

/// The screens of the game. Exactly one is active at a time.
#[derive(Clone, Copy, Debug, PartialEq, Eq, Structural)]
pub enum GameMode {
    /// The title screen.
    Menu,
    /// A game is running.
    Playing,
    /// The game is over.
    End,
    /// The settings screen.
    Settings,
    /// A running game is on hold.
    Paused,
}

/// The keys that mean something to the game.
#[derive(Clone, Copy, Debug, PartialEq, Eq, Structural)]
pub enum Key {
    /// The space bar.
    Space,
    /// The letter D.
    D,
    /// The letter F.
    F,
    /// The letter G.
    G,
    /// The letter M.
    M,
    /// The letter P.
    P,
    /// The letter Q.
    Q,
    /// The letter S.
    S,
    /// The letter V.
    V,
    /// Any other key.
    Other,
}

/// What a player can ask the game to do.
#[derive(Clone, Copy, Debug, PartialEq, Eq, Structural)]
pub enum Command {
    /// Beat the wings.
    Flap,
    /// Show or hide the developer's overlay.
    ToggleDevOverlay,
    /// Put a running game on hold, or take it up again.
    Pause,
    /// Start a new game.
    Play,
    /// Leave the game.
    Quit,
    /// Go to the settings screen.
    OpenSettings,
    /// Go back to the title screen.
    ReturnToMenu,
    /// Step the flap velocity.
    CycleFlapVelocity,
    /// Step the minimum gap.
    CycleMinGap,
    /// Step the volume.
    CycleVolume,
}

/// The command that `key` stands for while `mode` is active, if any.
pub open spec fn binding(mode: GameMode, key: Key) -> Option<Command> {
    match mode {
        GameMode::Menu | GameMode::End => match key {
            Key::P => Some(Command::Play),
            Key::Q => Some(Command::Quit),
            Key::S => Some(Command::OpenSettings),
            _ => None,
        },
        GameMode::Playing => match key {
            Key::Space => Some(Command::Flap),
            Key::D => Some(Command::ToggleDevOverlay),
            Key::P => Some(Command::Pause),
            _ => None,
        },
        GameMode::Paused => match key {
            Key::P => Some(Command::Pause),
            _ => None,
        },
        GameMode::Settings => match key {
            Key::M => Some(Command::ReturnToMenu),
            Key::F => Some(Command::CycleFlapVelocity),
            Key::G => Some(Command::CycleMinGap),
            Key::V => Some(Command::CycleVolume),
            _ => None,
        },
    }
}

/// The command of this frame, given the key that was pressed, if one was.
pub open spec fn command_for(mode: GameMode, key: Option<Key>) -> Option<Command> {
    match key {
        Some(k) => binding(mode, k),
        None => None,
    }
}

/// Looks up the command that `key` stands for while `mode` is active.
pub fn command_of(mode: GameMode, key: Option<Key>) -> (command: Option<Command>)
    ensures
        command == command_for(mode, key),
{
    match key {
        None => None,
        Some(k) => match mode {
            GameMode::Menu | GameMode::End => match k {
                Key::P => Some(Command::Play),
                Key::Q => Some(Command::Quit),
                Key::S => Some(Command::OpenSettings),
                _ => None,
            },
            GameMode::Playing => match k {
                Key::Space => Some(Command::Flap),
                Key::D => Some(Command::ToggleDevOverlay),
                Key::P => Some(Command::Pause),
                _ => None,
            },
            GameMode::Paused => match k {
                Key::P => Some(Command::Pause),
                _ => None,
            },
            GameMode::Settings => match k {
                Key::M => Some(Command::ReturnToMenu),
                Key::F => Some(Command::CycleFlapVelocity),
                Key::G => Some(Command::CycleMinGap),
                Key::V => Some(Command::CycleVolume),
                _ => None,
            },
        },
    }
}

} // verus!
