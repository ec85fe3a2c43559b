//! What holds of the game in every state that it gets into, and what each
//! command brings about.

use vstd::prelude::*;
use crate::game::{Draws, StateView, START_X, START_Y};
use crate::input::{command_for, Command, GameMode, Key};
use crate::messages::{is_dead_screen_message, is_encouragement};
use crate::obstacle::{lemma_generated_well_formed, Obstacle, GAP_BAND_END, GAP_BAND_START};
use crate::player::Player;

verus! {

/// Whether the centre of the gap that chance offers lies in the band.
pub open spec fn rolls_in_band(draws: Draws) -> bool {
    GAP_BAND_START <= draws.gap_center_y < GAP_BAND_END
}

/// A new game starts at score 0 with the player at rest at the start and no
/// encouragement on screen, and leaves the settings, the overlay and the
/// texts as they were.
pub proof fn lemma_restart_resets(s: StateView, gap_center_y: i32)
    ensures
        s.restarted(gap_center_y).score == 0,
        s.restarted(gap_center_y).player == (Player {
            x: START_X,
            y: START_Y,
            velocity: 0,
            current_frame: 0,
        }),
        s.restarted(gap_center_y).encouragement_delay_cnt == 0,
        s.restarted(gap_center_y).frame_time == 0,
        s.restarted(gap_center_y).mode == GameMode::Playing,
        s.restarted(gap_center_y).obstacle == Obstacle::generated(
            crate::screen::SCREEN_WIDTH,
            gap_center_y,
            0,
            s.settings.min_gap_size,
        ),
        s.restarted(gap_center_y).settings == s.settings,
        s.restarted(gap_center_y).dev_toggle == s.dev_toggle,
        s.restarted(gap_center_y).current_encouragement == s.current_encouragement,
        s.restarted(gap_center_y).dead_screen_msg == s.dead_screen_msg,
{
}

/// Two new games begin alike whatever went before, as far as the settings,
/// the overlay and the texts agree.
pub proof fn lemma_restart_forgets(s: StateView, t: StateView, gap_center_y: i32)
    requires
        s.settings == t.settings,
        s.dev_toggle == t.dev_toggle,
        s.current_encouragement == t.current_encouragement,
        s.dead_screen_msg == t.dead_screen_msg,
    ensures
        s.restarted(gap_center_y) == t.restarted(gap_center_y),
{
}

/// The command to play starts a new game from the title screen and from the
/// screen after a crash alike.
pub proof fn lemma_play_command_restarts(s: StateView, key: Option<Key>, elapsed: u64, draws: Draws)
    requires
        s.mode == GameMode::Menu || s.mode == GameMode::End,
        command_for(s.mode, key) == Some(Command::Play),
    ensures
        s.tick_step(key, elapsed, draws) == s.restarted(draws.gap_center_y),
{
}

/// In a frame of a running game with a flap, the player leaves the frame
/// with exactly the flap velocity of the settings, whatever its velocity was
/// and whether or not a physics tick fell into the frame.
pub proof fn lemma_flap_sets_velocity(s: StateView, elapsed: u64, draws: Draws)
    requires
        s.mode != GameMode::Paused,
    ensures
        s.play_step(Some(Command::Flap), elapsed, draws).player.velocity
            == s.settings.flap_velocity,
{
}

/// A frame without a flap leaves the velocity to gravity: unchanged where no
/// physics tick is due, and pulled once where one is.
pub proof fn lemma_no_flap_no_jump(s: StateView, command: Option<Command>, elapsed: u64, draws: Draws)
    requires
        s.mode != GameMode::Paused,
        command != Some(Command::Flap),
    ensures
        s.play_step(command, elapsed, draws).player.velocity == if s.tick_due(elapsed) {
            crate::player::pulled(s.player.velocity as int)
        } else {
            s.player.velocity as int
        },
{
}

/// A frame performs at most one physics tick: one where the time built up
/// exceeds the threshold, which starts the clock again, and none otherwise.
pub proof fn lemma_one_tick_per_frame(s: StateView, elapsed: u64)
    ensures
        s.tick_due(elapsed) ==> s.clocked(elapsed).player == s.player.after_tick() && s.clocked(
            elapsed,
        ).frame_time == 0,
        !s.tick_due(elapsed) ==> s.clocked(elapsed).player == s.player && s.clocked(
            elapsed,
        ).frame_time == crate::game::built_up(s.frame_time as int, elapsed as int),
        s.clocked(elapsed).frame_time <= crate::screen::FRAME_DURATION,
{
}

/// The screens follow one another only along these edges: from the title
/// screen and from the screen after a crash to a game or to the settings,
/// from a game to a game on hold or to the screen after a crash, from a game
/// on hold back to the game, and from the settings to the title screen.
pub proof fn lemma_mode_edges(s: StateView, key: Option<Key>, elapsed: u64, draws: Draws)
    ensures
        ({
            let next = s.tick_step(key, elapsed, draws).mode;
            let command = command_for(s.mode, key);
            match s.mode {
                GameMode::Menu | GameMode::End => next == if command == Some(Command::Play) {
                    GameMode::Playing
                } else if command == Some(Command::OpenSettings) {
                    GameMode::Settings
                } else {
                    s.mode
                },
                GameMode::Playing => next == if s.played(command, elapsed, draws).dead() {
                    GameMode::End
                } else if command == Some(Command::Pause) {
                    GameMode::Paused
                } else {
                    GameMode::Playing
                },
                GameMode::Paused => next == if command == Some(Command::Pause) {
                    GameMode::Playing
                } else {
                    GameMode::Paused
                },
                GameMode::Settings => next == if command == Some(Command::ReturnToMenu) {
                    GameMode::Menu
                } else {
                    GameMode::Settings
                },
            }
        }),
{
}

/// A game on hold ignores everything but the command that takes it up
/// again, and that command changes nothing but the screen.
pub proof fn lemma_paused_ignores(s: StateView, key: Option<Key>, elapsed: u64, draws: Draws)
    requires
        s.mode == GameMode::Paused,
    ensures
        key != Some(Key::P) ==> s.tick_step(key, elapsed, draws) == s,
        key == Some(Key::P) ==> s.tick_step(key, elapsed, draws) == (StateView {
            mode: GameMode::Playing,
            ..s
        }),
{
}

/// The state in which the program starts is well formed.
pub proof fn lemma_initial_well_formed(gap_center_y: i32)
    requires
        GAP_BAND_START <= gap_center_y < GAP_BAND_END,
    ensures
        StateView::initial(gap_center_y).well_formed(),
{
}

/// A frame of a game keeps a well-formed state well formed, as long as
/// chance keeps within its bounds wherever the frame draws on it.
pub proof fn lemma_play_keeps_well_formed(s: StateView, command: Option<Command>, elapsed: u64, draws: Draws)
    requires
        s.well_formed(),
        s.mode == GameMode::Playing || s.mode == GameMode::Paused,
        s.mode == GameMode::Playing && s.shown(command, elapsed).passed() ==> rolls_in_band(draws),
        s.mode == GameMode::Playing && s.shown(command, elapsed).counted_down().cheered()
            ==> is_encouragement(draws.encouragement),
        s.mode == GameMode::Playing && s.played(command, elapsed, draws).dead()
            ==> is_dead_screen_message(draws.dead_screen_msg),
    ensures
        s.play_step(command, elapsed, draws).well_formed(),
{
    if s.mode != GameMode::Paused {
        let shown = s.shown(command, elapsed);
        let counted = shown.counted_down();
        if counted.passed() {
            lemma_generated_well_formed(
                crate::game::column_ahead(counted.player.x as int) as i32,
                draws.gap_center_y,
                crate::game::next_score(counted.score as int) as i32,
                counted.settings.min_gap_size,
            );
        }
    }
}

/// Every frame keeps a well-formed state well formed, whatever the key and
/// the time, as long as chance keeps within its bounds wherever the frame
/// draws on it: the fall stays at or below the terminal velocity, the
/// settings stay on offer, the
/// score and the countdown stay in range, the gap of the wall stays on the
/// screen and no narrower than the minimum while a game is on, and every
/// text that shows comes from its pool.
pub proof fn lemma_tick_keeps_well_formed(s: StateView, key: Option<Key>, elapsed: u64, draws: Draws)
    requires
        s.well_formed(),
        s.tick_rolls(key, elapsed) ==> rolls_in_band(draws),
        s.tick_cheers(key, elapsed) ==> is_encouragement(draws.encouragement),
        s.tick_crashes(key, elapsed, draws) ==> is_dead_screen_message(draws.dead_screen_msg),
    ensures
        s.tick_step(key, elapsed, draws).well_formed(),
{
    let command = command_for(s.mode, key);
    match s.mode {
        GameMode::Menu | GameMode::End => if command == Some(Command::Play) {
            lemma_generated_well_formed(
                crate::screen::SCREEN_WIDTH,
                draws.gap_center_y,
                0,
                s.settings.min_gap_size,
            );
        },
        GameMode::Playing | GameMode::Paused => {
            lemma_play_keeps_well_formed(s, command, elapsed, draws);
        },
        GameMode::Settings => {},
    }
}

/// In a well-formed state the player falls no faster than the terminal
/// velocity, the gap of the wall lies wholly on the screen, and while a game
/// is on the gap is no smaller than the minimum of the settings.
pub proof fn lemma_well_formed_bounds(s: StateView)
    requires
        s.well_formed(),
    ensures
        s.player.velocity <= crate::player::TERMINAL_VELOCITY,
        s.obstacle.fits_screen(),
        s.mode != GameMode::Menu && s.mode != GameMode::Settings ==> s.obstacle.size
            >= s.settings.min_gap_size,
{
}

} // verus!
