//! The game as a whole: one state, and one step per displayed frame.

use vstd::prelude::*;
use crate::input::{command_for, command_of, Command, GameMode, Key};
use crate::invariants::lemma_play_keeps_well_formed;
use crate::messages::{
    is_dead_screen_message, is_encouragement, pick_dead_screen_message, pick_encouragement,
};
use crate::obstacle::Obstacle;
use crate::player::Player;
use crate::screen::{ENCOURAGEMENT_DELAY_START, FRAME_DURATION, SCREEN_HEIGHT, SCREEN_WIDTH};
use crate::settings::{Settings, DEFAULT_FLAP, DEFAULT_LEVEL};
use crate::sound::{Sound, SoundCue};

verus! {

/// Column in which a game starts.
pub const START_X: i32 = 5;

/// Row in which a game starts.
pub const START_Y: i32 = 25;

/// Minimum gap of the wall that stands before the first game has begun.
pub const FIRST_MIN_GAP: i32 = 2;

/// An encouragement appears whenever the score reaches a multiple of this.
pub const ENCOURAGEMENT_EVERY: i32 = 5;

/// Everything the game remembers from one frame to the next.
#[derive(Clone, Debug)]
pub struct State {
    /// The active screen.
    pub mode: GameMode,
    /// The dragon.
    pub player: Player,
    /// Microseconds that have built up since the last physics tick.
    pub frame_time: u64,
    /// The wall ahead.
    pub obstacle: Obstacle,
    /// Walls passed in this game.
    pub score: i32,
    /// The adjustable settings.
    pub settings: Settings,
    /// Whether the developer's overlay shows.
    pub dev_toggle: bool,
    /// Frames for which the encouragement still shows.
    pub encouragement_delay_cnt: i32,
    /// The encouragement picked last.
    pub current_encouragement: String,
    /// The line for the crash that ended the last game.
    pub dead_screen_msg: String,
}

/// A [`State`] as a mathematical value: the same fields, with each text as
/// its sequence of characters.
pub ghost struct StateView {
    pub mode: GameMode,
    pub player: Player,
    pub frame_time: u64,
    pub obstacle: Obstacle,
    pub score: i32,
    pub settings: Settings,
    pub dev_toggle: bool,
    pub encouragement_delay_cnt: i32,
    pub current_encouragement: Seq<char>,
    pub dead_screen_msg: Seq<char>,
}

impl View for State {
    type V = StateView;

    open spec fn view(&self) -> StateView {
        StateView {
            mode: self.mode,
            player: self.player,
            frame_time: self.frame_time,
            obstacle: self.obstacle,
            score: self.score,
            settings: self.settings,
            dev_toggle: self.dev_toggle,
            encouragement_delay_cnt: self.encouragement_delay_cnt,
            current_encouragement: self.current_encouragement@,
            dead_screen_msg: self.dead_screen_msg@,
        }
    }
}

/// What one frame asks of the front end, and what it shows. The fields
/// `score`, `obstacle` and `encouragement` hold what stood in the state when
/// the picture of the frame was composed, which is before a point is scored.
#[derive(Clone, Debug)]
pub struct Frame {
    /// The screen to draw. [`GameMode::Paused`] means that the picture of the
    /// frame before stays as it is.
    pub screen: GameMode,
    /// Whether the player asked to leave the game.
    pub quit: bool,
    /// The sounds to play, in the order in which they arose.
    pub sounds: Vec<SoundCue>,
    /// The score to show.
    pub score: i32,
    /// The wall to show.
    pub obstacle: Obstacle,
    /// The encouragement to show, if one shows.
    pub encouragement: Option<String>,
    /// Whether the game was put on hold in this frame.
    pub pause_banner: bool,
    /// Whether the dragon crashed in this frame.
    pub crashed: bool,
}

/// A [`Frame`] as a mathematical value.
pub ghost struct FrameView {
    pub screen: GameMode,
    pub quit: bool,
    pub sounds: Seq<SoundCue>,
    pub score: i32,
    pub obstacle: Obstacle,
    pub encouragement: Option<Seq<char>>,
    pub pause_banner: bool,
    pub crashed: bool,
}

impl View for Frame {
    type V = FrameView;

    open spec fn view(&self) -> FrameView {
        FrameView {
            screen: self.screen,
            quit: self.quit,
            sounds: self.sounds@,
            score: self.score,
            obstacle: self.obstacle,
            encouragement: match self.encouragement {
                Some(text) => Some(text@),
                None => None,
            },
            pause_banner: self.pause_banner,
            crashed: self.crashed,
        }
    }
}

/// What chance contributes to a frame: the centre of the gap of a new wall,
/// an encouragement and a line for a crash. A frame uses each only where the
/// rules call for it.
pub ghost struct Draws {
    pub gap_center_y: i32,
    pub encouragement: Seq<char>,
    pub dead_screen_msg: Seq<char>,
}

/// The score after one more point. The largest `i32` stays as it is.
pub open spec fn next_score(score: int) -> int {
    if score < i32::MAX {
        score + 1
    } else {
        score
    }
}

/// The column one screen width ahead of `x`, and the largest `i32` where
/// that is beyond it.
pub open spec fn column_ahead(x: int) -> int {
    if x + SCREEN_WIDTH > i32::MAX {
        i32::MAX as int
    } else {
        x + SCREEN_WIDTH
    }
}

/// The time built up after `elapsed` more microseconds, and the largest
/// `u64` where that is beyond it.
pub open spec fn built_up(frame_time: int, elapsed: int) -> int {
    if frame_time + elapsed > u64::MAX {
        u64::MAX as int
    } else {
        frame_time + elapsed
    }
}

impl StateView {
    /// The state in which the program starts, given the centre of the gap of
    /// the first wall.
    pub open spec fn initial(gap_center_y: i32) -> StateView {
        StateView {
            mode: GameMode::Menu,
            player: Player { x: START_X, y: START_Y, velocity: 0, current_frame: 0 },
            frame_time: 0,
            obstacle: Obstacle::generated(SCREEN_WIDTH, gap_center_y, 0, FIRST_MIN_GAP),
            score: 0,
            settings: Settings {
                flap_velocity: DEFAULT_FLAP,
                min_gap_size: DEFAULT_LEVEL,
                volume: DEFAULT_LEVEL,
            },
            dev_toggle: false,
            encouragement_delay_cnt: 0,
            current_encouragement: Seq::empty(),
            dead_screen_msg: Seq::empty(),
        }
    }

    /// The state at the start of a new game, given the centre of the gap of
    /// its first wall: player, clock, score and countdown are reset, and the
    /// settings, the overlay and the texts stay.
    pub open spec fn restarted(self, gap_center_y: i32) -> StateView {
        StateView {
            mode: GameMode::Playing,
            player: Player { x: START_X, y: START_Y, velocity: 0, current_frame: 0 },
            frame_time: 0,
            obstacle: Obstacle::generated(
                SCREEN_WIDTH,
                gap_center_y,
                0,
                self.settings.min_gap_size,
            ),
            score: 0,
            encouragement_delay_cnt: 0,
            ..self
        }
    }

    /// Whether `elapsed` more microseconds make a physics tick due.
    pub open spec fn tick_due(self, elapsed: u64) -> bool {
        built_up(self.frame_time as int, elapsed as int) > FRAME_DURATION
    }

    /// The clock runs on: the time builds up, and once it exceeds
    /// [`FRAME_DURATION`] it starts again from zero and the player moves by
    /// one tick.
    pub open spec fn clocked(self, elapsed: u64) -> StateView {
        if self.tick_due(elapsed) {
            StateView { frame_time: 0, player: self.player.after_tick(), ..self }
        } else {
            StateView {
                frame_time: built_up(self.frame_time as int, elapsed as int) as u64,
                ..self
            }
        }
    }

    /// The command of a running game is carried out.
    pub open spec fn commanded(self, command: Option<Command>) -> StateView {
        match command {
            Some(Command::Flap) => StateView {
                player: Player { velocity: self.settings.flap_velocity, ..self.player },
                ..self
            },
            Some(Command::ToggleDevOverlay) => StateView { dev_toggle: !self.dev_toggle, ..self },
            Some(Command::Pause) => StateView { mode: GameMode::Paused, ..self },
            _ => self,
        }
    }

    /// The countdown of the encouragement goes down by one while it is
    /// positive.
    pub open spec fn counted_down(self) -> StateView {
        if self.encouragement_delay_cnt > 0 {
            StateView { encouragement_delay_cnt: (self.encouragement_delay_cnt - 1) as i32, ..self }
        } else {
            self
        }
    }

    /// Whether the player is past the wall.
    pub open spec fn passed(self) -> bool {
        self.player.x > self.obstacle.x
    }

    /// Whether passing the wall now brings an encouragement.
    pub open spec fn cheered(self) -> bool {
        self.passed() && next_score(self.score as int) % (ENCOURAGEMENT_EVERY as int) == 0
    }

    /// A player past the wall scores a point, on every fifth point an
    /// encouragement appears for [`ENCOURAGEMENT_DELAY_START`] frames, and a
    /// new wall is put one screen width ahead.
    pub open spec fn scored(self, gap_center_y: i32, encouragement: Seq<char>) -> StateView {
        if self.passed() {
            let score = next_score(self.score as int) as i32;
            let obstacle = Obstacle::generated(
                column_ahead(self.player.x as int) as i32,
                gap_center_y,
                score,
                self.settings.min_gap_size,
            );
            if self.cheered() {
                StateView {
                    score,
                    obstacle,
                    current_encouragement: encouragement,
                    encouragement_delay_cnt: ENCOURAGEMENT_DELAY_START,
                    ..self
                }
            } else {
                StateView { score, obstacle, ..self }
            }
        } else {
            self
        }
    }

    /// Whether the player is dead: below the screen, or in the wall.
    pub open spec fn dead(self) -> bool {
        self.player.y > SCREEN_HEIGHT || self.obstacle.collides(self.player)
    }

    /// A dead player ends the game, with a line for the crash.
    pub open spec fn judged(self, dead_screen_msg: Seq<char>) -> StateView {
        if self.dead() {
            StateView { mode: GameMode::End, dead_screen_msg, ..self }
        } else {
            self
        }
    }

    /// The state as the picture of a running frame shows it: after the
    /// clock and the command, before the countdown and the score.
    pub open spec fn shown(self, command: Option<Command>, elapsed: u64) -> StateView {
        self.clocked(elapsed).commanded(command)
    }

    /// The state before the last step of a running frame, the judgement.
    pub open spec fn played(self, command: Option<Command>, elapsed: u64, draws: Draws) -> StateView {
        self.shown(command, elapsed).counted_down().scored(draws.gap_center_y, draws.encouragement)
    }

    /// One frame of a game that is running or on hold. On hold, only the
    /// command to take the game up again has an effect.
    pub open spec fn play_step(self, command: Option<Command>, elapsed: u64, draws: Draws) -> StateView {
        if self.mode == GameMode::Paused {
            if command == Some(Command::Pause) {
                StateView { mode: GameMode::Playing, ..self }
            } else {
                self
            }
        } else {
            self.played(command, elapsed, draws).judged(draws.dead_screen_msg)
        }
    }

    /// The sounds of one frame of a game, in their order: the wings, the
    /// bell for a point, the encouragement, the crash.
    pub open spec fn play_sounds(self, command: Option<Command>, elapsed: u64, draws: Draws) -> Seq<SoundCue> {
        if self.mode == GameMode::Paused {
            Seq::empty()
        } else {
            let volume = self.settings.volume;
            let shown = self.shown(command, elapsed).counted_down();
            let flap = if command == Some(Command::Flap) {
                seq![SoundCue { sound: Sound::Flap, volume }]
            } else {
                Seq::empty()
            };
            let bell = if shown.passed() {
                seq![SoundCue { sound: Sound::Bell, volume }]
            } else {
                Seq::empty()
            };
            let cheer = if shown.cheered() {
                seq![SoundCue { sound: Sound::Encouragement, volume }]
            } else {
                Seq::empty()
            };
            let splat = if self.played(command, elapsed, draws).dead() {
                seq![SoundCue { sound: Sound::Splat, volume }]
            } else {
                Seq::empty()
            };
            flap + bell + cheer + splat
        }
    }

    /// What one frame of a game hands to the front end.
    pub open spec fn play_frame(self, command: Option<Command>, elapsed: u64, draws: Draws) -> FrameView {
        if self.mode == GameMode::Paused {
            FrameView {
                screen: GameMode::Paused,
                quit: false,
                sounds: Seq::empty(),
                score: self.score,
                obstacle: self.obstacle,
                encouragement: None,
                pause_banner: false,
                crashed: false,
            }
        } else {
            let shown = self.shown(command, elapsed);
            FrameView {
                screen: GameMode::Playing,
                quit: false,
                sounds: self.play_sounds(command, elapsed, draws),
                score: shown.score,
                obstacle: shown.obstacle,
                encouragement: if shown.encouragement_delay_cnt > 0 {
                    Some(shown.current_encouragement)
                } else {
                    None
                },
                pause_banner: command == Some(Command::Pause),
                crashed: self.played(command, elapsed, draws).dead(),
            }
        }
    }

    /// One frame of the title screen or of the screen after a crash.
    pub open spec fn menu_step(self, command: Option<Command>, gap_center_y: i32) -> StateView {
        match command {
            Some(Command::Play) => self.restarted(gap_center_y),
            Some(Command::OpenSettings) => StateView { mode: GameMode::Settings, ..self },
            _ => self,
        }
    }

    /// What a frame without a running game hands to the front end.
    pub open spec fn still_frame(self, screen: GameMode, quit: bool, sounds: Seq<SoundCue>) -> FrameView {
        FrameView {
            screen,
            quit,
            sounds,
            score: self.score,
            obstacle: self.obstacle,
            encouragement: None,
            pause_banner: false,
            crashed: false,
        }
    }

    /// One frame of the settings screen.
    pub open spec fn settings_step(self, command: Option<Command>) -> StateView {
        match command {
            Some(Command::ReturnToMenu) => StateView { mode: GameMode::Menu, ..self },
            Some(Command::CycleFlapVelocity) => StateView {
                settings: Settings {
                    flap_velocity: crate::settings::next_flap_velocity(
                        self.settings.flap_velocity as int,
                    ) as i32,
                    ..self.settings
                },
                ..self
            },
            Some(Command::CycleMinGap) => StateView {
                settings: Settings {
                    min_gap_size: crate::settings::next_min_gap(
                        self.settings.min_gap_size as int,
                    ) as i32,
                    ..self.settings
                },
                ..self
            },
            Some(Command::CycleVolume) => StateView {
                settings: Settings {
                    volume: crate::settings::next_volume(self.settings.volume as int) as i32,
                    ..self.settings
                },
                ..self
            },
            _ => self,
        }
    }

    /// Whether `command` means something on the settings screen. Each such
    /// command clicks.
    pub open spec fn settings_click(command: Option<Command>) -> bool {
        command == Some(Command::ReturnToMenu) || command == Some(Command::CycleFlapVelocity)
            || command == Some(Command::CycleMinGap) || command == Some(Command::CycleVolume)
    }

    /// The sounds of one frame of the settings screen: a click at the volume
    /// that the frame leaves behind.
    pub open spec fn settings_sounds(self, command: Option<Command>) -> Seq<SoundCue> {
        if StateView::settings_click(command) {
            seq![SoundCue {
                sound: Sound::SettingClick,
                volume: self.settings_step(command).settings.volume,
            }]
        } else {
            Seq::empty()
        }
    }

    /// One frame, whatever the screen.
    pub open spec fn tick_step(self, key: Option<Key>, elapsed: u64, draws: Draws) -> StateView {
        let command = command_for(self.mode, key);
        match self.mode {
            GameMode::Menu | GameMode::End => self.menu_step(command, draws.gap_center_y),
            GameMode::Playing | GameMode::Paused => self.play_step(command, elapsed, draws),
            GameMode::Settings => self.settings_step(command),
        }
    }

    /// What one frame hands to the front end, whatever the screen.
    pub open spec fn tick_frame(self, key: Option<Key>, elapsed: u64, draws: Draws) -> FrameView {
        let command = command_for(self.mode, key);
        match self.mode {
            GameMode::Menu | GameMode::End => self.still_frame(
                self.mode,
                command == Some(Command::Quit),
                Seq::empty(),
            ),
            GameMode::Playing | GameMode::Paused => self.play_frame(command, elapsed, draws),
            GameMode::Settings => self.settings_step(command).still_frame(
                GameMode::Settings,
                false,
                self.settings_sounds(command),
            ),
        }
    }

    /// Whether a frame draws the centre of a gap.
    pub open spec fn tick_rolls(self, key: Option<Key>, elapsed: u64) -> bool {
        let command = command_for(self.mode, key);
        match self.mode {
            GameMode::Menu | GameMode::End => command == Some(Command::Play),
            GameMode::Playing => self.shown(command, elapsed).passed(),
            _ => false,
        }
    }

    /// Whether a frame picks an encouragement.
    pub open spec fn tick_cheers(self, key: Option<Key>, elapsed: u64) -> bool {
        self.mode == GameMode::Playing && self.shown(
            command_for(self.mode, key),
            elapsed,
        ).counted_down().cheered()
    }

    /// Whether a frame picks a line for a crash.
    pub open spec fn tick_crashes(self, key: Option<Key>, elapsed: u64, draws: Draws) -> bool {
        self.mode == GameMode::Playing && self.played(
            command_for(self.mode, key),
            elapsed,
            draws,
        ).dead()
    }

    /// The states that the game gets into: settings on offer, a score and a
    /// countdown in range, a fall no faster than the terminal velocity, a well-formed wall that is no narrower than the
    /// minimum while a game is on, and texts from the pools wherever one
    /// shows.
    pub open spec fn well_formed(self) -> bool {
        &&& self.settings.valid()
        &&& self.score >= 0
        &&& 0 <= self.encouragement_delay_cnt <= ENCOURAGEMENT_DELAY_START
        &&& self.encouragement_delay_cnt > 0 ==> is_encouragement(self.current_encouragement)
        &&& self.mode == GameMode::End ==> is_dead_screen_message(self.dead_screen_msg)
        &&& self.frame_time <= FRAME_DURATION
        &&& self.player.y >= 0
        &&& self.player.velocity <= crate::player::TERMINAL_VELOCITY
        &&& self.player.current_frame < crate::player::DRAGON_FRAMES
        &&& self.obstacle.well_formed()
        &&& (self.mode == GameMode::Playing || self.mode == GameMode::Paused || self.mode
            == GameMode::End) ==> self.obstacle.size >= self.settings.min_gap_size
    }
}

impl State {
    /// What chance has left in this state: the centre of the gap of the
    /// wall and the two texts.
    pub open spec fn draws(&self) -> Draws {
        Draws {
            gap_center_y: self.obstacle.gap_center_y,
            encouragement: self.current_encouragement@,
            dead_screen_msg: self.dead_screen_msg@,
        }
    }

    /// The state in which the program starts: the title screen, a player at
    /// rest, the default settings and a first wall one screen width away.
    pub fn new() -> (state: State)
        ensures
            state@ == StateView::initial(state.obstacle.gap_center_y),
            state.obstacle.centered_in_band(),
            state@.well_formed(),
    {
        State {
            mode: GameMode::Menu,
            player: Player::new(START_X, START_Y),
            frame_time: 0,
            score: 0,
            settings: Settings::default(),
            obstacle: Obstacle::new(SCREEN_WIDTH, 0, FIRST_MIN_GAP),
            dev_toggle: false,
            encouragement_delay_cnt: 0,
            current_encouragement: String::new(),
            dead_screen_msg: String::new(),
        }
    }

    /// Starts a new game: the player goes back to the start, clock, score
    /// and countdown go back to zero, and a new wall is put up.
    pub fn restart(&mut self)
        ensures
            final(self)@ == old(self)@.restarted(final(self).obstacle.gap_center_y),
            final(self).obstacle.centered_in_band(),
            old(self)@.settings.valid() ==> final(self)@.well_formed(),
    {
        self.player = Player::new(START_X, START_Y);
        self.frame_time = 0;
        self.obstacle = Obstacle::new(SCREEN_WIDTH, 0, self.settings.min_gap_size);
        self.mode = GameMode::Playing;
        self.score = 0;
        self.encouragement_delay_cnt = 0;
    }

    /// A frame that shows `screen` as the state stands.
    fn still(&self, screen: GameMode, quit: bool, sounds: Vec<SoundCue>) -> (frame: Frame)
        ensures
            frame@ == self@.still_frame(screen, quit, sounds@),
    {
        Frame {
            screen,
            quit,
            sounds,
            score: self.score,
            obstacle: self.obstacle,
            encouragement: None,
            pause_banner: false,
            crashed: false,
        }
    }

    /// One frame of the title screen: a new game, the settings screen, or
    /// the way out.
    pub fn main_menu(&mut self, command: Option<Command>) -> (frame: Frame)
        ensures
            final(self)@ == old(self)@.menu_step(command, final(self).obstacle.gap_center_y),
            frame@ == old(self)@.still_frame(
                GameMode::Menu,
                command == Some(Command::Quit),
                Seq::empty(),
            ),
            command == Some(Command::Play) ==> final(self).obstacle.centered_in_band(),
            old(self)@.well_formed() ==> final(self)@.well_formed(),
    {
        let mut frame = self.still(GameMode::Menu, false, Vec::new());
        match command {
            Some(Command::Play) => self.restart(),
            Some(Command::Quit) => {
                frame.quit = true;
            },
            Some(Command::OpenSettings) => {
                self.mode = GameMode::Settings;
            },
            _ => {},
        }
        frame
    }

    /// One frame of the screen after a crash: a new game, the settings
    /// screen, or the way out.
    pub fn dead(&mut self, command: Option<Command>) -> (frame: Frame)
        ensures
            final(self)@ == old(self)@.menu_step(command, final(self).obstacle.gap_center_y),
            frame@ == old(self)@.still_frame(
                GameMode::End,
                command == Some(Command::Quit),
                Seq::empty(),
            ),
            command == Some(Command::Play) ==> final(self).obstacle.centered_in_band(),
            old(self)@.well_formed() ==> final(self)@.well_formed(),
    {
        let mut frame = self.still(GameMode::End, false, Vec::new());
        match command {
            Some(Command::Play) => self.restart(),
            Some(Command::Quit) => {
                frame.quit = true;
            },
            Some(Command::OpenSettings) => {
                self.mode = GameMode::Settings;
            },
            _ => {},
        }
        frame
    }

    /// One frame of the settings screen: back to the title screen, or one
    /// step of one setting. Each of these clicks.
    pub fn settings_menu(&mut self, command: Option<Command>) -> (frame: Frame)
        ensures
            final(self)@ == old(self)@.settings_step(command),
            frame@ == final(self)@.still_frame(
                GameMode::Settings,
                false,
                old(self)@.settings_sounds(command),
            ),
            old(self)@.well_formed() && old(self).mode == GameMode::Settings
                ==> final(self)@.well_formed(),
    {
        let mut sounds: Vec<SoundCue> = Vec::new();
        match command {
            Some(Command::ReturnToMenu) => {
                self.mode = GameMode::Menu;
                sounds.push(SoundCue::new(Sound::SettingClick, self.settings.volume));
            },
            Some(Command::CycleFlapVelocity) => {
                self.settings.cycle_flap_velocity();
                sounds.push(SoundCue::new(Sound::SettingClick, self.settings.volume));
            },
            Some(Command::CycleMinGap) => {
                self.settings.cycle_min_gap_size();
                sounds.push(SoundCue::new(Sound::SettingClick, self.settings.volume));
            },
            Some(Command::CycleVolume) => {
                self.settings.cycle_volume();
                sounds.push(SoundCue::new(Sound::SettingClick, self.settings.volume));
            },
            _ => {},
        }
        self.still(GameMode::Settings, false, sounds)
    }

    /// Lets the clock run on by `elapsed` microseconds.
    fn run_clock(&mut self, elapsed: u64)
        ensures
            final(self)@ == old(self)@.clocked(elapsed),
    {
        self.frame_time = self.frame_time.saturating_add(elapsed);
        if self.frame_time > FRAME_DURATION {
            self.frame_time = 0;
            self.player.gravity_and_move();
        }
    }

    /// Carries out the command of a running game. Returns the cue for the
    /// wings where the command was a flap.
    fn obey(&mut self, command: Option<Command>) -> (cue: Option<SoundCue>)
        ensures
            final(self)@ == old(self)@.commanded(command),
            cue == if command == Some(Command::Flap) {
                Some(SoundCue { sound: Sound::Flap, volume: old(self).settings.volume })
            } else {
                None
            },
    {
        match command {
            Some(Command::Flap) => {
                let cue = self.player.flap(self.settings.flap_velocity, self.settings.volume);
                Some(cue)
            },
            Some(Command::ToggleDevOverlay) => {
                self.dev_toggle = !self.dev_toggle;
                None
            },
            Some(Command::Pause) => {
                self.mode = GameMode::Paused;
                None
            },
            _ => None,
        }
    }

    /// Counts the encouragement down. Returns the encouragement that shows
    /// in this frame, if one does.
    fn count_down(&mut self) -> (line: Option<String>)
        ensures
            final(self)@ == old(self)@.counted_down(),
            match line {
                Some(text) => old(self).encouragement_delay_cnt > 0 && text@ == old(
                    self,
                ).current_encouragement@,
                None => old(self).encouragement_delay_cnt <= 0,
            },
    {
        if self.encouragement_delay_cnt > 0 {
            let line = self.current_encouragement.clone();
            self.encouragement_delay_cnt = self.encouragement_delay_cnt - 1;
            Some(line)
        } else {
            None
        }
    }

    /// Scores a point if the player is past the wall, and puts up the next
    /// wall. Returns whether a point was scored and whether it brought an
    /// encouragement.
    fn score_point(&mut self) -> (events: (bool, bool))
        ensures
            final(self)@ == old(self)@.scored(
                final(self).obstacle.gap_center_y,
                final(self).current_encouragement@,
            ),
            events.0 == old(self)@.passed(),
            events.1 == old(self)@.cheered(),
            events.0 ==> final(self).obstacle.centered_in_band(),
            events.1 ==> is_encouragement(final(self).current_encouragement@),
    {
        if self.player.x > self.obstacle.x {
            let mut cheered = false;
            if self.score < i32::MAX {
                self.score = self.score + 1;
            }
            if self.score % ENCOURAGEMENT_EVERY == 0 {
                match pick_encouragement() {
                    Some(saying) => {
                        self.current_encouragement = saying.to_owned();
                        self.encouragement_delay_cnt = ENCOURAGEMENT_DELAY_START;
                        cheered = true;
                    },
                    None => {},
                }
            }
            let ahead: i32 = if self.player.x > i32::MAX - SCREEN_WIDTH {
                i32::MAX
            } else {
                self.player.x + SCREEN_WIDTH
            };
            self.obstacle = Obstacle::new(ahead, self.score, self.settings.min_gap_size);
            (true, cheered)
        } else {
            (false, false)
        }
    }

    /// Ends the game if the player is dead. Returns whether it is.
    fn judge(&mut self) -> (crashed: bool)
        ensures
            final(self)@ == old(self)@.judged(final(self).dead_screen_msg@),
            crashed == old(self)@.dead(),
            crashed ==> is_dead_screen_message(final(self).dead_screen_msg@),
    {
        if self.player.y > SCREEN_HEIGHT || self.obstacle.hit_obstacle(&self.player) {
            self.mode = GameMode::End;
            match pick_dead_screen_message() {
                Some(saying) => {
                    self.dead_screen_msg = saying.to_owned();
                },
                None => {},
            }
            true
        } else {
            false
        }
    }

    /// One frame of a game. A game on hold only waits for the command that
    /// takes it up again. A running game lets the clock run on, carries out
    /// the command, counts the encouragement down, scores a point for a wall
    /// that has been passed and puts up the next one, and ends when the
    /// player is below the screen or in the wall.
    pub fn play(&mut self, command: Option<Command>, elapsed: u64) -> (frame: Frame)
        ensures
            final(self)@ == old(self)@.play_step(command, elapsed, final(self).draws()),
            frame@ == old(self)@.play_frame(command, elapsed, final(self).draws()),
            old(self).mode != GameMode::Paused && old(self)@.shown(command, elapsed).passed()
                ==> final(self).obstacle.centered_in_band(),
            old(self).mode != GameMode::Paused && old(self)@.shown(
                command,
                elapsed,
            ).counted_down().cheered() ==> is_encouragement(final(self).current_encouragement@),
            old(self).mode != GameMode::Paused && old(self)@.played(
                command,
                elapsed,
                final(self).draws(),
            ).dead() ==> is_dead_screen_message(final(self).dead_screen_msg@),
            old(self)@.well_formed() && (old(self).mode == GameMode::Playing || old(self).mode
                == GameMode::Paused) ==> final(self)@.well_formed(),
    {
        if self.mode == GameMode::Paused {
            if command == Some(Command::Pause) {
                self.mode = GameMode::Playing;
            }
            return self.still(GameMode::Paused, false, Vec::new());
        }
        let volume: i32 = self.settings.volume;
        let mut sounds: Vec<SoundCue> = Vec::new();

        self.run_clock(elapsed);
        match self.obey(command) {
            Some(cue) => {
                sounds.push(cue);
            },
            None => {},
        }
        let pause_banner = command == Some(Command::Pause);
        let score: i32 = self.score;
        let obstacle = self.obstacle;
        let encouragement = self.count_down();

        let (passed, cheered) = self.score_point();
        if passed {
            sounds.push(SoundCue::new(Sound::Bell, volume));
        }
        if cheered {
            sounds.push(SoundCue::new(Sound::Encouragement, volume));
        }
        let crashed = self.judge();
        if crashed {
            sounds.push(SoundCue::new(Sound::Splat, volume));
        }
        proof {
            let draws = self.draws();
            let shown = old(self)@.shown(command, elapsed);
            let counted = shown.counted_down();
            assert(counted.scored(draws.gap_center_y, draws.encouragement) == old(self)@.played(
                command,
                elapsed,
                draws,
            ));
            assert(sounds@ =~= old(self)@.play_sounds(command, elapsed, draws));
            if old(self)@.well_formed() && old(self).mode == GameMode::Playing {
                lemma_play_keeps_well_formed(old(self)@, command, elapsed, draws);
            }
        }
        Frame {
            screen: GameMode::Playing,
            quit: false,
            sounds,
            score,
            obstacle,
            encouragement,
            pause_banner,
            crashed,
        }
    }

    /// One displayed frame: the key, if one was pressed, is read as the
    /// command that it stands for on the active screen, and the screen takes
    /// its step. `elapsed` is the time since the frame before, in
    /// microseconds.
    pub fn tick(&mut self, key: Option<Key>, elapsed: u64) -> (frame: Frame)
        ensures
            final(self)@ == old(self)@.tick_step(key, elapsed, final(self).draws()),
            frame@ == old(self)@.tick_frame(key, elapsed, final(self).draws()),
            old(self)@.tick_rolls(key, elapsed) ==> final(self).obstacle.centered_in_band(),
            old(self)@.tick_cheers(key, elapsed) ==> is_encouragement(
                final(self).current_encouragement@,
            ),
            old(self)@.tick_crashes(key, elapsed, final(self).draws()) ==> is_dead_screen_message(
                final(self).dead_screen_msg@,
            ),
            old(self)@.well_formed() ==> final(self)@.well_formed(),
    {
        let command = command_of(self.mode, key);
        match self.mode {
            GameMode::Menu => self.main_menu(command),
            GameMode::End => self.dead(command),
            GameMode::Playing | GameMode::Paused => self.play(command, elapsed),
            GameMode::Settings => self.settings_menu(command),
        }
    }
}

} // verus!
