use flappy_dragon::input::{command_of, Command, GameMode, Key};
use flappy_dragon::messages::{
    pick_dead_screen_message, pick_encouragement, DEAD_SCREEN_MESSAGE, ENCOURAGEMENT_LIST,
};
use flappy_dragon::settings::Settings;

#[test]
fn default_settings() {
    let s = Settings::default();
    assert_eq!(s, Settings { flap_velocity: -20, min_gap_size: 5, volume: 5 });
}

#[test]
fn flap_velocity_cycles_and_wraps() {
    let mut s = Settings::default();
    let mut seen = Vec::new();
    for _ in 0..8 {
        s.cycle_flap_velocity();
        seen.push(s.flap_velocity);
        assert_eq!(s.min_gap_size, 5);
        assert_eq!(s.volume, 5);
    }
    assert_eq!(seen, vec![-25, -30, -35, -40, -15, -20, -25, -30]);
}

#[test]
fn flap_velocity_wraps_from_anywhere_beyond_the_strongest() {
    for v in [-36, -37, -40, -41, -1000, i32::MIN, i32::MIN + 4, i32::MIN + 5] {
        let mut s = Settings { flap_velocity: v, min_gap_size: 5, volume: 5 };
        s.cycle_flap_velocity();
        assert_eq!(s.flap_velocity, -15, "from {}", v);
    }
    let mut s = Settings { flap_velocity: -35, min_gap_size: 5, volume: 5 };
    s.cycle_flap_velocity();
    assert_eq!(s.flap_velocity, -40);
    let mut s = Settings { flap_velocity: 100, min_gap_size: 5, volume: 5 };
    s.cycle_flap_velocity();
    assert_eq!(s.flap_velocity, 95);
    let mut s = Settings { flap_velocity: i32::MAX, min_gap_size: 5, volume: 5 };
    s.cycle_flap_velocity();
    assert_eq!(s.flap_velocity, i32::MAX - 5);
}

#[test]
fn min_gap_cycles_and_wraps_to_one() {
    let mut s = Settings::default();
    let mut seen = Vec::new();
    for _ in 0..12 {
        s.cycle_min_gap_size();
        seen.push(s.min_gap_size);
        assert_eq!(s.flap_velocity, -20);
        assert_eq!(s.volume, 5);
    }
    assert_eq!(seen, vec![6, 7, 8, 9, 10, 1, 2, 3, 4, 5, 6, 7]);
    let mut s = Settings { flap_velocity: -20, min_gap_size: i32::MAX, volume: 5 };
    s.cycle_min_gap_size();
    assert_eq!(s.min_gap_size, 1);
    let mut s = Settings { flap_velocity: -20, min_gap_size: -7, volume: 5 };
    s.cycle_min_gap_size();
    assert_eq!(s.min_gap_size, -6);
}

#[test]
fn volume_cycles_and_wraps_to_zero() {
    let mut s = Settings::default();
    let mut seen = Vec::new();
    for _ in 0..13 {
        s.cycle_volume();
        seen.push(s.volume);
        assert_eq!(s.flap_velocity, -20);
        assert_eq!(s.min_gap_size, 5);
    }
    assert_eq!(seen, vec![6, 7, 8, 9, 10, 0, 1, 2, 3, 4, 5, 6, 7]);
    let mut s = Settings { flap_velocity: -20, min_gap_size: 5, volume: i32::MAX };
    s.cycle_volume();
    assert_eq!(s.volume, 0);
}

#[test]
fn encouragements_come_from_the_pool() {
    let mut seen = std::collections::BTreeSet::new();
    for _ in 0..300 {
        let pick = pick_encouragement();
        let text = pick.expect("the pool is not empty");
        assert!(!text.is_empty());
        assert!(ENCOURAGEMENT_LIST.contains(&text));
        seen.insert(text);
    }
    assert!(seen.len() >= 2);
}

#[test]
fn dead_screen_messages_come_from_the_pool() {
    let mut seen = std::collections::BTreeSet::new();
    for _ in 0..300 {
        let pick = pick_dead_screen_message();
        let text = pick.expect("the pool is not empty");
        assert!(!text.is_empty());
        assert!(DEAD_SCREEN_MESSAGE.contains(&text));
        seen.insert(text);
    }
    assert!(seen.len() >= 2);
}

#[test]
fn pools_hold_five_lines_each() {
    assert_eq!(ENCOURAGEMENT_LIST.len(), 5);
    assert_eq!(DEAD_SCREEN_MESSAGE.len(), 5);
    assert_eq!(ENCOURAGEMENT_LIST[0], "AMAZING!");
    assert_eq!(ENCOURAGEMENT_LIST[4], "FRANTIC FLYING!");
    assert_eq!(DEAD_SCREEN_MESSAGE[4], "AH THE SATISFYING SOUND OF \"SPLAT\"");
}

#[test]
fn key_bindings_per_screen() {
    let all = [
        Key::Space, Key::D, Key::F, Key::G, Key::M, Key::P, Key::Q, Key::S, Key::V, Key::Other,
    ];
    for mode in [GameMode::Menu, GameMode::End] {
        for key in all {
            let expected = match key {
                Key::P => Some(Command::Play),
                Key::Q => Some(Command::Quit),
                Key::S => Some(Command::OpenSettings),
                _ => None,
            };
            assert_eq!(command_of(mode, Some(key)), expected);
        }
    }
    for key in all {
        let expected = match key {
            Key::Space => Some(Command::Flap),
            Key::D => Some(Command::ToggleDevOverlay),
            Key::P => Some(Command::Pause),
            _ => None,
        };
        assert_eq!(command_of(GameMode::Playing, Some(key)), expected);
        let expected = match key {
            Key::P => Some(Command::Pause),
            _ => None,
        };
        assert_eq!(command_of(GameMode::Paused, Some(key)), expected);
        let expected = match key {
            Key::M => Some(Command::ReturnToMenu),
            Key::F => Some(Command::CycleFlapVelocity),
            Key::G => Some(Command::CycleMinGap),
            Key::V => Some(Command::CycleVolume),
            _ => None,
        };
        assert_eq!(command_of(GameMode::Settings, Some(key)), expected);
    }
    for mode in [
        GameMode::Menu, GameMode::Playing, GameMode::End, GameMode::Settings, GameMode::Paused,
    ] {
        assert_eq!(command_of(mode, None), None);
    }
}
