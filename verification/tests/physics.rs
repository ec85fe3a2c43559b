use flappy_dragon::obstacle::Obstacle;
use flappy_dragon::player::{Player, DRAGON_FRAMES, GRAVITY, TERMINAL_VELOCITY};
use flappy_dragon::sound::{Sound, SoundCue};

#[test]
fn new_player_is_at_rest() {
    let p = Player::new(5, 25);
    assert_eq!(p, Player { x: 5, y: 25, velocity: 0, current_frame: 0 });
}

#[test]
fn velocity_grows_by_gravity_until_terminal() {
    let mut p = Player::new(5, 25);
    let mut expected: i32 = 0;
    for _ in 0..10 {
        p.gravity_and_move();
        expected += GRAVITY;
        assert_eq!(p.velocity, expected);
    }
    assert_eq!(p.velocity, TERMINAL_VELOCITY);
    for _ in 0..1000 {
        p.gravity_and_move();
        assert_eq!(p.velocity, TERMINAL_VELOCITY);
    }
}

#[test]
fn fall_from_rest_moves_by_whole_rows() {
    // Velocities 0.2 .. 2.0 rows per tick carry 0,0,0,0,1,1,1,1,1,2 whole rows.
    let mut p = Player::new(5, 25);
    let rows = [0, 0, 0, 0, 1, 1, 1, 1, 1, 2, 2, 2];
    let mut y = 25;
    for (i, r) in rows.iter().enumerate() {
        p.gravity_and_move();
        y += r;
        assert_eq!(p.y, y, "tick {}", i + 1);
        assert_eq!(p.x, 5 + i as i32 + 1);
    }
}

#[test]
fn rising_velocity_rounds_towards_zero() {
    let mut p = Player { x: 0, y: 30, velocity: -21, current_frame: 0 };
    p.gravity_and_move();
    assert_eq!(p.velocity, -19);
    assert_eq!(p.y, 29);
    let mut q = Player { x: 0, y: 30, velocity: -11, current_frame: 0 };
    q.gravity_and_move();
    assert_eq!(q.velocity, -9);
    assert_eq!(q.y, 30);
    let mut r = Player { x: 0, y: 30, velocity: -22, current_frame: 0 };
    r.gravity_and_move();
    assert_eq!(r.velocity, -20);
    assert_eq!(r.y, 28);
}

#[test]
fn player_never_leaves_the_screen_at_the_top() {
    let mut p = Player { x: 0, y: 1, velocity: -40, current_frame: 0 };
    p.gravity_and_move();
    assert_eq!(p.velocity, -38);
    assert_eq!(p.y, 0);
    p.gravity_and_move();
    assert_eq!(p.y, 0);
}

#[test]
fn odd_velocity_stops_at_terminal() {
    let mut p = Player { x: 0, y: 0, velocity: -15, current_frame: 0 };
    for _ in 0..17 {
        p.gravity_and_move();
    }
    assert_eq!(p.velocity, 19);
    p.gravity_and_move();
    assert_eq!(p.velocity, 20);
    p.gravity_and_move();
    assert_eq!(p.velocity, 20);
}

#[test]
fn no_flap_on_offer_leads_beyond_terminal() {
    for flap in [-15, -20, -25, -30, -35, -40] {
        let mut p = Player::new(5, 25);
        p.flap(flap, 5);
        let mut last = flap;
        for _ in 0..100 {
            p.gravity_and_move();
            assert!(p.velocity <= TERMINAL_VELOCITY);
            assert!(p.velocity >= last);
            assert!(p.velocity - last <= GRAVITY);
            last = p.velocity;
        }
        assert_eq!(p.velocity, TERMINAL_VELOCITY);
    }
}

#[test]
fn velocity_above_terminal_is_kept() {
    let mut p = Player { x: 0, y: 0, velocity: 57, current_frame: 0 };
    p.gravity_and_move();
    assert_eq!(p.velocity, 57);
    assert_eq!(p.y, 5);
}

#[test]
fn animation_cycles_through_five_pictures() {
    let mut p = Player::new(0, 0);
    let mut seen = Vec::new();
    for _ in 0..10 {
        p.gravity_and_move();
        seen.push(p.current_frame);
    }
    assert_eq!(seen, vec![1, 2, 3, 4, 0, 1, 2, 3, 4, 0]);
    let mut q = Player { x: 0, y: 0, velocity: 0, current_frame: usize::MAX };
    q.gravity_and_move();
    assert!(q.current_frame < DRAGON_FRAMES);
    assert_eq!(q.current_frame, ((usize::MAX % 5) + 1) % 5);
}

#[test]
fn positions_saturate_at_the_largest_number() {
    let mut p = Player { x: i32::MAX, y: i32::MAX, velocity: 20, current_frame: 0 };
    p.gravity_and_move();
    assert_eq!(p.x, i32::MAX);
    assert_eq!(p.y, i32::MAX);
    let mut q = Player { x: i32::MAX - 1, y: i32::MIN, velocity: i32::MIN, current_frame: 0 };
    q.gravity_and_move();
    assert_eq!(q.x, i32::MAX);
    assert_eq!(q.y, 0);
    assert_eq!(q.velocity, i32::MIN + 2);
}

#[test]
fn flap_overwrites_velocity() {
    let mut p = Player { x: 7, y: 9, velocity: 20, current_frame: 3 };
    let cue = p.flap(-20, 5);
    assert_eq!(p, Player { x: 7, y: 9, velocity: -20, current_frame: 3 });
    assert_eq!(cue, SoundCue { sound: Sound::Flap, volume: 5 });
    let cue = p.flap(-35, 0);
    assert_eq!(p.velocity, -35);
    assert_eq!(cue.volume, 0);
    let mut q = Player { x: 7, y: 9, velocity: -4, current_frame: 3 };
    q.flap(-35, 0);
    assert_eq!(p, q);
}

#[test]
fn gap_size_shrinks_with_score_down_to_minimum() {
    assert_eq!(Obstacle::with_gap_center(80, 25, 0, 2).size, 20);
    assert_eq!(Obstacle::with_gap_center(80, 25, 2, 2).size, 18);
    assert_eq!(Obstacle::with_gap_center(80, 25, 25, 2).size, 2);
    assert_eq!(Obstacle::with_gap_center(80, 25, 18, 2).size, 2);
    assert_eq!(Obstacle::with_gap_center(80, 25, 17, 2).size, 3);
    assert_eq!(Obstacle::with_gap_center(80, 25, 10, 10).size, 10);
    assert_eq!(Obstacle::with_gap_center(80, 25, 9, 10).size, 11);
    for s in 0..100 {
        for m in 1..=10 {
            let o = Obstacle::with_gap_center(3, 12, s, m);
            assert_eq!(o.size, std::cmp::max(m, 20 - s));
            assert_eq!(o.x, 3);
            assert_eq!(o.gap_center_y, 12);
        }
    }
}

#[test]
fn gap_size_for_scores_below_zero() {
    assert_eq!(Obstacle::with_gap_center(0, 0, -5, 2).size, 25);
    assert_eq!(Obstacle::with_gap_center(0, 0, i32::MIN, 2).size, i32::MAX);
    assert_eq!(Obstacle::with_gap_center(0, 0, 20 - i32::MAX, 2).size, i32::MAX);
    assert_eq!(Obstacle::with_gap_center(0, 0, 19 - i32::MAX, 2).size, i32::MAX);
    assert_eq!(Obstacle::with_gap_center(0, 0, 21 - i32::MAX, 2).size, i32::MAX - 1);
    assert_eq!(Obstacle::with_gap_center(0, 0, i32::MAX, i32::MIN).size, 20 - i32::MAX);
}

#[test]
fn new_obstacle_draws_center_from_band() {
    let mut seen = std::collections::BTreeSet::new();
    for i in 0..400 {
        let o = Obstacle::new(80 + i, 3, 2);
        assert_eq!(o.x, 80 + i);
        assert_eq!(o.size, 17);
        assert!(10 <= o.gap_center_y && o.gap_center_y < 40, "{}", o.gap_center_y);
        seen.insert(o.gap_center_y);
    }
    assert!(seen.len() > 5);
}

#[test]
fn collision_examples() {
    let o = Obstacle { x: 50, gap_center_y: 25, size: 10 };
    let at = |x: i32, y: i32| Player { x, y, velocity: 0, current_frame: 0 };
    assert!(o.hit_obstacle(&at(50, 19)));
    assert!(!o.hit_obstacle(&at(50, 20)));
    assert!(!o.hit_obstacle(&at(50, 25)));
    assert!(!o.hit_obstacle(&at(50, 30)));
    assert!(o.hit_obstacle(&at(50, 31)));
    assert!(o.hit_obstacle(&at(50, 0)));
    assert!(o.hit_obstacle(&at(50, 49)));
}

#[test]
fn no_collision_off_the_column() {
    let o = Obstacle { x: 50, gap_center_y: 25, size: 10 };
    for x in [49, 51, 0, -50, i32::MAX, i32::MIN] {
        for y in [-5, 0, 19, 20, 25, 30, 31, 60, i32::MAX, i32::MIN] {
            let p = Player { x, y, velocity: 0, current_frame: 0 };
            assert!(!o.hit_obstacle(&p));
        }
    }
}

#[test]
fn collision_with_odd_and_extreme_gaps() {
    let at = |x: i32, y: i32| Player { x, y, velocity: 0, current_frame: 0 };
    let odd = Obstacle { x: 1, gap_center_y: 25, size: 5 };
    assert!(odd.hit_obstacle(&at(1, 22)));
    assert!(!odd.hit_obstacle(&at(1, 23)));
    assert!(!odd.hit_obstacle(&at(1, 27)));
    assert!(odd.hit_obstacle(&at(1, 28)));
    let negative = Obstacle { x: 1, gap_center_y: 25, size: -3 };
    // half of -3 is -1: the range from 26 to 24 holds no row
    assert!(negative.hit_obstacle(&at(1, 25)));
    assert!(negative.hit_obstacle(&at(1, 24)));
    assert!(negative.hit_obstacle(&at(1, 26)));
    let huge = Obstacle { x: 1, gap_center_y: i32::MAX, size: i32::MAX };
    assert!(!huge.hit_obstacle(&at(1, i32::MAX)));
    assert!(huge.hit_obstacle(&at(1, 0)));
    let low = Obstacle { x: 1, gap_center_y: i32::MIN, size: i32::MAX };
    assert!(!low.hit_obstacle(&at(1, i32::MIN)));
    assert!(low.hit_obstacle(&at(1, 0)));
}

#[test]
fn wall_rows_and_screen_column() {
    let o = Obstacle { x: 85, gap_center_y: 25, size: 10 };
    assert_eq!(o.screen_x(5), 80);
    assert_eq!(o.screen_x(85), 0);
    assert_eq!(o.screen_x(90), -5);
    let far = Obstacle { x: i32::MAX, gap_center_y: 25, size: 10 };
    assert_eq!(far.screen_x(i32::MIN), i32::MAX as i64 - i32::MIN as i64);
    assert!(o.is_wall(0));
    assert!(o.is_wall(19));
    assert!(!o.is_wall(20));
    assert!(!o.is_wall(29));
    assert!(o.is_wall(30));
    assert!(o.is_wall(49));
    let rows: Vec<i32> = (0..50).filter(|y| !o.is_wall(*y)).collect();
    assert_eq!(rows, (20..30).collect::<Vec<i32>>());
}

#[test]
fn sound_gains() {
    assert_eq!(SoundCue::new(Sound::Bell, 5).gain(), 750);
    assert_eq!(SoundCue::new(Sound::Flap, 5).gain(), 1500);
    assert_eq!(SoundCue::new(Sound::Splat, 5).gain(), 200);
    assert_eq!(SoundCue::new(Sound::SettingClick, 10).gain(), 400);
    assert_eq!(SoundCue::new(Sound::Encouragement, 10).gain(), 150);
    assert_eq!(SoundCue::new(Sound::Bell, 0).gain(), 0);
    assert_eq!(SoundCue::new(Sound::Flap, i32::MAX).gain(), 300 * i32::MAX as i64);
    assert_eq!(SoundCue::new(Sound::Flap, i32::MIN).gain(), 300 * i32::MIN as i64);
    assert_eq!(Sound::Bell.gain_per_level(), 150);
    assert_eq!(Sound::Flap.gain_per_level(), 300);
    assert_eq!(Sound::Splat.gain_per_level(), 40);
    assert_eq!(Sound::SettingClick.gain_per_level(), 40);
    assert_eq!(Sound::Encouragement.gain_per_level(), 15);
    // As fractions of full amplitude.
    assert!((SoundCue::new(Sound::Bell, 5).gain() as f32 / 1000.0 - 0.15 * 5.0).abs() < 1e-6);
}
