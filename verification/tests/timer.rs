use bigrace::config::CarStat;
use bigrace::game::level::{Level, LevelConfig, Rotation, Tile, TileType};
use bigrace::game::player::Player;
use bigrace::game::race::{play_level, start_level, will_drive, COUNTDOWN};
use bigrace::game::timer::{Countdown, Timer};
use bigrace::input::PlayerInput;
use bigrace::math::{Angle, Point};

const U: i64 = 1_000_000;

#[test]
fn new_timer_has_not_run() {
    let timer = Timer::new(6 * U);
    assert_eq!(timer.elapsed(), 0);
    assert_eq!(timer.time_left(), 6 * U);
    assert!(!timer.is_done());
}

#[test]
fn timer_is_done_when_the_wait_has_gone_by() {
    let mut timer = Timer::new(6 * U);
    assert!(!timer.update(5 * U));
    assert!(!timer.update(999_999));
    assert_eq!(timer.elapsed(), 5_999_999);
    assert_eq!(timer.time_left(), 1);
    assert!(timer.update(1));
    assert!(timer.is_done());
    assert_eq!(timer.time_left(), 0);
    assert!(timer.update(U));
    assert_eq!(timer.time_left(), -U);
}

#[test]
fn reset_keeps_the_rest_of_the_elapsed_time() {
    let mut timer = Timer::new(6 * U);
    timer.update(20 * U + 5);
    timer.reset();
    assert_eq!(timer.elapsed(), 2 * U + 5);
    assert!(!timer.is_done());
    timer.update(4 * U - 5);
    timer.reset();
    assert_eq!(timer.elapsed(), 0);
}

#[test]
fn reset_leaves_a_running_timer_alone() {
    let mut timer = Timer::new(6 * U);
    timer.update(2 * U);
    timer.reset();
    assert_eq!(timer.elapsed(), 2 * U);
    let mut timer = Timer::new(6 * U);
    timer.update(-3 * U);
    timer.reset();
    assert_eq!(timer.elapsed(), -3 * U);
}

#[test]
fn timer_is_held_at_the_bounds() {
    let mut timer = Timer::new(1);
    timer.update(i64::MAX);
    timer.update(i64::MAX);
    assert_eq!(timer.elapsed(), i64::MAX);
    let timer = Timer { elapsed: i64::MIN, wait: i64::MAX };
    assert_eq!(timer.time_left(), i64::MAX);
}

#[test]
fn countdown_counts_up_to_its_start() {
    let mut countdown = Countdown::new(4 * U);
    assert!(!countdown.finished());
    assert_eq!(countdown.time_left(), 4 * U);
    countdown.update(U + 500_000);
    assert_eq!(countdown.time_left(), 2_500_000);
    countdown.update(2 * U);
    assert_eq!(countdown.time_left(), 500_000);
    assert!(!countdown.finished());
    countdown.update(U);
    assert!(countdown.finished());
    assert_eq!(countdown.time_left(), 0);
}

#[test]
fn finished_countdown_stands_still() {
    let mut countdown = Countdown::new(4 * U);
    countdown.update(5 * U);
    assert_eq!(countdown.count, 5 * U);
    countdown.update(5 * U);
    assert_eq!(countdown.count, 5 * U);
    assert_eq!(countdown.time_left(), 0);
    let countdown = Countdown::new(0);
    assert!(countdown.finished());
}

fn track(tiles: Vec<Tile>) -> Level {
    Level::load(&LevelConfig {
        name: "ring".to_string(),
        background_path: String::new(),
        tiles_texture_path: String::new(),
        music_path: String::new(),
        starting_position: [3, 1],
        tiles,
    })
}

fn car() -> Player {
    Player::new(&CarStat {
        max_velocity: 5 * U,
        rotation_speed: 3 * U,
        acceleration: 2 * U,
        brake: 4 * U,
        hitbox_size: (4 * U, 4 * U),
    })
}

#[test]
fn race_starts_on_the_starting_cell_with_a_countdown() {
    let level = track(vec![]);
    let mut player = car();
    player.velocity = U;
    let countdown = start_level(&mut player, &level);
    assert_eq!(COUNTDOWN, 4 * U);
    assert_eq!(countdown.count, 0);
    assert_eq!(countdown.start, 4 * U);
    assert_eq!(player.position, Point::new(76 * U, 28 * U));
    assert_eq!(player.velocity, 0);
    assert_eq!(player.rotation, Angle::zero());
}

#[test]
fn nothing_moves_during_the_countdown() {
    let level = track(vec![]);
    let mut player = car();
    let mut countdown = start_level(&mut player, &level);
    let mut timer = Timer::new(6 * U);
    let input = PlayerInput { accelerate: Some(U), ..PlayerInput::default() };
    for frame in 1..4 {
        let crashed =
            play_level(&mut player, &level, &mut countdown, &mut timer, &input, U, Angle::zero());
        assert!(!crashed);
        assert_eq!(countdown.count, frame * U);
        assert_eq!(player.position, Point::new(76 * U, 28 * U));
        assert_eq!(player.velocity, 0);
        assert_eq!(timer.elapsed(), 0);
    }
}

#[test]
fn vehicle_and_clock_run_once_the_countdown_is_over() {
    let level = track(vec![]);
    let mut player = car();
    let mut countdown = start_level(&mut player, &level);
    let mut timer = Timer::new(6 * U);
    let input = PlayerInput { accelerate: Some(U), ..PlayerInput::default() };
    for _ in 0..3 {
        play_level(&mut player, &level, &mut countdown, &mut timer, &input, U, Angle::zero());
    }
    // the frame at which the countdown runs out is the first at which the vehicle moves
    let crashed =
        play_level(&mut player, &level, &mut countdown, &mut timer, &input, U, Angle::zero());
    assert!(!crashed);
    assert!(countdown.finished());
    assert_eq!(countdown.count, 4 * U);
    assert_eq!(player.position, Point::new(76 * U, 26 * U));
    assert_eq!(player.velocity, 1_960_000);
    assert_eq!(timer.elapsed(), U);
    play_level(&mut player, &level, &mut countdown, &mut timer, &input, U / 2, Angle::zero());
    assert_eq!(countdown.count, 4 * U);
    assert_eq!(player.position, Point::new(76 * U, 26 * U - 2_960_000));
    assert_eq!(timer.elapsed(), U + U / 2);
}

#[test]
fn clock_runs_while_the_vehicle_has_crashed() {
    let level = track(vec![Tile::new([3, 1], TileType::DiagBorder, Rotation::PiFois2)]);
    let mut player = car();
    let mut countdown = Countdown { count: 4 * U, start: 4 * U };
    let mut timer = Timer::new(6 * U);
    player.position = Point::new(78 * U, 30 * U);
    let input = PlayerInput { accelerate: Some(U), ..PlayerInput::default() };
    let crashed =
        play_level(&mut player, &level, &mut countdown, &mut timer, &input, U, Angle::zero());
    assert!(crashed);
    assert_eq!(player.position, Point::new(78 * U, 30 * U));
    assert_eq!(player.velocity, 0);
    assert_eq!(timer.elapsed(), U);
}

#[test]
fn vehicle_drives_once_the_countdown_is_over_and_it_has_not_crashed() {
    let level = track(vec![Tile::new([3, 1], TileType::DiagBorder, Rotation::PiFois2)]);
    let mut player = car();
    player.position = Point::new(90 * U, 42 * U);
    let counting = Countdown { count: U, start: 4 * U };
    assert!(!will_drive(&player, &level, &counting, U));
    assert!(!will_drive(&player, &level, &counting, 2_999_999));
    assert!(will_drive(&player, &level, &counting, 3 * U));
    let over = Countdown { count: 4 * U, start: 4 * U };
    assert!(will_drive(&player, &level, &over, 0));
    player.position = Point::new(78 * U, 30 * U);
    assert!(!will_drive(&player, &level, &over, U));
    assert!(!will_drive(&player, &level, &counting, U));
    assert_eq!(counting.count, U);
}

#[test]
fn frame_without_a_step_needs_no_heading() {
    let level = track(vec![]);
    let mut player = car();
    player.stat.max_velocity = -U;
    let mut countdown = start_level(&mut player, &level);
    let mut timer = Timer::new(6 * U);
    let input = PlayerInput { accelerate: Some(U), turn: Some(U), ..PlayerInput::default() };
    assert!(!will_drive(&player, &level, &countdown, U));
    let crashed =
        play_level(&mut player, &level, &mut countdown, &mut timer, &input, U, Angle::new(7, 8, 9));
    assert!(!crashed);
    assert_eq!(player.position, Point::new(76 * U, 28 * U));
    assert_eq!(player.rotation, Angle::zero());
    assert_eq!(timer.elapsed(), 0);
    assert_eq!(countdown.count, U);
}
