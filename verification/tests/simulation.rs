//! Tests for the paddle and ball state machines and the game manager.
//!
//! Coordinates are thousandths of a pixel and time is milliseconds, so the
//! field `{left: 0, right: 640, top: 40, bottom: 440}` in pixels is written
//! with each edge multiplied by 1000, and `dt = 0.1 s` is `100`.

use rand::SeedableRng;
use rusty_pong::ball::{Ball, BallState};
use rusty_pong::gamemanager::GameManager;
use rusty_pong::math::Vector2f;
use rusty_pong::paddle::{Paddle, PaddleDirection, PaddleSide, PaddleState};
use rusty_pong::rect::Rect;

fn field() -> Rect {
    Rect::new(0, 40_000, 640_000, 440_000)
}

fn moving_ball(x: i64, y: i64, hx: i64, hy: i64) -> Ball {
    Ball {
        position: Vector2f::new(x, y),
        bounds: field(),
        radius: 5_000,
        speed: 200_000,
        heading: Vector2f::new(hx, hy),
        state: BallState::Moving,
    }
}

#[test]
fn paddle_new_centered_and_idle() {
    let f = field();
    let left = Paddle::new(&f, PaddleSide::Left);
    assert_eq!((left.position.x, left.position.y), (25_000, 240_000));
    assert_eq!(left.state, PaddleState::Idle);
    assert_eq!(left.speed, 160_000);
    let right = Paddle::new(&f, PaddleSide::Right);
    assert_eq!((right.position.x, right.position.y), (615_000, 240_000));
}

#[test]
fn paddle_idle_does_not_move() {
    let f = field();
    let mut p = Paddle::new(&f, PaddleSide::Left);
    p.update(1000);
    assert_eq!(p.position.y, 240_000);
}

#[test]
fn paddle_moves_up_exactly_speed_times_dt() {
    // movePaddle(Up) then tick(dt = 1.0) at speed 160: the center drops by
    // exactly 160 pixels.
    let f = field();
    let mut p = Paddle::new(&f, PaddleSide::Left);
    p.move_up();
    p.update(1000);
    assert_eq!(p.position.y, 240_000 - 160_000);
}

#[test]
fn paddle_stays_in_field_whatever_the_input() {
    let f = field();
    let mut p = Paddle::new(&f, PaddleSide::Left);
    p.move_up();
    for _ in 0..10 {
        p.update(100_000);
        assert!(p.position.y >= f.top + 30_000);
        assert!(p.position.y <= f.bottom - 30_000);
    }
    assert_eq!(p.position.y, f.top + 30_000);
    p.move_down();
    for _ in 0..10 {
        p.update(100_000);
        assert!(p.position.y >= f.top + 30_000);
        assert!(p.position.y <= f.bottom - 30_000);
    }
    assert_eq!(p.position.y, f.bottom - 30_000);
}

#[test]
fn paddle_commands_are_idempotent() {
    let f = field();
    let mut p = Paddle::new(&f, PaddleSide::Right);
    p.move_up();
    p.move_up();
    assert_eq!(p.state, PaddleState::Moving(PaddleDirection::Up));
    p.stop_moving();
    p.stop_moving();
    assert_eq!(p.state, PaddleState::Idle);
}

#[test]
fn paddle_bounds_centered_on_position() {
    let f = field();
    let p = Paddle::new(&f, PaddleSide::Left);
    let b = p.get_bounds();
    assert_eq!((b.left, b.right), (20_000, 30_000));
    assert_eq!((b.top, b.bottom), (210_000, 270_000));
}

#[test]
fn idle_ball_does_not_move() {
    let mut b = moving_ball(320_000, 240_000, 1000, 0);
    b.stop_moving();
    b.tick(100);
    assert_eq!((b.position.x, b.position.y), (320_000, 240_000));
    b.start_moving();
    b.tick(100);
    assert_eq!(b.position.x, 340_000);
}

#[test]
fn ball_bounces_off_bottom_keeping_speed() {
    // Straight down into the bottom boundary: the heading's vertical sign
    // flips, the horizontal component is untouched, and the speed does not
    // change.
    let mut b = moving_ball(320_000, 430_000, 0, 1000);
    b.tick(100);
    assert_eq!(b.position.y, 450_000);
    assert_eq!((b.heading.x, b.heading.y), (0, -1000));
    assert_eq!(b.speed, 200_000);
}

#[test]
fn ball_bounces_off_top() {
    let mut b = moving_ball(320_000, 50_000, 0, -1000);
    b.tick(100);
    assert_eq!(b.position.y, 30_000);
    assert_eq!((b.heading.x, b.heading.y), (0, 1000));
    assert_eq!(b.speed, 200_000);
}

#[test]
fn ball_crossing_right_boundary_is_a_goal_for_the_left() {
    // Ball at the field center heading right at 200 px/s with dt = 0.1 s
    // repeated: x strictly increases until it passes right - radius, and
    // then the right side has conceded, so the left side scores.
    let mut b = moving_ball(320_000, 240_000, 1000, 0);
    let mut last_x = b.position.x;
    let mut goal = None;
    for _ in 0..100 {
        b.tick(100);
        assert!(b.position.x > last_x);
        last_x = b.position.x;
        goal = b.check_goal();
        if goal.is_some() {
            break;
        }
        assert!(b.position.x <= 640_000 - 5_000);
    }
    assert_eq!(goal, Some(PaddleSide::Right));
}

#[test]
fn ball_crossing_left_boundary_concedes_left() {
    let mut b = moving_ball(60_000, 100_000, -1000, 0);
    let mut goal = None;
    for _ in 0..100 {
        b.tick(100);
        goal = b.check_goal();
        if goal.is_some() {
            break;
        }
    }
    assert_eq!(goal, Some(PaddleSide::Left));
}

#[test]
fn ball_inside_field_is_no_goal() {
    let b = moving_ball(320_000, 240_000, 1000, 0);
    assert_eq!(b.check_goal(), None);
}

#[test]
fn paddle_hit_speeds_ball_up_by_exact_factor() {
    let f = field();
    let left = Paddle::new(&f, PaddleSide::Left);
    let right = Paddle::new(&f, PaddleSide::Right);
    // Overlapping the left paddle's right edge band, moving left.
    let mut b = moving_ball(32_000, 240_000, -800, 600);
    b.check_paddle_collisions(&left, &right);
    assert_eq!(b.speed, 210_000);
    assert_eq!((b.heading.x, b.heading.y), (800, 600));
    // Repositioned flush against the edge: one overlap resolves only once.
    assert_eq!(b.position.x, 35_000);
}

#[test]
fn ball_speed_monotone_across_repeated_hits() {
    let f = field();
    let left = Paddle::new(&f, PaddleSide::Left);
    let right = Paddle::new(&f, PaddleSide::Right);
    let mut speed = 200_000;
    let mut b = moving_ball(32_000, 240_000, -800, 600);
    for _ in 0..10 {
        // Put the ball back into the paddle's edge band, heading left.
        b.position = Vector2f::new(32_000, 240_000);
        b.heading = Vector2f::new(-800, 600);
        b.check_paddle_collisions(&left, &right);
        assert_eq!(b.speed, speed * 21 / 20);
        assert!(b.speed > speed);
        speed = b.speed;
    }
}

#[test]
fn paddle_hit_on_top_band_reflects_upward() {
    let f = field();
    let left = Paddle::new(&f, PaddleSide::Left);
    let right = Paddle::new(&f, PaddleSide::Right);
    let mut b = moving_ball(25_000, 212_000, 600, 800);
    b.check_paddle_collisions(&left, &right);
    assert_eq!((b.heading.x, b.heading.y), (600, -800));
    assert_eq!(b.position.y, 205_000);
}

#[test]
fn no_overlap_means_no_speedup() {
    let f = field();
    let left = Paddle::new(&f, PaddleSide::Left);
    let right = Paddle::new(&f, PaddleSide::Right);
    let mut b = moving_ball(320_000, 240_000, 1000, 0);
    b.check_paddle_collisions(&left, &right);
    assert_eq!(b.speed, 200_000);
    assert_eq!(b.position.x, 320_000);
}

#[test]
fn serve_heading_is_mostly_horizontal() {
    for seed in 0..64u64 {
        let gm = GameManager::new(field(), seed);
        let h = gm.ball.heading;
        assert!(h.x.abs() > 500, "seed {seed}: heading {h:?} too vertical");
        assert!(h.x.abs() <= 1000);
        assert!(h.y.abs() <= 1000);
    }
}

#[test]
fn drawn_serve_angles_pass_the_threshold() {
    for seed in 0..64u64 {
        let mut rng = rand::rngs::StdRng::seed_from_u64(seed);
        let d = Ball::generate_random_initial_ball_heading(&mut rng);
        assert!(d < 360);
        assert!(rusty_pong::math::cos_deg(d).abs() > 500);
    }
}

#[test]
fn same_seed_same_serve() {
    let a = GameManager::new(field(), 12345);
    let b = GameManager::new(field(), 12345);
    assert_eq!(a.ball.heading, b.ball.heading);
    assert_eq!(a.ball.position, b.ball.position);
}

#[test]
fn manager_new_state() {
    let gm = GameManager::new(field(), 7);
    assert_eq!(gm.get_score(PaddleSide::Left), 0);
    assert_eq!(gm.get_score(PaddleSide::Right), 0);
    assert_eq!(gm.get_field_bounds(), field());
    assert_eq!(gm.get_ball().state, BallState::Idle);
    assert_eq!(gm.get_ball().position, Vector2f::new(320_000, 240_000));
    assert_eq!(gm.get_paddle(PaddleSide::Left).position.x, 25_000);
    assert_eq!(gm.get_paddle(PaddleSide::Right).position.x, 615_000);
}

#[test]
fn manager_forwards_paddle_commands() {
    let mut gm = GameManager::new(field(), 7);
    gm.move_paddle(PaddleSide::Right, PaddleDirection::Down);
    assert_eq!(
        gm.get_paddle(PaddleSide::Right).state,
        PaddleState::Moving(PaddleDirection::Down)
    );
    assert_eq!(gm.get_paddle(PaddleSide::Left).state, PaddleState::Idle);
    gm.set_paddle_idle(PaddleSide::Right);
    assert_eq!(gm.get_paddle(PaddleSide::Right).state, PaddleState::Idle);
}

#[test]
fn manager_tick_moves_commanded_paddle_exactly() {
    // movePaddle(Up) then tick(dt = 1.0) with speed 160: the paddle's
    // center decreases by exactly 160 pixels, staying in bounds.
    let mut gm = GameManager::new(field(), 7);
    gm.move_paddle(PaddleSide::Left, PaddleDirection::Up);
    gm.tick(1000);
    assert_eq!(gm.get_paddle(PaddleSide::Left).position.y, 80_000);
    assert_eq!(gm.get_paddle(PaddleSide::Right).position.y, 240_000);
}

#[test]
fn manager_scores_and_resets_on_goal() {
    let mut gm = GameManager::new(field(), 7);
    // Send the ball rightwards above the paddles so nothing blocks it.
    gm.ball.position = Vector2f::new(320_000, 100_000);
    gm.ball.heading = Vector2f::new(1000, 0);
    gm.unpause();
    let mut ticks = 0;
    while gm.get_score(PaddleSide::Left) == 0 && ticks < 1000 {
        gm.tick(100);
        ticks += 1;
    }
    assert_eq!(gm.get_score(PaddleSide::Left), 1);
    assert_eq!(gm.get_score(PaddleSide::Right), 0);
    // The field was reset: fresh idle ball at the center, paddles recreated.
    assert_eq!(gm.get_ball().state, BallState::Idle);
    assert_eq!(gm.get_ball().position, Vector2f::new(320_000, 240_000));
    assert_eq!(gm.get_ball().speed, 200_000);
    assert_eq!(gm.get_paddle(PaddleSide::Left).position.y, 240_000);
}

#[test]
fn manager_add_and_get_score() {
    let mut gm = GameManager::new(field(), 7);
    gm.add_score(PaddleSide::Left, 5);
    gm.add_score(PaddleSide::Right, 3);
    gm.add_score(PaddleSide::Right, -1);
    assert_eq!(gm.get_score(PaddleSide::Left), 5);
    assert_eq!(gm.get_score(PaddleSide::Right), 2);
}

#[test]
fn reset_field_keeps_scores() {
    let mut gm = GameManager::new(field(), 7);
    gm.add_score(PaddleSide::Left, 2);
    gm.unpause();
    gm.tick(100);
    gm.reset_field();
    assert_eq!(gm.get_score(PaddleSide::Left), 2);
    assert_eq!(gm.get_ball().state, BallState::Idle);
    assert_eq!(gm.get_ball().position, Vector2f::new(320_000, 240_000));
}

#[test]
fn full_reset_clears_scores() {
    let mut gm = GameManager::new(field(), 7);
    gm.add_score(PaddleSide::Left, 2);
    gm.add_score(PaddleSide::Right, 9);
    gm.full_reset();
    assert_eq!(gm.get_score(PaddleSide::Left), 0);
    assert_eq!(gm.get_score(PaddleSide::Right), 0);
}

#[test]
fn unpause_starts_the_ball() {
    let mut gm = GameManager::new(field(), 7);
    assert_eq!(gm.get_ball().state, BallState::Idle);
    gm.unpause();
    assert_eq!(gm.get_ball().state, BallState::Moving);
}

#[test]
fn matches_replay_deterministically() {
    let script = |gm: &mut GameManager| {
        gm.unpause();
        gm.move_paddle(PaddleSide::Left, PaddleDirection::Up);
        for _ in 0..50 {
            gm.tick(16);
        }
        gm.move_paddle(PaddleSide::Right, PaddleDirection::Down);
        for _ in 0..50 {
            gm.tick(16);
        }
    };
    let mut a = GameManager::new(field(), 99);
    let mut b = GameManager::new(field(), 99);
    script(&mut a);
    script(&mut b);
    assert_eq!(a.ball.position, b.ball.position);
    assert_eq!(a.ball.heading, b.ball.heading);
    assert_eq!(a.ball.speed, b.ball.speed);
    assert_eq!(a.left_paddle.position, b.left_paddle.position);
    assert_eq!(a.right_paddle.position, b.right_paddle.position);
    assert_eq!(a.left_score, b.left_score);
    assert_eq!(a.right_score, b.right_score);
}
