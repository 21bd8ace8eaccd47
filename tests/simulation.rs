use ping::ball::{move_ball, Ball};
use ping::collision::{bounce, collides};
use ping::field::{
    BALL_SPEED, LEFT_PADDLE_X, PADDLE_MAX_MOVE, PADDLE_MIN_MOVE, RIGHT_PADDLE_X, UNIT,
};
use ping::game::Game;
use ping::geometry::{collide, travel, Position, Size, Velocity};
use ping::paddle::{is_held, Key, Paddle};
use ping::scoring::{decimal_string, score, show_score, Score};

fn ball_at(x: i64, y: i64, vx: i64, vy: i64) -> Ball {
    Ball { position: Position { x, y }, velocity: Velocity { x: vx, y: vy } }
}

fn left_paddle(y: i64) -> Paddle {
    Paddle { position: Position { x: LEFT_PADDLE_X, y }, up_key: Key::W, down_key: Key::A }
}

fn right_paddle(y: i64) -> Paddle {
    Paddle { position: Position { x: RIGHT_PADDLE_X, y }, up_key: Key::Up, down_key: Key::Down }
}

#[test]
fn ball_moves_without_wall_flip() {
    let mut ball = ball_at(0, 0, 160, 160);
    move_ball(&mut ball, 1_250_000);
    assert_eq!(ball.position, Position { x: 200 * UNIT, y: 200 * UNIT });
    assert_eq!(ball.velocity, Velocity { x: 160, y: 160 });
}

#[test]
fn ball_out_left_scores_for_right() {
    let mut ball = ball_at(-395 * UNIT, 0, -160, 0);
    move_ball(&mut ball, 1_000_000);
    assert_eq!(ball.position.x, -555 * UNIT);
    let mut s = Score { left: 3, right: 7 };
    score(&mut s, &mut ball);
    assert_eq!(s, Score { left: 3, right: 8 });
    assert_eq!(ball.position, Position { x: 0, y: 0 });
    assert_eq!(ball.velocity, Velocity { x: -160, y: 0 });
}

#[test]
fn ball_out_right_scores_for_left() {
    let mut ball = ball_at(401 * UNIT, 20 * UNIT, 160, -160);
    let mut s = Score::new();
    score(&mut s, &mut ball);
    assert_eq!(s, Score { left: 1, right: 0 });
    assert_eq!(ball.position, Position { x: 0, y: 0 });
    assert_eq!(ball.velocity, Velocity { x: 160, y: -160 });
}

#[test]
fn ball_on_the_edge_scores_nothing() {
    let mut ball = ball_at(400 * UNIT, 0, 160, 160);
    let mut s = Score::new();
    score(&mut s, &mut ball);
    assert_eq!(s, Score { left: 0, right: 0 });
    assert_eq!(ball.position.x, 400 * UNIT);
}

#[test]
fn full_overlap_flips_once() {
    let mut ball = ball_at(-395 * UNIT, 0, -160, 160);
    collides(&mut ball, &left_paddle(0), &right_paddle(0));
    assert_eq!(ball.velocity, Velocity { x: 160, y: 160 });
    assert_eq!(ball.position, Position { x: -395 * UNIT, y: 0 });
}

#[test]
fn lodged_ball_flips_every_frame() {
    let mut ball = ball_at(-395 * UNIT, 0, -160, 0);
    let p = left_paddle(0);
    bounce(&mut ball, &p);
    assert_eq!(ball.velocity.x, 160);
    bounce(&mut ball, &p);
    assert_eq!(ball.velocity.x, -160);
}

#[test]
fn no_overlap_keeps_velocity() {
    let mut ball = ball_at(0, 0, -160, 160);
    collides(&mut ball, &left_paddle(0), &right_paddle(0));
    assert_eq!(ball.velocity, Velocity { x: -160, y: 160 });
}

#[test]
fn touching_boxes_do_not_overlap() {
    let ball = Size { width: 10 * UNIT, height: 10 * UNIT };
    let paddle = Size { width: 10 * UNIT, height: 100 * UNIT };
    let p = Position { x: LEFT_PADDLE_X, y: 0 };
    assert!(!collide(Position { x: -385 * UNIT, y: 0 }, ball, p, paddle));
    assert!(collide(Position { x: -385 * UNIT - 1, y: 0 }, ball, p, paddle));
    assert!(!collide(Position { x: -395 * UNIT, y: 55 * UNIT }, ball, p, paddle));
    assert!(collide(Position { x: -395 * UNIT, y: 55 * UNIT - 1 }, ball, p, paddle));
}

#[test]
fn top_wall_flips_vertical_velocity() {
    let mut ball = ball_at(0, 290 * UNIT, 160, 160);
    move_ball(&mut ball, 100_000);
    assert_eq!(ball.position.y, 306 * UNIT);
    assert_eq!(ball.velocity, Velocity { x: 160, y: -160 });
}

#[test]
fn bottom_wall_flips_vertical_velocity() {
    let mut ball = ball_at(0, -290 * UNIT, 160, -160);
    move_ball(&mut ball, 100_000);
    assert_eq!(ball.position.y, -306 * UNIT);
    assert_eq!(ball.velocity, Velocity { x: 160, y: 160 });
}

#[test]
fn edge_exactly_on_wall_keeps_velocity() {
    let mut ball = ball_at(0, 279 * UNIT, 0, 160);
    move_ball(&mut ball, 100_000);
    assert_eq!(ball.position.y, 295 * UNIT);
    assert_eq!(ball.velocity.y, 160);
}

#[test]
fn paddle_up_and_down() {
    let mut p = left_paddle(0);
    p.steer(&vec![Key::W], 1_000_000);
    assert_eq!(p.position.y, 180 * UNIT);
    p.steer(&vec![Key::W], 1_000_000);
    assert_eq!(p.position.y, PADDLE_MAX_MOVE);
    p.steer(&vec![Key::A, Key::Up], 500_000);
    assert_eq!(p.position.y, 160 * UNIT);
    p.steer(&vec![Key::A], 10_000_000);
    assert_eq!(p.position.y, PADDLE_MIN_MOVE);
    assert_eq!(p.position.x, LEFT_PADDLE_X);
}

#[test]
fn paddle_both_keys_up_then_down() {
    let mut p = right_paddle(200 * UNIT);
    p.steer(&vec![Key::Up, Key::Down], 1_000_000);
    assert_eq!(p.position.y, 70 * UNIT);
    let mut q = right_paddle(0);
    q.steer(&vec![Key::Down, Key::Up], 1_000_000);
    assert_eq!(q.position.y, 0);
}

#[test]
fn paddle_ignores_other_keys() {
    let mut p = right_paddle(10);
    p.steer(&vec![Key::W, Key::A], 1_000_000);
    assert_eq!(p.position.y, 10);
    p.steer(&vec![], 1_000_000);
    assert_eq!(p.position.y, 10);
}

#[test]
fn paddles_stay_in_band_over_many_frames() {
    let mut g = Game::new();
    let inputs = [
        vec![Key::W, Key::Up],
        vec![Key::A],
        vec![Key::Down, Key::W],
        vec![Key::A, Key::Up, Key::Down],
        vec![],
    ];
    for i in 0..200u64 {
        let held = &inputs[(i % 5) as usize];
        let dt = (i * 7919) % 3_000_000;
        assert!(g.can_simulate(dt));
        g.simulate(held, dt);
        for p in [g.left, g.right] {
            assert!(PADDLE_MIN_MOVE <= p.position.y && p.position.y <= PADDLE_MAX_MOVE);
        }
    }
}

#[test]
fn held_keys_lookup() {
    assert!(is_held(&vec![Key::A, Key::Down], Key::Down));
    assert!(!is_held(&vec![Key::A, Key::Down], Key::Up));
    assert!(!is_held(&vec![], Key::W));
}

#[test]
fn travel_is_velocity_times_dt() {
    assert_eq!(travel(160, 1_250_000), 200_000_000);
    assert_eq!(travel(-160, 3), -480);
    assert_eq!(travel(i64::MIN, u64::MAX), (i64::MIN as i128) * (u64::MAX as i128));
}

#[test]
fn new_game_layout() {
    let g = Game::new();
    assert_eq!(g.ball, ball_at(0, 0, BALL_SPEED, BALL_SPEED));
    assert_eq!(g.left, left_paddle(0));
    assert_eq!(g.right, right_paddle(0));
    assert_eq!(g.score, Score { left: 0, right: 0 });
}

#[test]
fn one_frame_of_the_game() {
    let mut g = Game::new();
    g.simulate(&vec![Key::Up], 1_250_000);
    assert_eq!(g.ball, ball_at(200 * UNIT, 200 * UNIT, 160, 160));
    assert_eq!(g.right.position.y, 225 * UNIT);
    assert_eq!(g.left.position.y, 0);
    assert_eq!(g.score, Score { left: 0, right: 0 });
}

#[test]
fn game_frame_with_bounce_and_point() {
    let mut g = Game::new();
    g.ball = ball_at(-380 * UNIT, 0, -160, 0);
    g.simulate(&vec![], 62_500);
    assert_eq!(g.ball.position.x, -390 * UNIT);
    assert_eq!(g.ball.velocity.x, 160);
    g.ball = ball_at(-399 * UNIT, 200 * UNIT, -160, 0);
    g.simulate(&vec![], 12_500);
    assert_eq!(g.score, Score { left: 0, right: 1 });
    assert_eq!(g.ball, ball_at(0, 0, -160, 0));
}

#[test]
fn cannot_simulate_past_integer_range() {
    let mut g = Game::new();
    assert!(g.can_simulate(u64::MAX / 1000));
    g.ball.velocity = Velocity { x: i64::MAX, y: 1 };
    assert!(!g.can_simulate(2));
    g.ball.velocity = Velocity { x: 1, y: 1 };
    g.score.left = u32::MAX;
    g.score.right = u32::MAX;
    assert!(g.can_simulate(1));
    g.ball = ball_at(399 * UNIT, 0, 160, 0);
    assert!(!g.can_simulate(12_500));
    g.score.left = 4;
    assert!(g.can_simulate(12_500));
    g.ball = ball_at(-399 * UNIT, 0, -160, 0);
    assert!(!g.can_simulate(12_500));
}

#[test]
fn full_counter_does_not_block_other_side() {
    let mut g = Game::new();
    g.score = Score { left: u32::MAX, right: 9 };
    assert!(g.can_simulate(1_000));
    g.simulate(&vec![], 1_000);
    assert_eq!(g.score, Score { left: u32::MAX, right: 9 });
    g.ball = ball_at(-399 * UNIT, 200 * UNIT, -160, 0);
    assert!(g.can_simulate(12_500));
    g.simulate(&vec![], 12_500);
    assert_eq!(g.score, Score { left: u32::MAX, right: 10 });
    assert_eq!(g.ball, ball_at(0, 0, -160, 0));
}

#[test]
fn score_with_other_counter_full() {
    let mut ball = ball_at(-401 * UNIT, 3, -160, 5);
    let mut s = Score { left: u32::MAX, right: 0 };
    score(&mut s, &mut ball);
    assert_eq!(s, Score { left: u32::MAX, right: 1 });
    assert_eq!(ball, ball_at(0, 0, -160, 5));
    let mut inside = ball_at(12, 34, 160, 160);
    let mut full = Score { left: u32::MAX, right: u32::MAX };
    score(&mut full, &mut inside);
    assert_eq!(full, Score { left: u32::MAX, right: u32::MAX });
    assert_eq!(inside, ball_at(12, 34, 160, 160));
}

#[test]
fn score_readout_is_decimal() {
    let s = Score { left: 0, right: 1234567 };
    assert_eq!(show_score(&s), ("0".to_string(), "1234567".to_string()));
    assert_eq!(decimal_string(10), "10");
    assert_eq!(decimal_string(9), "9");
    assert_eq!(decimal_string(u32::MAX), "4294967295");
}

#[test]
fn score_readout_repeats() {
    let s = Score { left: 12, right: 305 };
    let first = show_score(&s);
    let second = show_score(&s);
    assert_eq!(first, second);
    assert_eq!(first, ("12".to_string(), "305".to_string()));
}
