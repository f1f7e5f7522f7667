use pong_core::ball::{Ball, Side};
use pong_core::consts::{BALL_INITIAL_SPEED, CENTER_X, CENTER_Y, WIN_SCORE};
use pong_core::game::{Game, GameResult};

const NO_KEYS: (bool, bool) = (false, false);

#[test]
fn new_match_assigns_control_sources() {
    let one_player = Game::new(false);
    assert!(!one_player.left_paddle.is_ai);
    assert!(one_player.right_paddle.is_ai);
    let two_players = Game::new(true);
    assert!(!two_players.left_paddle.is_ai);
    assert!(!two_players.right_paddle.is_ai);
    assert_eq!(two_players.left_score, 0);
    assert_eq!(two_players.right_score, 0);
    assert_eq!(two_players.ball.x, CENTER_X);
    assert_eq!(two_players.ball.y, CENTER_Y);
    assert_eq!(two_players.ball.speed, BALL_INITIAL_SPEED);
    assert_eq!(two_players.ball.hue, 180);
}

#[test]
fn quiet_tick_continues_without_scoring() {
    let mut g = Game::new(true);
    g.ball = Ball { x: 400_000, y: 300_000, vx: 300_000, vy: 0, speed: 300_000, hue: 120 };
    let (result, event) = g.update(16, NO_KEYS, NO_KEYS);
    assert_eq!(result, GameResult::Continue);
    assert!(event.is_none());
    assert_eq!(g.left_score, 0);
    assert_eq!(g.right_score, 0);
    assert_eq!(g.ball.x, 404_800);
}

#[test]
fn right_edge_crossing_scores_for_left_and_resets() {
    let mut g = Game::new(true);
    g.ball = Ball { x: 790_000, y: 300_000, vx: 300_000, vy: 0, speed: 300_000, hue: 120 };
    let (result, event) = g.update(50, NO_KEYS, NO_KEYS);
    assert_eq!(result, GameResult::Continue);
    assert!(event.is_none());
    assert_eq!(g.left_score, 1);
    assert_eq!(g.right_score, 0);
    assert_eq!(g.ball.x, CENTER_X);
    assert_eq!(g.ball.y, CENTER_Y);
    assert_eq!(g.ball.speed, 300_000);
    assert_eq!(g.ball.hue, 180);
    assert!(g.ball.vx != 0);
}

#[test]
fn left_edge_crossing_scores_for_right() {
    let mut g = Game::new(true);
    g.ball = Ball { x: 5_000, y: 300_000, vx: -300_000, vy: 0, speed: 300_000, hue: 120 };
    let (result, _) = g.update(50, NO_KEYS, NO_KEYS);
    assert_eq!(result, GameResult::Continue);
    assert_eq!(g.right_score, 1);
    assert_eq!(g.left_score, 0);
    assert_eq!(g.ball.x, CENTER_X);
}

#[test]
fn each_crossing_scores_exactly_once() {
    let mut g = Game::new(true);
    let mut total_scores: u32 = 0;
    for _ in 0..5 {
        g.ball = Ball { x: 5_000, y: 300_000, vx: -300_000, vy: 0, speed: 300_000, hue: 120 };
        let (result, _) = g.update(50, NO_KEYS, NO_KEYS);
        assert_eq!(result, GameResult::Continue);
        total_scores += 1;
        assert_eq!(g.right_score, total_scores);
        assert_eq!(g.left_score, 0);
        // the reset consumed the crossing: the ball is back inside
        assert!(g.ball.scored().is_none());
    }
}

#[test]
fn winning_point_ends_match_without_reset() {
    let mut g = Game::new(true);
    g.right_score = WIN_SCORE - 1;
    g.ball = Ball { x: 5_000, y: 300_000, vx: -300_000, vy: 0, speed: 300_000, hue: 120 };
    let (result, event) = g.update(50, NO_KEYS, NO_KEYS);
    assert_eq!(result, GameResult::RightWins);
    assert!(event.is_none());
    assert_eq!(g.right_score, WIN_SCORE);
    assert_eq!(g.left_score, 0);
    // no reset after the match is decided: the ball is still out of bounds
    assert_eq!(g.ball.x, -10_000);
}

#[test]
fn left_side_can_win_too() {
    let mut g = Game::new(true);
    g.left_score = WIN_SCORE - 1;
    g.right_score = 3;
    g.ball = Ball { x: 790_000, y: 300_000, vx: 300_000, vy: 0, speed: 300_000, hue: 120 };
    let (result, _) = g.update(50, NO_KEYS, NO_KEYS);
    assert_eq!(result, GameResult::LeftWins);
    assert_eq!(g.left_score, WIN_SCORE);
    assert_eq!(g.right_score, 3);
    assert_eq!(g.ball.x, 805_000);
}

#[test]
fn paddle_hit_feeds_event_through_engine() {
    let mut g = Game::new(true);
    g.ball = Ball { x: 45_000, y: 300_000, vx: -300_000, vy: 0, speed: 300_000, hue: 120 };
    let (result, event) = g.update(0, NO_KEYS, NO_KEYS);
    assert_eq!(result, GameResult::Continue);
    let ev = event.expect("the bounce must surface a collision event");
    assert_eq!(ev.x, 52_500);
    assert_eq!(ev.y, 300_000);
    assert_eq!(ev.hue, 150);
    assert_eq!(g.ball.speed, 320_000);
    assert!(g.ball.vx > 0);
}

#[test]
fn ai_paddle_tracks_ball_through_engine() {
    let mut g = Game::new(false);
    g.ball = Ball { x: 400_000, y: 500_000, vx: 0, vy: 0, speed: 300_000, hue: 120 };
    let before = g.right_paddle.y;
    g.update(66, NO_KEYS, NO_KEYS);
    assert!(g.right_paddle.y > before);
    // the human left paddle ignored the ball
    assert_eq!(g.left_paddle.y, CENTER_Y);
}

#[test]
fn full_match_reaches_a_winner() {
    let mut g = Game::new(true);
    let mut result = GameResult::Continue;
    let mut ticks: u32 = 0;
    while result == GameResult::Continue {
        g.ball = Ball { x: 5_000, y: 300_000, vx: -300_000, vy: 0, speed: 300_000, hue: 120 };
        let (r, _) = g.update(50, NO_KEYS, NO_KEYS);
        result = r;
        ticks += 1;
        assert!(ticks <= WIN_SCORE);
    }
    assert_eq!(result, GameResult::RightWins);
    assert_eq!(g.right_score, WIN_SCORE);
    assert_eq!(ticks, WIN_SCORE);
}

#[test]
fn reset_ball_leaves_scores_and_paddles() {
    let mut g = Game::new(true);
    g.left_score = 2;
    g.right_score = 5;
    g.ball = Ball { x: 100_000, y: 200_000, vx: 300_000, vy: -100_000, speed: 340_000, hue: 120 };
    let paddles = (g.left_paddle, g.right_paddle);
    g.reset_ball();
    assert_eq!(g.ball.x, CENTER_X);
    assert_eq!(g.ball.y, CENTER_Y);
    assert_eq!(g.ball.speed, 340_000);
    assert_eq!(g.left_score, 2);
    assert_eq!(g.right_score, 5);
    assert_eq!(g.left_paddle, paddles.0);
    assert_eq!(g.right_paddle, paddles.1);
    assert_eq!(g.ball.hue, 180);
}

#[test]
fn match_result_mentions_correct_side() {
    let mut g = Game::new(true);
    g.right_score = WIN_SCORE - 1;
    g.ball = Ball { x: 5_000, y: 300_000, vx: -300_000, vy: 0, speed: 300_000, hue: 120 };
    let (result, _) = g.update(50, NO_KEYS, NO_KEYS);
    assert!(matches!(result, GameResult::RightWins));
    assert_eq!(g.ball.scored(), Some(Side::Right));
}
