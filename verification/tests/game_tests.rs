use pong::ball::Ball;
use pong::game::Game;
use pong::game::GameState;
use pong::operation::Operation;
use pong::operation::OperationTypes;
use pong::paddle::Paddle;
use pong::paddle::Sides;
use pong::scene::Scene;
use pong::vec2::Vec2;

fn full_scene(balls: Vec<Ball>) -> Scene {
    Scene {
        left_paddles: vec![Paddle::default_left_paddle()],
        right_paddles: vec![Paddle::default_right_paddle()],
        balls,
    }
}

#[test]
fn start_without_balls_fails_and_stays_paused() {
    let mut game = Game::new();
    game.set_scene(full_scene(vec![]));
    let r = game.start();
    assert_eq!(r.unwrap_err(), "Error: you cannot start a game without a ball.");
    assert_eq!(game.state, GameState::Paused);
}

#[test]
fn start_without_left_paddles_fails() {
    let mut game = Game::new();
    game.set_scene(Scene {
        left_paddles: vec![],
        right_paddles: vec![Paddle::default_right_paddle()],
        balls: vec![Ball::generate_with_vel(Vec2::new(4, 0))],
    });
    let r = game.start();
    assert_eq!(r.unwrap_err(), "Error: you cannot start a game without a left paddle.");
    assert_eq!(game.state, GameState::Paused);
}

#[test]
fn start_without_right_paddles_fails() {
    let mut game = Game::new();
    game.set_scene(Scene {
        left_paddles: vec![Paddle::default_left_paddle()],
        right_paddles: vec![],
        balls: vec![Ball::generate_with_vel(Vec2::new(4, 0))],
    });
    let r = game.start();
    assert_eq!(r.unwrap_err(), "Error: you cannot start a game without a right paddle.");
    assert_eq!(game.state, GameState::Paused);
}

#[test]
fn start_with_full_scene_succeeds_and_runs() {
    let mut game = Game::new();
    game.set_scene(full_scene(vec![Ball::generate_with_vel(Vec2::new(4, 0))]));
    assert!(game.start().is_ok());
    assert_eq!(game.state, GameState::Running);
}

#[test]
fn update_while_paused_changes_nothing() {
    let mut game = Game::new();
    game.set_scene(full_scene(vec![Ball::generate_with_vel(Vec2::new(4, 0))]));
    let balls_before = game.get_balls().clone();
    let paddles_before = game.get_left_paddles().clone();
    let mut ops = vec![Operation::new(OperationTypes::Up, Sides::Left, 0)];

    let winner = game.update(&mut ops);

    assert!(winner.is_none());
    assert_eq!(game.state, GameState::Paused);
    assert_eq!(game.scores, (0, 0));
    assert_eq!(*game.get_balls(), balls_before);
    assert_eq!(*game.get_left_paddles(), paddles_before);
    // The queue is not even drained while the game is paused.
    assert_eq!(ops.len(), 1);
}

#[test]
fn winning_ball_scores_and_pauses_the_game() {
    // A ball exiting on the right wins the round for the left side.
    let exits_right = Ball::new(Vec2::new(802, 100), Vec2::new(2, 0), 3);
    let mut game = Game::new();
    game.set_scene(full_scene(vec![exits_right]));
    assert!(game.start().is_ok());
    let mut ops: Vec<Operation> = Vec::new();
    let winner = game.update(&mut ops);
    assert_eq!(winner, Some(Sides::Left));
    assert_eq!(game.scores, (1, 0));
    assert_eq!(game.state, GameState::Paused);
}

#[test]
fn right_side_scores_when_ball_exits_left() {
    let exits_left = Ball::new(Vec2::new(-2, 100), Vec2::new(-2, 0), 3);
    let mut game = Game::new();
    game.set_scene(full_scene(vec![exits_left]));
    assert!(game.start().is_ok());
    let mut ops: Vec<Operation> = Vec::new();
    let winner = game.update(&mut ops);
    assert_eq!(winner, Some(Sides::Right));
    assert_eq!(game.scores, (0, 1));
    assert_eq!(game.state, GameState::Paused);
}

#[test]
fn running_update_without_winner_keeps_running() {
    let ball = Ball::new(Vec2::new(400, 300), Vec2::new(4, 1), 3);
    let mut game = Game::new();
    game.set_scene(full_scene(vec![ball]));
    assert!(game.start().is_ok());
    let mut ops: Vec<Operation> = Vec::new();
    let winner = game.update(&mut ops);
    assert!(winner.is_none());
    assert_eq!(game.state, GameState::Running);
    assert_eq!(game.scores, (0, 0));
    assert_eq!(*game.get_balls()[0].get_pos(), Vec2::new(404, 301));
}

#[test]
fn start_default_game_with_2_balls_runs() {
    let mut game = Game::new();
    game.start_default_game_with_2_balls();
    assert_eq!(game.state, GameState::Running);
    assert_eq!(game.get_left_paddle_count(), 2);
    assert_eq!(game.get_right_paddle_count(), 2);
    assert_eq!(game.get_balls().len(), 2);
    assert_eq!(game.scores, (0, 0));
    for b in game.get_balls() {
        assert_eq!(*b.get_pos(), Vec2::new(400, 300));
        let v = b.get_vel();
        assert!(v.x == 4 || v.x == -4);
        assert!(-4 < v.y && v.y < 4);
    }
}

#[test]
fn setters_overwrite_fields() {
    let mut game = Game::new();
    game.set_scores((3, 8));
    assert_eq!(game.scores, (3, 8));
    game.set_state(GameState::Running);
    assert_eq!(game.state, GameState::Running);
    game.set_scene(full_scene(vec![]));
    assert_eq!(game.get_left_paddle_count(), 1);
    assert_eq!(game.get_right_paddle_count(), 1);
    assert!(game.get_balls().is_empty());
}
