use pong::paddle::Paddle;
use pong::paddle::Sides;
use pong::vec2::Vec2;

#[test]
fn default_paddles_have_expected_geometry() {
    let left = Paddle::default_left_paddle();
    assert_eq!(*left.get_pos(), Vec2::new(10, 300));
    assert_eq!(left.get_width(), 7);
    assert_eq!(left.get_height(), 60);
    assert!(left.is_left());
    assert!(!left.is_right());

    let right = Paddle::default_right_paddle();
    assert_eq!(*right.get_pos(), Vec2::new(790, 300));
    assert_eq!(right.get_width(), 7);
    assert_eq!(right.get_height(), 60);
    assert!(right.is_right());
    assert!(!right.is_left());
}

#[test]
fn move_up_moves_by_one_speed_step() {
    let mut p = Paddle::default_left_paddle();
    p.move_up();
    assert_eq!(p.get_pos().y, 280);
}

#[test]
fn move_down_moves_by_one_speed_step() {
    let mut p = Paddle::default_left_paddle();
    p.move_down();
    assert_eq!(p.get_pos().y, 320);
}

#[test]
fn move_up_rejects_step_past_the_top() {
    let mut p = Paddle::new(Vec2::new(10, 10), 7, 60, Sides::Left);
    p.move_up();
    // 10 - 20 would cross the top edge, so the step is rejected in full.
    assert_eq!(p.get_pos().y, 10);
}

#[test]
fn move_down_rejects_step_past_the_bottom() {
    let mut p = Paddle::new(Vec2::new(10, 590), 7, 60, Sides::Left);
    p.move_down();
    // 590 + 20 would cross the bottom edge, so the step is rejected in full.
    assert_eq!(p.get_pos().y, 590);
}

#[test]
fn repeated_move_up_never_goes_below_zero() {
    let mut p = Paddle::default_left_paddle();
    for _ in 0..100 {
        p.move_up();
        assert!(p.get_pos().y >= 0);
    }
    // 300 allows exactly 15 full steps of 20; the paddle then sits at 0.
    assert_eq!(p.get_pos().y, 0);
}

#[test]
fn repeated_move_down_never_exceeds_height() {
    let mut p = Paddle::default_right_paddle();
    for _ in 0..100 {
        p.move_down();
        assert!(p.get_pos().y <= 600);
    }
    // 300 allows exactly 15 full steps of 20 down to the arena height.
    assert_eq!(p.get_pos().y, 600);
}
