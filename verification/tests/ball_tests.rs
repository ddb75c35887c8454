use pong::ball::Ball;
use pong::ball::Collision;
use pong::paddle::Paddle;
use pong::paddle::Sides;
use pong::scene::Edges;
use pong::vec2::Vec2;

#[test]
fn update_pos_adds_velocity() {
    let mut b = Ball::new(Vec2::new(100, 200), Vec2::new(4, -2), 3);
    b.update_pos();
    assert_eq!(*b.get_pos(), Vec2::new(104, 198));
    assert_eq!(*b.get_vel(), Vec2::new(4, -2));
    assert_eq!(b.get_radius(), 3);
}

#[test]
fn collides_with_detects_overlap() {
    // Default left paddle: center (10, 300), 7 by 60.  With radius 3 the
    // ball center collides strictly inside x in (4, 16), y in (267, 333).
    let p = Paddle::default_left_paddle();
    let b = Ball::new(Vec2::new(10, 300), Vec2::new(0, 0), 3);
    assert!(matches!(b.collides_with(&p), Some(Collision::WithPaddle(Sides::Left))));
    let far = Ball::new(Vec2::new(100, 300), Vec2::new(0, 0), 3);
    assert!(far.collides_with(&p).is_none());
}

#[test]
fn tangent_ball_does_not_collide() {
    let p = Paddle::default_left_paddle();
    // Exactly on each of the four bounds of the overlap box.
    let on_right_bound = Ball::new(Vec2::new(16, 300), Vec2::new(0, 0), 3);
    assert!(on_right_bound.collides_with(&p).is_none());
    let on_left_bound = Ball::new(Vec2::new(4, 300), Vec2::new(0, 0), 3);
    assert!(on_left_bound.collides_with(&p).is_none());
    let on_lower_bound = Ball::new(Vec2::new(10, 267), Vec2::new(0, 0), 3);
    assert!(on_lower_bound.collides_with(&p).is_none());
    let on_upper_bound = Ball::new(Vec2::new(10, 333), Vec2::new(0, 0), 3);
    assert!(on_upper_bound.collides_with(&p).is_none());
    // One pixel inside the bound it collides again.
    let just_inside = Ball::new(Vec2::new(15, 300), Vec2::new(0, 0), 3);
    assert!(just_inside.collides_with(&p).is_some());
}

#[test]
fn edge_bounce_flips_y_and_clamps_position() {
    let mut b = Ball::new(Vec2::new(50, 1), Vec2::new(2, -5), 3);
    b.bounce_after_collision(Collision::WithEdge(Edges::Top));
    assert_eq!(*b.get_vel(), Vec2::new(2, 5));
    // The y position is clamped to exactly the radius.
    assert_eq!(*b.get_pos(), Vec2::new(50, 3));
}

#[test]
fn bottom_edge_bounce_clamps_to_height_minus_radius() {
    let mut b = Ball::new(Vec2::new(50, 599), Vec2::new(2, 5), 3);
    b.bounce_after_collision(Collision::WithEdge(Edges::Bottom));
    assert_eq!(*b.get_vel(), Vec2::new(2, -5));
    assert_eq!(*b.get_pos(), Vec2::new(50, 597));
}

#[test]
fn paddle_bounce_flips_x_and_snaps_left() {
    let mut b = Ball::new(Vec2::new(10, 300), Vec2::new(-2, 1), 3);
    b.bounce_after_collision(Collision::WithPaddle(Sides::Left));
    assert_eq!(*b.get_vel(), Vec2::new(2, 1));
    // Snapped just outside the left paddle band: margin + width + radius.
    assert_eq!(*b.get_pos(), Vec2::new(17, 300));
}

#[test]
fn paddle_bounce_snaps_right() {
    let mut b = Ball::new(Vec2::new(790, 300), Vec2::new(2, 0), 3);
    b.bounce_after_collision(Collision::WithPaddle(Sides::Right));
    assert_eq!(*b.get_vel(), Vec2::new(-2, 0));
    assert_eq!(*b.get_pos(), Vec2::new(783, 300));
}

#[test]
fn generate_with_vel_centers_the_ball() {
    let b = Ball::generate_with_vel(Vec2::new(4, -1));
    assert_eq!(*b.get_pos(), Vec2::new(400, 300));
    assert_eq!(*b.get_vel(), Vec2::new(4, -1));
    assert_eq!(b.get_radius(), 3);
}

#[test]
fn random_centered_ball_is_centered_with_default_speed() {
    let mut rng = rand::thread_rng();
    for _ in 0..50 {
        let b = Ball::random_centered_ball(&mut rng);
        assert_eq!(*b.get_pos(), Vec2::new(400, 300));
        assert_eq!(b.get_radius(), 3);
        let v = b.get_vel();
        assert!(v.x == 4 || v.x == -4);
        assert!(-4 < v.y && v.y < 4);
    }
}
