//! Balls: circles moving with a per-frame velocity.
//!
//! Collision detection treats a ball as its bounding square of side
//! `2 * radius`, a deliberate simplification of circle geometry.  A bounce
//! flips one velocity component and then corrects the position so that the
//! ball sits fully outside the obstacle it just hit.

use crate::paddle::{Paddle, Sides, DEFAULT_PADDLE_WIDTH};
use crate::scene::{Edges, PADDLE_MARGIN, SCREEN_HEIGHT, SCREEN_WIDTH};
use crate::vec2::{sat64, screen_center, Vec2};
use vstd::prelude::*;

verus! {

/// The default radius of the ball, in pixels.
pub const DEFAULT_RADIUS: u32 = 3;
/// The default speed of the ball, in pixels per frame: a 200th of the
/// screen width.
pub const DEFAULT_BALL_SPEED: i64 = 4;

/// The ball struct.
#[derive(Clone, Copy, Debug, PartialEq, Eq, Structural)]
pub struct Ball {
    /// The position of the center of the ball.
    pub pos: Vec2,
    /// The velocity of the ball, in pixels per frame.
    pub vel: Vec2,
    /// The radius of the ball, in pixels.
    pub radius: u32,
}

/// A collision either takes place between a ball and a paddle, or between a
/// ball and an edge.  A paddle collision records the side of the struck
/// paddle; that is all the bounce response reads of it.
#[derive(Clone, Copy, Debug, PartialEq, Eq, Structural)]
pub enum Collision {
    WithEdge(Edges),
    WithPaddle(Sides),
}

/// A launch velocity of a default ball: full default speed horizontally, in
/// either direction, and a strictly smaller vertical component, so the
/// launch direction stays strictly within an eighth turn of the horizontal.
pub open spec fn launch_vel_ok(v: Vec2) -> bool {
    &&& (v.x == DEFAULT_BALL_SPEED || v.x == -DEFAULT_BALL_SPEED)
    &&& -DEFAULT_BALL_SPEED < v.y < DEFAULT_BALL_SPEED
}

/// A freshly launched default ball: centered, default radius, and a launch
/// velocity as [`launch_vel_ok`] describes.
pub open spec fn is_centered_launch(b: Ball) -> bool {
    &&& b.pos == screen_center()
    &&& b.radius == DEFAULT_RADIUS
    &&& launch_vel_ok(b.vel)
}

/// The x coordinate a ball is snapped to after striking a paddle of the
/// given side: just outside the fixed default paddle band.  The fixed margin
/// and default width are used, not the struck paddle's own geometry — an
/// approximation tied to the fixed default layout.
pub open spec fn snap_x(side: Sides, radius: u32) -> int {
    match side {
        Sides::Left => PADDLE_MARGIN + DEFAULT_PADDLE_WIDTH + radius,
        Sides::Right => SCREEN_WIDTH - PADDLE_MARGIN - DEFAULT_PADDLE_WIDTH - radius,
    }
}

impl Ball {
    /// The velocity stays within the coordinate bound, so that flipping its
    /// sign on a bounce provably fits in `i64`.
    pub open spec fn wf(self) -> bool {
        self.vel.in_bounds()
    }

    /// This ball after one step of position integration; each coordinate
    /// saturates at the machine limits.
    pub open spec fn integrated(self) -> Ball {
        Ball {
            pos: Vec2 {
                x: sat64(self.pos.x + self.vel.x) as i64,
                y: sat64(self.pos.y + self.vel.y) as i64,
            },
            vel: self.vel,
            radius: self.radius,
        }
    }

    /// The y coordinate after an edge correction: clamped to exactly
    /// `radius` below the top edge or `radius` above the bottom edge when
    /// the ball overlaps either, and unchanged otherwise.
    pub open spec fn edge_clamped_y(self) -> int {
        if self.pos.y > SCREEN_HEIGHT - self.radius {
            SCREEN_HEIGHT - self.radius
        } else if self.pos.y < self.radius {
            self.radius as int
        } else {
            self.pos.y as int
        }
    }

    /// This ball after the velocity response to a collision: a top or
    /// bottom edge flips the y component, a paddle flips the x component,
    /// and a left or right edge leaves the velocity alone.
    pub open spec fn vel_flipped(self, c: Collision) -> Ball {
        match c {
            Collision::WithEdge(Edges::Top) | Collision::WithEdge(Edges::Bottom) => Ball {
                pos: self.pos,
                vel: Vec2 { x: self.vel.x, y: (-self.vel.y) as i64 },
                radius: self.radius,
            },
            Collision::WithPaddle(_) => Ball {
                pos: self.pos,
                vel: Vec2 { x: (-self.vel.x) as i64, y: self.vel.y },
                radius: self.radius,
            },
            _ => self,
        }
    }

    /// This ball after the position correction to a collision: a paddle
    /// snaps the x coordinate just outside the paddle band, anything else
    /// clamps the y coordinate inside the arena.
    pub open spec fn pos_reset(self, c: Collision) -> Ball {
        match c {
            Collision::WithPaddle(side) => Ball {
                pos: Vec2 { x: snap_x(side, self.radius) as i64, y: self.pos.y },
                vel: self.vel,
                radius: self.radius,
            },
            _ => Ball {
                pos: Vec2 { x: self.pos.x, y: self.edge_clamped_y() as i64 },
                vel: self.vel,
                radius: self.radius,
            },
        }
    }

    /// This ball after a full bounce: the velocity response followed by the
    /// position correction.
    pub open spec fn bounced(self, c: Collision) -> Ball {
        self.vel_flipped(c).pos_reset(c)
    }

    /// Whether the ball's bounding square strictly overlaps the paddle's
    /// rectangle.  All four comparisons are strict: a ball exactly tangent
    /// to a bound does not collide.
    pub open spec fn collides_with_spec(self, p: Paddle) -> bool {
        &&& self.pos.y > p.pos.y - p.height as int / 2 - self.radius
        &&& self.pos.y < p.pos.y + p.height as int / 2 + self.radius
        &&& self.pos.x > p.pos.x - p.width as int / 2 - self.radius
        &&& self.pos.x < p.pos.x + p.width as int / 2 + self.radius
    }

    /// The constructor.  The velocity bound is a machine limit: it keeps the
    /// bounce arithmetic free of overflow.
    pub fn new(pos: Vec2, vel: Vec2, radius: u32) -> (r: Ball)
        requires
            vel.in_bounds(),
        ensures
            r == (Ball { pos, vel, radius }),
            r.wf(),
    {
        Ball { pos, vel, radius }
    }

    /// Generate a new ball given its velocity.  The generated ball is
    /// located at the center of the screen and has the default radius.
    pub fn generate_with_vel(vel: Vec2) -> (r: Ball)
        requires
            vel.in_bounds(),
        ensures
            r == (Ball { pos: screen_center(), vel, radius: DEFAULT_RADIUS }),
            r.wf(),
    {
        Ball { pos: Vec2::default(), vel, radius: DEFAULT_RADIUS }
    }

    /// Generate a new ball as `generate_with_vel`, but with a random launch
    /// velocity of the default speed.
    pub fn random_centered_ball(rng: &mut rand::rngs::ThreadRng) -> (r: Ball)
        ensures
            is_centered_launch(r),
            r.wf(),
    {
        Ball {
            pos: Vec2::default(),
            vel: Vec2::random_with_magnitude(DEFAULT_BALL_SPEED, rng),
            radius: DEFAULT_RADIUS,
        }
    }

    /// Get the position of the ball.
    pub fn get_pos(&self) -> (r: &Vec2)
        ensures
            r == self.pos,
    {
        &self.pos
    }

    /// Get the velocity of the ball.
    pub fn get_vel(&self) -> (r: &Vec2)
        ensures
            r == self.vel,
    {
        &self.vel
    }

    /// Get the radius of the ball.
    pub fn get_radius(&self) -> (r: u32)
        ensures
            r == self.radius,
    {
        self.radius
    }

    /// Update the ball after it bounces off a paddle or an edge: flip the
    /// struck velocity component, then push the ball outside the obstacle so
    /// that it cannot trigger the same collision again next frame.
    pub fn bounce_after_collision(&mut self, collision: Collision)
        requires
            old(self).wf(),
        ensures
            *final(self) == old(self).bounced(collision),
            final(self).wf(),
    {
        match collision {
            Collision::WithEdge(Edges::Top) | Collision::WithEdge(Edges::Bottom) => {
                self.vel.y = -self.vel.y;
            },
            Collision::WithPaddle(_) => {
                self.vel.x = -self.vel.x;
            },
            _ => {},
        }
        self.reset_pos(&collision);
    }

    /// Resets the position of the ball after bouncing.  A collision is
    /// detected while ball and obstacle overlap, so without this the ball
    /// could keep flipping its direction on consecutive frames; moving it
    /// fully outside the obstacle makes the flip happen once.
    fn reset_pos(&mut self, collision: &Collision)
        ensures
            *final(self) == old(self).pos_reset(*collision),
    {
        match collision {
            Collision::WithPaddle(side) => {
                match side {
                    Sides::Left => {
                        self.pos.x = (PADDLE_MARGIN + DEFAULT_PADDLE_WIDTH) as i64 + self.radius as i64;
                    },
                    Sides::Right => {
                        self.pos.x = SCREEN_WIDTH - (PADDLE_MARGIN + DEFAULT_PADDLE_WIDTH) as i64
                            - self.radius as i64;
                    },
                }
            },
            _ => {
                if self.pos.y > SCREEN_HEIGHT - self.radius as i64 {
                    self.pos.y = SCREEN_HEIGHT - self.radius as i64;
                } else if self.pos.y < self.radius as i64 {
                    self.pos.y = self.radius as i64;
                }
            },
        }
    }

    /// Updates the position according to the velocity: one Euler step per
    /// frame, saturating at the machine limits.
    pub fn update_pos(&mut self)
        ensures
            *final(self) == old(self).integrated(),
    {
        let v = self.vel;
        self.pos.add_assign(&v);
    }

    /// Detects collision with a paddle, strictly: a ball exactly tangent to
    /// a bound is not colliding.  The paddle bound is a machine limit that
    /// keeps the bound arithmetic inside `i64`.
    pub fn collides_with(&self, paddle: &Paddle) -> (r: Option<Collision>)
        requires
            paddle.wf(),
        ensures
            r == (if self.collides_with_spec(*paddle) {
                Some(Collision::WithPaddle(paddle.side))
            } else {
                None::<Collision>
            }),
    {
        let half_height = (paddle.height / 2) as i64;
        let half_width = (paddle.width / 2) as i64;
        let radius = self.radius as i64;

        // Bounds of the ball-center coordinates, not of what is drawn: the
        // center may not leave this open box without ending the overlap.
        let y_lower_bound = paddle.pos.y - half_height - radius;
        let y_upper_bound = paddle.pos.y + half_height + radius;
        let x_lower_bound = paddle.pos.x - half_width - radius;
        let x_upper_bound = paddle.pos.x + half_width + radius;

        if self.pos.y > y_lower_bound && self.pos.y < y_upper_bound && self.pos.x > x_lower_bound
            && self.pos.x < x_upper_bound {
            Some(Collision::WithPaddle(paddle.side))
        } else {
            None
        }
    }
}

impl Default for Ball {
    /// Generate a default ball: centered, with the default radius, and —
    /// since the default vector is the screen center — a velocity equal to
    /// that same center point.
    fn default() -> (r: Ball)
        ensures
            r == (Ball { pos: screen_center(), vel: screen_center(), radius: DEFAULT_RADIUS }),
            r.wf(),
    {
        Ball { pos: Vec2::default(), vel: Vec2::default(), radius: DEFAULT_RADIUS }
    }
}

/// After a top or bottom edge bounce the y component of the velocity has
/// flipped sign, and — whenever the ball is not taller than the arena — the
/// new y position lies within `[radius, height - radius]`.
pub proof fn lemma_edge_bounce_flips_y_and_contains(b: Ball, e: Edges)
    requires
        b.wf(),
        e is Top || e is Bottom,
    ensures
        b.bounced(Collision::WithEdge(e)).vel.y == -b.vel.y,
        b.bounced(Collision::WithEdge(e)).vel.x == b.vel.x,
        2 * b.radius <= SCREEN_HEIGHT ==> b.radius <= b.bounced(Collision::WithEdge(e)).pos.y
            <= SCREEN_HEIGHT - b.radius,
{
}

/// After a paddle bounce the x component of the velocity has flipped sign.
pub proof fn lemma_paddle_bounce_flips_x(b: Ball, side: Sides)
    requires
        b.wf(),
    ensures
        b.bounced(Collision::WithPaddle(side)).vel.x == -b.vel.x,
        b.bounced(Collision::WithPaddle(side)).vel.y == b.vel.y,
{
}

/// Collision detection is strict: a ball whose center sits exactly on one
/// of the four bounds of the overlap box is reported as not colliding.
pub proof fn lemma_tangent_ball_does_not_collide(b: Ball, p: Paddle)
    requires
        b.pos.y == p.pos.y - p.height as int / 2 - b.radius || b.pos.y == p.pos.y
            + p.height as int / 2 + b.radius || b.pos.x == p.pos.x - p.width as int / 2 - b.radius
            || b.pos.x == p.pos.x + p.width as int / 2 + b.radius,
    ensures
        !b.collides_with_spec(p),
{
}

} // verus!
