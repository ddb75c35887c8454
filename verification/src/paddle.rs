//! Paddles: vertical bats at the left and right of the arena.
//!
//! A paddle is drawn centered on its position.  It moves only vertically, in
//! fixed steps, and a step that would carry its center past the top or
//! bottom of the arena is rejected in full rather than clamped.

use crate::ball::DEFAULT_BALL_SPEED;
use crate::scene::{PADDLE_MARGIN, SCREEN_HEIGHT};
use crate::vec2::Vec2;
use vstd::prelude::*;

verus! {

/// The default paddle height: a tenth of the arena height.
pub const DEFAULT_PADDLE_HEIGHT: u32 = 60;
/// The default paddle width.
pub const DEFAULT_PADDLE_WIDTH: u32 = DEFAULT_PADDLE_HEIGHT / 8;
/// The default paddle speed in pixels per frame.
pub const DEFAULT_PADDLE_SPEED: i64 = DEFAULT_BALL_SPEED * 5;

/// The default x position of the center of the left paddles.
pub const DEFAULT_LEFT_CENTER_X: i64 = 10;
/// The default x position of the center of the right paddles.
pub const DEFAULT_RIGHT_CENTER_X: i64 = 790;

/// The two sides of the arena; a paddle defends one of them.
#[derive(Clone, Copy, Debug, PartialEq, Eq, Structural)]
pub enum Sides {
    /// The left side of the scene.
    Left,
    /// The right side of the scene.
    Right,
}

/// A paddle: its center position, its size, and the side it defends.
#[derive(Clone, Copy, Debug, PartialEq, Eq, Structural)]
pub struct Paddle {
    /// The position of the center of the paddle.
    pub pos: Vec2,
    /// The width in pixels.
    pub width: u32,
    /// The height in pixels.
    pub height: u32,
    /// The side the paddle defends; fixed at construction.
    pub side: Sides,
}

/// The value of a default left paddle: centered vertically, one margin off
/// the left edge, of the default size.
pub open spec fn default_left_paddle_spec() -> Paddle {
    Paddle {
        pos: Vec2 { x: DEFAULT_LEFT_CENTER_X, y: (SCREEN_HEIGHT / 2) as i64 },
        width: PADDLE_MARGIN,
        height: DEFAULT_PADDLE_HEIGHT,
        side: Sides::Left,
    }
}

/// The value of a default right paddle, mirroring the left one.
pub open spec fn default_right_paddle_spec() -> Paddle {
    Paddle {
        pos: Vec2 { x: DEFAULT_RIGHT_CENTER_X, y: (SCREEN_HEIGHT / 2) as i64 },
        width: PADDLE_MARGIN,
        height: DEFAULT_PADDLE_HEIGHT,
        side: Sides::Right,
    }
}

impl Paddle {
    /// The position stays within the coordinate bound, so that collision
    /// arithmetic around the paddle provably fits in `i64`.
    pub open spec fn wf(self) -> bool {
        self.pos.in_bounds()
    }

    /// The paddle after one upward step: the center moves up by
    /// [`DEFAULT_PADDLE_SPEED`] unless that would take it above 0.
    pub open spec fn moved_up(self) -> Paddle {
        if self.pos.y >= DEFAULT_PADDLE_SPEED {
            Paddle {
                pos: Vec2 { x: self.pos.x, y: (self.pos.y - DEFAULT_PADDLE_SPEED) as i64 },
                width: self.width,
                height: self.height,
                side: self.side,
            }
        } else {
            self
        }
    }

    /// The paddle after one downward step: the center moves down by
    /// [`DEFAULT_PADDLE_SPEED`] unless that would take it past the arena
    /// height.
    pub open spec fn moved_down(self) -> Paddle {
        if self.pos.y + DEFAULT_PADDLE_SPEED <= SCREEN_HEIGHT {
            Paddle {
                pos: Vec2 { x: self.pos.x, y: (self.pos.y + DEFAULT_PADDLE_SPEED) as i64 },
                width: self.width,
                height: self.height,
                side: self.side,
            }
        } else {
            self
        }
    }

    /// The constructor of a paddle.  The position bound is a machine limit:
    /// it keeps the collision arithmetic free of overflow.
    pub fn new(pos: Vec2, width: u32, height: u32, side: Sides) -> (r: Paddle)
        requires
            pos.in_bounds(),
        ensures
            r == (Paddle { pos, width, height, side }),
    {
        Paddle { pos, width, height, side }
    }

    /// Generates a default left paddle, centered vertically and one margin
    /// off the left edge.
    pub fn default_left_paddle() -> (r: Paddle)
        ensures
            r == default_left_paddle_spec(),
            r.wf(),
    {
        Paddle {
            pos: Vec2 { x: DEFAULT_LEFT_CENTER_X, y: (SCREEN_HEIGHT / 2) as i64 },
            width: PADDLE_MARGIN,
            height: DEFAULT_PADDLE_HEIGHT,
            side: Sides::Left,
        }
    }

    /// Generates a default right paddle, mirroring the left one.
    pub fn default_right_paddle() -> (r: Paddle)
        ensures
            r == default_right_paddle_spec(),
            r.wf(),
    {
        Paddle {
            pos: Vec2 { x: DEFAULT_RIGHT_CENTER_X, y: (SCREEN_HEIGHT / 2) as i64 },
            width: PADDLE_MARGIN,
            height: DEFAULT_PADDLE_HEIGHT,
            side: Sides::Right,
        }
    }

    /// Get the position of the paddle, that is, of its center.
    pub fn get_pos(&self) -> (r: &Vec2)
        ensures
            r == self.pos,
    {
        &self.pos
    }

    /// Get the width of the paddle.
    pub fn get_width(&self) -> (r: u32)
        ensures
            r == self.width,
    {
        self.width
    }

    /// Get the height of the paddle.
    pub fn get_height(&self) -> (r: u32)
        ensures
            r == self.height,
    {
        self.height
    }

    /// Whether the paddle is a left paddle.
    pub fn is_left(&self) -> (r: bool)
        ensures
            r == (self.side is Left),
    {
        match self.side {
            Sides::Left => true,
            Sides::Right => false,
        }
    }

    /// Whether the paddle is a right paddle.
    pub fn is_right(&self) -> (r: bool)
        ensures
            r == (self.side is Right),
    {
        match self.side {
            Sides::Left => false,
            Sides::Right => true,
        }
    }

    /// The method called when an up operation is received.
    pub fn move_up(&mut self)
        requires
            old(self).wf(),
        ensures
            *final(self) == old(self).moved_up(),
            final(self).wf(),
    {
        if self.pos.y >= DEFAULT_PADDLE_SPEED {
            self.pos.y = self.pos.y - DEFAULT_PADDLE_SPEED;
        }
    }

    /// The method called when a down operation is received.
    pub fn move_down(&mut self)
        requires
            old(self).wf(),
        ensures
            *final(self) == old(self).moved_down(),
            final(self).wf(),
    {
        if self.pos.y <= SCREEN_HEIGHT - DEFAULT_PADDLE_SPEED {
            self.pos.y = self.pos.y + DEFAULT_PADDLE_SPEED;
        }
    }
}

/// The paddle after `n` upward steps.
pub open spec fn moved_up_times(p: Paddle, n: nat) -> Paddle
    decreases n,
{
    if n == 0 {
        p
    } else {
        moved_up_times(p, (n - 1) as nat).moved_up()
    }
}

/// The paddle after `n` downward steps.
pub open spec fn moved_down_times(p: Paddle, n: nat) -> Paddle
    decreases n,
{
    if n == 0 {
        p
    } else {
        moved_down_times(p, (n - 1) as nat).moved_down()
    }
}

/// Repeated upward steps never drive the vertical position below 0: a step
/// that would do so is rejected in full.
pub proof fn lemma_repeated_move_up_stays_at_or_above_zero(p: Paddle, n: nat)
    requires
        p.pos.y >= 0,
    ensures
        moved_up_times(p, n).pos.y >= 0,
    decreases n,
{
    if n > 0 {
        lemma_repeated_move_up_stays_at_or_above_zero(p, (n - 1) as nat);
    }
}

/// Repeated downward steps never drive the vertical position past the arena
/// height: a step that would do so is rejected in full.
pub proof fn lemma_repeated_move_down_stays_within_height(p: Paddle, n: nat)
    requires
        p.pos.y <= SCREEN_HEIGHT,
    ensures
        moved_down_times(p, n).pos.y <= SCREEN_HEIGHT,
    decreases n,
{
    if n > 0 {
        lemma_repeated_move_down_stays_within_height(p, (n - 1) as nat);
    }
}

} // verus!
