//! The scene: paddles, balls, and the per-frame update.
//!
//! A frame update drains the operation queue (moving the addressed paddles),
//! then advances every ball in order: integrate its position, bounce it off
//! the top or bottom edge, bounce it off every colliding paddle, and check
//! whether it has left the arena on the left or right, which decides the
//! winner of the round.  When several balls exit in one frame, the last one
//! in iteration order decides.

use crate::ball::{Ball, Collision};
use crate::operation::{Operation, OperationTypes};
use crate::paddle::{default_left_paddle_spec, default_right_paddle_spec, Paddle, Sides};
use vstd::prelude::*;

verus! {

/// The default screen width.
pub const SCREEN_WIDTH: i64 = 800;
/// The default screen height.
pub const SCREEN_HEIGHT: i64 = 600;

/// The default margin on the left and the right of the screen: the distance
/// between a default paddle's outer edge and the arena edge behind it.
pub const PADDLE_MARGIN: u32 = crate::paddle::DEFAULT_PADDLE_WIDTH;

/// The 4 edges of the scene.
#[derive(Clone, Copy, Debug, PartialEq, Eq, Structural)]
pub enum Edges {
    /// The top edge.
    Top,
    /// The bottom edge.
    Bottom,
    /// The left edge.
    Left,
    /// The right edge.
    Right,
}

/// One paddle after one operation type is applied to it.
pub open spec fn op_applied(p: Paddle, t: OperationTypes) -> Paddle {
    match t {
        OperationTypes::Up => p.moved_up(),
        OperationTypes::Down => p.moved_down(),
        OperationTypes::Stay => p,
    }
}

/// Both paddle columns after one operation.  A `Stay` operation touches
/// nothing, not even an out-of-range index.
pub open spec fn apply_op(lps: Seq<Paddle>, rps: Seq<Paddle>, op: Operation) -> (
    Seq<Paddle>,
    Seq<Paddle>,
) {
    if op.op_type is Stay {
        (lps, rps)
    } else {
        match op.side {
            Sides::Left => (lps.update(op.index as int, op_applied(lps[op.index as int], op.op_type)), rps),
            Sides::Right => (lps, rps.update(op.index as int, op_applied(rps[op.index as int], op.op_type))),
        }
    }
}

/// Both paddle columns after the whole queue is drained.  The queue is
/// consumed from its back, so the last queued operation is applied first.
pub open spec fn apply_ops(lps: Seq<Paddle>, rps: Seq<Paddle>, ops: Seq<Operation>) -> (
    Seq<Paddle>,
    Seq<Paddle>,
)
    decreases ops.len(),
{
    if ops.len() == 0 {
        (lps, rps)
    } else {
        let stepped = apply_op(lps, rps, ops.last());
        apply_ops(stepped.0, stepped.1, ops.drop_last())
    }
}

/// A ball after the top/bottom edge check: if it overlaps the top or the
/// bottom edge it bounces off that edge, otherwise it is unchanged.
pub open spec fn edge_checked(b: Ball) -> Ball {
    if b.pos.y < b.radius {
        b.bounced(Collision::WithEdge(Edges::Top))
    } else if b.pos.y > SCREEN_HEIGHT - b.radius {
        b.bounced(Collision::WithEdge(Edges::Bottom))
    } else {
        b
    }
}

/// A ball after bouncing off every colliding paddle of `ps` from index `i`
/// on, in order.  A ball can legally bounce several times in one frame.
pub open spec fn paddles_passed(b: Ball, ps: Seq<Paddle>, i: int) -> Ball
    decreases ps.len() - i,
{
    if i < 0 || i >= ps.len() {
        b
    } else {
        let b2 = if b.collides_with_spec(ps[i]) {
            b.bounced(Collision::WithPaddle(ps[i].side))
        } else {
            b
        };
        paddles_passed(b2, ps, i + 1)
    }
}

/// One ball after a whole frame: position integration, the edge check, then
/// every left paddle and every right paddle in order.
pub open spec fn ball_updated(b: Ball, lps: Seq<Paddle>, rps: Seq<Paddle>) -> Ball {
    paddles_passed(paddles_passed(edge_checked(b.integrated()), lps, 0), rps, 0)
}

/// The ball has fully crossed the left boundary: the right side wins.
pub open spec fn out_on_the_left(b: Ball) -> bool {
    b.pos.x + b.radius < 0
}

/// The ball has fully crossed the right boundary: the left side wins.
pub open spec fn out_on_the_right(b: Ball) -> bool {
    b.pos.x - b.radius > SCREEN_WIDTH
}

/// The winner decided by the first `n` balls, checked in order with the last
/// write winning: the highest-indexed out-of-bounds ball decides.
pub open spec fn winner_prefix(balls: Seq<Ball>, n: int) -> Option<Sides>
    decreases n,
{
    if n <= 0 {
        None
    } else {
        let b = balls[n - 1];
        if out_on_the_left(b) {
            Some(Sides::Right)
        } else if out_on_the_right(b) {
            Some(Sides::Left)
        } else {
            winner_prefix(balls, n - 1)
        }
    }
}

/// The winner only depends on the first `n` balls.
proof fn lemma_winner_prefix_agree(s1: Seq<Ball>, s2: Seq<Ball>, n: int)
    requires
        n <= s1.len(),
        n <= s2.len(),
        forall|j: int| 0 <= j < n ==> s1[j] == s2[j],
    ensures
        winner_prefix(s1, n) == winner_prefix(s2, n),
    decreases n,
{
    if n > 0 {
        lemma_winner_prefix_agree(s1, s2, n - 1);
    }
}

/// The scene: the left paddles, the right paddles and the balls.  Edges are
/// not stored since there are always the same 4 edges.
pub struct Scene {
    /// The vector containing all left paddles.
    pub left_paddles: Vec<Paddle>,
    /// The vector containing all right paddles.
    pub right_paddles: Vec<Paddle>,
    /// The vector containing all balls.
    pub balls: Vec<Ball>,
}

impl Scene {
    /// Every paddle and ball is well formed, so that one frame of collision
    /// arithmetic provably fits in `i64`.
    pub open spec fn wf(self) -> bool {
        &&& (forall|i: int|
            0 <= i < self.left_paddles@.len() ==> (#[trigger] self.left_paddles@[i]).wf())
        &&& (forall|i: int|
            0 <= i < self.right_paddles@.len() ==> (#[trigger] self.right_paddles@[i]).wf())
        &&& (forall|i: int| 0 <= i < self.balls@.len() ==> (#[trigger] self.balls@[i]).wf())
    }

    /// Every non-`Stay` operation addresses an existing paddle.  An
    /// out-of-range index is a defect of the caller's input layer, so it is
    /// a precondition, not a recoverable error.
    pub open spec fn ops_in_bounds(self, ops: Seq<Operation>) -> bool {
        forall|i: int|
            0 <= i < ops.len() ==> {
                let op = #[trigger] ops[i];
                !(op.op_type is Stay) ==> match op.side {
                    Sides::Left => op.index < self.left_paddles@.len(),
                    Sides::Right => op.index < self.right_paddles@.len(),
                }
            }
    }

    /// Both paddle columns of this scene after the queue `ops` is drained.
    pub open spec fn paddles_after(self, ops: Seq<Operation>) -> (Seq<Paddle>, Seq<Paddle>) {
        apply_ops(self.left_paddles@, self.right_paddles@, ops)
    }

    /// The balls of this scene after one frame driven by `ops`.
    pub open spec fn balls_after(self, ops: Seq<Operation>) -> Seq<Ball> {
        let ps = self.paddles_after(ops);
        self.balls@.map_values(|b: Ball| ball_updated(b, ps.0, ps.1))
    }

    /// The winner, if any, of one frame driven by `ops`.
    pub open spec fn winner_after(self, ops: Seq<Operation>) -> Option<Sides> {
        winner_prefix(self.balls_after(ops), self.balls@.len() as int)
    }

    /// Add balls into the scene.  The bound on their velocities is a machine
    /// limit: it keeps the bounce arithmetic free of overflow.
    pub fn add_balls(&mut self, balls: Vec<Ball>)
        requires
            forall|i: int| 0 <= i < balls@.len() ==> (#[trigger] balls@[i]).wf(),
        ensures
            final(self).balls@ == old(self).balls@ + balls@,
            final(self).left_paddles@ == old(self).left_paddles@,
            final(self).right_paddles@ == old(self).right_paddles@,
            old(self).wf() ==> final(self).wf(),
    {
        let mut balls = balls;
        self.balls.append(&mut balls);
    }

    /// Clear all balls in the scene.
    pub fn clear_balls(&mut self)
        ensures
            final(self).balls@.len() == 0,
            final(self).left_paddles@ == old(self).left_paddles@,
            final(self).right_paddles@ == old(self).right_paddles@,
            old(self).wf() ==> final(self).wf(),
    {
        self.balls.clear();
    }

    /// First clear all balls, then add the provided balls.
    pub fn reset_balls(&mut self, balls: Vec<Ball>)
        requires
            forall|i: int| 0 <= i < balls@.len() ==> (#[trigger] balls@[i]).wf(),
        ensures
            final(self).balls@ == balls@,
            final(self).left_paddles@ == old(self).left_paddles@,
            final(self).right_paddles@ == old(self).right_paddles@,
            old(self).wf() ==> final(self).wf(),
    {
        self.clear_balls();
        self.add_balls(balls);
        proof {
            assert(self.balls@ =~= balls@);
        }
    }

    /// Add left paddles to the scene.  The position bound is a machine
    /// limit: it keeps the collision arithmetic free of overflow.
    pub fn add_left_paddles(&mut self, paddles: Vec<Paddle>)
        requires
            forall|i: int| 0 <= i < paddles@.len() ==> (#[trigger] paddles@[i]).wf(),
        ensures
            final(self).left_paddles@ == old(self).left_paddles@ + paddles@,
            final(self).right_paddles@ == old(self).right_paddles@,
            final(self).balls@ == old(self).balls@,
            old(self).wf() ==> final(self).wf(),
    {
        let mut paddles = paddles;
        self.left_paddles.append(&mut paddles);
    }

    /// Add right paddles to the scene.
    pub fn add_right_paddles(&mut self, paddles: Vec<Paddle>)
        requires
            forall|i: int| 0 <= i < paddles@.len() ==> (#[trigger] paddles@[i]).wf(),
        ensures
            final(self).right_paddles@ == old(self).right_paddles@ + paddles@,
            final(self).left_paddles@ == old(self).left_paddles@,
            final(self).balls@ == old(self).balls@,
            old(self).wf() ==> final(self).wf(),
    {
        let mut paddles = paddles;
        self.right_paddles.append(&mut paddles);
    }

    /// Clear all left paddles in the scene.
    pub fn clear_left_paddles(&mut self)
        ensures
            final(self).left_paddles@.len() == 0,
            final(self).right_paddles@ == old(self).right_paddles@,
            final(self).balls@ == old(self).balls@,
            old(self).wf() ==> final(self).wf(),
    {
        self.left_paddles.clear();
    }

    /// Clear all right paddles in the scene.
    pub fn clear_right_paddles(&mut self)
        ensures
            final(self).right_paddles@.len() == 0,
            final(self).left_paddles@ == old(self).left_paddles@,
            final(self).balls@ == old(self).balls@,
            old(self).wf() ==> final(self).wf(),
    {
        self.right_paddles.clear();
    }

    /// First clear all left paddles, then add the provided left paddles.
    pub fn reset_left_paddles(&mut self, paddles: Vec<Paddle>)
        requires
            forall|i: int| 0 <= i < paddles@.len() ==> (#[trigger] paddles@[i]).wf(),
        ensures
            final(self).left_paddles@ == paddles@,
            final(self).right_paddles@ == old(self).right_paddles@,
            final(self).balls@ == old(self).balls@,
            old(self).wf() ==> final(self).wf(),
    {
        self.clear_left_paddles();
        self.add_left_paddles(paddles);
        proof {
            assert(self.left_paddles@ =~= paddles@);
        }
    }

    /// First clear all right paddles, then add the provided right paddles.
    pub fn reset_right_paddles(&mut self, paddles: Vec<Paddle>)
        requires
            forall|i: int| 0 <= i < paddles@.len() ==> (#[trigger] paddles@[i]).wf(),
        ensures
            final(self).right_paddles@ == paddles@,
            final(self).left_paddles@ == old(self).left_paddles@,
            final(self).balls@ == old(self).balls@,
            old(self).wf() ==> final(self).wf(),
    {
        self.clear_right_paddles();
        self.add_right_paddles(paddles);
        proof {
            assert(self.right_paddles@ =~= paddles@);
        }
    }

    /// Clear all paddles in the scene.
    pub fn clear_paddles(&mut self)
        ensures
            final(self).left_paddles@.len() == 0,
            final(self).right_paddles@.len() == 0,
            final(self).balls@ == old(self).balls@,
            old(self).wf() ==> final(self).wf(),
    {
        self.clear_left_paddles();
        self.clear_right_paddles();
    }

    /// Whether there is no left paddle in the scene.
    pub fn has_no_left_paddles(&self) -> (r: bool)
        ensures
            r == (self.left_paddles@.len() == 0),
    {
        self.left_paddles.is_empty()
    }

    /// Whether there is no right paddle in the scene.
    pub fn has_no_right_paddles(&self) -> (r: bool)
        ensures
            r == (self.right_paddles@.len() == 0),
    {
        self.right_paddles.is_empty()
    }

    /// Whether there is no ball in the scene.
    pub fn has_no_balls(&self) -> (r: bool)
        ensures
            r == (self.balls@.len() == 0),
    {
        self.balls.is_empty()
    }

    /// Get all left paddles in the scene.
    pub fn get_left_paddles(&self) -> (r: &Vec<Paddle>)
        ensures
            r == self.left_paddles,
    {
        &self.left_paddles
    }

    /// Get all right paddles in the scene.
    pub fn get_right_paddles(&self) -> (r: &Vec<Paddle>)
        ensures
            r == self.right_paddles,
    {
        &self.right_paddles
    }

    /// Get all balls in the scene.
    pub fn get_balls(&self) -> (r: &Vec<Ball>)
        ensures
            r == self.balls,
    {
        &self.balls
    }

    /// Construct the scene of a default game: two default paddles per side
    /// and two balls launched from the center in random directions.
    pub fn construct_default_scene_with_2_balls(rng: &mut rand::rngs::ThreadRng) -> (r: Scene)
        ensures
            r.left_paddles@.len() == 2,
            forall|i: int| 0 <= i < 2 ==> r.left_paddles@[i] == default_left_paddle_spec(),
            r.right_paddles@.len() == 2,
            forall|i: int| 0 <= i < 2 ==> r.right_paddles@[i] == default_right_paddle_spec(),
            r.balls@.len() == 2,
            forall|i: int| 0 <= i < 2 ==> crate::ball::is_centered_launch(#[trigger] r.balls@[i]),
            r.wf(),
    {
        let mut left_paddles: Vec<Paddle> = Vec::new();
        left_paddles.push(Paddle::default_left_paddle());
        left_paddles.push(Paddle::default_left_paddle());
        let mut right_paddles: Vec<Paddle> = Vec::new();
        right_paddles.push(Paddle::default_right_paddle());
        right_paddles.push(Paddle::default_right_paddle());
        let mut balls: Vec<Ball> = Vec::new();
        balls.push(Ball::random_centered_ball(rng));
        balls.push(Ball::random_centered_ball(rng));
        Scene { left_paddles, right_paddles, balls }
    }

    /// Update the scene given a queue of operations; each operation is
    /// applied exactly once and the queue is left empty.  Returns the winner
    /// of the current round if a ball left the arena.
    #[verifier::loop_isolation(false)]
    pub fn update_scene(&mut self, ops: &mut Vec<Operation>) -> (winner: Option<Sides>)
        requires
            old(self).wf(),
            old(self).ops_in_bounds(old(ops)@),
        ensures
            final(ops)@.len() == 0,
            final(self).left_paddles@.len() == old(self).left_paddles@.len(),
            final(self).right_paddles@.len() == old(self).right_paddles@.len(),
            final(self).balls@.len() == old(self).balls@.len(),
            final(self).left_paddles@ == old(self).paddles_after(old(ops)@).0,
            final(self).right_paddles@ == old(self).paddles_after(old(ops)@).1,
            final(self).balls@ == old(self).balls_after(old(ops)@),
            winner == old(self).winner_after(old(ops)@),
            final(self).wf(),
    {
        let ghost l0 = self.left_paddles@;
        let ghost r0 = self.right_paddles@;
        let ghost ops0 = ops@;
        let ghost balls0 = self.balls@;
        proof {
            assert(ops@ =~= ops0.subrange(0, ops@.len() as int));
        }

        // Drain the queue from the back, moving each addressed paddle.
        while ops.len() != 0
            invariant
                self.balls@ == balls0,
                self.left_paddles@.len() == l0.len(),
                self.right_paddles@.len() == r0.len(),
                forall|i: int|
                    0 <= i < self.left_paddles@.len() ==> (#[trigger] self.left_paddles@[i]).wf(),
                forall|i: int|
                    0 <= i < self.right_paddles@.len() ==> (#[trigger] self.right_paddles@[i]).wf(),
                ops@.len() <= ops0.len(),
                ops@ == ops0.subrange(0, ops@.len() as int),
                apply_ops(self.left_paddles@, self.right_paddles@, ops@) == apply_ops(l0, r0, ops0),
            decreases ops.len(),
        {
            let ghost prev_l = self.left_paddles@;
            let ghost prev_r = self.right_paddles@;
            let ghost prev_ops = ops@;
            let op = ops.pop().unwrap();
            proof {
                assert(op == prev_ops.last());
                assert(ops0.subrange(0, prev_ops.len() as int)[prev_ops.len() - 1] == ops0[prev_ops.len()
                    - 1]);
                assert(op == ops0[prev_ops.len() - 1]);
                assert(ops@ =~= ops0.subrange(0, ops@.len() as int));
                assert(ops@ =~= prev_ops.drop_last());
            }
            match op.op_type {
                OperationTypes::Stay => {},
                _ => {
                    match op.side {
                        Sides::Left => {
                            let mut p = self.left_paddles[op.index];
                            match op.op_type {
                                OperationTypes::Up => p.move_up(),
                                OperationTypes::Down => p.move_down(),
                                OperationTypes::Stay => {},
                            }
                            self.left_paddles.set(op.index, p);
                        },
                        Sides::Right => {
                            let mut p = self.right_paddles[op.index];
                            match op.op_type {
                                OperationTypes::Up => p.move_up(),
                                OperationTypes::Down => p.move_down(),
                                OperationTypes::Stay => {},
                            }
                            self.right_paddles.set(op.index, p);
                        },
                    }
                },
            }
            proof {
                let stepped = apply_op(prev_l, prev_r, op);
                assert(self.left_paddles@ == stepped.0);
                assert(self.right_paddles@ == stepped.1);
                assert(apply_ops(prev_l, prev_r, prev_ops) == apply_ops(
                    self.left_paddles@,
                    self.right_paddles@,
                    ops@,
                ));
            }
        }
        proof {
            assert(ops@ =~= Seq::<Operation>::empty());
            assert(self.left_paddles@ == apply_ops(l0, r0, ops0).0);
            assert(self.right_paddles@ == apply_ops(l0, r0, ops0).1);
        }

        let ghost lps = self.left_paddles@;
        let ghost rps = self.right_paddles@;

        // Advance every ball and look for a side that has won.
        let mut winner: Option<Sides> = None;
        let mut i: usize = 0;
        while i < self.balls.len()
            invariant
                i <= balls0.len(),
                self.balls@.len() == balls0.len(),
                self.left_paddles@ == lps,
                self.right_paddles@ == rps,
                forall|j: int|
                    0 <= j < i ==> self.balls@[j] == ball_updated(balls0[j], lps, rps),
                forall|j: int| i <= j < balls0.len() ==> self.balls@[j] == balls0[j],
                forall|j: int| 0 <= j < self.balls@.len() ==> (#[trigger] self.balls@[j]).wf(),
                winner == winner_prefix(self.balls@, i as int),
            decreases balls0.len() - i,
        {
            let ghost balls_entry = self.balls@;
            let mut b = self.balls[i];
            let radius = b.radius as i64;
            b.update_pos();

            // Detect collision with the top and bottom edges.
            if b.pos.y < radius {
                b.bounce_after_collision(Collision::WithEdge(Edges::Top));
            } else if b.pos.y > SCREEN_HEIGHT - radius {
                b.bounce_after_collision(Collision::WithEdge(Edges::Bottom));
            }
            proof {
                assert(b == edge_checked(balls0[i as int].integrated()));
            }

            // Bounce off every colliding left paddle.
            let ghost b_left_entry = b;
            let mut j: usize = 0;
            while j < self.left_paddles.len()
                invariant
                    j <= lps.len(),
                    self.left_paddles@ == lps,
                    b.wf(),
                    paddles_passed(b, lps, j as int) == paddles_passed(b_left_entry, lps, 0),
                decreases lps.len() - j,
            {
                let p = self.left_paddles[j];
                if let Some(c) = b.collides_with(&p) {
                    b.bounce_after_collision(c);
                }
                j = j + 1;
            }
            proof {
                assert(b == paddles_passed(b_left_entry, lps, 0));
            }

            // Bounce off every colliding right paddle.
            let ghost b_right_entry = b;
            let mut k: usize = 0;
            while k < self.right_paddles.len()
                invariant
                    k <= rps.len(),
                    self.right_paddles@ == rps,
                    b.wf(),
                    paddles_passed(b, rps, k as int) == paddles_passed(b_right_entry, rps, 0),
                decreases rps.len() - k,
            {
                let p = self.right_paddles[k];
                if let Some(c) = b.collides_with(&p) {
                    b.bounce_after_collision(c);
                }
                k = k + 1;
            }
            proof {
                assert(b == paddles_passed(b_right_entry, rps, 0));
                assert(b == ball_updated(balls0[i as int], lps, rps));
            }

            // Detect whether this ball has left the arena and decided the
            // round.  The radius never changes during the frame, but the
            // check reads it back from the updated ball.
            let radius_end = b.radius as i64;
            if b.pos.x < -radius_end {
                winner = Some(Sides::Right);
            } else if b.pos.x > SCREEN_WIDTH + radius_end {
                winner = Some(Sides::Left);
            }

            self.balls.set(i, b);
            proof {
                lemma_winner_prefix_agree(balls_entry, self.balls@, i as int);
                assert(winner == winner_prefix(self.balls@, i as int + 1));
            }
            i = i + 1;
        }
        proof {
            assert(self.balls@ =~= old(self).balls_after(ops0));
            assert(winner == old(self).winner_after(ops0));
        }
        winner
    }
}

impl Default for Scene {
    /// An empty scene: no paddles and no balls.
    fn default() -> (r: Scene)
        ensures
            r.left_paddles@.len() == 0,
            r.right_paddles@.len() == 0,
            r.balls@.len() == 0,
            r.wf(),
    {
        Scene { left_paddles: Vec::new(), right_paddles: Vec::new(), balls: Vec::new() }
    }
}

} // verus!
