//! The game: a scene, a run/pause state, and a persistent score tally.
//!
//! `start` refuses to run a game whose scene lacks balls or paddles on
//! either side.  `update` advances the scene one frame while the game runs;
//! when a ball leaves the arena the game pauses itself and the winning
//! side's score grows by one.

use crate::ball::{is_centered_launch, Ball};
use crate::operation::Operation;
use crate::paddle::{default_left_paddle_spec, default_right_paddle_spec, Paddle, Sides};
use crate::scene::Scene;
use vstd::prelude::*;
use vstd::string::StringExecFns;

verus! {

/// The state of the game is either running or paused.
#[derive(Clone, Copy, Debug, PartialEq, Eq, Structural)]
pub enum GameState {
    Paused,
    Running,
}

/// The error text for starting a game without a ball.
pub open spec fn no_balls_error() -> Seq<char> {
    "Error: you cannot start a game without a ball."@
}

/// The error text for starting a game without a left paddle.
pub open spec fn no_left_paddles_error() -> Seq<char> {
    "Error: you cannot start a game without a left paddle."@
}

/// The error text for starting a game without a right paddle.
pub open spec fn no_right_paddles_error() -> Seq<char> {
    "Error: you cannot start a game without a right paddle."@
}

/// The game struct.
pub struct Game {
    /// Whether the game is running or paused.
    pub state: GameState,
    /// The scene the game plays in.
    pub scene: Scene,
    /// The score tally: (left side, right side).
    pub scores: (u32, u32),
    /// The random source for launching balls, owned by the game.
    pub rng: rand::rngs::ThreadRng,
}

impl Game {
    /// The scene is well formed.
    pub open spec fn wf(self) -> bool {
        self.scene.wf()
    }

    /// Constructs a game: paused, with an empty scene and an even score.
    pub fn new() -> (r: Game)
        ensures
            r.state is Paused,
            r.scene.left_paddles@.len() == 0,
            r.scene.right_paddles@.len() == 0,
            r.scene.balls@.len() == 0,
            r.scores == (0u32, 0u32),
            r.wf(),
    {
        Game {
            state: GameState::Paused,
            scene: Scene::default(),
            scores: (0, 0),
            rng: crate::rng::fresh_rng(),
        }
    }

    /// Sets the state of the game.
    pub fn set_state(&mut self, state: GameState)
        ensures
            final(self).state == state,
            final(self).scene == old(self).scene,
            final(self).scores == old(self).scores,
            final(self).rng == old(self).rng,
    {
        self.state = state;
    }

    /// Sets the scene of the game.
    pub fn set_scene(&mut self, scene: Scene)
        ensures
            final(self).scene == scene,
            final(self).state == old(self).state,
            final(self).scores == old(self).scores,
            final(self).rng == old(self).rng,
    {
        self.scene = scene;
    }

    /// Sets the current scoreboard of the game.
    pub fn set_scores(&mut self, scores: (u32, u32))
        ensures
            final(self).scores == scores,
            final(self).state == old(self).state,
            final(self).scene == old(self).scene,
            final(self).rng == old(self).rng,
    {
        self.scores = scores;
    }

    /// Starts the game.  Fails with a descriptive error — and leaves the
    /// state alone — when the scene has no ball, no left paddle or no right
    /// paddle; the first missing collection in that order names the error.
    pub fn start(&mut self) -> (r: Result<(), String>)
        ensures
            final(self).scene == old(self).scene,
            final(self).scores == old(self).scores,
            final(self).rng == old(self).rng,
            (r is Ok) <==> (old(self).scene.balls@.len() > 0 && old(self).scene.left_paddles@.len()
                > 0 && old(self).scene.right_paddles@.len() > 0),
            r is Ok ==> final(self).state is Running,
            r is Err ==> final(self).state == old(self).state,
            old(self).scene.balls@.len() == 0 ==> (r matches Err(m) && m@ == no_balls_error()),
            old(self).scene.balls@.len() > 0 && old(self).scene.left_paddles@.len() == 0 ==> (
            r matches Err(m) && m@ == no_left_paddles_error()),
            old(self).scene.balls@.len() > 0 && old(self).scene.left_paddles@.len() > 0
                && old(self).scene.right_paddles@.len() == 0 ==> (r matches Err(m) && m@
                == no_right_paddles_error()),
    {
        if self.scene.has_no_balls() {
            return Err(String::from_str("Error: you cannot start a game without a ball."));
        } else if self.scene.has_no_left_paddles() {
            return Err(String::from_str("Error: you cannot start a game without a left paddle."));
        } else if self.scene.has_no_right_paddles() {
            return Err(String::from_str("Error: you cannot start a game without a right paddle."));
        }
        self.state = GameState::Running;
        Ok(())
    }

    /// Update the game by updating the scene.  While paused this is a
    /// no-op returning no winner, whatever operations are queued.  While
    /// running it advances the scene one frame; a winner pauses the game
    /// and scores one point.  The score bound is a machine limit.
    pub fn update(&mut self, ops: &mut Vec<Operation>) -> (winner: Option<Sides>)
        requires
            old(self).wf(),
            old(self).state is Running ==> old(self).scene.ops_in_bounds(old(ops)@),
            old(self).state is Running ==> old(self).scores.0 < u32::MAX && old(self).scores.1
                < u32::MAX,
        ensures
            final(self).wf(),
            old(self).state is Paused ==> winner is None && *final(self) == *old(self)
                && final(ops)@ == old(ops)@,
            old(self).state is Running ==> {
                &&& winner == old(self).scene.winner_after(old(ops)@)
                &&& final(ops)@.len() == 0
                &&& final(self).rng == old(self).rng
                &&& final(self).scene.left_paddles@.len() == old(self).scene.left_paddles@.len()
                &&& final(self).scene.right_paddles@.len() == old(self).scene.right_paddles@.len()
                &&& final(self).scene.balls@.len() == old(self).scene.balls@.len()
                &&& final(self).scene.left_paddles@ == old(self).scene.paddles_after(old(ops)@).0
                &&& final(self).scene.right_paddles@ == old(self).scene.paddles_after(old(ops)@).1
                &&& final(self).scene.balls@ == old(self).scene.balls_after(old(ops)@)
                &&& (winner is None ==> final(self).state is Running
                    && final(self).scores == old(self).scores)
                &&& (winner == Some(Sides::Left) ==> final(self).state is Paused
                    && final(self).scores.0 == old(self).scores.0 + 1
                    && final(self).scores.1 == old(self).scores.1)
                &&& (winner == Some(Sides::Right) ==> final(self).state is Paused
                    && final(self).scores.1 == old(self).scores.1 + 1
                    && final(self).scores.0 == old(self).scores.0)
            },
    {
        match self.state {
            GameState::Running => {
                let winner = self.scene.update_scene(ops);
                if let Some(w) = winner {
                    self.state = GameState::Paused;
                    match w {
                        Sides::Left => {
                            self.scores = (self.scores.0 + 1, self.scores.1);
                        },
                        Sides::Right => {
                            self.scores = (self.scores.0, self.scores.1 + 1);
                        },
                    }
                }
                winner
            },
            GameState::Paused => None,
        }
    }

    /// Get the number of left paddles.
    pub fn get_left_paddle_count(&self) -> (r: usize)
        ensures
            r == self.scene.left_paddles@.len(),
    {
        self.get_left_paddles().len()
    }

    /// Get the number of right paddles.
    pub fn get_right_paddle_count(&self) -> (r: usize)
        ensures
            r == self.scene.right_paddles@.len(),
    {
        self.get_right_paddles().len()
    }

    /// Get all left paddles in the scene.
    pub fn get_left_paddles(&self) -> (r: &Vec<Paddle>)
        ensures
            r == self.scene.left_paddles,
    {
        self.scene.get_left_paddles()
    }

    /// Get all right paddles in the scene.
    pub fn get_right_paddles(&self) -> (r: &Vec<Paddle>)
        ensures
            r == self.scene.right_paddles,
    {
        self.scene.get_right_paddles()
    }

    /// Get all balls in the scene.
    pub fn get_balls(&self) -> (r: &Vec<Ball>)
        ensures
            r == self.scene.balls,
    {
        self.scene.get_balls()
    }

    /// Starts a default game: two default paddles per side and two balls
    /// launched from the center.  The fresh scene is never empty, so the
    /// start cannot fail.
    pub fn start_default_game_with_2_balls(&mut self)
        ensures
            final(self).state is Running,
            final(self).scene.left_paddles@.len() == 2,
            forall|i: int|
                0 <= i < 2 ==> final(self).scene.left_paddles@[i] == default_left_paddle_spec(),
            final(self).scene.right_paddles@.len() == 2,
            forall|i: int|
                0 <= i < 2 ==> final(self).scene.right_paddles@[i] == default_right_paddle_spec(),
            final(self).scene.balls@.len() == 2,
            forall|i: int| 0 <= i < 2 ==> is_centered_launch(#[trigger] final(self).scene.balls@[i]),
            final(self).scores == old(self).scores,
            final(self).wf(),
    {
        let scene = Scene::construct_default_scene_with_2_balls(&mut self.rng);
        self.scene = scene;
        let started = self.start();
        if started.is_err() {
            proof {
                assert(false);
            }
        }
    }
}

} // verus!
