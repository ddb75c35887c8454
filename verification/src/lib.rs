//! A minimal two-dimensional Pong-style simulation core.
//!
//! Paddles on the left and right side of a fixed rectangular arena deflect
//! balls that move with a per-frame velocity.  Top and bottom edges bounce a
//! ball back; a ball that fully crosses the left or right boundary ends the
//! round and scores a point for the opposite side.  Rendering and input
//! collection are external collaborators: they feed per-frame movement
//! operations into [`game::Game::update`] and read paddle and ball state back
//! for drawing.
//!
//! All coordinates are in pixels, all speeds in pixels per frame.

pub mod ball;
pub mod game;
pub mod game_mode;
pub mod operation;
pub mod paddle;
mod rng;
pub mod scene;
pub mod vec2;
