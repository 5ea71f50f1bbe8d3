//! A headless engine for a side-scrolling bird game.
//!
//! The bird falls under gravity, the player gives it upward impulses, pipes
//! scroll past from the right, and the game ends when the bird touches a
//! pipe, the ceiling or the floor. The engine owns all game state and knows
//! nothing about clocks, canvases or input devices: a host calls
//! [`game::Game::update`] once per tick and forwards the player's intents.
//!
//! All lengths are fixed-point integers (see [`fixed`]), so every rule of
//! the game is exact integer arithmetic.
//!
//! - [`difficulty`]: how speed, gravity and gap height depend on the score.
//! - [`pipe`] and [`collision`]: the obstacles and what it means to hit one.
//! - [`game`]: the state machine and the tick.
//! - [`theorems`]: what follows for whole sessions.
//! - [`render`] and [`text`]: the picture of a frame, as drawing commands
//!   for a host to carry out.
//! - [`assets`]: the order in which a host loads the images.

pub mod fixed;
pub mod difficulty;
pub mod pipe;
pub mod collision;
pub mod game;
pub mod theorems;
pub mod render;
pub mod text;
pub mod assets;
mod random;
