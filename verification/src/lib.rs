//! An alien-shooter reflex game for a multiplexed 8x8 RGB LED matrix.
//!
//! The crate holds the game rules, the framebuffer and the serial protocol
//! that feeds the matrix one line at a time. It touches no hardware: the
//! display functions return the register operations to perform, and the
//! interrupt handlers are plain functions over a [`game::GameState`] that the
//! caller owns.

pub mod pixel;
pub mod port;
pub mod matrix;
pub mod link;
pub mod game;
pub mod handlers;
pub mod sweep;
pub mod rules;
pub mod diag;
pub mod led;
