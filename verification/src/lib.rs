//! Simulation core of a grid-based snake game.
//!
//! The library models the tick-driven state machine that advances the snake,
//! detects wall collisions, consumes food and grows the body. Window
//! management, rendering and the keyboard event loop are left to a driver
//! that mutates the state through the public operations and reads it back
//! to draw each frame.

pub mod game_context;
