//! A two-player Pong simulation: ball and paddle physics, collisions, scoring
//! and the countdown / play round cycle, proved correct with Verus.
//!
//! Lengths are integers in nano-units (a billionth of a logical window
//! unit), durations are nanoseconds and velocities are nano-units per second.
pub mod config;
pub mod collision;
pub mod ball;
pub mod paddle;
pub mod play;
pub mod countdown;
pub mod game_state;
mod random;
