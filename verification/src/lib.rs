//! Core simulation for a two-paddle arcade game: paddle motion, ball motion
//! with wall and paddle collision, scoring, win detection, and the top-level
//! match phase machine. All quantities are fixed-point integers in
//! milli-units (one pixel = 1000 units, one second = 1000 milliseconds).

pub mod arith;
pub mod audio;
pub mod ball;
pub mod game;
pub mod phase;
pub mod consts;
pub mod geom;
pub mod paddle;
pub mod rng;
pub mod trig;
