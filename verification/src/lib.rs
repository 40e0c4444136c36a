//! Verified core of a small 2D platformer prototype.
//!
//! The host game engine owns windowing, rendering, physics resolution and the
//! frame scheduler; this crate holds the per-frame decision logic that the
//! prototype adds on top of it: the player motion controller (horizontal
//! movement, a bounded multi-jump state machine, sprite and facing selection),
//! a drifting-sprite demo, and a repeating frame timer.
//!
//! All quantities are fixed point: time is counted in milliseconds and
//! distance in milliunits (one thousandth of a world unit), so a speed of 400
//! units per second is 400 milliunits per millisecond.

pub mod player;
pub mod sprite_motion;
pub mod timer;

pub use player::Player;
