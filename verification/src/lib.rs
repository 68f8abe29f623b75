//! Input, timing and camera core for a real-time rendering loop.
//!
//! The crate models the per-frame heart of a renderer: a frame clock that
//! accumulates scaled wall-clock time, an input tracker with edge-triggered
//! key state, an event dispatcher that routes raw window events, and a
//! free-fly camera that derives its orientation vectors and matrices from
//! yaw and pitch.  All quantities are fixed-point integers carrying three
//! decimal places, so every computation here is exact and verified; the
//! windowing, GPU and UI collaborators live outside the crate and exchange
//! plain values with it.

pub mod camera;
pub mod clock;
pub mod fixed;
pub mod input;
pub mod main_loop;
