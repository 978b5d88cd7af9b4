//! Verified simulation core of a two-player Pong match.
//!
//! The crate advances ball and paddle positions tick by tick, detects and
//! resolves ball-paddle and ball-wall collisions, and tracks scoring.  All
//! geometry is carried out over whole world units (`i64`), so every step is
//! exact and every function carries a proved contract relating it to a
//! mathematical model over unbounded integers.
//!
//! The engine around a match (windowing, rendering, input devices, logging)
//! is not part of this crate: a caller resolves each player's input to a
//! direction in `{-1, 0, 1}`, measures the elapsed time and the field
//! extents, and hands them to [`systems::tick`] once per frame.

pub mod components;
pub mod laws;
pub mod math;
pub mod resources;
pub mod systems;
pub mod world;
