//! Match-wide resources: the static configuration and the mutable state.

use vstd::prelude::*;

verus! {

/// Coordinates handed to the simulation stay within this bound, so that
/// every sum and difference of two coordinates fits an `i64`.
pub const COORD_LIMIT: i64 = 1_000_000_000_000;

/// Velocity components handed to the collision stage stay within this
/// bound, so that a squared speed fits an `i64`.
pub const VEL_LIMIT: i64 = 1_000_000_000;

/// Configured sizes stay within this bound, so that overlap tests and the
/// spin formula cannot overflow.
pub const SIZE_LIMIT: i64 = 1_000_000;

/// Static tunables of a match, set once at startup and read-only after.
///
/// Speeds are in world units per time unit, sizes in world units.
#[derive(Clone, Copy, Debug, PartialEq, Eq, Structural)]
pub struct GameConfig {
    pub paddle_speed: i64,
    pub ball_speed: i64,
    pub paddle_height: i64,
    pub paddle_width: i64,
    pub ball_size: i64,
}

/// Mathematical image of a [`GameConfig`].
pub ghost struct ConfigV {
    pub paddle_speed: int,
    pub ball_speed: int,
    pub paddle_height: int,
    pub paddle_width: int,
    pub ball_size: int,
}

impl ConfigV {
    /// A usable configuration: speeds non-negative, sizes non-negative and
    /// small enough that no tick arithmetic overflows, and the paddle at
    /// least two units tall so its half-height is positive.
    pub open spec fn wf(self) -> bool {
        &&& 0 <= self.paddle_speed
        &&& 0 <= self.ball_speed <= VEL_LIMIT
        &&& 2 <= self.paddle_height <= SIZE_LIMIT
        &&& 0 <= self.paddle_width <= SIZE_LIMIT
        &&& 0 <= self.ball_size <= SIZE_LIMIT
    }
}

impl View for GameConfig {
    type V = ConfigV;

    open spec fn view(&self) -> ConfigV {
        ConfigV {
            paddle_speed: self.paddle_speed as int,
            ball_speed: self.ball_speed as int,
            paddle_height: self.paddle_height as int,
            paddle_width: self.paddle_width as int,
            ball_size: self.ball_size as int,
        }
    }
}

impl Default for GameConfig {
    /// The stock configuration: paddle speed 300, ball speed 400,
    /// paddles 20 by 100, ball 20 by 20.
    fn default() -> (c: Self)
        ensures
            c.paddle_speed == 300,
            c.ball_speed == 400,
            c.paddle_height == 100,
            c.paddle_width == 20,
            c.ball_size == 20,
            c@.wf(),
    {
        GameConfig {
            paddle_speed: 300,
            ball_speed: 400,
            paddle_height: 100,
            paddle_width: 20,
            ball_size: 20,
        }
    }
}

/// Mutable match state: the two score counters and the running flag.
///
/// The scores are raised only by
/// [`crate::systems::handle_ball_wall_collision`]; the running flag
/// belongs to match control outside this crate.
#[derive(Clone, Copy, Debug, PartialEq, Eq, Structural)]
pub struct GameState {
    pub score_left: u32,
    pub score_right: u32,
    pub running: bool,
}

/// Mathematical image of a [`GameState`].
pub ghost struct StateV {
    pub score_left: int,
    pub score_right: int,
    pub running: bool,
}

impl View for GameState {
    type V = StateV;

    open spec fn view(&self) -> StateV {
        StateV {
            score_left: self.score_left as int,
            score_right: self.score_right as int,
            running: self.running,
        }
    }
}

impl Default for GameState {
    /// A fresh state: both scores zero, the match not yet running.
    fn default() -> (s: Self)
        ensures
            s.score_left == 0,
            s.score_right == 0,
            !s.running,
    {
        GameState { score_left: 0, score_right: 0, running: false }
    }
}

} // verus!
