//! The world of one match: ball, players, paddles, configuration and
//! state, owned by a single struct passed through the tick pipeline.

use vstd::prelude::*;

use crate::components::{Ball, BallV, Paddle, Player, PlayerV, Side};
use crate::math::{V2, Vec2};
use crate::resources::{COORD_LIMIT, ConfigV, GameConfig, GameState, StateV};

verus! {

/// Everything a match owns.  The entity set is fixed: one ball and two
/// player/paddle pairs, one pair per side.
pub struct World {
    pub ball: Ball,
    pub player_left: Player,
    pub paddle_left: Paddle,
    pub player_right: Player,
    pub paddle_right: Paddle,
    pub config: GameConfig,
    pub state: GameState,
}

/// Mathematical image of a [`World`].
pub ghost struct WorldV {
    pub ball: BallV,
    pub player_left: PlayerV,
    pub paddle_left_speed: int,
    pub player_right: PlayerV,
    pub paddle_right_speed: int,
    pub config: ConfigV,
    pub state: StateV,
}

impl WorldV {
    /// A well-formed world: a usable configuration, non-negative paddle
    /// speeds, and each player on the side the field expects.
    pub open spec fn wf(self) -> bool {
        &&& self.config.wf()
        &&& 0 <= self.paddle_left_speed
        &&& 0 <= self.paddle_right_speed
        &&& self.player_left.side == Side::Left
        &&& self.player_right.side == Side::Right
    }
}

impl View for World {
    type V = WorldV;

    open spec fn view(&self) -> WorldV {
        WorldV {
            ball: self.ball@,
            player_left: self.player_left@,
            paddle_left_speed: self.paddle_left.speed as int,
            player_right: self.player_right@,
            paddle_right_speed: self.paddle_right.speed as int,
            config: self.config@,
            state: self.state@,
        }
    }
}

impl World {
    /// Sets up a fresh match: scores at zero, paddles centred vertically
    /// and standing 10 units in from their side's edge, and the ball at
    /// the field's centre moving diagonally at the configured speed.
    pub fn new(config: GameConfig, half_width: i64) -> (w: World)
        requires
            config@.wf(),
            10 <= half_width <= COORD_LIMIT,
        ensures
            w@.wf(),
            w@.config == config@,
            w@.ball.pos == (V2 { x: 0, y: 0 }),
            w@.ball.vel == (V2 { x: config@.ball_speed, y: config@.ball_speed }),
            w@.player_left == (PlayerV {
                side: Side::Left,
                score: 0,
                pos: V2 { x: -(half_width - 10), y: 0 },
            }),
            w@.player_right == (PlayerV {
                side: Side::Right,
                score: 0,
                pos: V2 { x: half_width - 10, y: 0 },
            }),
            w@.paddle_left_speed == config@.paddle_speed,
            w@.paddle_right_speed == config@.paddle_speed,
            w@.state == (StateV { score_left: 0, score_right: 0, running: false }),
    {
        let edge: i64 = half_width - 10;
        World {
            ball: Ball {
                position: Vec2 { x: 0, y: 0 },
                velocity: Vec2 { x: config.ball_speed, y: config.ball_speed },
            },
            player_left: Player {
                side: Side::Left,
                score: 0,
                position: Vec2 { x: -edge, y: 0 },
            },
            paddle_left: Paddle { speed: config.paddle_speed },
            player_right: Player {
                side: Side::Right,
                score: 0,
                position: Vec2 { x: edge, y: 0 },
            },
            paddle_right: Paddle { speed: config.paddle_speed },
            config,
            state: GameState { score_left: 0, score_right: 0, running: false },
        }
    }
}

} // verus!
