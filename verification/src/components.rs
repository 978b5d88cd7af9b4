//! The entities of a match: the ball, the paddles and the players.

use vstd::prelude::*;

use crate::math::{V2, Vec2};

verus! {

/// Which side of the field a player defends.
#[derive(Clone, Copy, Debug, PartialEq, Eq, Structural)]
pub enum Side {
    Left,
    Right,
}

/// The ball: a world position and a signed velocity per axis.
///
/// Exactly one ball exists per match.  It is re-centred whenever a side
/// scores, and after a paddle bounce its speed never falls below
/// [`crate::systems::MIN_BOUNCE_SPEED`].
#[derive(Clone, Copy, Debug, PartialEq, Eq, Structural)]
pub struct Ball {
    pub position: Vec2,
    pub velocity: Vec2,
}

/// Mathematical image of a [`Ball`].
pub ghost struct BallV {
    pub pos: V2,
    pub vel: V2,
}

impl View for Ball {
    type V = BallV;

    open spec fn view(&self) -> BallV {
        BallV { pos: self.position@, vel: self.velocity@ }
    }
}

/// A paddle: its maximum linear speed, in world units per time unit.
#[derive(Clone, Copy, Debug, PartialEq, Eq, Structural)]
pub struct Paddle {
    pub speed: i64,
}

/// A player: the side they defend, their score, and their paddle's
/// centre position.
///
/// Exactly two players exist, one per side.  The vertical position is
/// moved only by [`crate::systems::handle_paddle_input`], which clamps it
/// so the paddle stays inside the field.
#[derive(Clone, Copy, Debug, PartialEq, Eq, Structural)]
pub struct Player {
    pub side: Side,
    pub score: u32,
    pub position: Vec2,
}

/// Mathematical image of a [`Player`].
pub ghost struct PlayerV {
    pub side: Side,
    pub score: int,
    pub pos: V2,
}

impl View for Player {
    type V = PlayerV;

    open spec fn view(&self) -> PlayerV {
        PlayerV { side: self.side, score: self.score as int, pos: self.position@ }
    }
}

/// Which edge of the field a wall covers.
#[derive(Clone, Copy, Debug, PartialEq, Eq, Structural)]
pub enum WallSide {
    Top,
    Bottom,
    Left,
    Right,
}

/// A wall entity, one per field edge.
///
/// A placeholder: no system reads it yet.  Were it used, its geometry
/// would have to be derived from the field extents handed to each tick,
/// never fixed independently of them.
#[derive(Clone, Copy, Debug, PartialEq, Eq, Structural)]
pub struct Wall {
    pub side: WallSide,
}

} // verus!
