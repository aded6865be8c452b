//! The entities of the game and their fixed coordinates: the ball, the three
//! walls, the paddle, and the score.

use vstd::prelude::*;
use crate::geom::{V2, Vec2};

verus! {

/// Micro-units per world unit: the scale of every position.
pub const POS_UNIT: i64 = 1_000_000;

/// Milli-units per world unit: the scale of every velocity direction
/// (per second).
pub const VEL_UNIT: i64 = 1_000;

/// Milliseconds per second. `VEL_UNIT * MS_PER_SECOND == POS_UNIT`, so one
/// frame of motion, `dir * speed_multiplier * dt_ms`, lands exactly on the
/// position scale.
pub const MS_PER_SECOND: i64 = 1_000;

/// The baseline speed multiplier, restored after every frame of motion.
pub const DEFAULT_SPEED: i64 = 50;

/// Half the ball's width and height (the ball is a 10 x 10 unit box).
pub const BALL_HALF: i64 = 5 * POS_UNIT;

/// Half a horizontal wall's width (horizontal walls are 600 x 10 units).
pub const WALL_HALF_LONG: i64 = 300 * POS_UNIT;

/// Half a wall's thickness.
pub const WALL_HALF_SHORT: i64 = 5 * POS_UNIT;

/// Half the paddle's width (the paddle is a 100 x 10 unit box).
pub const PADDLE_HALF_X: i64 = 50 * POS_UNIT;

/// Half the paddle's height.
pub const PADDLE_HALF_Y: i64 = 5 * POS_UNIT;

/// Distance of each wall's center line from the origin.
pub const WALL_DIST: i64 = 300 * POS_UNIT;

/// The paddle's fixed height below the play field.
pub const PADDLE_Y: i64 = -290 * POS_UNIT;

/// The ball's spawn height: where it starts and where it is put back after
/// going out of bounds.
pub const SPAWN_Y: i64 = -250 * POS_UNIT;

/// How far the paddle moves for one held key in one frame.
pub const PADDLE_STEP: i64 = 10 * POS_UNIT;

/// The paddle's half-width plus the ball's half-width: the margin the
/// movement check keeps from the field edge.
pub const PADDLE_REACH: i64 = 75 * POS_UNIT;

/// The field's half-width plus the ball's half-width: the outer line the
/// movement check measures against.
pub const FIELD_LIMIT: i64 = 325 * POS_UNIT;

/// The paddle's center x never leaves [-PADDLE_CENTER_BOUND,
/// PADDLE_CENTER_BOUND]: the field limit minus the paddle's reach, with one
/// step of slack on the side the check releases.
pub const PADDLE_CENTER_BOUND: i64 = 275 * POS_UNIT;

/// The three walls, by identity. The bottom is open: no wall stands there.
#[derive(Clone, Copy, PartialEq, Eq, Structural, Debug)]
pub enum WallId {
    Top,
    Right,
    Left,
}

/// The one ball: where it is, which way it points, and how fast it moves.
#[derive(Clone, Copy, PartialEq, Eq, Structural, Debug)]
pub struct Ball {
    /// Center position, in micro-units.
    pub pos: Vec2,
    /// Velocity direction, in milli-units per second.
    pub dir: Vec2,
    /// Transient speed scale; `DEFAULT_SPEED` unless a collision doubled it
    /// this frame.
    pub speed_multiplier: i64,
}

/// The mathematical model of the ball.
pub struct BallModel {
    pub pos: V2,
    pub dir: V2,
    pub mult: int,
}

impl View for Ball {
    type V = BallModel;

    open spec fn view(&self) -> BallModel {
        BallModel { pos: self.pos@, dir: self.dir@, mult: self.speed_multiplier as int }
    }
}

impl Ball {
    /// A ball at the spawn point with the given direction and the baseline
    /// speed multiplier.
    pub fn at_spawn(dir: Vec2) -> (b: Ball)
        ensures
            b.pos.x == 0,
            b.pos.y == SPAWN_Y,
            b.dir == dir,
            b.speed_multiplier == DEFAULT_SPEED,
    {
        Ball { pos: Vec2 { x: 0, y: SPAWN_Y }, dir, speed_multiplier: DEFAULT_SPEED }
    }
}

impl Default for Ball {
    /// A resting ball: zero direction, baseline speed multiplier.
    fn default() -> (b: Ball)
        ensures
            b.pos.x == 0 && b.pos.y == 0,
            b.dir.x == 0 && b.dir.y == 0,
            b.speed_multiplier == DEFAULT_SPEED,
    {
        Ball {
            pos: Vec2 { x: 0, y: 0 },
            dir: Vec2 { x: 0, y: 0 },
            speed_multiplier: DEFAULT_SPEED,
        }
    }
}

/// The player's paddle.
#[derive(Clone, Debug)]
pub struct Paddle {
    /// Center position, in micro-units; only x ever changes.
    pub pos: Vec2,
    /// Display name.
    pub name: String,
}

/// The mathematical model of the paddle.
pub struct PaddleModel {
    pub pos: V2,
    pub name: Seq<char>,
}

impl View for Paddle {
    type V = PaddleModel;

    open spec fn view(&self) -> PaddleModel {
        PaddleModel { pos: self.pos@, name: self.name@ }
    }
}

/// The process-wide score: (player points, opponent points).
#[derive(Clone, Copy, Debug)]
pub struct GameState {
    pub score: (u32, u32),
}

/// The mathematical model of the score.
pub struct StateModel {
    pub player: int,
    pub opponent: int,
}

impl View for GameState {
    type V = StateModel;

    open spec fn view(&self) -> StateModel {
        StateModel { player: self.score.0 as int, opponent: self.score.1 as int }
    }
}

impl Default for GameState {
    fn default() -> (s: GameState)
        ensures
            s.score.0 == 0,
            s.score.1 == 0,
    {
        GameState { score: (0, 0) }
    }
}

/// Everything one frame of simulation reads and writes. The three walls are
/// fixed for the life of the game and carry no state, so they are not stored:
/// they are the variants of `WallId`.
pub struct World {
    pub ball: Ball,
    pub paddle: Paddle,
    pub state: GameState,
}

/// The mathematical model of the whole game.
pub struct WorldModel {
    pub ball: BallModel,
    pub paddle: PaddleModel,
    pub state: StateModel,
}

impl View for World {
    type V = WorldModel;

    open spec fn view(&self) -> WorldModel {
        WorldModel { ball: self.ball@, paddle: self.paddle@, state: self.state@ }
    }
}

impl World {
    /// The world as startup leaves it: the ball at the spawn point with the
    /// given direction, the paddle centered below the field, no points.
    pub fn new(dir: Vec2) -> (w: World)
        ensures
            w.ball.pos.x == 0 && w.ball.pos.y == SPAWN_Y,
            w.ball.dir == dir,
            w.ball.speed_multiplier == DEFAULT_SPEED,
            w.paddle.pos.x == 0 && w.paddle.pos.y == PADDLE_Y,
            w.paddle.name@ == "Player"@,
            w.state.score.0 == 0 && w.state.score.1 == 0,
    {
        World {
            ball: Ball::at_spawn(dir),
            paddle: Paddle {
                pos: Vec2 { x: 0, y: PADDLE_Y },
                name: "Player".to_string(),
            },
            state: GameState { score: (0, 0) },
        }
    }
}

} // verus!
