//! Court geometry, game state, and its well-formedness invariant.
//!
//! Lengths are in micro-units: one court unit is `1_000_000` micro-units.
//! The court is 800 by 600 units, matching an 800x600 window whose origin
//! is at the center. Directions are milli-scaled vectors: a direction's
//! horizontal component always has magnitude `DIR_SCALE`, and its vertical
//! component stays within `[-DIR_SCALE, DIR_SCALE]`, so the ball never
//! travels steeper than the diagonal. Time is in milliseconds.

use vstd::prelude::*;

verus! {

/// Micro-units per court unit.
pub const MICRO: i64 = 1_000_000;

/// Half the court width (the window is 800 units wide).
pub const COURT_HALF_WIDTH: i64 = 400 * MICRO;

/// Half the court height (the window is 600 units tall).
pub const COURT_HALF_HEIGHT: i64 = 300 * MICRO;

/// Half a paddle's vertical extent (paddles are 10 by 100 units).
pub const PADDLE_HALF_HEIGHT: i64 = 50 * MICRO;

/// A paddle's full horizontal extent, used for the collision plane.
pub const PADDLE_WIDTH: i64 = 10 * MICRO;

/// Half the ball's extent (the ball sprite is 20 units square).
pub const BALL_HALF_SIZE: i64 = 10 * MICRO;

/// Gap kept between the court walls and moving pieces.
pub const EDGE_MARGIN: i64 = 20 * MICRO;

/// Horizontal distance of each paddle's center from the court center.
pub const PADDLE_X: i64 = COURT_HALF_WIDTH - EDGE_MARGIN;

/// Highest legal paddle center: court half-height minus half a paddle
/// minus the wall margin.
pub const PADDLE_TOP: i64 = COURT_HALF_HEIGHT - PADDLE_HALF_HEIGHT - EDGE_MARGIN;

/// Vertical position at which the ball bounces off a wall.
pub const BALL_TOP: i64 = COURT_HALF_HEIGHT - BALL_HALF_SIZE - EDGE_MARGIN;

/// Horizontal position past which the ball has left the court and a side
/// has scored.
pub const SCORE_EDGE: i64 = COURT_HALF_WIDTH - BALL_HALF_SIZE;

/// Scale of direction components: a direction is a milli-scaled vector.
pub const DIR_SCALE: i64 = 1000;

/// Paddle travel speed under key control, in units per second.
pub const PADDLE_SPEED: i64 = 700;

/// Ball speed in units per second at launch and in single-tracker mode.
pub const BALL_SPEED_SLOW: i64 = 200;

/// Ball speed in units per second when both paddles track the ball.
pub const BALL_SPEED_FAST: i64 = 2000;

/// Longest frame time a single step accepts, in milliseconds.
pub const MAX_DT_MS: i64 = 1_000_000;

/// Bound on any stored coordinate; wide enough that one more frame of
/// motion can never overflow an `i64`.
pub const POS_LIMIT: i64 = 4_000_000_000_000_000;

/// Bound on the ball's vertical position required before a ball step; one
/// step from here stays within `POS_LIMIT`.
pub const BALL_Y_LIMIT: i64 = 1_000_000_000_000_000;

/// Which control scheme drives the paddles, fixed at startup.
#[derive(Clone, Copy, PartialEq, Eq, Structural, Debug)]
pub enum Config {
    /// Both paddles follow their key pairs.
    Player,
    /// The left paddle tracks the ball; the right follows its keys.
    AiOne,
    /// Whichever paddle is on the ball's side tracks the ball.
    AiBoth,
}

/// Held state of the four paddle keys for one frame.
#[derive(Clone, Copy, PartialEq, Eq, Structural, Debug)]
pub struct Keys {
    pub left_up: bool,
    pub left_down: bool,
    pub right_up: bool,
    pub right_down: bool,
}

/// A launch direction: milli-scaled vector components.
#[derive(Clone, Copy, PartialEq, Eq, Structural, Debug)]
pub struct Dir {
    pub x: i64,
    pub y: i64,
}

/// The ball: center position in micro-units, milli-scaled direction, and
/// speed in units per second.
#[derive(Clone, Copy, PartialEq, Eq, Structural, Debug)]
pub struct Ball {
    pub x: i64,
    pub y: i64,
    pub vx: i64,
    pub vy: i64,
    pub speed: i64,
}

/// A paddle's vertical center position in micro-units; its horizontal
/// position is fixed at `PADDLE_X` or `-PADDLE_X` by its side.
#[derive(Clone, Copy, PartialEq, Eq, Structural, Debug)]
pub struct Paddle {
    pub y: i64,
}

/// The running score of both sides.
#[derive(Clone, Copy, PartialEq, Eq, Structural, Debug, Default)]
pub struct Score {
    pub left: u32,
    pub right: u32,
}

/// A scoring signal, produced by the ball step and consumed by the
/// relaunch pass within the same frame.
#[derive(Clone, Copy, PartialEq, Eq, Structural, Debug)]
pub struct ScoreEvent;

/// A direction never steeper than the diagonal: full horizontal
/// magnitude, bounded vertical component. Every angle in the two launch
/// bands has this shape, and flipping a component's sign preserves it.
pub open spec fn valid_dir(vx: int, vy: int) -> bool {
    &&& (vx == DIR_SCALE || vx == -DIR_SCALE)
    &&& -DIR_SCALE <= vy <= DIR_SCALE
}

/// The whole game state for one session. Holding exactly one ball and
/// one paddle per side as plain fields makes the uniqueness invariant of
/// the entity store hold by construction.
pub struct World {
    pub ball: Ball,
    pub left_paddle: Paddle,
    pub right_paddle: Paddle,
    pub score: Score,
    pub events: Vec<ScoreEvent>,
}

impl World {
    /// Well-formedness: the ball's direction lies in a launch band, its
    /// speed is one of the two configured speeds, its horizontal position
    /// has not left the court, and every coordinate is far from overflow.
    pub open spec fn wf(self) -> bool {
        &&& valid_dir(self.ball.vx as int, self.ball.vy as int)
        &&& (self.ball.speed == BALL_SPEED_SLOW || self.ball.speed == BALL_SPEED_FAST)
        &&& -SCORE_EDGE <= self.ball.x <= SCORE_EDGE
        &&& -POS_LIMIT <= self.ball.y <= POS_LIMIT
        &&& -POS_LIMIT <= self.left_paddle.y <= POS_LIMIT
        &&& -POS_LIMIT <= self.right_paddle.y <= POS_LIMIT
    }

    /// A fresh court: ball centered with the given launch direction at
    /// the slow speed, paddles centered, scores zero, no pending events.
    pub fn new(dir: Dir) -> (w: World)
        requires
            valid_dir(dir.x as int, dir.y as int),
        ensures
            w.wf(),
            w.ball.x == 0 && w.ball.y == 0,
            w.ball.vx == dir.x && w.ball.vy == dir.y,
            w.ball.speed == BALL_SPEED_SLOW,
            w.left_paddle.y == 0 && w.right_paddle.y == 0,
            w.score.left == 0 && w.score.right == 0,
            w.events@.len() == 0,
    {
        World {
            ball: Ball { x: 0, y: 0, vx: dir.x, vy: dir.y, speed: BALL_SPEED_SLOW },
            left_paddle: Paddle { y: 0 },
            right_paddle: Paddle { y: 0 },
            score: Score { left: 0, right: 0 },
            events: Vec::new(),
        }
    }
}

} // verus!
