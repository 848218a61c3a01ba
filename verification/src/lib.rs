//! A verified core for a two-paddle pong game.
//!
//! The library holds the per-frame gameplay simulation: paddle motion
//! (player keys or scripted tracking), ball physics with wall and paddle
//! bounces, scoring with court reset, score display text, and the
//! randomized ball relaunch after a score.
//!
//! All geometry is carried in integer micro-units (one court unit is
//! `1_000_000` micro-units) so that every position update is exact; the
//! ball's direction is a pair of milli-scaled components whose horizontal
//! part always has full magnitude, which keeps the launch-band invariant
//! (never steeper than the diagonal) a plain algebraic fact.

pub mod ball;
pub mod display;
pub mod frame;
pub mod paddle;
pub mod relaunch;
pub mod world;
