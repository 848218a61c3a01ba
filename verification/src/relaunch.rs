//! Randomized ball launches: the initial serve and the relaunch that
//! consumes scoring events.
//!
//! A launch picks one of two angular bands — toward the right paddle or
//! toward the left — and a tilt within it. In the milli-scaled direction
//! model a band member is exactly a vector with full horizontal
//! magnitude and a vertical component no larger than it, so the launch
//! can never be steeper than the diagonal (never within 45 degrees of
//! vertical).

use vstd::prelude::*;
use rand::Rng;
use crate::world::{valid_dir, Ball, Dir, World, BALL_SPEED_SLOW, DIR_SCALE};

verus! {

/// Relies on rand::random::<bool>: a fair coin flip; nothing is assumed
/// of the outcome.
#[verifier::external_body]
fn coin_flip() -> bool {
    rand::random::<bool>()
}

/// Relies on rand::Rng::gen_range on an inclusive range: it returns a
/// value uniformly sampled from the range and panics only on an empty
/// range, which the precondition excludes. Only membership in the range
/// is assumed of the outcome.
#[verifier::external_body]
fn draw_in_range(lo: i64, hi: i64) -> (r: i64)
    requires
        lo <= hi,
    ensures
        lo <= r <= hi,
{
    rand::thread_rng().gen_range(lo..=hi)
}

/// The direction for a chosen band and tilt: full horizontal magnitude
/// toward the right paddle when `band_right` holds, else toward the
/// left, with the given vertical tilt.
pub fn launch_dir(band_right: bool, tilt: i64) -> (d: Dir)
    requires
        -DIR_SCALE <= tilt <= DIR_SCALE,
    ensures
        d.x == if band_right { DIR_SCALE as int } else { -DIR_SCALE as int },
        d.y == tilt,
        valid_dir(d.x as int, d.y as int),
{
    Dir { x: if band_right { DIR_SCALE } else { -DIR_SCALE }, y: tilt }
}

/// Draw a fresh launch direction: a uniformly chosen band, then a
/// uniformly chosen tilt within it.
pub fn random_dir() -> (d: Dir)
    ensures
        valid_dir(d.x as int, d.y as int),
{
    let band_right = coin_flip();
    let tilt = draw_in_range(-DIR_SCALE, DIR_SCALE);
    launch_dir(band_right, tilt)
}

/// Every direction a launch can produce, and so every direction the ball
/// ever carries, avoids the near-vertical bands: its vertical component
/// never exceeds its horizontal component in magnitude, and the
/// horizontal component is never zero.
pub proof fn lemma_dir_never_near_vertical(vx: int, vy: int)
    requires
        valid_dir(vx, vy),
    ensures
        (if vy >= 0 { vy } else { -vy }) <= (if vx >= 0 { vx } else { -vx }),
        vx != 0,
{
}

/// Overwrite the ball's direction once per drawn direction, in order:
/// the last drawn direction wins, and a frame without events leaves the
/// ball untouched. Position and speed never change.
pub fn apply_relaunch(ball: &mut Ball, dirs: &Vec<Dir>)
    requires
        forall|i: int|
            0 <= i < dirs@.len() ==> valid_dir(dirs@[i].x as int, dirs@[i].y as int),
    ensures
        final(ball).x == old(ball).x,
        final(ball).y == old(ball).y,
        final(ball).speed == old(ball).speed,
        dirs@.len() > 0 ==> final(ball).vx == dirs@.last().x && final(ball).vy
            == dirs@.last().y,
        dirs@.len() == 0 ==> *final(ball) == *old(ball),
{
    let mut i: usize = 0;
    while i < dirs.len()
        invariant
            0 <= i <= dirs@.len(),
            ball.x == old(ball).x,
            ball.y == old(ball).y,
            ball.speed == old(ball).speed,
            i > 0 ==> ball.vx == dirs@[i - 1].x && ball.vy == dirs@[i - 1].y,
            i == 0 ==> *ball == *old(ball),
        decreases dirs@.len() - i,
    {
        let d = dirs[i];
        ball.vx = d.x;
        ball.vy = d.y;
        i = i + 1;
    }
}

/// Consume this frame's scoring events: draw one fresh direction per
/// event and give the ball the last one, then clear the queue. A frame
/// without events leaves the ball exactly as it was.
pub fn random_ball_dir(world: &mut World)
    requires
        old(world).wf(),
    ensures
        final(world).wf(),
        final(world).events@.len() == 0,
        final(world).ball.x == old(world).ball.x,
        final(world).ball.y == old(world).ball.y,
        final(world).ball.speed == old(world).ball.speed,
        final(world).left_paddle == old(world).left_paddle,
        final(world).right_paddle == old(world).right_paddle,
        final(world).score == old(world).score,
        old(world).events@.len() == 0 ==> final(world).ball == old(world).ball,
        valid_dir(final(world).ball.vx as int, final(world).ball.vy as int),
{
    let n = world.events.len();
    let mut dirs: Vec<Dir> = Vec::new();
    let mut i: usize = 0;
    while i < n
        invariant
            dirs@.len() == i,
            0 <= i <= n,
            forall|j: int|
                0 <= j < dirs@.len() ==> valid_dir(dirs@[j].x as int, dirs@[j].y as int),
        decreases n - i,
    {
        let d = random_dir();
        dirs.push(d);
        i = i + 1;
    }
    apply_relaunch(&mut world.ball, &dirs);
    world.events.clear();
}

/// Set up a fresh game as the court does at startup: everything centered
/// and the ball served in a random launch direction at the slow speed.
pub fn setup_game() -> (w: World)
    ensures
        w.wf(),
        w.ball.x == 0 && w.ball.y == 0,
        w.ball.speed == BALL_SPEED_SLOW,
        w.left_paddle.y == 0 && w.right_paddle.y == 0,
        w.score.left == 0 && w.score.right == 0,
        w.events@.len() == 0,
{
    let dir = random_dir();
    World::new(dir)
}

} // verus!
