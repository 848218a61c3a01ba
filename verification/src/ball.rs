//! Per-frame ball physics: linear motion, wall and paddle bounces, and
//! scoring with a court reset.
//!
//! Each frame the ball advances by `direction * speed * dt` per axis.
//! Crossing a wall flips the vertical component once; overlapping a
//! paddle's collision rectangle flips the horizontal component once; and
//! leaving the court past a scoring edge resets the ball and both
//! paddles to the center, increments the scoring side, and emits exactly
//! one scoring event.

use vstd::prelude::*;
use crate::world::{
    Ball, ScoreEvent, World, BALL_TOP, BALL_Y_LIMIT, MAX_DT_MS, PADDLE_HALF_HEIGHT, PADDLE_WIDTH,
    PADDLE_X, SCORE_EDGE,
};

verus! {

/// Micro-units the ball travels along one axis in `dt` milliseconds: the
/// milli scaling of the direction and the milli scaling of the time
/// together cancel the micro scaling of positions exactly.
pub open spec fn ball_disp(dir: int, speed: int, dt: int) -> int {
    dir * speed * dt
}

/// The ball's horizontal position after plain motion, before bounces and
/// scoring are resolved.
pub open spec fn moved_x(b: Ball, dt: int) -> int {
    b.x + ball_disp(b.vx as int, b.speed as int, dt)
}

/// The ball's vertical position after plain motion.
pub open spec fn moved_y(b: Ball, dt: int) -> int {
    b.y + ball_disp(b.vy as int, b.speed as int, dt)
}

/// The moved ball has reached the top or bottom wall.
pub open spec fn hits_wall(b: Ball, dt: int) -> bool {
    moved_y(b, dt) >= BALL_TOP || moved_y(b, dt) <= -BALL_TOP
}

/// The moved ball overlaps the right paddle's collision rectangle: past
/// the paddle's inner face and within half a paddle height of its center.
pub open spec fn hits_right_paddle(b: Ball, right_y: int, dt: int) -> bool {
    &&& moved_x(b, dt) >= PADDLE_X - PADDLE_WIDTH
    &&& moved_y(b, dt) <= right_y + PADDLE_HALF_HEIGHT
    &&& moved_y(b, dt) >= right_y - PADDLE_HALF_HEIGHT
}

/// The moved ball overlaps the left paddle's collision rectangle.
pub open spec fn hits_left_paddle(b: Ball, left_y: int, dt: int) -> bool {
    &&& moved_x(b, dt) <= -PADDLE_X + PADDLE_WIDTH
    &&& moved_y(b, dt) <= left_y + PADDLE_HALF_HEIGHT
    &&& moved_y(b, dt) >= left_y - PADDLE_HALF_HEIGHT
}

/// The moved ball has passed the right scoring edge: the left side scores.
pub open spec fn scores_left(b: Ball, dt: int) -> bool {
    moved_x(b, dt) >= SCORE_EDGE
}

/// The moved ball has passed the left scoring edge: the right side scores.
pub open spec fn scores_right(b: Ball, dt: int) -> bool {
    moved_x(b, dt) <= -SCORE_EDGE
}

/// One frame of ball physics.
///
/// The contract pins every field of the next state: the vertical
/// direction flips exactly once when the moved ball is at or past a wall
/// (never twice, the walls being disjoint), the horizontal direction
/// flips exactly once on paddle overlap, the squared direction magnitude
/// is preserved, and on a score the ball and both paddles return to the
/// center, the scoring side's counter rises by one, and exactly one
/// event is appended; otherwise positions follow plain motion and the
/// score and queue are untouched.
pub fn move_ball_system(world: &mut World, dt: i64)
    requires
        old(world).wf(),
        0 <= dt <= MAX_DT_MS,
        -BALL_Y_LIMIT <= old(world).ball.y <= BALL_Y_LIMIT,
        old(world).score.left < u32::MAX,
        old(world).score.right < u32::MAX,
    ensures
        final(world).wf(),
        final(world).ball.speed == old(world).ball.speed,
        // Wall reflection: the vertical direction flips exactly once in a
        // frame whose motion reaches a wall, else not at all.
        final(world).ball.vy == if hits_wall(old(world).ball, dt as int) {
            -old(world).ball.vy as int
        } else {
            old(world).ball.vy as int
        },
        // Paddle reflection: the horizontal direction flips exactly once
        // in a frame whose motion overlaps a paddle, else not at all.
        final(world).ball.vx == if hits_right_paddle(
            old(world).ball,
            old(world).right_paddle.y as int,
            dt as int,
        ) || hits_left_paddle(old(world).ball, old(world).left_paddle.y as int, dt as int) {
            -old(world).ball.vx as int
        } else {
            old(world).ball.vx as int
        },
        // Reflections preserve the direction's squared magnitude.
        final(world).ball.vx * final(world).ball.vx + final(world).ball.vy * final(world).ball.vy
            == old(world).ball.vx * old(world).ball.vx + old(world).ball.vy * old(world).ball.vy,
        // A left-side score: full court reset, one counter up, one event.
        scores_left(old(world).ball, dt as int) ==> {
            &&& final(world).ball.x == 0 && final(world).ball.y == 0
            &&& final(world).left_paddle.y == 0 && final(world).right_paddle.y == 0
            &&& final(world).score.left == old(world).score.left + 1
            &&& final(world).score.right == old(world).score.right
            &&& final(world).events@ == old(world).events@.push(ScoreEvent)
        },
        // A right-side score, symmetrically.
        scores_right(old(world).ball, dt as int) ==> {
            &&& final(world).ball.x == 0 && final(world).ball.y == 0
            &&& final(world).left_paddle.y == 0 && final(world).right_paddle.y == 0
            &&& final(world).score.left == old(world).score.left
            &&& final(world).score.right == old(world).score.right + 1
            &&& final(world).events@ == old(world).events@.push(ScoreEvent)
        },
        // No score: plain motion stands, nothing else moves.
        !scores_left(old(world).ball, dt as int) && !scores_right(old(world).ball, dt as int)
            ==> {
            &&& final(world).ball.x == moved_x(old(world).ball, dt as int)
            &&& final(world).ball.y == moved_y(old(world).ball, dt as int)
            &&& final(world).left_paddle.y == old(world).left_paddle.y
            &&& final(world).right_paddle.y == old(world).right_paddle.y
            &&& final(world).score == old(world).score
            &&& final(world).events@ == old(world).events@
        },
{
    proof {
        let vx0 = world.ball.vx as int;
        let vy0 = world.ball.vy as int;
        let sp0 = world.ball.speed as int;
        assert(-2_000_000 <= vx0 * sp0 <= 2_000_000) by (nonlinear_arith)
            requires
                -1000 <= vx0 <= 1000,
                0 <= sp0 <= 2000,
        ;
        assert(-2_000_000 <= vy0 * sp0 <= 2_000_000) by (nonlinear_arith)
            requires
                -1000 <= vy0 <= 1000,
                0 <= sp0 <= 2000,
        ;
    }
    let step_x: i64 = world.ball.vx * world.ball.speed;
    let step_y: i64 = world.ball.vy * world.ball.speed;
    proof {
        let sx = step_x as int;
        let sy = step_y as int;
        let t = dt as int;
        assert(-2_000_000_000_000 <= sx * t <= 2_000_000_000_000) by (nonlinear_arith)
            requires
                -2_000_000 <= sx <= 2_000_000,
                0 <= t <= 1_000_000,
        ;
        assert(-2_000_000_000_000 <= sy * t <= 2_000_000_000_000) by (nonlinear_arith)
            requires
                -2_000_000 <= sy <= 2_000_000,
                0 <= t <= 1_000_000,
        ;
    }
    world.ball.x = world.ball.x + step_x * dt;
    world.ball.y = world.ball.y + step_y * dt;

    if world.ball.y >= BALL_TOP {
        world.ball.vy = -world.ball.vy;
    }
    if world.ball.y <= -BALL_TOP {
        world.ball.vy = -world.ball.vy;
    }

    if world.ball.x >= PADDLE_X - PADDLE_WIDTH
        && world.ball.y <= world.right_paddle.y + PADDLE_HALF_HEIGHT
        && world.ball.y >= world.right_paddle.y - PADDLE_HALF_HEIGHT {
        world.ball.vx = -world.ball.vx;
    }
    if world.ball.x <= -PADDLE_X + PADDLE_WIDTH
        && world.ball.y <= world.left_paddle.y + PADDLE_HALF_HEIGHT
        && world.ball.y >= world.left_paddle.y - PADDLE_HALF_HEIGHT {
        world.ball.vx = -world.ball.vx;
    }

    if world.ball.x >= SCORE_EDGE {
        world.ball.x = 0;
        world.ball.y = 0;
        world.left_paddle.y = 0;
        world.right_paddle.y = 0;
        world.score.left = world.score.left + 1;
        world.events.push(ScoreEvent);
    }
    if world.ball.x <= -SCORE_EDGE {
        world.ball.x = 0;
        world.ball.y = 0;
        world.left_paddle.y = 0;
        world.right_paddle.y = 0;
        world.score.right = world.score.right + 1;
        world.events.push(ScoreEvent);
    }
    proof {
        let vx0 = old(world).ball.vx as int;
        let vy0 = old(world).ball.vy as int;
        let vx1 = world.ball.vx as int;
        let vy1 = world.ball.vy as int;
        assert(vx1 * vx1 + vy1 * vy1 == vx0 * vx0 + vy0 * vy0) by (nonlinear_arith)
            requires
                vx1 == vx0 || vx1 == -vx0,
                vy1 == vy0 || vy1 == -vy0,
        ;
    }
}

} // verus!
