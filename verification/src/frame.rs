//! One whole scheduled frame: paddle motion, then ball physics, then the
//! score display projection, then the relaunch pass that consumes this
//! frame's scoring events.
//!
//! The contract composes the systems' contracts in the scheduled order,
//! so a caller sees each frame leave the event queue empty, the score
//! counters moved by exactly the points scored this frame, and the
//! display text equal to the new counters.

use vstd::prelude::*;
use crate::ball::{
    hits_left_paddle, hits_right_paddle, hits_wall, move_ball_system, moved_x, moved_y,
    scores_left, scores_right,
};
use crate::display::{dec_chars, update_score_system};
use crate::paddle::{move_paddle_system, paddle_disp, player_move};
use crate::relaunch::random_ball_dir;
use crate::world::{
    Ball, Config, Keys, World, BALL_SPEED_FAST, BALL_SPEED_SLOW, BALL_Y_LIMIT, MAX_DT_MS,
};

verus! {

/// The ball speed in force once paddle motion has run: key control keeps
/// the current speed, the tracking modes pin it.
pub open spec fn speed_in_mode(cfg: Config, speed: int) -> int {
    match cfg {
        Config::Player => speed,
        Config::AiOne => BALL_SPEED_SLOW as int,
        Config::AiBoth => BALL_SPEED_FAST as int,
    }
}

/// The ball as the physics step sees it: paddle motion only ever changes
/// its speed.
pub open spec fn ball_at_step(w: World, cfg: Config) -> Ball {
    Ball {
        x: w.ball.x,
        y: w.ball.y,
        vx: w.ball.vx,
        vy: w.ball.vy,
        speed: speed_in_mode(cfg, w.ball.speed as int) as i64,
    }
}

/// Where the left paddle stands when the physics step runs.
pub open spec fn left_at_step(w: World, keys: Keys, dt: int, cfg: Config) -> int {
    match cfg {
        Config::Player => player_move(
            w.left_paddle.y as int,
            keys.left_up,
            keys.left_down,
            paddle_disp(dt),
        ),
        Config::AiOne => w.ball.y as int,
        Config::AiBoth => if w.ball.x <= 0 {
            w.ball.y as int
        } else {
            w.left_paddle.y as int
        },
    }
}

/// Where the right paddle stands when the physics step runs.
pub open spec fn right_at_step(w: World, keys: Keys, dt: int, cfg: Config) -> int {
    match cfg {
        Config::Player => player_move(
            w.right_paddle.y as int,
            keys.right_up,
            keys.right_down,
            paddle_disp(dt),
        ),
        Config::AiOne => player_move(
            w.right_paddle.y as int,
            keys.right_up,
            keys.right_down,
            paddle_disp(dt),
        ),
        Config::AiBoth => if w.ball.x > 0 {
            w.ball.y as int
        } else {
            w.right_paddle.y as int
        },
    }
}

/// The left side scores this frame.
pub open spec fn frame_scores_left(w: World, cfg: Config, dt: int) -> bool {
    scores_left(ball_at_step(w, cfg), dt)
}

/// The right side scores this frame.
pub open spec fn frame_scores_right(w: World, cfg: Config, dt: int) -> bool {
    scores_right(ball_at_step(w, cfg), dt)
}

/// Run the four systems in their scheduled order for one frame and
/// return the score text to display, left then right.
///
/// Every frame ends with the event queue empty — an event is consumed in
/// the frame it is produced, or, had one been left pending, the frame
/// after. The score moves by exactly the points scored this frame and
/// the returned text is its decimal notation. On a score everything is
/// back at the center; otherwise positions follow the motion and bounce
/// rules, and when no relaunch consumed an event the ball's direction is
/// pinned by the bounce rules alone.
pub fn frame(world: &mut World, keys: Keys, dt: i64, cfg: Config) -> (texts: (String, String))
    requires
        old(world).wf(),
        0 <= dt <= MAX_DT_MS,
        -BALL_Y_LIMIT <= old(world).ball.y <= BALL_Y_LIMIT,
        old(world).score.left < u32::MAX,
        old(world).score.right < u32::MAX,
    ensures
        final(world).wf(),
        final(world).events@.len() == 0,
        final(world).ball.speed == speed_in_mode(cfg, old(world).ball.speed as int),
        final(world).score.left == old(world).score.left + if frame_scores_left(
            *old(world),
            cfg,
            dt as int,
        ) {
            1int
        } else {
            0int
        },
        final(world).score.right == old(world).score.right + if frame_scores_right(
            *old(world),
            cfg,
            dt as int,
        ) {
            1int
        } else {
            0int
        },
        texts.0@ == dec_chars(final(world).score.left as nat),
        texts.1@ == dec_chars(final(world).score.right as nat),
        frame_scores_left(*old(world), cfg, dt as int) || frame_scores_right(
            *old(world),
            cfg,
            dt as int,
        ) ==> {
            &&& final(world).ball.x == 0 && final(world).ball.y == 0
            &&& final(world).left_paddle.y == 0 && final(world).right_paddle.y == 0
        },
        !frame_scores_left(*old(world), cfg, dt as int) && !frame_scores_right(
            *old(world),
            cfg,
            dt as int,
        ) ==> {
            &&& final(world).ball.x == moved_x(ball_at_step(*old(world), cfg), dt as int)
            &&& final(world).ball.y == moved_y(ball_at_step(*old(world), cfg), dt as int)
            &&& final(world).left_paddle.y == left_at_step(*old(world), keys, dt as int, cfg)
            &&& final(world).right_paddle.y == right_at_step(*old(world), keys, dt as int, cfg)
        },
        !frame_scores_left(*old(world), cfg, dt as int) && !frame_scores_right(
            *old(world),
            cfg,
            dt as int,
        ) && old(world).events@.len() == 0 ==> {
            &&& final(world).ball.vx == if hits_right_paddle(
                ball_at_step(*old(world), cfg),
                right_at_step(*old(world), keys, dt as int, cfg),
                dt as int,
            ) || hits_left_paddle(
                ball_at_step(*old(world), cfg),
                left_at_step(*old(world), keys, dt as int, cfg),
                dt as int,
            ) {
                -old(world).ball.vx as int
            } else {
                old(world).ball.vx as int
            }
            &&& final(world).ball.vy == if hits_wall(ball_at_step(*old(world), cfg), dt as int) {
                -old(world).ball.vy as int
            } else {
                old(world).ball.vy as int
            }
        },
{
    move_paddle_system(world, keys, dt, cfg);
    proof {
        assert(world.ball =~= ball_at_step(*old(world), cfg));
        assert(world.left_paddle.y == left_at_step(*old(world), keys, dt as int, cfg));
        assert(world.right_paddle.y == right_at_step(*old(world), keys, dt as int, cfg));
    }
    move_ball_system(world, dt);
    let texts = update_score_system(&world.score);
    random_ball_dir(world);
    texts
}

} // verus!
