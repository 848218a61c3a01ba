//! Per-frame paddle motion under the three control schemes.
//!
//! Key-driven movement travels at `PADDLE_SPEED` units per second scaled
//! by the frame time and is clamped so a paddle never exits
//! `[-PADDLE_TOP, PADDLE_TOP]`. Tracking paddles snap to the ball's
//! vertical position without clamping, as the game leaves them free.

use vstd::prelude::*;
use crate::world::{
    Config, Keys, World, BALL_SPEED_FAST, BALL_SPEED_SLOW, MAX_DT_MS, PADDLE_SPEED, PADDLE_TOP,
    POS_LIMIT,
};

verus! {

/// Micro-units a key-driven paddle travels in `dt` milliseconds:
/// `PADDLE_SPEED` units per second is `PADDLE_SPEED * 1000` micro-units
/// per millisecond once both scalings cancel.
pub open spec fn paddle_disp(dt: int) -> int {
    PADDLE_SPEED * dt * 1000
}

/// Clamp a paddle center into the court.
pub open spec fn clamp_paddle(y: int) -> int {
    if y > PADDLE_TOP {
        PADDLE_TOP as int
    } else if y < -PADDLE_TOP {
        -PADDLE_TOP as int
    } else {
        y
    }
}

/// Where a key-driven paddle ends up: the up key moves it up by `disp`
/// and clamps, then the down key moves it down by `disp` and clamps.
pub open spec fn player_move(y: int, up: bool, down: bool, disp: int) -> int {
    let y_up = if up { clamp_paddle(y + disp) } else { y };
    if down { clamp_paddle(y_up - disp) } else { y_up }
}

/// A key press can only leave the paddle inside the court, and a paddle
/// already inside the court stays inside for every frame time.
pub proof fn lemma_player_move_in_bounds(y: int, up: bool, down: bool, disp: int)
    requires
        0 <= disp,
        -PADDLE_TOP <= y <= PADDLE_TOP,
    ensures
        -PADDLE_TOP <= player_move(y, up, down, disp) <= PADDLE_TOP,
{
}

/// Advance one key-driven paddle by one frame.
fn player_paddle_update(y: i64, up: bool, down: bool, dt: i64) -> (r: i64)
    requires
        0 <= dt <= MAX_DT_MS,
        -POS_LIMIT <= y <= POS_LIMIT,
    ensures
        r == player_move(y as int, up, down, paddle_disp(dt as int)),
        -POS_LIMIT <= r <= POS_LIMIT,
{
    let disp: i64 = PADDLE_SPEED * dt * 1000;
    let mut pos: i64 = y;
    if up {
        pos = pos + disp;
        if pos > PADDLE_TOP {
            pos = PADDLE_TOP;
        }
        if pos < -PADDLE_TOP {
            pos = -PADDLE_TOP;
        }
    }
    if down {
        pos = pos - disp;
        if pos > PADDLE_TOP {
            pos = PADDLE_TOP;
        }
        if pos < -PADDLE_TOP {
            pos = -PADDLE_TOP;
        }
    }
    pos
}

/// One frame of paddle motion.
///
/// Under `Player`, both paddles follow their key pairs, clamped to the
/// court. Under `AiOne`, the left paddle snaps to the ball's vertical
/// position, the right follows its keys, and the ball speed is pinned
/// slow. Under `AiBoth`, whichever paddle is on the ball's horizontal
/// side snaps to the ball, and the ball speed is pinned fast. The ball's
/// position and direction, the score, and the event queue never change.
pub fn move_paddle_system(world: &mut World, keys: Keys, dt: i64, cfg: Config)
    requires
        old(world).wf(),
        0 <= dt <= MAX_DT_MS,
    ensures
        final(world).wf(),
        final(world).ball.x == old(world).ball.x,
        final(world).ball.y == old(world).ball.y,
        final(world).ball.vx == old(world).ball.vx,
        final(world).ball.vy == old(world).ball.vy,
        final(world).score == old(world).score,
        final(world).events@ == old(world).events@,
        cfg == Config::Player ==> {
            &&& final(world).ball.speed == old(world).ball.speed
            &&& final(world).left_paddle.y == player_move(
                old(world).left_paddle.y as int,
                keys.left_up,
                keys.left_down,
                paddle_disp(dt as int),
            )
            &&& final(world).right_paddle.y == player_move(
                old(world).right_paddle.y as int,
                keys.right_up,
                keys.right_down,
                paddle_disp(dt as int),
            )
        },
        cfg == Config::AiOne ==> {
            &&& final(world).ball.speed == BALL_SPEED_SLOW
            &&& final(world).left_paddle.y == old(world).ball.y
            &&& final(world).right_paddle.y == player_move(
                old(world).right_paddle.y as int,
                keys.right_up,
                keys.right_down,
                paddle_disp(dt as int),
            )
        },
        cfg == Config::AiBoth ==> {
            &&& final(world).ball.speed == BALL_SPEED_FAST
            &&& old(world).ball.x <= 0 ==> {
                &&& final(world).left_paddle.y == old(world).ball.y
                &&& final(world).right_paddle.y == old(world).right_paddle.y
            }
            &&& old(world).ball.x > 0 ==> {
                &&& final(world).right_paddle.y == old(world).ball.y
                &&& final(world).left_paddle.y == old(world).left_paddle.y
            }
        },
{
    match cfg {
        Config::Player => {
            world.left_paddle.y = player_paddle_update(
                world.left_paddle.y,
                keys.left_up,
                keys.left_down,
                dt,
            );
            world.right_paddle.y = player_paddle_update(
                world.right_paddle.y,
                keys.right_up,
                keys.right_down,
                dt,
            );
        }
        Config::AiOne => {
            world.ball.speed = BALL_SPEED_SLOW;
            world.left_paddle.y = world.ball.y;
            world.right_paddle.y = player_paddle_update(
                world.right_paddle.y,
                keys.right_up,
                keys.right_down,
                dt,
            );
        }
        Config::AiBoth => {
            world.ball.speed = BALL_SPEED_FAST;
            if world.ball.x <= 0 {
                world.left_paddle.y = world.ball.y;
            } else {
                world.right_paddle.y = world.ball.y;
            }
        }
    }
}

} // verus!
