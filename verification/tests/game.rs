use pong::ball::move_ball_system;
use pong::display::{u32_to_dec, update_score_system};
use pong::paddle::move_paddle_system;
use pong::relaunch::{apply_relaunch, launch_dir, random_ball_dir, random_dir, setup_game};
use pong::world::{
    Ball, Config, Dir, Keys, Score, ScoreEvent, World, BALL_SPEED_FAST, BALL_SPEED_SLOW,
    BALL_TOP, DIR_SCALE, PADDLE_TOP, SCORE_EDGE,
};

const MICRO: i64 = 1_000_000;

fn world_with(ball: Ball) -> World {
    let mut w = World::new(Dir { x: DIR_SCALE, y: 0 });
    w.ball = ball;
    w
}

fn no_keys() -> Keys {
    Keys { left_up: false, left_down: false, right_up: false, right_down: false }
}

#[test]
fn straight_flight_one_second() {
    // Ball at the center moving straight right at speed 200 for one
    // second lands at 200 units with no score.
    let mut w = World::new(Dir { x: DIR_SCALE, y: 0 });
    assert_eq!(w.ball.speed, BALL_SPEED_SLOW);
    move_ball_system(&mut w, 1000);
    assert_eq!(w.ball.x, 200 * MICRO);
    assert_eq!(w.ball.y, 0);
    assert_eq!(w.score.left, 0);
    assert_eq!(w.score.right, 0);
    assert_eq!(w.events.len(), 0);
}

#[test]
fn fast_flight_scores_left() {
    // At the fast speed the same second carries the ball past the right
    // scoring edge: court reset, left counter up by one, one event.
    let mut w = World::new(Dir { x: DIR_SCALE, y: 0 });
    w.ball.speed = BALL_SPEED_FAST;
    move_ball_system(&mut w, 1000);
    assert_eq!(w.ball.x, 0);
    assert_eq!(w.ball.y, 0);
    assert_eq!(w.left_paddle.y, 0);
    assert_eq!(w.right_paddle.y, 0);
    assert_eq!(w.score.left, 1);
    assert_eq!(w.score.right, 0);
    assert_eq!(w.events.len(), 1);
}

#[test]
fn out_left_scores_right() {
    let mut w = World::new(Dir { x: -DIR_SCALE, y: 0 });
    w.ball.speed = BALL_SPEED_FAST;
    move_ball_system(&mut w, 1000);
    assert_eq!(w.ball.x, 0);
    assert_eq!(w.score.left, 0);
    assert_eq!(w.score.right, 1);
    assert_eq!(w.events.len(), 1);
}

#[test]
fn wall_bounce_flips_vertical_once() {
    // Start just below the top wall moving up-right; the frame carries
    // it past the wall, and only the vertical component flips.
    let mut w = world_with(Ball {
        x: 0,
        y: BALL_TOP - 1 * MICRO,
        vx: DIR_SCALE,
        vy: 500,
        speed: BALL_SPEED_SLOW,
    });
    move_ball_system(&mut w, 100);
    // Moved by vy * speed * dt = 500 * 200 * 100 micro = 10 units up.
    assert_eq!(w.ball.y, BALL_TOP + 9 * MICRO);
    assert_eq!(w.ball.vy, -500);
    assert_eq!(w.ball.vx, DIR_SCALE);
    assert_eq!(w.events.len(), 0);
}

#[test]
fn wall_bounce_exactly_at_bound() {
    // Landing exactly on the wall still counts as a bounce.
    let mut w = world_with(Ball { x: 0, y: BALL_TOP, vx: DIR_SCALE, vy: 0, speed: BALL_SPEED_SLOW });
    move_ball_system(&mut w, 0);
    assert_eq!(w.ball.vy, 0);
    assert_eq!(w.ball.y, BALL_TOP);
    let mut w = world_with(Ball {
        x: 0,
        y: -BALL_TOP,
        vx: DIR_SCALE,
        vy: -100,
        speed: BALL_SPEED_SLOW,
    });
    move_ball_system(&mut w, 0);
    assert_eq!(w.ball.vy, 100);
}

#[test]
fn right_paddle_bounce_flips_horizontal() {
    // A ball moving right into the right paddle's rectangle comes back
    // moving left with the same tilt and speed.
    let mut w = world_with(Ball {
        x: 369 * MICRO,
        y: 0,
        vx: DIR_SCALE,
        vy: 250,
        speed: BALL_SPEED_SLOW,
    });
    move_ball_system(&mut w, 10);
    // Moved 2 units right: x = 371 >= 370, overlap with paddle at 0.
    assert_eq!(w.ball.x, 371 * MICRO);
    assert_eq!(w.ball.vx, -DIR_SCALE);
    assert_eq!(w.ball.vy, 250);
    assert_eq!(w.ball.speed, BALL_SPEED_SLOW);
    // Squared direction magnitude is unchanged.
    assert_eq!(
        w.ball.vx * w.ball.vx + w.ball.vy * w.ball.vy,
        DIR_SCALE * DIR_SCALE + 250 * 250
    );
    assert_eq!(w.score.left, 0);
    assert_eq!(w.score.right, 0);
}

#[test]
fn left_paddle_bounce_flips_horizontal() {
    let mut w = world_with(Ball {
        x: -369 * MICRO,
        y: 0,
        vx: -DIR_SCALE,
        vy: 0,
        speed: BALL_SPEED_SLOW,
    });
    move_ball_system(&mut w, 10);
    assert_eq!(w.ball.x, -371 * MICRO);
    assert_eq!(w.ball.vx, DIR_SCALE);
}

#[test]
fn paddle_misses_when_ball_above_it() {
    // Same horizontal overlap, but the paddle center is far away: no flip.
    let mut w = world_with(Ball {
        x: 369 * MICRO,
        y: 100 * MICRO,
        vx: DIR_SCALE,
        vy: 0,
        speed: BALL_SPEED_SLOW,
    });
    // Right paddle stays at 0; ball is 100 units above: beyond 50.
    move_ball_system(&mut w, 10);
    assert_eq!(w.ball.vx, DIR_SCALE);
}

#[test]
fn player_paddles_move_and_clamp() {
    let mut w = World::new(Dir { x: DIR_SCALE, y: 0 });
    let keys = Keys { left_up: true, left_down: false, right_up: false, right_down: true };
    // 100 ms at 700 units per second is 70 units.
    move_paddle_system(&mut w, keys, 100, Config::Player);
    assert_eq!(w.left_paddle.y, 70 * MICRO);
    assert_eq!(w.right_paddle.y, -70 * MICRO);
    // A huge frame time pins the paddles at the court bounds.
    move_paddle_system(&mut w, keys, 1_000_000, Config::Player);
    assert_eq!(w.left_paddle.y, PADDLE_TOP);
    assert_eq!(w.right_paddle.y, -PADDLE_TOP);
    // The ball and score are untouched by paddle motion.
    assert_eq!(w.ball.x, 0);
    assert_eq!(w.ball.speed, BALL_SPEED_SLOW);
    assert_eq!(w.score, Score { left: 0, right: 0 });
}

#[test]
fn player_paddle_zero_dt_and_both_keys() {
    let mut w = World::new(Dir { x: DIR_SCALE, y: 0 });
    let both = Keys { left_up: true, left_down: true, right_up: false, right_down: false };
    // Up then down by the same distance cancels out from the center.
    move_paddle_system(&mut w, both, 50, Config::Player);
    assert_eq!(w.left_paddle.y, 0);
    // A zero frame time moves nothing.
    let keys = Keys { left_up: true, left_down: false, right_up: true, right_down: false };
    move_paddle_system(&mut w, keys, 0, Config::Player);
    assert_eq!(w.left_paddle.y, 0);
    assert_eq!(w.right_paddle.y, 0);
}

#[test]
fn single_tracker_follows_ball() {
    let mut w = world_with(Ball {
        x: 10 * MICRO,
        y: 42 * MICRO,
        vx: DIR_SCALE,
        vy: 0,
        speed: BALL_SPEED_FAST,
    });
    move_paddle_system(&mut w, no_keys(), 16, Config::AiOne);
    assert_eq!(w.left_paddle.y, 42 * MICRO);
    assert_eq!(w.right_paddle.y, 0);
    assert_eq!(w.ball.speed, BALL_SPEED_SLOW);
}

#[test]
fn dual_tracker_follows_ball_side() {
    let mut w = world_with(Ball {
        x: -5 * MICRO,
        y: -30 * MICRO,
        vx: DIR_SCALE,
        vy: 0,
        speed: BALL_SPEED_SLOW,
    });
    move_paddle_system(&mut w, no_keys(), 16, Config::AiBoth);
    assert_eq!(w.left_paddle.y, -30 * MICRO);
    assert_eq!(w.right_paddle.y, 0);
    assert_eq!(w.ball.speed, BALL_SPEED_FAST);
    w.ball.x = 5 * MICRO;
    w.ball.y = 25 * MICRO;
    move_paddle_system(&mut w, no_keys(), 16, Config::AiBoth);
    assert_eq!(w.right_paddle.y, 25 * MICRO);
    assert_eq!(w.left_paddle.y, -30 * MICRO);
}

#[test]
fn launch_dir_bands() {
    // The rightward band at its extreme tilts.
    let d = launch_dir(true, DIR_SCALE);
    assert_eq!(d.x, DIR_SCALE);
    assert_eq!(d.y, DIR_SCALE);
    let d = launch_dir(true, -DIR_SCALE);
    assert_eq!(d.y, -DIR_SCALE);
    // The leftward band.
    let d = launch_dir(false, 3);
    assert_eq!(d.x, -DIR_SCALE);
    assert_eq!(d.y, 3);
}

#[test]
fn random_dir_never_near_vertical() {
    // However the draws land, the direction keeps full horizontal
    // magnitude and a tilt no steeper than the diagonal.
    for _ in 0..200 {
        let d = random_dir();
        assert!(d.x == DIR_SCALE || d.x == -DIR_SCALE);
        assert!(d.y.abs() <= d.x.abs());
    }
}

#[test]
fn relaunch_last_event_wins() {
    // Two directions queued in one frame: only the second sticks.
    let mut ball = Ball { x: 7, y: 8, vx: DIR_SCALE, vy: 0, speed: BALL_SPEED_SLOW };
    let dirs = vec![Dir { x: -DIR_SCALE, y: 100 }, Dir { x: DIR_SCALE, y: -250 }];
    apply_relaunch(&mut ball, &dirs);
    assert_eq!(ball.vx, DIR_SCALE);
    assert_eq!(ball.vy, -250);
    assert_eq!(ball.x, 7);
    assert_eq!(ball.y, 8);
    assert_eq!(ball.speed, BALL_SPEED_SLOW);
}

#[test]
fn relaunch_without_events_keeps_ball() {
    let mut ball = Ball { x: 1, y: 2, vx: -DIR_SCALE, vy: 9, speed: BALL_SPEED_SLOW };
    let dirs: Vec<Dir> = Vec::new();
    apply_relaunch(&mut ball, &dirs);
    assert_eq!(ball, Ball { x: 1, y: 2, vx: -DIR_SCALE, vy: 9, speed: BALL_SPEED_SLOW });
}

#[test]
fn relaunch_system_drains_events() {
    let mut w = World::new(Dir { x: DIR_SCALE, y: 0 });
    w.events.push(ScoreEvent);
    w.events.push(ScoreEvent);
    random_ball_dir(&mut w);
    assert_eq!(w.events.len(), 0);
    assert!(w.ball.vx == DIR_SCALE || w.ball.vx == -DIR_SCALE);
    assert!(w.ball.vy.abs() <= DIR_SCALE);
    assert_eq!(w.ball.x, 0);
    assert_eq!(w.ball.speed, BALL_SPEED_SLOW);
}

#[test]
fn relaunch_system_no_events_is_identity() {
    let mut w = world_with(Ball { x: 3, y: 4, vx: -DIR_SCALE, vy: 700, speed: BALL_SPEED_SLOW });
    let before = w.ball;
    random_ball_dir(&mut w);
    assert_eq!(w.ball, before);
}

#[test]
fn score_and_relaunch_full_frame() {
    // A scoring frame followed by its relaunch: the event is consumed
    // in the same frame and the ball serves again from the center.
    let mut w = World::new(Dir { x: DIR_SCALE, y: 0 });
    w.ball.speed = BALL_SPEED_FAST;
    move_paddle_system(&mut w, no_keys(), 1000, Config::Player);
    move_ball_system(&mut w, 1000);
    assert_eq!(w.score.left, 1);
    assert_eq!(w.events.len(), 1);
    let (left_text, right_text) = update_score_system(&w.score);
    assert_eq!(left_text, "1");
    assert_eq!(right_text, "0");
    random_ball_dir(&mut w);
    assert_eq!(w.events.len(), 0);
    assert_eq!((w.ball.x, w.ball.y), (0, 0));
}

#[test]
fn setup_game_centers_everything() {
    let w = setup_game();
    assert_eq!((w.ball.x, w.ball.y), (0, 0));
    assert_eq!(w.ball.speed, BALL_SPEED_SLOW);
    assert!(w.ball.x.abs() <= SCORE_EDGE);
    assert!(w.ball.vx == DIR_SCALE || w.ball.vx == -DIR_SCALE);
    assert!(w.ball.vy.abs() <= DIR_SCALE);
    assert_eq!(w.left_paddle.y, 0);
    assert_eq!(w.right_paddle.y, 0);
    assert_eq!(w.score, Score::default());
    assert_eq!(w.events.len(), 0);
}

#[test]
fn score_text_formats_decimal() {
    assert_eq!(u32_to_dec(0), "0");
    assert_eq!(u32_to_dec(7), "7");
    assert_eq!(u32_to_dec(10), "10");
    assert_eq!(u32_to_dec(305), "305");
    assert_eq!(u32_to_dec(4294967295), "4294967295");
}

#[test]
fn full_frame_runs_systems_in_order() {
    // One scheduled frame: paddles move first, then the ball scores at
    // the fast speed, the display shows the new count, and the relaunch
    // consumes the event before the frame ends.
    let mut w = World::new(Dir { x: DIR_SCALE, y: 0 });
    let keys = Keys { left_up: true, left_down: false, right_up: false, right_down: false };
    let texts = pong::frame::frame(&mut w, keys, 1000, Config::AiBoth);
    assert_eq!(w.score.left, 1);
    assert_eq!(w.score.right, 0);
    assert_eq!(texts.0, "1");
    assert_eq!(texts.1, "0");
    assert_eq!(w.events.len(), 0);
    assert_eq!((w.ball.x, w.ball.y), (0, 0));
    assert_eq!(w.left_paddle.y, 0);
    assert_eq!(w.right_paddle.y, 0);
    assert_eq!(w.ball.speed, BALL_SPEED_FAST);
}

#[test]
fn full_frame_without_score_moves_ball_only() {
    let mut w = World::new(Dir { x: DIR_SCALE, y: 0 });
    let texts = pong::frame::frame(&mut w, no_keys(), 1000, Config::Player);
    assert_eq!((w.ball.x, w.ball.y), (200 * MICRO, 0));
    assert_eq!(w.ball.vx, DIR_SCALE);
    assert_eq!(w.score, Score { left: 0, right: 0 });
    assert_eq!(texts.0, "0");
    assert_eq!(texts.1, "0");
    assert_eq!(w.events.len(), 0);
}
