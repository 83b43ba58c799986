//! Paddle state and per-tick paddle control, manual and heuristic.

use vstd::prelude::*;
use crate::num::{clamp_i64, clamp_spec};
use crate::{HALF_WINDOW_HEIGHT, HALF_WINDOW_WIDTH, MAX_TICK_MS, UI_HEIGHT};

verus! {

/// Full vertical speed of a paddle, in milli-units per millisecond.
pub const PADDLE_SPEED: i64 = 500;
/// Height of a paddle, in milli-units (120 units).
pub const PADDLE_HEIGHT: i64 = 120_000;
/// Half the paddle height.
pub const HALF_PADDLE_HEIGHT: i64 = 60_000;
/// Width of a paddle, in milli-units (17 units).
pub const PADDLE_WIDTH: i64 = 17_000;
/// Speed of the computer-controlled paddle: 0.8 of the full speed, an
/// intentionally imperfect fraction that keeps the game winnable.
pub const AI_PADDLE_SPEED: i64 = 400;

/// Lowest legal paddle centre: half a paddle above the bottom edge.
pub const PADDLE_Y_MIN: i64 = -HALF_WINDOW_HEIGHT + HALF_PADDLE_HEIGHT;
/// Highest legal paddle centre: half a paddle below the score bar.
pub const PADDLE_Y_MAX: i64 = HALF_WINDOW_HEIGHT - UI_HEIGHT - HALF_PADDLE_HEIGHT;

/// Horizontal centre of the left paddle, fixed at spawn.
pub const LEFT_PADDLE_X: i64 = -HALF_WINDOW_WIDTH + PADDLE_WIDTH;
/// Horizontal centre of the right paddle, fixed at spawn.
pub const RIGHT_PADDLE_X: i64 = HALF_WINDOW_WIDTH - PADDLE_WIDTH;

/// The keys a human player may bind a paddle to.
#[derive(Clone, Copy, Debug, PartialEq, Eq, Structural)]
pub enum KeyCode {
    W,
    S,
    Up,
    Down,
}

/// Who moves a paddle: the computer heuristic, or a player with two bound keys.
#[derive(Clone, Copy, Debug, PartialEq, Eq, Structural)]
pub enum Controller {
    Computer,
    Player { input_up: KeyCode, input_down: KeyCode },
}

/// A paddle: horizontal centre fixed at spawn, a vertical centre, and its
/// controller.
#[derive(Clone, Copy, Debug, PartialEq, Eq, Structural)]
pub struct Paddle {
    pub x: i64,
    pub y: i64,
    pub controller: Controller,
}

/// A paddle is well formed when it sits inside the field horizontally and its
/// centre stays in the legal vertical range.
pub open spec fn paddle_wf(p: Paddle) -> bool {
    &&& -HALF_WINDOW_WIDTH <= p.x <= HALF_WINDOW_WIDTH
    &&& PADDLE_Y_MIN <= p.y <= PADDLE_Y_MAX
}

/// Whether `k` is among the keys currently held.
pub fn key_held(held: &Vec<KeyCode>, k: KeyCode) -> (r: bool)
    ensures
        r == held@.contains(k),
{
    let mut i: usize = 0;
    while i < held.len()
        invariant
            i <= held@.len(),
            forall|j: int| 0 <= j < i ==> held@[j] != k,
        decreases held@.len() - i,
    {
        if held[i] == k {
            return true;
        }
        i = i + 1;
    }
    false
}

/// The vertical centre a paddle reaches this tick, before clamping.
pub open spec fn paddle_y_moved(p: Paddle, ball_y: int, held: Seq<KeyCode>, dt: int) -> int {
    match p.controller {
        Controller::Player { input_up, input_down } => {
            let up_delta: int = if held.contains(input_up) {
                PADDLE_SPEED * dt
            } else {
                0
            };
            let down_delta: int = if held.contains(input_down) {
                PADDLE_SPEED * dt
            } else {
                0
            };
            p.y + up_delta - down_delta
        },
        Controller::Computer => {
            if ball_y > p.y {
                p.y + AI_PADDLE_SPEED * dt
            } else {
                p.y - AI_PADDLE_SPEED * dt
            }
        },
    }
}

/// The vertical centre a paddle holds after this tick.
pub open spec fn paddle_y_after(p: Paddle, ball_y: int, held: Seq<KeyCode>, dt: int) -> int {
    clamp_spec(paddle_y_moved(p, ball_y, held, dt), PADDLE_Y_MIN as int, PADDLE_Y_MAX as int)
}

/// Shift a paddle by `delta` milli-units, stopping at the legal boundary;
/// clamping, not rejection, is the policy.
fn move_paddle(paddle: &mut Paddle, delta: i64)
    requires
        PADDLE_Y_MIN <= old(paddle).y <= PADDLE_Y_MAX,
        -(PADDLE_SPEED * MAX_TICK_MS) <= delta <= PADDLE_SPEED * MAX_TICK_MS,
    ensures
        final(paddle).y == clamp_spec(
            old(paddle).y + delta,
            PADDLE_Y_MIN as int,
            PADDLE_Y_MAX as int,
        ),
        final(paddle).x == old(paddle).x,
        final(paddle).controller == old(paddle).controller,
{
    paddle.y = clamp_i64(paddle.y + delta, PADDLE_Y_MIN, PADDLE_Y_MAX);
}

/// Move one paddle for a tick of `dt` milliseconds.
///
/// A player paddle moves at full speed in the direction of each held bound
/// key; the two directions are applied independently and their deltas sum, so
/// holding both yields no net motion. The computer paddle reacts to the
/// ball's current vertical position only, at its reduced speed. Either way
/// the result is clamped into the legal vertical range.
pub fn paddle_control(paddle: &mut Paddle, ball_y: i64, held: &Vec<KeyCode>, dt: i64)
    requires
        paddle_wf(*old(paddle)),
        0 < dt <= MAX_TICK_MS,
    ensures
        final(paddle).y == paddle_y_after(*old(paddle), ball_y as int, held@, dt as int),
        final(paddle).x == old(paddle).x,
        final(paddle).controller == old(paddle).controller,
        paddle_wf(*final(paddle)),
{
    let step: i64 = PADDLE_SPEED * dt;
    match paddle.controller {
        Controller::Player { input_up, input_down } => {
            let mut delta: i64 = 0;
            if key_held(held, input_up) {
                delta = step;
            }
            if key_held(held, input_down) {
                delta = delta - step;
            }
            move_paddle(paddle, delta);
        },
        Controller::Computer => {
            let ai_step: i64 = AI_PADDLE_SPEED * dt;
            if ball_y > paddle.y {
                move_paddle(paddle, ai_step);
            } else {
                move_paddle(paddle, -ai_step);
            }
        },
    }
}

/// The computer paddle chases the ball: when the ball is above the paddle at
/// the start of a tick, the paddle's centre strictly rises — unless it is
/// already at the upper clamp — and never by more than its speed times `dt`.
pub proof fn lemma_ai_chases_ball(p: Paddle, ball_y: int, held: Seq<KeyCode>, dt: int)
    requires
        p.controller is Computer,
        paddle_wf(p),
        ball_y > p.y,
        0 < dt,
    ensures
        p.y < PADDLE_Y_MAX ==> paddle_y_after(p, ball_y, held, dt) > p.y,
        p.y == PADDLE_Y_MAX ==> paddle_y_after(p, ball_y, held, dt) == p.y,
        paddle_y_after(p, ball_y, held, dt) <= p.y + AI_PADDLE_SPEED * dt,
{
}

} // verus!
