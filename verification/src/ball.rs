//! Ball state and per-tick ball simulation: goal detection, wall bounces,
//! paddle rebounds, integration, and the serve that follows a goal.

use vstd::prelude::*;
use rand::Rng;
use crate::num::{
    abs_i, clamp_spec, div_round, div_round_u64, is_sqrt_floor, isqrt, lemma_div_round_scale_le,
    lemma_root_le, sqrt_floor,
};
use crate::paddle::{Paddle, PADDLE_HEIGHT, PADDLE_WIDTH};
use crate::score::{Score, ScoreChanged};
use crate::{HALF_WINDOW_HEIGHT, HALF_WINDOW_WIDTH, MAX_TICK_MS, UI_HEIGHT};

verus! {

/// Side length of the ball's square hit box, in milli-units (30 units).
pub const BALL_SIZE: i64 = 30_000;
/// Half the ball's side length.
pub const HALF_BALL_SIZE: i64 = 15_000;
/// Speed given to the ball by a paddle rebound, in milli-units per
/// millisecond.
pub const BALL_DEFAULT_SPEED: i64 = 800;
/// Reduced speed of a fresh serve: 0.65 of the default, so the ball does not
/// instantly pressure a paddle.
pub const BALL_SERVE_SPEED: i64 = 520;
/// Largest vertical serve component: the serve speed scaled by sin 45°,
/// rounded down, which keeps every serve within ±45° of the horizontal.
pub const SERVE_MAX_VY: i64 = 367;

/// Leftmost centre the ball may hold without scoring.
pub const BALL_X_MIN: i64 = -HALF_WINDOW_WIDTH + HALF_BALL_SIZE;
/// Rightmost centre the ball may hold without scoring.
pub const BALL_X_MAX: i64 = HALF_WINDOW_WIDTH - HALF_BALL_SIZE;
/// Lowest centre the ball may hold; the bottom wall.
pub const BALL_Y_MIN: i64 = -HALF_WINDOW_HEIGHT + HALF_BALL_SIZE;
/// Highest centre the ball may hold; the wall under the score bar.
pub const BALL_Y_MAX: i64 = HALF_WINDOW_HEIGHT - UI_HEIGHT - HALF_BALL_SIZE;
/// Loose bound on any coordinate handled by the collision helpers.
pub const WINDOW_LIMIT: i64 = 1_000_000;

/// The ball: centre position, velocity, and which way the next serve goes.
#[derive(Clone, Copy, Debug, PartialEq, Eq, Structural)]
pub struct Ball {
    pub x: i64,
    pub y: i64,
    pub vx: i64,
    pub vy: i64,
    pub serve_left: bool,
}

/// A ball is well formed when its centre is on the field and its speed per
/// axis never exceeds the rebound speed.
pub open spec fn ball_wf(b: Ball) -> bool {
    &&& BALL_X_MIN <= b.x <= BALL_X_MAX
    &&& BALL_Y_MIN <= b.y <= BALL_Y_MAX
    &&& abs_i(b.vx as int) <= BALL_DEFAULT_SPEED
    &&& abs_i(b.vy as int) <= BALL_DEFAULT_SPEED
}

/// Horizontal centre after integrating velocity over `dt` milliseconds.
pub open spec fn moved_x(b: Ball, dt: int) -> int {
    b.x + b.vx * dt
}

/// Vertical centre after integrating velocity over `dt` milliseconds.
pub open spec fn moved_y(b: Ball, dt: int) -> int {
    b.y + b.vy * dt
}

/// This tick's motion carries the ball past a goal line.
pub open spec fn goal_scored(b: Ball, dt: int) -> bool {
    moved_x(b, dt) < BALL_X_MIN || moved_x(b, dt) > BALL_X_MAX
}

/// The goal line crossed is the right one, so the right side scores.
pub open spec fn goal_on_right(b: Ball, dt: int) -> bool {
    moved_x(b, dt) > BALL_X_MAX
}

/// The score that a goal this tick replaces the old score with: the side
/// whose line was crossed gains exactly 1; the other side is unchanged.
pub open spec fn goal_score(s: Score, b: Ball, dt: int) -> Score {
    if goal_on_right(b, dt) {
        Score { right_score: (s.right_score + 1) as u32, left_score: s.left_score }
    } else {
        Score { right_score: s.right_score, left_score: (s.left_score + 1) as u32 }
    }
}

/// This tick's motion runs the ball into the top or bottom wall.
pub open spec fn wall_hit(b: Ball, dt: int) -> bool {
    moved_y(b, dt) < BALL_Y_MIN || moved_y(b, dt) > BALL_Y_MAX
}

/// Vertical centre after this tick: integrated, then stopped at a wall.
pub open spec fn clamped_y(b: Ball, dt: int) -> int {
    clamp_spec(moved_y(b, dt), BALL_Y_MIN as int, BALL_Y_MAX as int)
}

/// Vertical velocity after the wall check: a wall bounce is lossless and
/// merely inverts the vertical component.
pub open spec fn vy_after_walls(b: Ball, dt: int) -> int {
    if wall_hit(b, dt) {
        -(b.vy as int)
    } else {
        b.vy as int
    }
}

/// Strict overlap of the ball's box centred at `(bx, by)` with a paddle's box.
pub open spec fn overlaps_paddle(bx: int, by: int, p: Paddle) -> bool {
    &&& 2 * abs_i(bx - p.x) < BALL_SIZE + PADDLE_WIDTH
    &&& 2 * abs_i(by - p.y) < BALL_SIZE + PADDLE_HEIGHT
}

/// The length of the line from the paddle centre to the ball centre, rounded
/// down.
pub open spec fn rebound_len(dx: int, dy: int) -> int {
    sqrt_floor(dx * dx + dy * dy)
}

/// One component of that line rescaled to the rebound speed, rounded to the
/// nearest integer.
pub open spec fn rebound_component(d: int, len: int) -> int {
    if d >= 0 {
        div_round(BALL_DEFAULT_SPEED * d, len)
    } else {
        -div_round(BALL_DEFAULT_SPEED * (-d), len)
    }
}

/// Horizontal velocity handed to the ball by a paddle hit at offset
/// `(dx, dy)` from the paddle centre.
pub open spec fn rebound_vx(dx: int, dy: int) -> int {
    rebound_component(dx, rebound_len(dx, dy))
}

/// Vertical velocity handed to the ball by a paddle hit at offset `(dx, dy)`.
pub open spec fn rebound_vy(dx: int, dy: int) -> int {
    rebound_component(dy, rebound_len(dx, dy))
}

/// The ball, once moved and stopped at a wall, overlaps this paddle with the
/// centres apart, so an angle-based rebound applies.
pub open spec fn hit_paddle(b: Ball, p: Paddle, dt: int) -> bool {
    &&& overlaps_paddle(moved_x(b, dt), clamped_y(b, dt), p)
    &&& !(moved_x(b, dt) == p.x && clamped_y(b, dt) == p.y)
}

/// The velocity the ball leaves a goalless tick with. A paddle hit replaces
/// the velocity with the rebound along the paddle-to-ball line — hitting
/// off-centre changes the angle — and the right paddle's rebound prevails if
/// both somehow overlap; otherwise only the wall check acts.
pub open spec fn velocity_after(b: Ball, lp: Paddle, rp: Paddle, dt: int) -> (int, int) {
    let nx = moved_x(b, dt);
    let ny = clamped_y(b, dt);
    if hit_paddle(b, rp, dt) {
        (rebound_vx(nx - rp.x, ny - rp.y), rebound_vy(nx - rp.x, ny - rp.y))
    } else if hit_paddle(b, lp, dt) {
        (rebound_vx(nx - lp.x, ny - lp.y), rebound_vy(nx - lp.x, ny - lp.y))
    } else {
        (b.vx as int, vy_after_walls(b, dt))
    }
}

/// A serve velocity is forward-biased toward the serving direction: the
/// horizontal part dominates the vertical one (within ±45° of horizontal)
/// and the overall speed is the reduced serve speed, up to the rounding of
/// the horizontal component.
pub open spec fn serve_velocity_ok(toward_right: bool, vx: int, vy: int) -> bool {
    &&& if toward_right {
        vx > 0
    } else {
        vx < 0
    }
    &&& abs_i(vy) <= abs_i(vx)
    &&& abs_i(vy) <= SERVE_MAX_VY
    &&& abs_i(vx) <= BALL_SERVE_SPEED
    &&& vx * vx + vy * vy <= BALL_SERVE_SPEED * BALL_SERVE_SPEED
    &&& BALL_SERVE_SPEED * BALL_SERVE_SPEED < vx * vx + vy * vy + 2 * abs_i(vx) + 1
}

/// Relies on `rand::Rng::gen_range` over an integer `Range`: it returns a
/// uniformly distributed value in `[lo, hi)` and panics only when the range
/// is empty.
#[verifier::external_body]
fn sample_range(lo: i64, hi: i64) -> (r: i64)
    requires
        lo < hi,
    ensures
        lo <= r < hi,
{
    rand::thread_rng().gen_range(lo..hi)
}

/// Strict box overlap between the ball centred at `(bx, by)` and a paddle.
fn overlaps(bx: i64, by: i64, p: &Paddle) -> (r: bool)
    requires
        -WINDOW_LIMIT <= bx <= WINDOW_LIMIT,
        -WINDOW_LIMIT <= by <= WINDOW_LIMIT,
        -WINDOW_LIMIT <= p.x <= WINDOW_LIMIT,
        -WINDOW_LIMIT <= p.y <= WINDOW_LIMIT,
    ensures
        r == overlaps_paddle(bx as int, by as int, *p),
{
    let dx = bx - p.x;
    let dxa = if dx >= 0 {
        dx
    } else {
        -dx
    };
    let dy = by - p.y;
    let dya = if dy >= 0 {
        dy
    } else {
        -dy
    };
    2 * dxa < BALL_SIZE + PADDLE_WIDTH && 2 * dya < BALL_SIZE + PADDLE_HEIGHT
}

/// The rebound velocity for a ball whose centre sits at offset `(dx, dy)`
/// from a paddle's centre: the offset rescaled to the rebound speed.
pub fn paddle_rebound(dx: i64, dy: i64) -> (v: (i64, i64))
    requires
        -WINDOW_LIMIT <= dx <= WINDOW_LIMIT,
        -WINDOW_LIMIT <= dy <= WINDOW_LIMIT,
        dx != 0 || dy != 0,
    ensures
        v.0 == rebound_vx(dx as int, dy as int),
        v.1 == rebound_vy(dx as int, dy as int),
        abs_i(v.0 as int) <= BALL_DEFAULT_SPEED,
        abs_i(v.1 as int) <= BALL_DEFAULT_SPEED,
{
    let dxa: u64 = (if dx >= 0 {
        dx
    } else {
        -dx
    }) as u64;
    let dya: u64 = (if dy >= 0 {
        dy
    } else {
        -dy
    }) as u64;
    proof {
        assert((dxa as int) * (dxa as int) == (dx as int) * (dx as int)) by (nonlinear_arith)
            requires
                dxa as int == abs_i(dx as int),
        ;
        assert((dya as int) * (dya as int) == (dy as int) * (dy as int)) by (nonlinear_arith)
            requires
                dya as int == abs_i(dy as int),
        ;
        assert(dxa * dxa + dya * dya <= 2_000_000_000_000) by (nonlinear_arith)
            requires
                dxa <= 1_000_000u64 && dya <= 1_000_000u64,
        ;
        assert(1 <= dxa * dxa + dya * dya) by (nonlinear_arith)
            requires
                1 <= dxa || 1 <= dya,
        ;
    }
    let n: u64 = dxa * dxa + dya * dya;
    let len: u64 = isqrt(n);
    proof {
        assert(dxa as int * dxa as int <= n as int) by (nonlinear_arith)
            requires
                n == dxa * dxa + dya * dya,
        ;
        assert(dya as int * dya as int <= n as int) by (nonlinear_arith)
            requires
                n == dxa * dxa + dya * dya,
        ;
        lemma_root_le(1, n as int);
        lemma_root_le(dxa as int, n as int);
        lemma_root_le(dya as int, n as int);
        lemma_div_round_scale_le(BALL_DEFAULT_SPEED as int, dxa as int, len as int);
        lemma_div_round_scale_le(BALL_DEFAULT_SPEED as int, dya as int, len as int);
    }
    let sx: u64 = div_round_u64(800 * dxa, len);
    let sy: u64 = div_round_u64(800 * dya, len);
    let vx: i64 = if dx >= 0 {
        sx as i64
    } else {
        -(sx as i64)
    };
    let vy: i64 = if dy >= 0 {
        sy as i64
    } else {
        -(sy as i64)
    };
    (vx, vy)
}

/// Advance the ball by one tick of `dt` milliseconds.
///
/// The checks run in a fixed order and a goal pre-empts everything: a ball
/// that crosses a goal line this tick emits a score message and is left for
/// its serve reset, bouncing off nothing. Otherwise the ball is integrated,
/// stopped at the walls with its vertical velocity inverted, and handed a
/// fresh angle-based velocity on paddle overlap.
pub fn ball_movement(
    ball: &mut Ball,
    left_paddle: &Paddle,
    right_paddle: &Paddle,
    score: &Score,
    dt: i64,
) -> (ev: Option<ScoreChanged>)
    requires
        ball_wf(*old(ball)),
        crate::paddle::paddle_wf(*left_paddle),
        crate::paddle::paddle_wf(*right_paddle),
        0 < dt <= MAX_TICK_MS,
        score.left_score < u32::MAX,
        score.right_score < u32::MAX,
    ensures
        final(ball).serve_left == old(ball).serve_left,
        goal_scored(*old(ball), dt as int) ==> {
            &&& *final(ball) == *old(ball)
            &&& ev == Some(ScoreChanged(goal_score(*score, *old(ball), dt as int)))
        },
        !goal_scored(*old(ball), dt as int) ==> {
            &&& ev is None
            &&& final(ball).x == moved_x(*old(ball), dt as int)
            &&& final(ball).y == clamped_y(*old(ball), dt as int)
            &&& (final(ball).vx as int, final(ball).vy as int) == velocity_after(
                *old(ball),
                *left_paddle,
                *right_paddle,
                dt as int,
            )
            &&& ball_wf(*final(ball))
        },
        (!goal_scored(*old(ball), dt as int) && !wall_hit(*old(ball), dt as int) && !hit_paddle(
            *old(ball),
            *left_paddle,
            dt as int,
        ) && !hit_paddle(*old(ball), *right_paddle, dt as int)) ==> {
            &&& final(ball).x == old(ball).x + old(ball).vx * dt
            &&& final(ball).y == old(ball).y + old(ball).vy * dt
            &&& final(ball).vx == old(ball).vx
            &&& final(ball).vy == old(ball).vy
        },
{
    let ghost vx0: int = ball.vx as int;
    let ghost vy0: int = ball.vy as int;
    proof {
        assert(-800_000_000_000 <= vx0 * dt <= 800_000_000_000) by (nonlinear_arith)
            requires
                -800 <= vx0 <= 800,
                0 < dt <= 1_000_000_000,
        ;
        assert(-800_000_000_000 <= vy0 * dt <= 800_000_000_000) by (nonlinear_arith)
            requires
                -800 <= vy0 <= 800,
                0 < dt <= 1_000_000_000,
        ;
    }
    let nx: i64 = ball.x + ball.vx * dt;
    let ny: i64 = ball.y + ball.vy * dt;
    if nx < BALL_X_MIN || nx > BALL_X_MAX {
        // The rally ends at once: no bounce, no paddle check; the ball waits
        // for its serve reset.
        let new_score = if nx > BALL_X_MAX {
            Score { right_score: score.right_score + 1, left_score: score.left_score }
        } else {
            Score { right_score: score.right_score, left_score: score.left_score + 1 }
        };
        Some(ScoreChanged(new_score))
    } else {
        let mut cy: i64 = ny;
        let mut vy2: i64 = ball.vy;
        if ny < BALL_Y_MIN {
            cy = BALL_Y_MIN;
            vy2 = -ball.vy;
        } else if ny > BALL_Y_MAX {
            cy = BALL_Y_MAX;
            vy2 = -ball.vy;
        }
        let mut vx3: i64 = ball.vx;
        let mut vy3: i64 = vy2;
        if overlaps(nx, cy, left_paddle) {
            let ddx = nx - left_paddle.x;
            let ddy = cy - left_paddle.y;
            if ddx != 0 || ddy != 0 {
                let v = paddle_rebound(ddx, ddy);
                vx3 = v.0;
                vy3 = v.1;
            }
        }
        if overlaps(nx, cy, right_paddle) {
            let ddx = nx - right_paddle.x;
            let ddy = cy - right_paddle.y;
            if ddx != 0 || ddy != 0 {
                let v = paddle_rebound(ddx, ddy);
                vx3 = v.0;
                vy3 = v.1;
            }
        }
        ball.x = nx;
        ball.y = cy;
        ball.vx = vx3;
        ball.vy = vy3;
        None
    }
}

/// A freshly drawn serve velocity pointing the given way.
fn serve_velocity(toward_right: bool) -> (v: (i64, i64))
    ensures
        serve_velocity_ok(toward_right, v.0 as int, v.1 as int),
{
    let vy: i64 = sample_range(-SERVE_MAX_VY, SERVE_MAX_VY + 1);
    let vya: u64 = (if vy >= 0 {
        vy
    } else {
        -vy
    }) as u64;
    proof {
        assert(vya * vya <= 134_689) by (nonlinear_arith)
            requires
                vya <= 367u64,
        ;
    }
    let n: u64 = 270_400 - vya * vya;
    let vxa: u64 = isqrt(n);
    proof {
        assert((vya as int) * (vya as int) <= n as int) by (nonlinear_arith)
            requires
                vya * vya <= 134_689u64 && n as int == 270_400 - (vya as int) * (vya as int),
        ;
        lemma_root_le(vya as int, n as int);
        lemma_root_le(1, n as int);
        assert(vxa <= 520) by (nonlinear_arith)
            requires
                0 <= vxa,
                (vxa as int) * (vxa as int) <= 270_400,
        ;
    }
    let vx: i64 = if toward_right {
        vxa as i64
    } else {
        -(vxa as i64)
    };
    proof {
        assert((vx as int) * (vx as int) == (vxa as int) * (vxa as int)) by (nonlinear_arith)
            requires
                abs_i(vx as int) == vxa as int,
        ;
        assert((vy as int) * (vy as int) == (vya as int) * (vya as int)) by (nonlinear_arith)
            requires
                abs_i(vy as int) == vya as int,
        ;
        assert(270_400 < (vxa as int) * (vxa as int) + 2 * (vxa as int) + 1 + (vya as int) * (
        vya as int)) by (nonlinear_arith)
            requires
                (n as int) < ((vxa as int) + 1) * ((vxa as int) + 1),
                n as int == 270_400 - (vya as int) * (vya as int),
        ;
    }
    (vx, vy)
}

impl Ball {
    /// Serve toward the side the `serve_left` flag points at, then toggle the
    /// flag, so consecutive serves alternate direction no matter who scored.
    /// The position is untouched; the caller recentres the ball.
    pub fn serve(&mut self)
        ensures
            final(self).x == old(self).x,
            final(self).y == old(self).y,
            final(self).serve_left == !old(self).serve_left,
            serve_velocity_ok(old(self).serve_left, final(self).vx as int, final(self).vy as int),
    {
        let v = serve_velocity(self.serve_left);
        self.serve_left = !self.serve_left;
        self.vx = v.0;
        self.vy = v.1;
    }
}

impl Default for Ball {
    /// A ball ready for the opening rally: centred, serving toward the right,
    /// with the flag set so the rally after the first goal serves left.
    fn default() -> (b: Ball)
        ensures
            b.x == 0,
            b.y == 0,
            b.serve_left == true,
            serve_velocity_ok(true, b.vx as int, b.vy as int),
            ball_wf(b),
    {
        let v = serve_velocity(true);
        Ball { x: 0, y: 0, vx: v.0, vy: v.1, serve_left: true }
    }
}

/// Reset the ball for the next rally once a goal was observed this tick:
/// recentre it and serve. With no goal message the ball is untouched.
pub fn serve_on_score_change(ball: &mut Ball, events: &Vec<ScoreChanged>)
    ensures
        events@.len() == 0 ==> *final(ball) == *old(ball),
        events@.len() > 0 ==> {
            &&& final(ball).x == 0
            &&& final(ball).y == 0
            &&& final(ball).serve_left == !old(ball).serve_left
            &&& serve_velocity_ok(
                old(ball).serve_left,
                final(ball).vx as int,
                final(ball).vy as int,
            )
            &&& ball_wf(*final(ball))
        },
{
    if events.len() > 0 {
        ball.x = 0;
        ball.y = 0;
        ball.serve();
    }
}

/// Serves alternate: two balls produced by consecutive serves move in
/// opposite horizontal directions, whatever the random draws were.
pub proof fn lemma_serves_alternate(a: Ball, b: Ball, c: Ball)
    requires
        b.serve_left == !a.serve_left,
        serve_velocity_ok(a.serve_left, b.vx as int, b.vy as int),
        c.serve_left == !b.serve_left,
        serve_velocity_ok(b.serve_left, c.vx as int, c.vy as int),
    ensures
        (b.vx > 0) == (c.vx < 0),
        b.vx != 0 && c.vx != 0,
{
}

} // verus!
