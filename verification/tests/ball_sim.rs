use pong::ball::{ball_movement, paddle_rebound, serve_on_score_change, Ball};
use pong::paddle::{Controller, KeyCode, Paddle, LEFT_PADDLE_X, RIGHT_PADDLE_X};
use pong::score::{update_score, Score, ScoreChanged};

fn far_paddles() -> (Paddle, Paddle) {
    (
        Paddle { x: LEFT_PADDLE_X, y: 0, controller: Controller::Computer },
        Paddle {
            x: RIGHT_PADDLE_X,
            y: 0,
            controller: Controller::Player { input_up: KeyCode::Up, input_down: KeyCode::Down },
        },
    )
}

fn zero_score() -> Score {
    Score { right_score: 0, left_score: 0 }
}

#[test]
fn tick_integrates_exactly() {
    let (lp, rp) = far_paddles();
    let mut b = Ball { x: 0, y: 0, vx: 100, vy: -50, serve_left: false };
    let ev = ball_movement(&mut b, &lp, &rp, &zero_score(), 100);
    assert!(ev.is_none());
    assert_eq!(b.x, 10_000);
    assert_eq!(b.y, -5_000);
    assert_eq!(b.vx, 100);
    assert_eq!(b.vy, -50);
}

#[test]
fn goal_on_right_scores_right() {
    // Field half-width 401 units, ball half-size 15 units: the goal line is
    // at 386 units. From 380 units at +800 units/s, a 10 ms tick reaches
    // 388 units, past the line.
    let (lp, rp) = far_paddles();
    let mut b = Ball { x: 380_000, y: 0, vx: 800, vy: 0, serve_left: true };
    let before = b;
    let ev = ball_movement(&mut b, &lp, &rp, &zero_score(), 10);
    let ev = ev.expect("crossing the right goal line must score");
    assert_eq!(ev.0.left_score, 0);
    assert_eq!(ev.0.right_score, 1);
    // A goal pre-empts every bounce: the ball is left exactly as it was.
    assert_eq!(b, before);
    let mut score = zero_score();
    update_score(&mut score, &vec![ev]);
    assert_eq!(score.left_score, 0);
    assert_eq!(score.right_score, 1);
}

#[test]
fn goal_on_left_scores_left() {
    let (lp, rp) = far_paddles();
    let mut b = Ball { x: -380_000, y: 12_345, vx: -800, vy: 3, serve_left: false };
    let before = b;
    let ev = ball_movement(&mut b, &lp, &rp, &zero_score(), 10);
    let ev = ev.expect("crossing the left goal line must score");
    assert_eq!(ev.0.left_score, 1);
    assert_eq!(ev.0.right_score, 0);
    assert_eq!(b, before);
}

#[test]
fn wall_bounce_clamps_and_flips() {
    // The top wall sits under the score bar at 165.5 units.
    let (lp, rp) = far_paddles();
    let mut b = Ball { x: 0, y: 165_000, vx: 0, vy: 100, serve_left: true };
    let ev = ball_movement(&mut b, &lp, &rp, &zero_score(), 100);
    assert!(ev.is_none());
    assert_eq!(b.y, 165_500);
    assert_eq!(b.vy, -100);
    assert_eq!(b.x, 0);
}

#[test]
fn bottom_wall_bounces_losslessly() {
    let (lp, rp) = far_paddles();
    let mut b = Ball { x: 1_000, y: -212_000, vx: 10, vy: -250, serve_left: true };
    let ev = ball_movement(&mut b, &lp, &rp, &zero_score(), 10);
    assert!(ev.is_none());
    assert_eq!(b.y, -212_500);
    assert_eq!(b.vy, 250);
    assert_eq!(b.x, 1_100);
}

#[test]
fn paddle_hit_sets_angle_based_velocity() {
    // A paddle centred at (0, 50) units and the ball overlapping at
    // (5, 80) units: the rebound follows the centre-to-centre line scaled to
    // 800 units/s, roughly (132, 789).
    let lp = Paddle { x: 0, y: 50_000, controller: Controller::Computer };
    let (_, rp) = far_paddles();
    let mut b = Ball { x: 5_000, y: 80_000, vx: 0, vy: 0, serve_left: true };
    let ev = ball_movement(&mut b, &lp, &rp, &zero_score(), 1);
    assert!(ev.is_none());
    assert_eq!(b.x, 5_000);
    assert_eq!(b.y, 80_000);
    assert_eq!(b.vx, 132);
    assert_eq!(b.vy, 789);
}

#[test]
fn rebound_values_exact() {
    assert_eq!(paddle_rebound(5_000, 30_000), (132, 789));
    // Straight above the paddle centre: all speed goes vertical.
    assert_eq!(paddle_rebound(0, 10_000), (0, 800));
    // Mirrored offsets mirror the velocity.
    assert_eq!(paddle_rebound(-5_000, -30_000), (-132, -789));
}

#[test]
fn serve_alternates_direction() {
    let mut b = Ball { x: 0, y: 0, vx: 0, vy: 0, serve_left: true };
    b.serve();
    assert!(b.vx > 0);
    assert!(!b.serve_left);
    let first_vx = b.vx;
    b.serve();
    assert!(b.vx < 0);
    assert!(b.serve_left);
    assert!(first_vx > 0 && b.vx < 0);
}

#[test]
fn serve_velocity_is_forward_biased_and_reduced() {
    for _ in 0..200 {
        let mut b = Ball { x: 0, y: 0, vx: 0, vy: 0, serve_left: true };
        b.serve();
        assert!(b.vx > 0);
        assert!(b.vy.abs() <= b.vx.abs());
        assert!(b.vy.abs() <= 367);
        assert!(b.vx <= 520);
        assert!(b.vx * b.vx + b.vy * b.vy <= 520 * 520);
        // The speed is the full serve speed up to the rounding of vx.
        assert!(b.vx * b.vx + b.vy * b.vy + 2 * b.vx >= 520 * 520);
    }
}

#[test]
fn serve_reset_recenters_ball() {
    let mut b = Ball { x: 123_000, y: -45_000, vx: 800, vy: 10, serve_left: false };
    let ev = vec![ScoreChanged(Score { right_score: 1, left_score: 0 })];
    serve_on_score_change(&mut b, &ev);
    assert_eq!(b.x, 0);
    assert_eq!(b.y, 0);
    assert!(b.serve_left);
    assert!(b.vx < 0);
}

#[test]
fn no_goal_means_no_serve_reset() {
    let mut b = Ball { x: 123_000, y: -45_000, vx: 800, vy: 10, serve_left: false };
    let before = b;
    let none: Vec<ScoreChanged> = Vec::new();
    serve_on_score_change(&mut b, &none);
    assert_eq!(b, before);
}

#[test]
fn default_ball_serves_rightward_from_centre() {
    let b = Ball::default();
    assert_eq!(b.x, 0);
    assert_eq!(b.y, 0);
    assert!(b.serve_left);
    assert!(b.vx > 0);
    assert!(b.vy.abs() <= b.vx.abs());
}
