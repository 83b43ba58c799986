use pong::paddle::{
    paddle_control, Controller, KeyCode, Paddle, PADDLE_Y_MAX, PADDLE_Y_MIN, RIGHT_PADDLE_X,
};

fn ai_paddle(y: i64) -> Paddle {
    Paddle { x: RIGHT_PADDLE_X, y, controller: Controller::Computer }
}

fn human_paddle(y: i64) -> Paddle {
    Paddle {
        x: RIGHT_PADDLE_X,
        y,
        controller: Controller::Player { input_up: KeyCode::W, input_down: KeyCode::S },
    }
}

#[test]
fn ai_chases_ball_upward() {
    // The computer paddle moves at 0.8 of the full 500 units/s, so a 10 ms
    // tick moves it by exactly 4 units.
    let mut p = ai_paddle(0);
    paddle_control(&mut p, 50_000, &Vec::new(), 10);
    assert_eq!(p.y, 4_000);
    assert_eq!(p.x, RIGHT_PADDLE_X);
}

#[test]
fn ai_chases_ball_downward() {
    let mut p = ai_paddle(0);
    paddle_control(&mut p, -50_000, &Vec::new(), 10);
    assert_eq!(p.y, -4_000);
}

#[test]
fn ai_at_equal_height_drifts_down() {
    let mut p = ai_paddle(10_000);
    paddle_control(&mut p, 10_000, &Vec::new(), 10);
    assert_eq!(p.y, 6_000);
}

#[test]
fn ai_stops_at_upper_clamp() {
    let mut p = ai_paddle(PADDLE_Y_MAX);
    paddle_control(&mut p, 200_000, &Vec::new(), 1000);
    assert_eq!(p.y, PADDLE_Y_MAX);
}

#[test]
fn human_moves_up_while_key_held() {
    let mut p = human_paddle(0);
    paddle_control(&mut p, 0, &vec![KeyCode::W], 10);
    assert_eq!(p.y, 5_000);
}

#[test]
fn human_moves_down_while_key_held() {
    let mut p = human_paddle(0);
    paddle_control(&mut p, 0, &vec![KeyCode::S], 10);
    assert_eq!(p.y, -5_000);
}

#[test]
fn both_keys_cancel_exactly() {
    let mut p = human_paddle(42_000);
    paddle_control(&mut p, 0, &vec![KeyCode::W, KeyCode::S], 10);
    assert_eq!(p.y, 42_000);
}

#[test]
fn unbound_keys_never_move_a_paddle() {
    let mut p = human_paddle(7_000);
    paddle_control(&mut p, 0, &vec![KeyCode::Up, KeyCode::Down], 10);
    assert_eq!(p.y, 7_000);
}

#[test]
fn human_stops_at_lower_clamp() {
    let mut p = human_paddle(PADDLE_Y_MIN + 1_000);
    paddle_control(&mut p, 0, &vec![KeyCode::S], 10);
    assert_eq!(p.y, PADDLE_Y_MIN);
}

#[test]
fn clamp_bounds_are_the_field_minus_bar_and_half_paddle() {
    // Field height 455 units, bar 47 units, paddle 120 units.
    assert_eq!(PADDLE_Y_MIN, -167_500);
    assert_eq!(PADDLE_Y_MAX, 120_500);
}
