use pong::game::{AppState, StateMachine};
use pong::paddle::{Controller, KeyCode};

fn no_keys() -> Vec<KeyCode> {
    Vec::new()
}

#[test]
fn a_machine_starts_in_the_menu() {
    let m = StateMachine::new();
    assert_eq!(m.state, AppState::Menu);
    assert!(m.session.is_none());
}

#[test]
fn menu_press_spawns_one_session_single_player() {
    let mut m = StateMachine::new();
    m.menu_button_pressed(true);
    assert_eq!(m.state, AppState::Game);
    assert!(m.single_player);
    let s = m.session.as_ref().expect("entering Game must spawn a session");
    assert!(matches!(s.left_paddle.controller, Controller::Computer));
    assert!(matches!(
        s.right_paddle.controller,
        Controller::Player { input_up: KeyCode::Up, input_down: KeyCode::Down }
    ));
    assert_eq!(s.score.left_score, 0);
    assert_eq!(s.score.right_score, 0);
    assert_eq!(s.ball.x, 0);
    assert_eq!(s.ball.y, 0);
    assert_eq!(s.data.game_entities, vec![0, 1, 2, 3]);
    assert!(!s.data.is_left_win);
}

#[test]
fn menu_press_spawns_two_human_paddles() {
    let mut m = StateMachine::new();
    m.menu_button_pressed(false);
    let s = m.session.as_ref().unwrap();
    assert!(matches!(
        s.left_paddle.controller,
        Controller::Player { input_up: KeyCode::W, input_down: KeyCode::S }
    ));
}

#[test]
fn stray_presses_are_ignored() {
    let mut m = StateMachine::new();
    m.end_button_pressed();
    assert_eq!(m.state, AppState::Menu);
    m.menu_button_pressed(true);
    assert_eq!(m.state, AppState::Game);
    m.menu_button_pressed(false);
    assert_eq!(m.state, AppState::Game);
    assert!(m.single_player);
}

#[test]
fn tick_outside_game_does_nothing() {
    let mut m = StateMachine::new();
    let out = m.tick(&no_keys(), 10);
    assert_eq!(m.state, AppState::Menu);
    assert!(out.score_events.is_empty());
    assert!(out.released_entities.is_empty());
}

#[test]
fn a_plain_tick_moves_ball_and_ai_paddle() {
    let mut m = StateMachine::new();
    m.menu_button_pressed(true);
    {
        let s = m.session.as_mut().unwrap();
        s.ball = pong::ball::Ball { x: 0, y: 50_000, vx: 100, vy: 0, serve_left: true };
    }
    let out = m.tick(&no_keys(), 10);
    assert!(out.score_events.is_empty());
    let s = m.session.as_ref().unwrap();
    assert_eq!(s.ball.x, 1_000);
    assert_eq!(s.ball.y, 50_000);
    // Both paddles started at 0 with the ball above them: the computer one
    // rises by 4 units, the human one without held keys stays.
    assert_eq!(s.left_paddle.y, 4_000);
    assert_eq!(s.right_paddle.y, 0);
}

#[test]
fn a_goal_mid_session_serves_and_plays_on() {
    let mut m = StateMachine::new();
    m.menu_button_pressed(false);
    {
        let s = m.session.as_mut().unwrap();
        s.ball = pong::ball::Ball { x: 380_000, y: 0, vx: 800, vy: 0, serve_left: true };
    }
    let out = m.tick(&no_keys(), 10);
    assert_eq!(out.score_events.len(), 1);
    assert_eq!(out.score_events[0].0.right_score, 1);
    assert_eq!(out.score_events[0].0.left_score, 0);
    assert!(out.released_entities.is_empty());
    assert_eq!(m.state, AppState::Game);
    let s = m.session.as_ref().unwrap();
    assert_eq!(s.score.right_score, 1);
    assert_eq!(s.ball.x, 0);
    assert_eq!(s.ball.y, 0);
    assert!(!s.ball.serve_left);
    assert!(s.ball.vx > 0);
}

#[test]
fn reaching_ten_ends_the_game_with_the_correct_winner() {
    let mut m = StateMachine::new();
    m.menu_button_pressed(true);
    {
        let s = m.session.as_mut().unwrap();
        s.score = pong::score::Score { right_score: 0, left_score: 9 };
        s.ball = pong::ball::Ball { x: -380_000, y: 0, vx: -800, vy: 0, serve_left: false };
    }
    let out = m.tick(&no_keys(), 10);
    assert_eq!(m.state, AppState::End);
    assert!(m.session.is_none());
    assert!(m.winner_is_left);
    assert_eq!(out.released_entities, vec![0, 1, 2, 3]);
    assert_eq!(out.score_events.len(), 1);
    assert_eq!(out.score_events[0].0.left_score, 10);

    // The end screen's button returns to the menu, and a new session spawns
    // four fresh handles: nothing of the old session leaks into it.
    m.end_button_pressed();
    assert_eq!(m.state, AppState::Menu);
    m.menu_button_pressed(false);
    assert_eq!(m.state, AppState::Game);
    let s = m.session.as_ref().unwrap();
    assert_eq!(s.data.game_entities, vec![4, 5, 6, 7]);
    assert_eq!(s.score.left_score, 0);
}

#[test]
fn the_right_side_can_win_too() {
    let mut m = StateMachine::new();
    m.menu_button_pressed(false);
    {
        let s = m.session.as_mut().unwrap();
        s.score = pong::score::Score { right_score: 9, left_score: 3 };
        s.ball = pong::ball::Ball { x: 380_000, y: 0, vx: 800, vy: 0, serve_left: true };
    }
    m.tick(&no_keys(), 10);
    assert_eq!(m.state, AppState::End);
    assert!(!m.winner_is_left);
}
