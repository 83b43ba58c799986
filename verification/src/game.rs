//! The session that one round of play owns, and the state machine that
//! sequences Menu → Game → End.

use vstd::prelude::*;
use crate::ball::{
    ball_movement, clamped_y, goal_score, goal_scored, moved_x, serve_on_score_change,
    serve_velocity_ok, velocity_after, Ball,
};
use crate::paddle::{
    paddle_control, paddle_wf, paddle_y_after, Controller, KeyCode, Paddle, LEFT_PADDLE_X,
    RIGHT_PADDLE_X,
};
use crate::score::{update_score, Score, ScoreChanged};
use crate::MAX_TICK_MS;

verus! {

/// Points needed for one side to win the session.
pub const VICTORY_POINT_REQ: u32 = 10;

/// The top-level phase of the application; each phase corresponds to a
/// different screen. `Menu` is the initial phase.
#[derive(Clone, Copy, Debug, PartialEq, Eq, Structural)]
pub enum AppState {
    Menu,
    Game,
    End,
}

/// The handles of the entities one session spawned, and the winner flag
/// recorded at the moment the session ends.
#[derive(Debug)]
pub struct GameData {
    pub game_entities: Vec<u64>,
    pub is_left_win: bool,
}

impl GameData {
    /// Fresh session data over the given handles; nobody has won yet.
    pub fn new(game_entities: Vec<u64>) -> (d: GameData)
        ensures
            d.game_entities == game_entities,
            d.is_left_win == false,
    {
        GameData { game_entities, is_left_win: false }
    }
}

/// Everything one play session owns: exactly one ball, two paddles, one
/// score, and the session data.
#[derive(Debug)]
pub struct Session {
    pub ball: Ball,
    pub left_paddle: Paddle,
    pub right_paddle: Paddle,
    pub score: Score,
    pub data: GameData,
}

/// A running session is well formed: every entity in bounds, both paddles on
/// their spawn columns, and neither side yet at the winning score.
pub open spec fn session_wf(s: Session) -> bool {
    &&& crate::ball::ball_wf(s.ball)
    &&& paddle_wf(s.left_paddle)
    &&& s.left_paddle.x == LEFT_PADDLE_X
    &&& paddle_wf(s.right_paddle)
    &&& s.right_paddle.x == RIGHT_PADDLE_X
    &&& s.score.left_score < VICTORY_POINT_REQ
    &&& s.score.right_score < VICTORY_POINT_REQ
}

/// The shape of a session as it is spawned on entering Game: ball centred
/// and serving right, paddles centred on their columns, a 0 : 0 score, and
/// four fresh consecutive entity handles. The left paddle obeys the
/// single-player selection; the right paddle is always the human one.
pub open spec fn session_spawned(s: Session, single_player: bool, first_id: int) -> bool {
    &&& s.ball.x == 0 && s.ball.y == 0
    &&& s.ball.serve_left == true
    &&& serve_velocity_ok(true, s.ball.vx as int, s.ball.vy as int)
    &&& s.left_paddle.x == LEFT_PADDLE_X && s.left_paddle.y == 0
    &&& s.left_paddle.controller == (if single_player {
        Controller::Computer
    } else {
        Controller::Player { input_up: KeyCode::W, input_down: KeyCode::S }
    })
    &&& s.right_paddle.x == RIGHT_PADDLE_X && s.right_paddle.y == 0
    &&& s.right_paddle.controller == (Controller::Player {
        input_up: KeyCode::Up,
        input_down: KeyCode::Down,
    })
    &&& s.score.left_score == 0 && s.score.right_score == 0
    &&& s.data.game_entities@.len() == 4
    &&& forall|i: int| 0 <= i < 4 ==> s.data.game_entities@[i] == first_id + i
    &&& s.data.is_left_win == false
}

/// Spawn the entities of a fresh session, handing them four consecutive
/// handles starting at `first_id`.
pub fn setup_game(single_player: bool, first_id: u64) -> (s: Session)
    requires
        first_id <= u64::MAX - 4,
    ensures
        session_spawned(s, single_player, first_id as int),
        session_wf(s),
{
    let mut ids: Vec<u64> = Vec::new();
    ids.push(first_id);
    ids.push(first_id + 1);
    ids.push(first_id + 2);
    ids.push(first_id + 3);
    let left_controller = if single_player {
        Controller::Computer
    } else {
        Controller::Player { input_up: KeyCode::W, input_down: KeyCode::S }
    };
    Session {
        ball: Ball::default(),
        left_paddle: Paddle { x: LEFT_PADDLE_X, y: 0, controller: left_controller },
        right_paddle: Paddle {
            x: RIGHT_PADDLE_X,
            y: 0,
            controller: Controller::Player { input_up: KeyCode::Up, input_down: KeyCode::Down },
        },
        score: Score::new(),
        data: GameData::new(ids),
    }
}

/// What one score message decides: the right side's total is checked first,
/// then the left side's; a message below the threshold decides nothing.
pub open spec fn event_verdict(e: ScoreChanged) -> Option<bool> {
    if e.0.right_score >= VICTORY_POINT_REQ {
        Some(false)
    } else if e.0.left_score >= VICTORY_POINT_REQ {
        Some(true)
    } else {
        None
    }
}

/// The winner the drained messages of one tick determine, if any: the last
/// message that reaches the threshold decides, and `Some(true)` means the
/// left side won.
pub open spec fn victory_of(events: Seq<ScoreChanged>) -> Option<bool>
    decreases events.len(),
{
    if events.len() == 0 {
        None
    } else {
        match event_verdict(events.last()) {
            Some(w) => Some(w),
            None => victory_of(events.drop_last()),
        }
    }
}

/// Scan this tick's score messages for a side that reached the winning
/// threshold.
pub fn check_for_victory(events: &Vec<ScoreChanged>) -> (r: Option<bool>)
    ensures
        r == victory_of(events@),
{
    let mut r: Option<bool> = None;
    let mut i: usize = 0;
    while i < events.len()
        invariant
            i <= events@.len(),
            r == victory_of(events@.subrange(0, i as int)),
        decreases events@.len() - i,
    {
        let e = events[i];
        if e.0.right_score >= VICTORY_POINT_REQ {
            r = Some(false);
        } else if e.0.left_score >= VICTORY_POINT_REQ {
            r = Some(true);
        }
        proof {
            assert(events@.subrange(0, i as int + 1).drop_last() =~= events@.subrange(0, i as int));
            assert(events@.subrange(0, i as int + 1).last() == events@[i as int]);
        }
        i = i + 1;
    }
    proof {
        assert(events@.subrange(0, events@.len() as int) =~= events@);
    }
    r
}

/// The top-level orchestrator: the current phase, the menu's player-count
/// selection, the winner of the last finished session, a counter issuing
/// entity handles, and the session itself while the phase is Game.
#[derive(Debug)]
pub struct StateMachine {
    pub state: AppState,
    pub single_player: bool,
    pub winner_is_left: bool,
    pub next_entity: u64,
    pub session: Option<Session>,
}

/// The machine's invariant: a session exists exactly while the phase is
/// Game, and then it is well formed.
pub open spec fn machine_wf(m: StateMachine) -> bool {
    &&& (m.state is Game) == (m.session is Some)
    &&& (m.session matches Some(s) ==> session_wf(s))
}

/// A paddle after its per-tick control ran.
pub open spec fn paddle_after(p: Paddle, ball_y: int, held: Seq<KeyCode>, dt: int) -> Paddle {
    Paddle { y: paddle_y_after(p, ball_y, held, dt) as i64, ..p }
}

/// Everything one Game tick leaves behind, given the session `s` it started
/// from. Paddles move first, on the ball's old height; the ball then moves
/// against the fresh paddle positions; a goal replaces the score and either
/// ends the session — the first time a side reaches the threshold — or
/// recentres and serves the ball the other way.
pub open spec fn tick_from_session(
    pre: StateMachine,
    s: Session,
    post: StateMachine,
    events: Seq<ScoreChanged>,
    released: Seq<u64>,
    held: Seq<KeyCode>,
    dt: int,
) -> bool {
    let lp2 = paddle_after(s.left_paddle, s.ball.y as int, held, dt);
    let rp2 = paddle_after(s.right_paddle, s.ball.y as int, held, dt);
    &&& post.single_player == pre.single_player
    &&& post.next_entity == pre.next_entity
    &&& if goal_scored(s.ball, dt) {
        let sc2 = goal_score(s.score, s.ball, dt);
        &&& events =~= seq![ScoreChanged(sc2)]
        &&& if sc2.left_score >= VICTORY_POINT_REQ || sc2.right_score >= VICTORY_POINT_REQ {
            &&& post.state is End
            &&& post.session is None
            &&& post.winner_is_left == (sc2.left_score >= VICTORY_POINT_REQ)
            &&& released =~= s.data.game_entities@
        } else {
            &&& post.state is Game
            &&& released.len() == 0
            &&& post.winner_is_left == pre.winner_is_left
            &&& post.session matches Some(s2) && {
                &&& s2.score == sc2
                &&& s2.left_paddle == lp2
                &&& s2.right_paddle == rp2
                &&& s2.ball.x == 0 && s2.ball.y == 0
                &&& s2.ball.serve_left == !s.ball.serve_left
                &&& serve_velocity_ok(s.ball.serve_left, s2.ball.vx as int, s2.ball.vy as int)
                &&& s2.data.game_entities@ == s.data.game_entities@
                &&& s2.data.is_left_win == s.data.is_left_win
            }
        }
    } else {
        &&& events.len() == 0
        &&& released.len() == 0
        &&& post.state is Game
        &&& post.winner_is_left == pre.winner_is_left
        &&& post.session matches Some(s2) && {
            &&& s2.score == s.score
            &&& s2.left_paddle == lp2
            &&& s2.right_paddle == rp2
            &&& s2.ball.x == moved_x(s.ball, dt)
            &&& s2.ball.y == clamped_y(s.ball, dt)
            &&& (s2.ball.vx as int, s2.ball.vy as int) == velocity_after(s.ball, lp2, rp2, dt)
            &&& s2.ball.serve_left == s.ball.serve_left
            &&& s2.data.game_entities@ == s.data.game_entities@
            &&& s2.data.is_left_win == s.data.is_left_win
        }
    }
}

/// What a tick hands back to the surrounding frame: the score messages it
/// drained — for the score display and the goal sound — and the handles of
/// entities released by a session that just ended.
pub struct TickOutput {
    pub score_events: Vec<ScoreChanged>,
    pub released_entities: Vec<u64>,
}

impl StateMachine {
    /// A machine at process start: in the menu, nothing spawned.
    pub fn new() -> (m: StateMachine)
        ensures
            m.state is Menu,
            m.session is None,
            m.single_player == false,
            m.winner_is_left == false,
            m.next_entity == 0,
            machine_wf(m),
    {
        StateMachine {
            state: AppState::Menu,
            single_player: false,
            winner_is_left: false,
            next_entity: 0,
            session: None,
        }
    }

    /// A press of a menu button carrying the single-player selection: in the
    /// menu it records the selection and enters Game, spawning exactly one
    /// ball, two paddles and one score; anywhere else it is a no-op.
    pub fn menu_button_pressed(&mut self, single_player: bool)
        requires
            machine_wf(*old(self)),
            old(self).next_entity <= u64::MAX - 4,
        ensures
            machine_wf(*final(self)),
            !(old(self).state is Menu) ==> *final(self) == *old(self),
            old(self).state is Menu ==> {
                &&& final(self).state is Game
                &&& final(self).single_player == single_player
                &&& final(self).winner_is_left == old(self).winner_is_left
                &&& final(self).next_entity == old(self).next_entity + 4
                &&& final(self).session matches Some(s) && session_spawned(
                    s,
                    single_player,
                    old(self).next_entity as int,
                )
            },
    {
        if matches!(self.state, AppState::Menu) {
            self.single_player = single_player;
            self.session = Some(setup_game(single_player, self.next_entity));
            self.next_entity = self.next_entity + 4;
            self.state = AppState::Game;
        }
    }

    /// A press of the end screen's button: on the end screen it returns to
    /// the menu; anywhere else it is a no-op.
    pub fn end_button_pressed(&mut self)
        requires
            machine_wf(*old(self)),
        ensures
            machine_wf(*final(self)),
            !(old(self).state is End) ==> *final(self) == *old(self),
            old(self).state is End ==> {
                &&& final(self).state is Menu
                &&& final(self).session is None
                &&& final(self).single_player == old(self).single_player
                &&& final(self).winner_is_left == old(self).winner_is_left
                &&& final(self).next_entity == old(self).next_entity
            },
    {
        if matches!(self.state, AppState::End) {
            self.state = AppState::Menu;
        }
    }

    /// One simulation tick of `dt` milliseconds, fed the keys currently
    /// held. Outside Game it does nothing. In Game it runs the fixed order:
    /// paddle control, ball simulation, score application, win detection,
    /// then the serve reset — and on a win records the correct winner,
    /// enters End, and releases the session's entities exactly once.
    pub fn tick(&mut self, held: &Vec<KeyCode>, dt: i64) -> (out: TickOutput)
        requires
            machine_wf(*old(self)),
            0 < dt <= MAX_TICK_MS,
        ensures
            machine_wf(*final(self)),
            !(old(self).state is Game) ==> {
                &&& *final(self) == *old(self)
                &&& out.score_events@.len() == 0
                &&& out.released_entities@.len() == 0
            },
            old(self).session matches Some(s) ==> tick_from_session(
                *old(self),
                s,
                *final(self),
                out.score_events@,
                out.released_entities@,
                held@,
                dt as int,
            ),
            old(self).session matches Some(s) ==> (final(self).session matches Some(s2) ==> {
                &&& s2.score.left_score >= s.score.left_score
                &&& s2.score.right_score >= s.score.right_score
            }),
    {
        if !matches!(self.state, AppState::Game) {
            return TickOutput { score_events: Vec::new(), released_entities: Vec::new() };
        }
        let sess_opt = self.session.take();
        match sess_opt {
            None => {
                proof {
                    assert(false);
                }
                TickOutput { score_events: Vec::new(), released_entities: Vec::new() }
            },
            Some(mut s) => {
                let ghost s0: Session = s;
                let ball_y = s.ball.y;
                paddle_control(&mut s.left_paddle, ball_y, held, dt);
                paddle_control(&mut s.right_paddle, ball_y, held, dt);
                proof {
                    assert(s.left_paddle == paddle_after(
                        s0.left_paddle,
                        s0.ball.y as int,
                        held@,
                        dt as int,
                    ));
                    assert(s.right_paddle == paddle_after(
                        s0.right_paddle,
                        s0.ball.y as int,
                        held@,
                        dt as int,
                    ));
                }
                let ev = ball_movement(&mut s.ball, &s.left_paddle, &s.right_paddle, &s.score, dt);
                let mut events: Vec<ScoreChanged> = Vec::new();
                match ev {
                    Some(e) => {
                        events.push(e);
                        proof {
                            assert(events@ =~= seq![e]);
                        }
                    },
                    None => (),
                }
                update_score(&mut s.score, &events);
                let verdict = check_for_victory(&events);
                proof {
                    reveal_with_fuel(victory_of, 3);
                    if events@.len() == 1 {
                        assert(events@.drop_last() =~= Seq::<ScoreChanged>::empty());
                        assert(victory_of(events@) == event_verdict(events@[0]));
                    }
                }
                match verdict {
                    Some(w) => {
                        // Record the winner into the session data before the
                        // teardown, then release every handle at once.
                        s.data.is_left_win = w;
                        self.winner_is_left = w;
                        self.state = AppState::End;
                        TickOutput {
                            score_events: events,
                            released_entities: s.data.game_entities,
                        }
                    },
                    None => {
                        serve_on_score_change(&mut s.ball, &events);
                        self.session = Some(s);
                        TickOutput { score_events: events, released_entities: Vec::new() }
                    },
                }
            },
        }
    }
}

} // verus!
