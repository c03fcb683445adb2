//! What each screen of the game decides in one frame, given the keys held
//! or pressed, the numbers drawn and what the network worker delivered.
//! Drawing and sound happen around these functions.
use vstd::prelude::*;

use crate::codec::{Message, MessageView};
use crate::game::{
    spec_add_score,
    spec_ball_events,
    spec_ball_step,
    spec_is_local_player,
    spec_paddle_step,
    spec_step_fits,
    Ball,
    BallEvents,
    GameContext,
    GameState,
    MenuState,
    Paddle,
    BALL_SPEED,
    RES_HEIGHT,
    RES_WIDTH,
};
use crate::session::{MultiplayerContext, Side, SyncPhase};
use crate::snapshot::{spec_match_ready, UNASSIGNED_ID};
use crate::sync::{
    multiplayer_update,
    spec_exchange,
    spec_identity_rejection,
    spec_may_contribute,
    spec_outbound,
    spec_side_unresolved,
    Exchange,
};

verus! {

/// Points that win a game.
pub const WINNING_SCORE: i32 = 10;

/// Frames that each picture of the waiting animation stays on screen.
pub const WAITING_FRAME_TICKS: usize = 60;

/// Pictures of the waiting animation.
pub const WAITING_FRAMES: usize = 3;

/// Keys of the two paddles held down this frame.
#[derive(Clone, Copy, Debug, PartialEq, Eq, Structural)]
pub struct PaddleKeys {
    pub left_up: bool,
    pub left_down: bool,
    pub right_up: bool,
    pub right_down: bool,
}

/// What a frame of the running game produced.
#[derive(Clone, Debug)]
pub struct LoopOutcome {
    /// What the ball step reported; none when the ball was not stepped.
    pub events: Option<BallEvents>,
    /// What the exchange with the worker produced.
    pub exchange: Exchange,
}

/// What a frame of the connecting screen produced.
#[derive(Clone, Debug)]
pub struct ConnectOutcome {
    /// Whether a network worker has to be started.
    pub start_worker: bool,
    /// What the exchange with the worker produced.
    pub exchange: Exchange,
}

/// What a frame of the waiting screen produced.
#[derive(Clone, Debug)]
pub struct WaitingOutcome {
    /// Picture of the waiting animation to show.
    pub frame: usize,
    /// What the exchange with the worker produced.
    pub exchange: Exchange,
    /// The readiness notice to queue, sent once when the match starts.
    pub ready: Option<Message>,
}

/// Animation state of the waiting screen, owned by that screen.
#[derive(Clone, Copy, Debug, PartialEq, Eq, Structural)]
pub struct WaitingScreen {
    pub counter: usize,
}

/// The screen after a ball step that reported `e`, with the point already
/// added to `g`. Offline, a point leads to the point screen. In a
/// multiplayer match play does not pause after a point, and the point that
/// reaches the winning score ends the match.
pub open spec fn spec_state_after_point(g: GameContext, e: BallEvents) -> GameState {
    if e.scored.is_none() {
        g.state
    } else if !g.multiplayer.active {
        GameState::Scored
    } else if g.score_left >= WINNING_SCORE || g.score_right >= WINNING_SCORE {
        GameState::Finished
    } else {
        g.state
    }
}

/// The points that win a game.
pub fn get_winning_score() -> (r: i32)
    ensures
        r == WINNING_SCORE,
{
    WINNING_SCORE
}

/// The name of the winner: player one when the left side reached the
/// winning score, player two otherwise.
pub fn get_winner(game: &GameContext) -> (r: &'static str)
    ensures
        game.score_left == WINNING_SCORE ==> r@ == "One"@,
        game.score_left != WINNING_SCORE ==> r@ == "Two"@,
{
    if game.score_left == get_winning_score() {
        "One"
    } else {
        "Two"
    }
}

/// Starts a game afresh: ball and paddles back in the middle, scores zero,
/// the game running.
pub fn init_state(
    player_one: &mut Paddle,
    player_two: &mut Paddle,
    ball: &mut Ball,
    game: &mut GameContext,
)
    ensures
        *final(ball) == (Ball {
            pos_x: (RES_WIDTH / 2) as i32,
            pos_y: (RES_HEIGHT / 2) as i32,
            ..*old(ball)
        }),
        *final(player_one) == (Paddle { pos_y: (RES_HEIGHT / 2) as i32, ..*old(player_one) }),
        *final(player_two) == (Paddle { pos_y: (RES_HEIGHT / 2) as i32, ..*old(player_two) }),
        *final(game) == (GameContext {
            score_left: 0,
            score_right: 0,
            state: GameState::Loop,
            ..*old(game)
        }),
{
    ball.pos_x = RES_WIDTH / 2;
    ball.pos_y = RES_HEIGHT / 2;
    player_one.pos_y = RES_HEIGHT / 2;
    player_two.pos_y = RES_HEIGHT / 2;
    game.score_left = 0;
    game.score_right = 0;
    game.state = GameState::Loop;
}

/// The end screen: `N` quits, `Y` starts a new game, and either ends the
/// match attempt: the session is forgotten and its worker is to be stopped.
/// A game that nobody has won yet goes back to running.
pub fn finished_state(game: &mut GameContext, key_n: bool, key_y: bool)
    ensures
        *final(game) == (GameContext {
            state: if key_n {
                GameState::Quit
            } else if key_y {
                GameState::Init
            } else if !(old(game).score_left >= WINNING_SCORE || old(game).score_right
                >= WINNING_SCORE) {
                GameState::Loop
            } else {
                old(game).state
            },
            multiplayer: if key_n || key_y {
                MultiplayerContext {
                    active: false,
                    player_id: UNASSIGNED_ID,
                    session_id: UNASSIGNED_ID,
                    side: Side::Unknown,
                    snapshot: None,
                    phase: SyncPhase::Disconnected,
                }
            } else {
                old(game).multiplayer
            },
            ..*old(game)
        }),
{
    if key_n || key_y {
        game.multiplayer.disconnect();
    }
    if !(game.score_left >= get_winning_score() || game.score_right >= get_winning_score()) {
        game.state = GameState::Loop;
    }
    if key_n {
        game.state = GameState::Quit;
        return ;
    }
    if key_y {
        game.state = GameState::Init;
    }
}

/// The main menu: down and up move the selection, wrapping around; enter
/// quits, starts an offline game or starts connecting, by the selection.
/// Returns whether the selection moved.
pub fn menu_state(game: &mut GameContext, key_down: bool, key_up: bool, key_enter: bool) -> (r:
    bool)
    ensures
        r == (key_down || key_up),
        key_down ==> *final(game) == (GameContext { menu: old(game).menu.spec_next(), ..*old(game) }),
        !key_down && key_up ==> *final(game) == (GameContext {
            menu: old(game).menu.spec_prev(),
            ..*old(game)
        }),
        !key_down && !key_up ==> *final(game) == (GameContext {
            state: if key_enter {
                match old(game).menu {
                    MenuState::Quit => GameState::Quit,
                    MenuState::NewGame => GameState::Loop,
                    MenuState::Multiplayer => GameState::Connect,
                    MenuState::Options => old(game).state,
                }
            } else {
                old(game).state
            },
            ..*old(game)
        }),
{
    if key_down {
        game.menu = game.menu.next();
        true
    } else if key_up {
        game.menu = game.menu.prev();
        true
    } else {
        if key_enter {
            match game.menu {
                MenuState::Quit => {
                    game.state = GameState::Quit;
                },
                MenuState::NewGame => {
                    game.state = GameState::Loop;
                },
                MenuState::Multiplayer => {
                    game.state = GameState::Connect;
                },
                MenuState::Options => {},
            }
        }
        false
    }
}

/// Whether play resumes after a point: only offline, while space is held.
pub fn can_game_continue(game: &GameContext, space_down: bool) -> (r: bool)
    ensures
        r == (!game.multiplayer.active && space_down),
{
    if !game.multiplayer.active {
        return space_down;
    }
    false
}

/// The screen after a point: a won game ends; otherwise ball and paddles
/// go back to the middle, the ball keeps its horizontal direction at the
/// base speed and takes the drawn vertical speed, and play resumes when
/// `can_game_continue` says so.
pub fn scored_state(
    player_one: &mut Paddle,
    player_two: &mut Paddle,
    ball: &mut Ball,
    game: &mut GameContext,
    rand_vy: i32,
    space_down: bool,
)
    requires
        -3 - BALL_SPEED <= rand_vy <= BALL_SPEED + 3,
    ensures
        old(game).score_right >= WINNING_SCORE || old(game).score_left >= WINNING_SCORE ==> {
            &&& *final(game) == (GameContext { state: GameState::Finished, ..*old(game) })
            &&& *final(ball) == *old(ball)
            &&& *final(player_one) == *old(player_one)
            &&& *final(player_two) == *old(player_two)
        },
        !(old(game).score_right >= WINNING_SCORE || old(game).score_left >= WINNING_SCORE) ==> {
            &&& *final(ball) == (Ball {
                pos_x: (RES_WIDTH / 2) as i32,
                pos_y: (RES_HEIGHT / 2) as i32,
                velocity_x: if old(ball).velocity_x > 0 {
                    BALL_SPEED as int
                } else {
                    -BALL_SPEED
                } as i32,
                velocity_y: rand_vy,
                ..*old(ball)
            })
            &&& *final(player_one) == (Paddle {
                pos_y: (RES_HEIGHT / 2) as i32,
                ..*old(player_one)
            })
            &&& *final(player_two) == (Paddle {
                pos_y: (RES_HEIGHT / 2) as i32,
                ..*old(player_two)
            })
            &&& *final(game) == (GameContext {
                state: if !old(game).multiplayer.active && space_down {
                    GameState::Loop
                } else {
                    old(game).state
                },
                ..*old(game)
            })
        },
{
    if game.score_right >= get_winning_score() || game.score_left >= get_winning_score() {
        game.state = GameState::Finished;
        return ;
    }
    ball.pos_x = RES_WIDTH / 2;
    ball.pos_y = RES_HEIGHT / 2;
    if ball.velocity_x > 0 {
        ball.velocity_x = BALL_SPEED;
    } else {
        ball.velocity_x = -BALL_SPEED;
    }
    ball.velocity_y = rand_vy;
    player_one.pos_y = RES_HEIGHT / 2;
    player_two.pos_y = RES_HEIGHT / 2;
    if can_game_continue(game, space_down) {
        game.state = GameState::Loop;
    }
}

impl WaitingScreen {
    pub open spec fn wf(&self) -> bool {
        self.counter < WAITING_FRAME_TICKS * WAITING_FRAMES
    }

    pub fn new() -> (r: WaitingScreen)
        ensures
            r.wf(),
            r.counter == 0,
    {
        WaitingScreen { counter: 0 }
    }

    /// Advances the animation by one frame and returns the picture to show:
    /// each picture stays for its number of frames, then the next one
    /// follows, wrapping around after the last.
    pub fn tick(&mut self) -> (r: usize)
        requires
            old(self).wf(),
        ensures
            final(self).wf(),
            r == old(self).counter / WAITING_FRAME_TICKS,
            r < WAITING_FRAMES,
            final(self).counter == (old(self).counter + 1) % (WAITING_FRAME_TICKS
                * WAITING_FRAMES) as int,
    {
        let frame = self.counter / WAITING_FRAME_TICKS;
        self.counter = (self.counter + 1) % (WAITING_FRAME_TICKS * WAITING_FRAMES);
        frame
    }
}

/// The connecting screen: takes in what the worker delivered; with no
/// worker running it starts a match attempt and asks for a worker; whenever
/// the identity is known it moves on to the waiting screen, and a match
/// attempt that was still connecting starts waiting for the peer.
pub fn connect_state(
    player_one: &Paddle,
    player_two: &Paddle,
    ball: &mut Ball,
    game: &mut GameContext,
    inbound: Option<Message>,
) -> (r: ConnectOutcome)
    requires
        old(game).multiplayer.wf(),
    ensures
        final(game).multiplayer.wf(),
        ({
            let c0 = old(game).multiplayer;
            let (c1, b1) = spec_exchange(c0, *old(ball), inbound);
            &&& *final(ball) == b1
            &&& r.start_worker == !c0.active
            &&& r.exchange.outbound.is_some() == spec_may_contribute(c1)
            &&& r.exchange.identity_rejected == spec_identity_rejection(c0, inbound)
            &&& r.exchange.side_unresolved == spec_side_unresolved(c0, inbound)
            &&& r.exchange.outbound.is_some() ==> r.exchange.outbound.unwrap()@
                == MessageView::SnapshotResponse(
                spec_outbound(c1, player_one.pos_y, player_two.pos_y, b1),
            )
            &&& !c0.active ==> final(game).multiplayer == MultiplayerContext {
                active: true,
                phase: SyncPhase::Connecting,
                snapshot: None,
                side: Side::Unknown,
                player_id: UNASSIGNED_ID,
                session_id: UNASSIGNED_ID,
            } && *final(game) == GameContext { multiplayer: final(game).multiplayer, ..*old(game) }
            &&& c0.active && c1.has_identity() ==> *final(game) == GameContext {
                state: GameState::Waiting,
                multiplayer: if c1.phase == SyncPhase::Connecting {
                    MultiplayerContext { phase: SyncPhase::AwaitingPeer, ..c1 }
                } else {
                    c1
                },
                ..*old(game)
            }
            &&& c0.active && !c1.has_identity() ==> *final(game) == GameContext {
                multiplayer: c1,
                ..*old(game)
            }
        }),
{
    let exchange = multiplayer_update(player_one, player_two, ball, game, inbound);
    let start_worker = game.multiplayer.start();
    if !start_worker && game.multiplayer.is_connected() {
        let _ = game.multiplayer.connect_step();
        game.state = GameState::Waiting;
    }
    ConnectOutcome { start_worker, exchange }
}

/// The waiting screen: takes in what the worker delivered and advances the
/// animation; once our side is known and both players are registered it
/// returns the one readiness notice and the game starts running.
pub fn waiting_state(
    player_one: &Paddle,
    player_two: &Paddle,
    ball: &mut Ball,
    game: &mut GameContext,
    screen: &mut WaitingScreen,
    inbound: Option<Message>,
) -> (r: WaitingOutcome)
    requires
        old(game).multiplayer.wf(),
        old(screen).wf(),
    ensures
        final(game).multiplayer.wf(),
        final(screen).wf(),
        r.frame == old(screen).counter / WAITING_FRAME_TICKS,
        ({
            let c0 = old(game).multiplayer;
            let (c1, b1) = spec_exchange(c0, *old(ball), inbound);
            let start = c1.active && c1.phase == SyncPhase::AwaitingPeer && c1.side
                != Side::Unknown && c1.snapshot.is_some() && spec_match_ready(
                c1.snapshot.unwrap(),
            );
            &&& *final(ball) == b1
            &&& r.exchange.outbound.is_some() == spec_may_contribute(c1)
            &&& r.exchange.identity_rejected == spec_identity_rejection(c0, inbound)
            &&& r.exchange.side_unresolved == spec_side_unresolved(c0, inbound)
            &&& r.exchange.outbound.is_some() ==> r.exchange.outbound.unwrap()@
                == MessageView::SnapshotResponse(
                spec_outbound(c1, player_one.pos_y, player_two.pos_y, b1),
            )
            &&& r.ready.is_some() == start
            &&& start ==> r.ready.unwrap()@ == (MessageView::ReadyNotice {
                session_id: c1.session_id,
                player_id: c1.player_id,
            }) && *final(game) == GameContext {
                state: GameState::Loop,
                multiplayer: MultiplayerContext { phase: SyncPhase::Synchronized, ..c1 },
                ..*old(game)
            }
            &&& !start ==> *final(game) == GameContext { multiplayer: c1, ..*old(game) }
        }),
{
    let exchange = multiplayer_update(player_one, player_two, ball, game, inbound);
    let frame = screen.tick();
    let ready = game.multiplayer.waiting_step();
    if ready.is_some() {
        game.state = GameState::Loop;
    }
    WaitingOutcome { frame, exchange, ready }
}

/// A frame of the running game: both paddles step (from the keys when
/// local, from the last snapshot when remote), then the ball steps unless
/// the step would overflow an `i32`, and a point moves on to the screen
/// `spec_state_after_point` names; then what the worker delivered is taken
/// in and this frame's update is built.
pub fn loop_state(
    player_one: &mut Paddle,
    player_two: &mut Paddle,
    ball: &mut Ball,
    game: &mut GameContext,
    keys: PaddleKeys,
    rand_vx: i32,
    rand_vy: i32,
    inbound: Option<Message>,
) -> (r: LoopOutcome)
    requires
        old(player_one).wf(),
        old(player_two).wf(),
        old(ball).wf(),
        old(game).multiplayer.wf(),
        0 <= rand_vx <= 5,
        0 <= rand_vy <= 3,
    ensures
        final(game).multiplayer.wf(),
        ({
            let c0 = old(game).multiplayer;
            let q1 = spec_paddle_step(
                *old(player_one),
                spec_is_local_player(*old(player_one), c0),
                keys.left_up,
                keys.left_down,
                c0.snapshot,
            );
            let q2 = spec_paddle_step(
                *old(player_two),
                spec_is_local_player(*old(player_two), c0),
                keys.right_up,
                keys.right_down,
                c0.snapshot,
            );
            let moves = spec_step_fits(*old(ball), q1, q2, *old(game), rand_vx);
            let events = spec_ball_events(*old(ball), q1, q2);
            let b1 = if moves {
                spec_ball_step(*old(ball), q1, q2, rand_vx, rand_vy)
            } else {
                *old(ball)
            };
            let g1 = if moves {
                let g = spec_add_score(*old(game), events);
                GameContext { state: spec_state_after_point(g, events), ..g }
            } else {
                *old(game)
            };
            let (c2, b2) = spec_exchange(c0, b1, inbound);
            &&& *final(player_one) == q1
            &&& *final(player_two) == q2
            &&& r.events == if moves {
                Some(events)
            } else {
                None
            }
            &&& *final(ball) == b2
            &&& *final(game) == GameContext { multiplayer: c2, ..g1 }
            &&& r.exchange.outbound.is_some() == spec_may_contribute(c2)
            &&& r.exchange.identity_rejected == spec_identity_rejection(c0, inbound)
            &&& r.exchange.side_unresolved == spec_side_unresolved(c0, inbound)
            &&& r.exchange.outbound.is_some() ==> r.exchange.outbound.unwrap()@
                == MessageView::SnapshotResponse(
                spec_outbound(c2, q1.pos_y, q2.pos_y, b2),
            )
        }),
{
    let local_one = player_one.is_local_player(&game.multiplayer);
    player_one.update(local_one, keys.left_up, keys.left_down, game.multiplayer.snapshot);
    let local_two = player_two.is_local_player(&game.multiplayer);
    player_two.update(local_two, keys.right_up, keys.right_down, game.multiplayer.snapshot);
    let mut events: Option<BallEvents> = None;
    if ball.step_fits(player_one, player_two, game, rand_vx) {
        let e = ball.update(player_one, player_two, game, rand_vx, rand_vy);
        if e.scored.is_some() {
            if !game.multiplayer.active {
                game.state = GameState::Scored;
            } else if game.score_left >= get_winning_score() || game.score_right
                >= get_winning_score() {
                game.state = GameState::Finished;
            }
        }
        events = Some(e);
    }
    let exchange = multiplayer_update(player_one, player_two, ball, game, inbound);
    LoopOutcome { events, exchange }
}

} // verus!
