use safe_pong::codec::Message;
use safe_pong::game::{
    Ball, GameContext, GameState, MenuState, Paddle, Rect, ScreenSide, BALL_SPEED, RES_HEIGHT,
    RES_WIDTH,
};
use safe_pong::screens::{
    can_game_continue, finished_state, get_winner, get_winning_score, init_state, loop_state,
    menu_state, scored_state, PaddleKeys,
};
use safe_pong::session::{MultiplayerContext, Side};
use safe_pong::snapshot::{Snapshot, NO_VALUE};

fn new_game() -> GameContext {
    GameContext {
        score_left: 0,
        score_right: 0,
        state: GameState::Loop,
        menu: MenuState::NewGame,
        multiplayer: MultiplayerContext::new(),
    }
}

const NO_KEYS: PaddleKeys =
    PaddleKeys { left_up: false, left_down: false, right_up: false, right_down: false };

#[test]
fn menu_wraps_both_ways() {
    assert_eq!(MenuState::NewGame.next(), MenuState::Multiplayer);
    assert_eq!(MenuState::Multiplayer.next(), MenuState::Options);
    assert_eq!(MenuState::Options.next(), MenuState::Quit);
    assert_eq!(MenuState::Quit.next(), MenuState::NewGame);
    assert_eq!(MenuState::NewGame.prev(), MenuState::Quit);
    assert_eq!(MenuState::Quit.prev(), MenuState::Options);
    assert_eq!(MenuState::Options.prev(), MenuState::Multiplayer);
    assert_eq!(MenuState::Multiplayer.prev(), MenuState::NewGame);
}

#[test]
fn menu_keys_move_and_select() {
    let mut game = new_game();
    game.state = GameState::Menu;
    assert!(menu_state(&mut game, true, false, false));
    assert_eq!(game.menu, MenuState::Multiplayer);
    assert!(!menu_state(&mut game, false, false, true));
    assert_eq!(game.state, GameState::Connect);

    game.state = GameState::Menu;
    assert!(menu_state(&mut game, false, true, false));
    assert_eq!(game.menu, MenuState::NewGame);
    assert!(menu_state(&mut game, false, true, true));
    assert_eq!(game.menu, MenuState::Quit);
    assert_eq!(game.state, GameState::Menu);
    assert!(!menu_state(&mut game, false, false, true));
    assert_eq!(game.state, GameState::Quit);

    game.state = GameState::Menu;
    game.menu = MenuState::Options;
    assert!(!menu_state(&mut game, false, false, true));
    assert_eq!(game.state, GameState::Menu);
    game.menu = MenuState::NewGame;
    menu_state(&mut game, false, false, true);
    assert_eq!(game.state, GameState::Loop);
}

#[test]
fn winner_names() {
    let mut game = new_game();
    assert_eq!(get_winning_score(), 10);
    game.score_left = 10;
    assert_eq!(get_winner(&game), "One");
    game.score_left = 3;
    game.score_right = 10;
    assert_eq!(get_winner(&game), "Two");
}

#[test]
fn init_resets_positions_and_scores() {
    let mut one = Paddle { pos_y: 10, ..Paddle::new(ScreenSide::Left) };
    let mut two = Paddle { pos_y: 700, ..Paddle::new(ScreenSide::Right) };
    let mut ball = Ball { pos_x: 3, pos_y: 4, velocity_x: -10, ..Ball::new() };
    let mut game = new_game();
    game.score_left = 7;
    game.score_right = 10;
    game.state = GameState::Init;
    init_state(&mut one, &mut two, &mut ball, &mut game);
    assert_eq!((ball.pos_x, ball.pos_y, ball.velocity_x), (640, 360, -10));
    assert_eq!((one.pos_y, two.pos_y), (360, 360));
    assert_eq!((game.score_left, game.score_right, game.state), (0, 0, GameState::Loop));
}

#[test]
fn finished_screen_keys() {
    let mut game = new_game();
    game.score_left = 10;
    game.state = GameState::Finished;
    finished_state(&mut game, false, false);
    assert_eq!(game.state, GameState::Finished);
    finished_state(&mut game, false, true);
    assert_eq!(game.state, GameState::Init);
    game.state = GameState::Finished;
    finished_state(&mut game, true, true);
    assert_eq!(game.state, GameState::Quit);

    let mut undecided = new_game();
    undecided.state = GameState::Finished;
    finished_state(&mut undecided, false, false);
    assert_eq!(undecided.state, GameState::Loop);
}

#[test]
fn scored_screen_resets_ball() {
    let mut one = Paddle { pos_y: 100, ..Paddle::new(ScreenSide::Left) };
    let mut two = Paddle { pos_y: 500, ..Paddle::new(ScreenSide::Right) };
    let mut ball = Ball { pos_x: 5, pos_y: 6, velocity_x: 17, velocity_y: 4, ..Ball::new() };
    let mut game = new_game();
    game.state = GameState::Scored;
    scored_state(&mut one, &mut two, &mut ball, &mut game, -13, false);
    assert_eq!((ball.pos_x, ball.pos_y, ball.velocity_x, ball.velocity_y), (640, 360, BALL_SPEED, -13));
    assert_eq!((one.pos_y, two.pos_y), (360, 360));
    assert_eq!(game.state, GameState::Scored);

    ball.velocity_x = -3;
    scored_state(&mut one, &mut two, &mut ball, &mut game, 13, true);
    assert_eq!((ball.velocity_x, ball.velocity_y), (-BALL_SPEED, 13));
    assert_eq!(game.state, GameState::Loop);

    game.score_right = 10;
    game.state = GameState::Scored;
    ball.pos_x = 1;
    scored_state(&mut one, &mut two, &mut ball, &mut game, 0, true);
    assert_eq!(game.state, GameState::Finished);
    assert_eq!(ball.pos_x, 1);
}

#[test]
fn continue_only_offline() {
    let mut game = new_game();
    assert!(can_game_continue(&game, true));
    assert!(!can_game_continue(&game, false));
    game.multiplayer.start();
    assert!(!can_game_continue(&game, true));
}

#[test]
fn rectangles_overlap_strictly() {
    let a = Rect { x: 0, y: 0, width: 10, height: 10 };
    assert!(a.overlaps(&Rect { x: 5, y: 5, width: 10, height: 10 }));
    assert!(!a.overlaps(&Rect { x: 10, y: 0, width: 10, height: 10 }));
    assert!(!a.overlaps(&Rect { x: 0, y: -10, width: 10, height: 10 }));
}

#[test]
fn paddle_rects_stand_inside_the_field() {
    let left = Paddle::new(ScreenSide::Left);
    assert_eq!(left.rect(), Rect { x: 2, y: 260, width: 40, height: 200 });
    let right = Paddle::new(ScreenSide::Right);
    assert_eq!(right.rect(), Rect { x: 1238, y: 260, width: 40, height: 200 });
    assert_eq!(Ball::new().rect(), Rect { x: 620, y: 340, width: 40, height: 40 });
}

#[test]
fn local_paddle_follows_keys() {
    let mut p = Paddle::new(ScreenSide::Left);
    p.update(true, true, false, None);
    assert_eq!(p.pos_y, 352);
    p.update(true, false, true, None);
    assert_eq!(p.pos_y, 360);
    p.update(true, true, true, None);
    assert_eq!(p.pos_y, 360);
    let mut top = Paddle { pos_y: 100, ..Paddle::new(ScreenSide::Left) };
    top.update(true, true, false, None);
    assert_eq!(top.pos_y, 100);
    let mut bottom = Paddle { pos_y: 620, ..Paddle::new(ScreenSide::Left) };
    bottom.update(true, false, true, None);
    assert_eq!(bottom.pos_y, 620);
}

#[test]
fn remote_paddle_follows_snapshot() {
    let mut s = Snapshot::empty(1);
    s.right_paddle_y = 123;
    let mut right = Paddle::new(ScreenSide::Right);
    right.update(false, true, false, Some(s));
    assert_eq!(right.pos_y, 123);
    let mut left = Paddle::new(ScreenSide::Left);
    left.update(false, false, true, Some(s));
    assert_eq!(left.pos_y, 360);
    right.update(false, false, false, None);
    assert_eq!(right.pos_y, 123);
    s.right_paddle_y = NO_VALUE;
    right.update(false, false, false, Some(s));
    assert_eq!(right.pos_y, 123);
    s.right_paddle_y = 0;
    right.update(false, false, false, Some(s));
    assert_eq!(right.pos_y, 123);
    s.right_paddle_y = -1;
    right.update(false, false, false, Some(s));
    assert_eq!(right.pos_y, 123);
    s.right_paddle_y = 1;
    right.update(false, false, false, Some(s));
    assert_eq!(right.pos_y, 1);
}

#[test]
fn local_player_by_side() {
    let left = Paddle::new(ScreenSide::Left);
    let right = Paddle::new(ScreenSide::Right);
    let mut c = MultiplayerContext::new();
    assert!(left.is_local_player(&c) && right.is_local_player(&c));
    c.start();
    assert!(!left.is_local_player(&c) && !right.is_local_player(&c));
    c.side = Side::Right;
    assert!(!left.is_local_player(&c) && right.is_local_player(&c));
}

#[test]
fn ball_moves_freely() {
    let one = Paddle::new(ScreenSide::Left);
    let two = Paddle::new(ScreenSide::Right);
    let mut ball = Ball::new();
    let mut game = new_game();
    let e = ball.update(&one, &two, &mut game, 5, 3);
    assert_eq!((ball.pos_x, ball.pos_y, ball.velocity_x, ball.velocity_y), (650, 370, 10, 10));
    assert!(!e.bounced);
    assert_eq!(e.scored, None);
}

#[test]
fn ball_bounces_off_wall() {
    let one = Paddle::new(ScreenSide::Left);
    let two = Paddle::new(ScreenSide::Right);
    let mut ball = Ball { pos_y: 25, velocity_y: -10, ..Ball::new() };
    let mut game = new_game();
    let e = ball.update(&one, &two, &mut game, 0, 0);
    assert!(e.bounced);
    assert_eq!((ball.pos_y, ball.velocity_y), (21, 10));
    let mut low = Ball { pos_y: RES_HEIGHT - 25, velocity_y: 10, ..Ball::new() };
    low.update(&one, &two, &mut game, 0, 0);
    assert_eq!((low.pos_y, low.velocity_y), (699, -10));
}

#[test]
fn ball_bounces_off_left_paddle() {
    let one = Paddle::new(ScreenSide::Left);
    let two = Paddle::new(ScreenSide::Right);
    let mut ball = Ball { pos_x: 60, pos_y: 360, velocity_x: -10, velocity_y: -10, ..Ball::new() };
    let mut game = new_game();
    let e = ball.update(&one, &two, &mut game, 4, 2);
    assert!(e.bounced);
    assert_eq!(e.scored, None);
    assert_eq!((ball.pos_x, ball.pos_y), (90, 340));
    assert_eq!((ball.velocity_x, ball.velocity_y), (6, -12));
}

#[test]
fn ball_bounces_off_right_paddle() {
    let one = Paddle::new(ScreenSide::Left);
    let two = Paddle::new(ScreenSide::Right);
    let mut ball = Ball { pos_x: 1225, pos_y: 360, velocity_x: 10, velocity_y: 3, ..Ball::new() };
    let mut game = new_game();
    ball.update(&one, &two, &mut game, 1, 3);
    assert_eq!((ball.pos_x, ball.pos_y), (1195, 366));
    assert_eq!((ball.velocity_x, ball.velocity_y), (-11, 13));
}

#[test]
fn ball_past_edge_scores() {
    let one = Paddle { pos_y: 600, ..Paddle::new(ScreenSide::Left) };
    let two = Paddle { pos_y: 600, ..Paddle::new(ScreenSide::Right) };
    let mut game = new_game();
    let mut ball = Ball { pos_x: 25, pos_y: 100, velocity_x: -10, velocity_y: 0, ..Ball::new() };
    let e = ball.update(&one, &two, &mut game, 0, 0);
    assert_eq!(e.scored, Some(ScreenSide::Right));
    assert_eq!((game.score_left, game.score_right), (0, 1));
    assert_eq!(ball.velocity_x, 10);
    let mut far = Ball { pos_x: RES_WIDTH - 25, pos_y: 100, velocity_x: 10, velocity_y: 0, ..Ball::new() };
    let e = far.update(&one, &two, &mut game, 0, 0);
    assert_eq!(e.scored, Some(ScreenSide::Left));
    assert_eq!((game.score_left, game.score_right), (1, 1));
    assert_eq!(far.velocity_x, -10);
}

#[test]
fn loop_frame_offline() {
    let mut one = Paddle::new(ScreenSide::Left);
    let mut two = Paddle::new(ScreenSide::Right);
    let mut ball = Ball::new();
    let mut game = new_game();
    let keys = PaddleKeys { left_up: true, right_down: true, ..NO_KEYS };
    let out = loop_state(&mut one, &mut two, &mut ball, &mut game, keys, 0, 0, None);
    assert_eq!((one.pos_y, two.pos_y), (352, 368));
    assert_eq!((ball.pos_x, ball.pos_y), (650, 370));
    assert!(out.events.is_some());
    assert!(out.exchange.outbound.is_none());
}

#[test]
fn loop_frame_leaves_ball_that_would_overflow() {
    let mut one = Paddle::new(ScreenSide::Left);
    let mut two = Paddle::new(ScreenSide::Right);
    let mut ball = Ball { pos_x: i32::MAX - 1, ..Ball::new() };
    let mut game = new_game();
    let out = loop_state(&mut one, &mut two, &mut ball, &mut game, NO_KEYS, 0, 0, None);
    assert!(out.events.is_none());
    assert_eq!(ball.pos_x, i32::MAX - 1);
}

#[test]
fn loop_frame_online_sends_update() {
    let mut one = Paddle::new(ScreenSide::Left);
    let mut two = Paddle::new(ScreenSide::Right);
    let mut ball = Ball::new();
    let mut game = new_game();
    game.multiplayer.start();
    game.multiplayer
        .apply_identity(safe_pong::codec::Identity { player_id: 9, session_id: 100 })
        .unwrap();
    let mut s = Snapshot::empty(100);
    s.left_id = 5;
    s.right_id = 9;
    s.left_paddle_y = 200;
    game.multiplayer.apply_snapshot(s);
    let keys = PaddleKeys { left_up: true, right_up: true, ..NO_KEYS };
    let out = loop_state(&mut one, &mut two, &mut ball, &mut game, keys, 0, 0, Some(Message::SnapshotResponse(s)));
    assert_eq!(one.pos_y, 200);
    assert_eq!(two.pos_y, 352);
    match out.exchange.outbound {
        Some(Message::SnapshotResponse(u)) => {
            assert_eq!(u.right_paddle_y, 352);
            assert_eq!(u.left_paddle_y, NO_VALUE);
            assert_eq!(u.ball_vx, NO_VALUE);
        }
        other => panic!("expected an update, got {:?}", other),
    }
}

#[test]
fn leaving_end_screen_ends_the_match_attempt() {
    let mut game = new_game();
    game.multiplayer.start();
    game.score_left = 10;
    game.state = GameState::Finished;
    finished_state(&mut game, false, false);
    assert!(game.multiplayer.active);
    finished_state(&mut game, false, true);
    assert!(!game.multiplayer.active);
    assert_eq!(game.multiplayer.phase, safe_pong::session::SyncPhase::Disconnected);
}

#[test]
fn large_ball_numbers_still_step() {
    let one = Paddle::new(ScreenSide::Left);
    let two = Paddle::new(ScreenSide::Right);
    let mut game = new_game();
    let mut ball = Ball { pos_x: 2_000_000, pos_y: 300, velocity_x: 5_000_000, velocity_y: 0, ..Ball::new() };
    assert!(ball.step_fits(&one, &two, &game, 0));
    let e = ball.update(&one, &two, &mut game, 0, 0);
    assert_eq!(ball.pos_x, 7_000_000);
    assert_eq!(ball.velocity_x, -5_000_000);
    assert_eq!(e.scored, Some(ScreenSide::Left));
    let edge = Ball { pos_x: i32::MAX - 5, velocity_x: 10, ..Ball::new() };
    assert!(!edge.step_fits(&one, &two, &game, 0));
    game.score_left = i32::MAX;
    let scoring = Ball { pos_x: 2_000_000, pos_y: 300, velocity_x: 1, velocity_y: 0, ..Ball::new() };
    assert!(!scoring.step_fits(&one, &two, &game, 0));
}

#[test]
fn loop_frame_online_sends_update_without_inbound() {
    let mut one = Paddle::new(ScreenSide::Left);
    let mut two = Paddle::new(ScreenSide::Right);
    let mut ball = Ball::new();
    let mut game = new_game();
    game.multiplayer.start();
    game.multiplayer
        .apply_identity(safe_pong::codec::Identity { player_id: 5, session_id: 100 })
        .unwrap();
    let mut s = Snapshot::empty(100);
    s.left_id = 5;
    s.right_id = 9;
    game.multiplayer.apply_snapshot(s);
    let keys = PaddleKeys { left_down: true, ..NO_KEYS };
    let out = loop_state(&mut one, &mut two, &mut ball, &mut game, keys, 0, 0, None);
    match out.exchange.outbound {
        Some(Message::SnapshotResponse(u)) => assert_eq!(u.left_paddle_y, 368),
        other => panic!("expected an update, got {:?}", other),
    }
}

fn scoring_setup() -> (Paddle, Paddle, Ball) {
    let one = Paddle { pos_y: 600, ..Paddle::new(ScreenSide::Left) };
    let two = Paddle { pos_y: 600, ..Paddle::new(ScreenSide::Right) };
    let ball = Ball { pos_x: 25, pos_y: 100, velocity_x: -10, velocity_y: 0, ..Ball::new() };
    (one, two, ball)
}

#[test]
fn offline_point_goes_to_point_screen() {
    let (mut one, mut two, mut ball) = scoring_setup();
    let mut game = new_game();
    let out = loop_state(&mut one, &mut two, &mut ball, &mut game, NO_KEYS, 0, 0, None);
    assert_eq!(out.events.unwrap().scored, Some(ScreenSide::Right));
    assert_eq!(game.score_right, 1);
    assert_eq!(game.state, GameState::Scored);
}

#[test]
fn multiplayer_point_ends_match_only_at_winning_score() {
    let (mut one, mut two, mut ball) = scoring_setup();
    let mut game = new_game();
    game.multiplayer.start();
    game.score_right = 8;
    loop_state(&mut one, &mut two, &mut ball, &mut game, NO_KEYS, 0, 0, None);
    assert_eq!(game.score_right, 9);
    assert_eq!(game.state, GameState::Loop);
    let (mut one, mut two, mut ball) = scoring_setup();
    loop_state(&mut one, &mut two, &mut ball, &mut game, NO_KEYS, 0, 0, None);
    assert_eq!(game.score_right, 10);
    assert_eq!(game.state, GameState::Finished);
    assert_eq!(get_winner(&game), "Two");
}
