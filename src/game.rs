//! Playing field, paddles, ball and the decisions of each game screen.
//! Input, drawing, sound and random draws happen around these functions:
//! they take key states and drawn numbers as arguments.
use vstd::prelude::*;

use crate::session::{MultiplayerContext, Side};
use crate::snapshot::{Snapshot, NO_VALUE};

verus! {

pub const RES_WIDTH: i32 = 1280;

pub const RES_HEIGHT: i32 = 720;

pub const PADDLE_WIDTH: i32 = 40;

pub const PADDLE_HEIGHT: i32 = 200;

pub const PADDLE_SPEED: i32 = 8;

pub const PADDLE_OFFSET: i32 = 2;

pub const BALL_WIDTH: i32 = 40;

pub const BALL_HEIGHT: i32 = 40;

pub const BALL_SPEED: i32 = 10;

/// Screen the game shows.
#[derive(Clone, Copy, Debug, PartialEq, Eq, Structural)]
pub enum GameState {
    Menu,
    Connect,
    Waiting,
    Init,
    Loop,
    Scored,
    Finished,
    Quit,
}

/// Entry selected in the main menu.
#[derive(Clone, Copy, Debug, PartialEq, Eq, Structural)]
pub enum MenuState {
    NewGame,
    Multiplayer,
    Options,
    Quit,
}

/// Half of the field that a paddle stands on.
#[derive(Clone, Copy, Debug, PartialEq, Eq, Structural)]
pub enum ScreenSide {
    Left,
    Right,
}

/// Axis-aligned rectangle; wide integers so that no sum of two `i32`
/// coordinates overflows.
#[derive(Clone, Copy, Debug, PartialEq, Eq, Structural)]
pub struct Rect {
    pub x: i64,
    pub y: i64,
    pub width: i64,
    pub height: i64,
}

#[derive(Clone, Copy, Debug, PartialEq, Eq, Structural)]
pub struct Paddle {
    pub pos_x: i32,
    pub pos_y: i32,
    pub width: i32,
    pub height: i32,
    pub side: ScreenSide,
}

#[derive(Clone, Copy, Debug, PartialEq, Eq, Structural)]
pub struct Ball {
    pub pos_x: i32,
    pub pos_y: i32,
    pub width: i32,
    pub height: i32,
    pub velocity_x: i32,
    pub velocity_y: i32,
}

/// Scores, screen, menu selection and multiplayer session of a game.
#[derive(Clone, Copy, Debug)]
pub struct GameContext {
    pub score_left: i32,
    pub score_right: i32,
    pub state: GameState,
    pub menu: MenuState,
    pub multiplayer: MultiplayerContext,
}

/// What a ball step asks the surroundings to do.
#[derive(Clone, Copy, Debug, PartialEq, Eq, Structural)]
pub struct BallEvents {
    /// The ball hit a paddle or a wall: play the bounce sound.
    pub bounced: bool,
    /// The ball left the field on one side: the other side scored.
    pub scored: Option<ScreenSide>,
}

/// Whether two rectangles overlap, touching edges excluded.
pub open spec fn spec_overlaps(a: Rect, b: Rect) -> bool {
    a.x < b.x + b.width && a.x + a.width > b.x && a.y < b.y + b.height && a.y + a.height > b.y
}

/// Whether a value is representable as an `i32`.
pub open spec fn fits_i32(v: int) -> bool {
    i32::MIN <= v <= i32::MAX
}

fn is_i32(v: i64) -> (r: bool)
    ensures
        r == fits_i32(v as int),
{
    i32::MIN as i64 <= v && v <= i32::MAX as i64
}

impl Rect {
    /// Coordinates and sizes small enough that their sums fit.
    pub open spec fn in_range(&self) -> bool {
        &&& -0x100_0000_0000 <= self.x <= 0x100_0000_0000
        &&& -0x100_0000_0000 <= self.y <= 0x100_0000_0000
        &&& -0x100_0000_0000 <= self.width <= 0x100_0000_0000
        &&& -0x100_0000_0000 <= self.height <= 0x100_0000_0000
    }

    /// Whether two rectangles overlap, touching edges excluded.
    pub fn overlaps(&self, other: &Rect) -> (r: bool)
        requires
            self.in_range(),
            other.in_range(),
        ensures
            r == spec_overlaps(*self, *other),
    {
        self.x < other.x + other.width && self.x + self.width > other.x && self.y < other.y
            + other.height && self.y + self.height > other.y
    }
}

impl MenuState {
    pub open spec fn spec_next(self) -> MenuState {
        match self {
            MenuState::NewGame => MenuState::Multiplayer,
            MenuState::Multiplayer => MenuState::Options,
            MenuState::Options => MenuState::Quit,
            MenuState::Quit => MenuState::NewGame,
        }
    }

    pub open spec fn spec_prev(self) -> MenuState {
        match self {
            MenuState::NewGame => MenuState::Quit,
            MenuState::Multiplayer => MenuState::NewGame,
            MenuState::Options => MenuState::Multiplayer,
            MenuState::Quit => MenuState::Options,
        }
    }

    /// The entry below, wrapping from the last to the first.
    pub fn next(&self) -> (r: MenuState)
        ensures
            r == self.spec_next(),
            r.spec_prev() == *self,
    {
        match self {
            MenuState::NewGame => MenuState::Multiplayer,
            MenuState::Multiplayer => MenuState::Options,
            MenuState::Options => MenuState::Quit,
            MenuState::Quit => MenuState::NewGame,
        }
    }

    /// The entry above, wrapping from the first to the last.
    pub fn prev(&self) -> (r: MenuState)
        ensures
            r == self.spec_prev(),
            r.spec_next() == *self,
    {
        match self {
            MenuState::NewGame => MenuState::Quit,
            MenuState::Multiplayer => MenuState::NewGame,
            MenuState::Options => MenuState::Multiplayer,
            MenuState::Quit => MenuState::Options,
        }
    }
}

/// A paddle after one tick. A local paddle moves up or down by its speed
/// while its key is held and it has room, and stays put when both keys are
/// held. A remote paddle takes its position from the last snapshot when
/// that position is positive and not the "no value" sentinel.
pub open spec fn spec_paddle_step(
    p: Paddle,
    is_local: bool,
    key_up: bool,
    key_down: bool,
    snapshot: Option<Snapshot>,
) -> Paddle {
    let y = if is_local {
        if key_up && key_down {
            p.pos_y
        } else if p.pos_y > p.height / 2 && key_up {
            (p.pos_y - PADDLE_SPEED) as i32
        } else if p.pos_y < RES_HEIGHT - p.height / 2 && key_down {
            (p.pos_y + PADDLE_SPEED) as i32
        } else {
            p.pos_y
        }
    } else {
        match snapshot {
            None => p.pos_y,
            Some(s) => {
                let pos = match p.side {
                    ScreenSide::Left => s.left_paddle_y,
                    ScreenSide::Right => s.right_paddle_y,
                };
                if pos > 0 && pos != NO_VALUE {
                    pos
                } else {
                    p.pos_y
                }
            },
        }
    };
    Paddle { pos_y: y, ..p }
}

/// Whether a paddle is steered from this machine: both are in an offline
/// game, only the one on our side in a multiplayer game.
pub open spec fn spec_is_local_player(p: Paddle, c: MultiplayerContext) -> bool {
    !c.active || (p.side == ScreenSide::Left && c.side == Side::Left) || (p.side
        == ScreenSide::Right && c.side == Side::Right)
}

impl Paddle {
    /// A paddle has a size: its width and height are not negative.
    pub open spec fn wf(&self) -> bool {
        self.width >= 0 && self.height >= 0
    }

    pub open spec fn spec_rect(&self) -> Rect {
        Rect {
            x: match self.side {
                ScreenSide::Left => self.pos_x + PADDLE_OFFSET,
                ScreenSide::Right => self.pos_x - PADDLE_OFFSET - self.width,
            } as i64,
            y: (self.pos_y - self.height / 2) as i64,
            width: self.width as i64,
            height: self.height as i64,
        }
    }

    /// A paddle of the standard size, centred vertically on its edge of the
    /// field.
    pub fn new(side: ScreenSide) -> (r: Paddle)
        ensures
            r == (Paddle {
                pos_x: match side {
                    ScreenSide::Left => 0,
                    ScreenSide::Right => RES_WIDTH,
                },
                pos_y: (RES_HEIGHT / 2) as i32,
                width: PADDLE_WIDTH,
                height: PADDLE_HEIGHT,
                side,
            }),
            r.wf(),
    {
        let pos_x = match side {
            ScreenSide::Left => 0,
            ScreenSide::Right => RES_WIDTH,
        };
        Paddle { pos_x, pos_y: RES_HEIGHT / 2, width: PADDLE_WIDTH, height: PADDLE_HEIGHT, side }
    }

    /// The area the paddle covers: it stands inside the field, against its
    /// edge, with a small gap.
    pub fn rect(&self) -> (r: Rect)
        requires
            self.wf(),
        ensures
            r == self.spec_rect(),
    {
        let x: i64 = match self.side {
            ScreenSide::Left => self.pos_x as i64 + PADDLE_OFFSET as i64,
            ScreenSide::Right => self.pos_x as i64 - PADDLE_OFFSET as i64 - self.width as i64,
        };
        Rect {
            x,
            y: self.pos_y as i64 - (self.height / 2) as i64,
            width: self.width as i64,
            height: self.height as i64,
        }
    }

    /// Whether this paddle is steered from this machine: both are in an
    /// offline game, only the one on our side in a multiplayer game.
    pub fn is_local_player(&self, multiplayer: &MultiplayerContext) -> (r: bool)
        ensures
            r == spec_is_local_player(*self, *multiplayer),
    {
        if !multiplayer.active {
            return true;
        }
        match (self.side, multiplayer.side) {
            (ScreenSide::Left, Side::Left) => true,
            (ScreenSide::Right, Side::Right) => true,
            _ => false,
        }
    }

    /// One tick of a paddle, as `spec_paddle_step` says.
    pub fn update(
        &mut self,
        is_local: bool,
        key_up: bool,
        key_down: bool,
        snapshot: Option<Snapshot>,
    )
        requires
            old(self).wf(),
        ensures
            *final(self) == spec_paddle_step(*old(self), is_local, key_up, key_down, snapshot),
    {
        if is_local {
            if key_up && key_down {
                return ;
            }
            if self.pos_y > self.height / 2 && key_up {
                self.pos_y = self.pos_y - PADDLE_SPEED;
            } else if self.pos_y < RES_HEIGHT - self.height / 2 && key_down {
                self.pos_y = self.pos_y + PADDLE_SPEED;
            }
        } else {
            match snapshot {
                None => {},
                Some(s) => {
                    let pos = match self.side {
                        ScreenSide::Left => s.left_paddle_y,
                        ScreenSide::Right => s.right_paddle_y,
                    };
                    if pos > 0 && pos != NO_VALUE {
                        self.pos_y = pos;
                    }
                },
            }
        }
    }
}

/// The new vertical position after a wall bounce: pushed back inside the
/// field when it went past an edge.
pub open spec fn wall_clamped_y(y: int, h: int) -> int {
    let y1 = if y < h / 2 {
        h / 2 + 1
    } else {
        y
    };
    if y1 > RES_HEIGHT - h / 2 {
        RES_HEIGHT - h / 2 - 1
    } else {
        y1
    }
}

/// The ball after one tick, given the two paddles and the two numbers drawn
/// for a paddle bounce (`rand_vx` in 0..=5, `rand_vy` in 0..=3). The overlap
/// test uses the ball's area before it moves.
pub open spec fn spec_ball_step(b: Ball, left: Paddle, right: Paddle, rand_vx: i32, rand_vy: i32) -> Ball {
    let x1 = b.pos_x + b.velocity_x;
    let y1 = b.pos_y + b.velocity_y;
    let sign: int = if b.velocity_y < 0 {
        -1
    } else {
        1
    };
    let bounce_vx = -(b.velocity_x + rand_vx);
    let bounce_vy = sign * (BALL_SPEED + rand_vy);
    if spec_overlaps(b.spec_rect(), left.spec_rect()) {
        Ball {
            pos_x: (x1 + left.width) as i32,
            pos_y: (y1 + b.velocity_y) as i32,
            velocity_x: bounce_vx as i32,
            velocity_y: bounce_vy as i32,
            ..b
        }
    } else if spec_overlaps(b.spec_rect(), right.spec_rect()) {
        Ball {
            pos_x: (x1 - b.width) as i32,
            pos_y: (y1 + b.velocity_y) as i32,
            velocity_x: bounce_vx as i32,
            velocity_y: bounce_vy as i32,
            ..b
        }
    } else {
        let wall = y1 <= b.height / 2 || y1 >= RES_HEIGHT - b.height / 2;
        let out = x1 < b.width / 2 || x1 > RES_WIDTH - b.width / 2;
        Ball {
            pos_x: x1 as i32,
            pos_y: if wall {
                wall_clamped_y(y1, b.height as int) as i32
            } else {
                y1 as i32
            },
            velocity_x: if out {
                -b.velocity_x
            } else {
                b.velocity_x as int
            } as i32,
            velocity_y: if wall {
                -b.velocity_y
            } else {
                b.velocity_y as int
            } as i32,
            ..b
        }
    }
}

/// What one tick of the ball reports, as `spec_ball_step` moves it.
pub open spec fn spec_ball_events(b: Ball, left: Paddle, right: Paddle) -> BallEvents {
    let x1 = b.pos_x + b.velocity_x;
    let y1 = b.pos_y + b.velocity_y;
    if spec_overlaps(b.spec_rect(), left.spec_rect()) || spec_overlaps(
        b.spec_rect(),
        right.spec_rect(),
    ) {
        BallEvents { bounced: true, scored: None }
    } else {
        BallEvents {
            bounced: y1 <= b.height / 2 || y1 >= RES_HEIGHT - b.height / 2,
            scored: if x1 < b.width / 2 {
                Some(ScreenSide::Right)
            } else if x1 > RES_WIDTH - b.width / 2 {
                Some(ScreenSide::Left)
            } else {
                None
            },
        }
    }
}

/// The game after a ball step: a point for the side that scored.
pub open spec fn spec_add_score(g: GameContext, e: BallEvents) -> GameContext {
    GameContext {
        score_left: if e.scored == Some(ScreenSide::Left) {
            g.score_left + 1
        } else {
            g.score_left as int
        } as i32,
        score_right: if e.scored == Some(ScreenSide::Right) {
            g.score_right + 1
        } else {
            g.score_right as int
        } as i32,
        ..g
    }
}

/// Whether one ball step, as `spec_ball_step` describes it, keeps every
/// intermediate and final number within `i32`, including the score it adds
/// a point to.
pub open spec fn spec_step_fits(
    b: Ball,
    left: Paddle,
    right: Paddle,
    g: GameContext,
    rand_vx: i32,
) -> bool {
    let x1 = b.pos_x + b.velocity_x;
    let y1 = b.pos_y + b.velocity_y;
    let bounce = fits_i32(y1 + b.velocity_y) && fits_i32(b.velocity_x + rand_vx) && fits_i32(
        -(b.velocity_x + rand_vx),
    );
    let wall = y1 <= b.height / 2 || y1 >= RES_HEIGHT - b.height / 2;
    &&& fits_i32(x1)
    &&& fits_i32(y1)
    &&& if spec_overlaps(b.spec_rect(), left.spec_rect()) {
        fits_i32(x1 + left.width) && bounce
    } else if spec_overlaps(b.spec_rect(), right.spec_rect()) {
        fits_i32(x1 - b.width) && bounce
    } else {
        &&& wall ==> fits_i32(-b.velocity_y)
        &&& x1 < b.width / 2 ==> fits_i32(-b.velocity_x) && g.score_right < i32::MAX
        &&& !(x1 < b.width / 2) && x1 > RES_WIDTH - b.width / 2 ==> fits_i32(-b.velocity_x)
            && g.score_left < i32::MAX
    }
}

impl Ball {
    /// A ball has a size: its width and height are not negative.
    pub open spec fn wf(&self) -> bool {
        self.width >= 0 && self.height >= 0
    }

    pub open spec fn spec_rect(&self) -> Rect {
        Rect {
            x: (self.pos_x - self.width / 2) as i64,
            y: (self.pos_y - self.height / 2) as i64,
            width: self.width as i64,
            height: self.height as i64,
        }
    }

    /// A ball of the standard size in the centre of the field, moving down
    /// and to the right.
    pub fn new() -> (r: Ball)
        ensures
            r == (Ball {
                pos_x: (RES_WIDTH / 2) as i32,
                pos_y: (RES_HEIGHT / 2) as i32,
                width: BALL_WIDTH,
                height: BALL_HEIGHT,
                velocity_x: BALL_SPEED,
                velocity_y: BALL_SPEED,
            }),
            r.wf(),
    {
        Ball {
            pos_x: RES_WIDTH / 2,
            pos_y: RES_HEIGHT / 2,
            width: BALL_WIDTH,
            height: BALL_HEIGHT,
            velocity_x: BALL_SPEED,
            velocity_y: BALL_SPEED,
        }
    }

    /// Whether one step of the ball, as `spec_ball_step` describes it,
    /// stays within `i32`, and so does the score it may add to.
    pub fn step_fits(
        &self,
        player_left: &Paddle,
        player_right: &Paddle,
        game: &GameContext,
        rand_vx: i32,
    ) -> (r: bool)
        requires
            self.wf(),
            player_left.wf(),
            player_right.wf(),
        ensures
            r == spec_step_fits(*self, *player_left, *player_right, *game, rand_vx),
    {
        let x1 = self.pos_x as i64 + self.velocity_x as i64;
        let y1 = self.pos_y as i64 + self.velocity_y as i64;
        if !(is_i32(x1) && is_i32(y1)) {
            return false;
        }
        let bounce = is_i32(y1 + self.velocity_y as i64) && is_i32(
            self.velocity_x as i64 + rand_vx as i64,
        ) && is_i32(-(self.velocity_x as i64 + rand_vx as i64));
        let self_rect = self.rect();
        if self_rect.overlaps(&player_left.rect()) {
            return is_i32(x1 + player_left.width as i64) && bounce;
        }
        if self_rect.overlaps(&player_right.rect()) {
            return is_i32(x1 - self.width as i64) && bounce;
        }
        let wall = y1 <= (self.height / 2) as i64 || y1 >= RES_HEIGHT as i64 - (self.height / 2) as i64;
        if wall && !is_i32(-(self.velocity_y as i64)) {
            return false;
        }
        if x1 < (self.width / 2) as i64 {
            is_i32(-(self.velocity_x as i64)) && game.score_right < i32::MAX
        } else if x1 > RES_WIDTH as i64 - (self.width / 2) as i64 {
            is_i32(-(self.velocity_x as i64)) && game.score_left < i32::MAX
        } else {
            true
        }
    }

    /// The area the ball covers, centred on its position.
    pub fn rect(&self) -> (r: Rect)
        requires
            self.wf(),
        ensures
            r == self.spec_rect(),
    {
        Rect {
            x: self.pos_x as i64 - (self.width / 2) as i64,
            y: self.pos_y as i64 - (self.height / 2) as i64,
            width: self.width as i64,
            height: self.height as i64,
        }
    }

    /// One tick of the ball: it moves by its velocity; on a paddle it turns
    /// back with a drawn change of speed; on the top or bottom wall its
    /// vertical velocity flips; past the left or right edge its horizontal
    /// velocity flips and the other side scores a point.
    pub fn update(
        &mut self,
        player_left: &Paddle,
        player_right: &Paddle,
        game: &mut GameContext,
        rand_vx: i32,
        rand_vy: i32,
    ) -> (r: BallEvents)
        requires
            old(self).wf(),
            player_left.wf(),
            player_right.wf(),
            0 <= rand_vx <= 5,
            0 <= rand_vy <= 3,
            spec_step_fits(*old(self), *player_left, *player_right, *old(game), rand_vx),
        ensures
            *final(self) == spec_ball_step(*old(self), *player_left, *player_right, rand_vx, rand_vy),
            r == spec_ball_events(*old(self), *player_left, *player_right),
            *final(game) == spec_add_score(*old(game), r),
    {
        let self_rect = self.rect();
        let velocity_y_sign: i32 = if self.velocity_y < 0 {
            -1
        } else {
            1
        };
        self.pos_x = self.pos_x + self.velocity_x;
        self.pos_y = self.pos_y + self.velocity_y;

        if self_rect.overlaps(&player_left.rect()) {
            self.pos_x = self.pos_x + player_left.width;
            self.pos_y = self.pos_y + self.velocity_y;
            self.velocity_x = -(self.velocity_x + rand_vx);
            self.velocity_y = velocity_y_sign * (BALL_SPEED + rand_vy);
            return BallEvents { bounced: true, scored: None };
        } else if self_rect.overlaps(&player_right.rect()) {
            self.pos_x = self.pos_x - self.width;
            self.pos_y = self.pos_y + self.velocity_y;
            self.velocity_x = -(self.velocity_x + rand_vx);
            self.velocity_y = velocity_y_sign * (BALL_SPEED + rand_vy);
            return BallEvents { bounced: true, scored: None };
        }
        let mut events = BallEvents { bounced: false, scored: None };
        if self.pos_y <= self.height / 2 || self.pos_y >= RES_HEIGHT - self.height / 2 {
            events.bounced = true;
            self.velocity_y = -self.velocity_y;
            if self.pos_y < self.height / 2 {
                self.pos_y = self.height / 2 + 1;
            }
            if self.pos_y > RES_HEIGHT - self.height / 2 {
                self.pos_y = RES_HEIGHT - self.height / 2 - 1;
            }
        }
        if self.pos_x < self.width / 2 {
            game.score_right = game.score_right + 1;
            self.velocity_x = -self.velocity_x;
            events.scored = Some(ScreenSide::Right);
        } else if self.pos_x > RES_WIDTH - self.width / 2 {
            game.score_left = game.score_left + 1;
            self.velocity_x = -self.velocity_x;
            events.scored = Some(ScreenSide::Left);
        }
        events
    }
}

} // verus!
