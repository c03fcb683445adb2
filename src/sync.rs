//! Ball authority and the per-tick exchange with the network worker: taking
//! in what the worker delivered and building this tick's contribution to
//! the relay's snapshot.
use vstd::prelude::*;

use crate::codec::{snapshot_message, Message, MessageView};
use crate::game::{Ball, GameContext, Paddle};
use crate::session::{IdentityError, MultiplayerContext, Side};
use crate::snapshot::{Snapshot, NO_VALUE, UNASSIGNED_ID};

verus! {

/// Whether the snapshot names this player as the ball's authority.
pub open spec fn spec_is_authority(player_id: u32, s: Snapshot) -> bool {
    player_id != UNASSIGNED_ID && s.ball_authority_id == player_id
}

/// The local ball after a snapshot has been taken in. The authority keeps
/// its own ball. A follower takes the velocity when both of its components
/// are supplied, and the position when an authority is named and both of
/// its coordinates are supplied; what is not supplied stays as it was.
pub open spec fn spec_reconcile(player_id: u32, s: Snapshot, b: Ball) -> Ball {
    if spec_is_authority(player_id, s) {
        b
    } else {
        let take_velocity = s.ball_vx != NO_VALUE && s.ball_vy != NO_VALUE;
        let take_position = s.ball_authority_id != UNASSIGNED_ID && s.ball_x != NO_VALUE && s.ball_y
            != NO_VALUE;
        Ball {
            velocity_x: if take_velocity {
                s.ball_vx
            } else {
                b.velocity_x
            },
            velocity_y: if take_velocity {
                s.ball_vy
            } else {
                b.velocity_y
            },
            pos_x: if take_position {
                s.ball_x
            } else {
                b.pos_x
            },
            pos_y: if take_position {
                s.ball_y
            } else {
                b.pos_y
            },
            ..b
        }
    }
}

/// The local ball after a sequence of snapshots has been taken in, in order.
pub open spec fn spec_follow(player_id: u32, b: Ball, snaps: Seq<Snapshot>) -> Ball
    decreases snaps.len(),
{
    if snaps.len() == 0 {
        b
    } else {
        spec_reconcile(player_id, snaps.last(), spec_follow(player_id, b, snaps.drop_last()))
    }
}

/// Whether the client may contribute to the snapshot: a worker runs and our
/// side is known.
pub open spec fn spec_may_contribute(c: MultiplayerContext) -> bool {
    c.active && c.side != Side::Unknown
}

/// Whether the client holds ball authority according to its last snapshot.
pub open spec fn spec_holds_authority(c: MultiplayerContext) -> bool {
    match c.snapshot {
        Some(s) => spec_is_authority(c.player_id, s),
        None => false,
    }
}

/// This tick's contribution to the relay's snapshot: our own paddle's
/// position, the sentinel for the other paddle and for both identifiers,
/// and the ball (with our id as its authority) only when we hold ball
/// authority, sentinels otherwise.
pub open spec fn spec_outbound(c: MultiplayerContext, left_y: i32, right_y: i32, b: Ball) -> Snapshot {
    let auth = spec_holds_authority(c);
    Snapshot {
        session_id: c.session_id,
        left_id: UNASSIGNED_ID,
        right_id: UNASSIGNED_ID,
        left_paddle_y: if c.side == Side::Left {
            left_y
        } else {
            NO_VALUE
        },
        right_paddle_y: if c.side == Side::Right {
            right_y
        } else {
            NO_VALUE
        },
        ball_authority_id: if auth {
            c.player_id
        } else {
            UNASSIGNED_ID
        },
        ball_vx: if auth {
            b.velocity_x
        } else {
            NO_VALUE
        },
        ball_vy: if auth {
            b.velocity_y
        } else {
            NO_VALUE
        },
        ball_x: if auth {
            b.pos_x
        } else {
            NO_VALUE
        },
        ball_y: if auth {
            b.pos_y
        } else {
            NO_VALUE
        },
    }
}

/// Whether none of the ball fields of a snapshot is the sentinel.
pub open spec fn ball_fields_supplied(s: Snapshot) -> bool {
    s.ball_vx != NO_VALUE && s.ball_vy != NO_VALUE && s.ball_x != NO_VALUE && s.ball_y != NO_VALUE
}

/// Whether all ball fields of a snapshot are the sentinel.
pub open spec fn ball_fields_absent(s: Snapshot) -> bool {
    s.ball_vx == NO_VALUE && s.ball_vy == NO_VALUE && s.ball_x == NO_VALUE && s.ball_y == NO_VALUE
}

/// Session state and local ball after taking in one message from the
/// worker: an identity response goes to the session, a snapshot first
/// corrects a follower's ball and then goes to the session; any other
/// message is ignored.
pub open spec fn spec_take_in(c: MultiplayerContext, b: Ball, m: MessageView) -> (
    MultiplayerContext,
    Ball,
) {
    match m {
        MessageView::IdentifyResponse(id) => (c.with_identity(id).0, b),
        MessageView::SnapshotResponse(s) => (c.with_snapshot(s), spec_reconcile(c.player_id, s, b)),
        _ => (c, b),
    }
}

/// Session state and local ball after one tick's exchange: what the worker
/// delivered is taken in while a worker runs; otherwise nothing changes.
pub open spec fn spec_exchange(c: MultiplayerContext, b: Ball, inbound: Option<Message>) -> (
    MultiplayerContext,
    Ball,
) {
    if c.active && inbound.is_some() {
        spec_take_in(c, b, inbound.unwrap()@)
    } else {
        (c, b)
    }
}

/// Whether the snapshot names `player_id` as the ball's authority.
pub fn is_ball_authority(player_id: u32, s: &Snapshot) -> (r: bool)
    ensures
        r == spec_is_authority(player_id, *s),
{
    player_id != UNASSIGNED_ID && s.ball_authority_id == player_id
}

/// Corrects the local ball from a snapshot, as `spec_reconcile` says.
pub fn reconcile_ball(player_id: u32, s: &Snapshot, ball: &mut Ball)
    ensures
        *final(ball) == spec_reconcile(player_id, *s, *old(ball)),
{
    if is_ball_authority(player_id, s) {
        return ;
    }
    if s.ball_vx != NO_VALUE && s.ball_vy != NO_VALUE {
        ball.velocity_x = s.ball_vx;
        ball.velocity_y = s.ball_vy;
    }
    if s.ball_authority_id != UNASSIGNED_ID && s.ball_x != NO_VALUE && s.ball_y != NO_VALUE {
        ball.pos_x = s.ball_x;
        ball.pos_y = s.ball_y;
    }
}

/// This tick's outbound update, as `spec_outbound` says; none while no
/// worker runs or our side is unknown. The left paddle's position is taken
/// from `player_one`, the right one's from `player_two`.
pub fn srv_multiplayer_update_out(
    player_one: &Paddle,
    player_two: &Paddle,
    ball: &Ball,
    game: &GameContext,
) -> (r: Option<Message>)
    ensures
        r.is_some() == spec_may_contribute(game.multiplayer),
        r.is_some() ==> r.unwrap()@ == MessageView::SnapshotResponse(
            spec_outbound(game.multiplayer, player_one.pos_y, player_two.pos_y, *ball),
        ),
{
    let c = &game.multiplayer;
    if !c.active || c.side == Side::Unknown {
        return None;
    }
    let auth = match &c.snapshot {
        Some(s) => is_ball_authority(c.player_id, s),
        None => false,
    };
    let mut update = Snapshot::empty(c.session_id);
    if c.side == Side::Left {
        update.left_paddle_y = player_one.pos_y;
    } else {
        update.right_paddle_y = player_two.pos_y;
    }
    if auth {
        update.ball_authority_id = c.player_id;
        update.ball_vx = ball.velocity_x;
        update.ball_vy = ball.velocity_y;
        update.ball_x = ball.pos_x;
        update.ball_y = ball.pos_y;
    }
    Some(snapshot_message(update))
}

/// The identity error, if any, of taking in a message while a worker runs.
pub open spec fn spec_identity_rejection(c: MultiplayerContext, inbound: Option<Message>) -> Option<
    IdentityError,
> {
    if c.active && inbound.is_some() {
        match inbound.unwrap()@ {
            MessageView::IdentifyResponse(id) => match c.with_identity(id).1 {
                Err(e) => Some(e),
                Ok(_) => None,
            },
            _ => None,
        }
    } else {
        None
    }
}

/// Whether a snapshot was taken in with our identity known and the side is
/// still unknown after it: its identifiers match neither side.
pub open spec fn spec_side_unresolved(c: MultiplayerContext, inbound: Option<Message>) -> bool {
    c.active && inbound.is_some() && inbound.unwrap()@ is SnapshotResponse && c.has_identity()
        && c.with_snapshot(inbound.unwrap()@->SnapshotResponse_0).side == Side::Unknown
}

/// What one tick of the exchange with the worker produced.
#[derive(Clone, Debug)]
pub struct Exchange {
    /// This tick's update to queue for the worker.
    pub outbound: Option<Message>,
    /// An identity response that was rejected, and why.
    pub identity_rejected: Option<IdentityError>,
    /// A snapshot arrived whose identifiers match neither side.
    pub side_unresolved: bool,
}

/// One tick of the simulation side's exchange with the worker: takes in
/// the message the worker delivered, if any, as `spec_take_in` says, and
/// then, on every tick where the client may contribute, returns this tick's
/// outbound update. Nothing happens while no worker runs. Rejected
/// identities and snapshots whose identifiers match neither side are
/// reported.
pub fn multiplayer_update(
    player_one: &Paddle,
    player_two: &Paddle,
    ball: &mut Ball,
    game: &mut GameContext,
    inbound: Option<Message>,
) -> (r: Exchange)
    requires
        old(game).multiplayer.wf(),
    ensures
        final(game).multiplayer.wf(),
        ({
            let (c, b) = spec_exchange(old(game).multiplayer, *old(ball), inbound);
            &&& *final(game) == (GameContext { multiplayer: c, ..*old(game) })
            &&& *final(ball) == b
            &&& c.active == old(game).multiplayer.active
            &&& r.outbound.is_some() == spec_may_contribute(c)
            &&& r.outbound.is_some() ==> r.outbound.unwrap()@ == MessageView::SnapshotResponse(
                spec_outbound(c, player_one.pos_y, player_two.pos_y, b),
            )
            &&& r.identity_rejected == spec_identity_rejection(old(game).multiplayer, inbound)
            &&& r.side_unresolved == spec_side_unresolved(old(game).multiplayer, inbound)
        }),
{
    let mut identity_rejected: Option<IdentityError> = None;
    let mut side_unresolved = false;
    if !game.multiplayer.active {
        return Exchange { outbound: None, identity_rejected, side_unresolved };
    }
    match inbound {
        None => {},
        Some(Message::IdentifyResponse(id)) => {
            match game.multiplayer.apply_identity(id) {
                Ok(()) => {},
                Err(e) => {
                    identity_rejected = Some(e);
                },
            }
        },
        Some(Message::SnapshotResponse(s)) => {
            reconcile_ball(game.multiplayer.player_id, &s, ball);
            game.multiplayer.apply_snapshot(s);
            side_unresolved = game.multiplayer.player_id != UNASSIGNED_ID && game.multiplayer.side
                == Side::Unknown;
        },
        Some(_) => {},
    }
    let outbound = srv_multiplayer_update_out(player_one, player_two, ball, game);
    Exchange { outbound, identity_rejected, side_unresolved }
}

/// Sentinel law: an outbound update built by a client without ball
/// authority carries the sentinel in every ball field; one built by the
/// authority carries none, for any ball none of whose position and velocity
/// components happens to equal the sentinel.
pub proof fn lemma_outbound_sentinels(c: MultiplayerContext, left_y: i32, right_y: i32, b: Ball)
    ensures
        !spec_holds_authority(c) ==> ball_fields_absent(spec_outbound(c, left_y, right_y, b)),
        spec_holds_authority(c) && b.velocity_x != NO_VALUE && b.velocity_y != NO_VALUE && b.pos_x
            != NO_VALUE && b.pos_y != NO_VALUE ==> ball_fields_supplied(
            spec_outbound(c, left_y, right_y, b),
        ),
{
}

/// Follower law: for snapshots that all name an authority other than us,
/// the local ball's velocity after taking in the `i`-th one is that
/// snapshot's velocity when both its components are supplied, and the
/// velocity before it otherwise.
pub proof fn lemma_follower_velocity(player_id: u32, b: Ball, snaps: Seq<Snapshot>, i: int)
    requires
        0 <= i < snaps.len(),
        forall|j: int| 0 <= j < snaps.len() ==> #[trigger] snaps[j].ball_authority_id != player_id,
    ensures
        ({
            let before = spec_follow(player_id, b, snaps.take(i));
            let after = spec_follow(player_id, b, snaps.take(i + 1));
            let s = snaps[i];
            if s.ball_vx != NO_VALUE && s.ball_vy != NO_VALUE {
                after.velocity_x == s.ball_vx && after.velocity_y == s.ball_vy
            } else {
                after.velocity_x == before.velocity_x && after.velocity_y == before.velocity_y
            }
        }),
{
    assert(snaps.take(i + 1).drop_last() =~= snaps.take(i));
    assert(snaps.take(i + 1).last() == snaps[i]);
}

/// Session state and local ball after a sequence of ticks, each of which
/// takes in the next snapshot of `snaps` through `multiplayer_update`.
pub open spec fn spec_exchange_snapshots(c: MultiplayerContext, b: Ball, snaps: Seq<Snapshot>) -> (
    MultiplayerContext,
    Ball,
)
    decreases snaps.len(),
{
    if snaps.len() == 0 {
        (c, b)
    } else {
        let (c1, b1) = spec_exchange_snapshots(c, b, snaps.drop_last());
        spec_exchange(c1, b1, Some(Message::SnapshotResponse(snaps.last())))
    }
}

/// While a worker runs, ticks that take in snapshots leave the identity as
/// it was and move the ball exactly as `spec_follow` says.
pub proof fn lemma_exchange_follows(c: MultiplayerContext, b: Ball, snaps: Seq<Snapshot>)
    requires
        c.active,
    ensures
        spec_exchange_snapshots(c, b, snaps).0.active,
        spec_exchange_snapshots(c, b, snaps).0.player_id == c.player_id,
        spec_exchange_snapshots(c, b, snaps).1 == spec_follow(c.player_id, b, snaps),
    decreases snaps.len(),
{
    if snaps.len() > 0 {
        lemma_exchange_follows(c, b, snaps.drop_last());
    }
}

/// Follower law across ticks: for snapshots that all name an authority other
/// than us, taken in one per tick while a worker runs, the ball's velocity
/// after the tick that takes in the `i`-th one is that snapshot's velocity
/// when both its components are supplied, and the velocity after the tick
/// before otherwise.
pub proof fn lemma_follower_velocity_over_ticks(
    c: MultiplayerContext,
    b: Ball,
    snaps: Seq<Snapshot>,
    i: int,
)
    requires
        c.active,
        0 <= i < snaps.len(),
        forall|j: int| 0 <= j < snaps.len() ==> #[trigger] snaps[j].ball_authority_id != c.player_id,
    ensures
        ({
            let before = spec_exchange_snapshots(c, b, snaps.take(i)).1;
            let after = spec_exchange_snapshots(c, b, snaps.take(i + 1)).1;
            let s = snaps[i];
            if s.ball_vx != NO_VALUE && s.ball_vy != NO_VALUE {
                after.velocity_x == s.ball_vx && after.velocity_y == s.ball_vy
            } else {
                after.velocity_x == before.velocity_x && after.velocity_y == before.velocity_y
            }
        }),
{
    lemma_exchange_follows(c, b, snaps.take(i));
    lemma_exchange_follows(c, b, snaps.take(i + 1));
    lemma_follower_velocity(c.player_id, b, snaps, i);
}

} // verus!
