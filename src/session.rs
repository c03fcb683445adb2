//! What the simulation side knows of the match: identity, side, the last
//! snapshot received, and where the connection handshake stands.
use vstd::prelude::*;

use crate::codec::{ready_message, Identity, Message, MessageView};
use crate::snapshot::{spec_match_ready, Snapshot, UNASSIGNED_ID};

verus! {

/// Half of the field that the locally controlled paddle occupies.
#[derive(Clone, Copy, Debug, PartialEq, Eq, Structural)]
pub enum Side {
    Left,
    Right,
    Unknown,
}

/// Progress of one match attempt.
#[derive(Clone, Copy, Debug, PartialEq, Eq, Structural)]
pub enum SyncPhase {
    Disconnected,
    /// The worker is connecting and waiting for an identity.
    Connecting,
    /// Identity known; waiting for the second player.
    AwaitingPeer,
    /// Both players registered; the match runs.
    Synchronized,
}

/// Why an identity was not taken.
#[derive(Clone, Copy, Debug, PartialEq, Eq, Structural)]
pub enum IdentityError {
    /// One of the two identifiers is the unassigned value.
    Unassigned,
    /// An identity is already held and this one differs from it.
    Conflict,
}

/// Session state of a multiplayer match.
#[derive(Clone, Copy, Debug)]
pub struct MultiplayerContext {
    /// Whether a network worker runs for this match.
    pub active: bool,
    pub player_id: u32,
    pub session_id: u32,
    pub side: Side,
    /// The last snapshot received from the relay.
    pub snapshot: Option<Snapshot>,
    pub phase: SyncPhase,
}

/// An identity whose two identifiers are both assigned.
pub open spec fn valid_identity(id: Identity) -> bool {
    id.player_id != UNASSIGNED_ID && id.session_id != UNASSIGNED_ID
}

/// Side derived from a snapshot: the side whose identifier is ours.
pub open spec fn spec_derive_side(player_id: u32, s: Snapshot) -> Side {
    if s.left_id == player_id {
        Side::Left
    } else if s.right_id == player_id {
        Side::Right
    } else {
        Side::Unknown
    }
}

/// Side derived from a snapshot: `Left` when our id is `left_id`, else
/// `Right` when it is `right_id`, else `Unknown`.
pub fn derive_side(player_id: u32, s: &Snapshot) -> (r: Side)
    ensures
        r == spec_derive_side(player_id, *s),
{
    if s.left_id == player_id {
        Side::Left
    } else if s.right_id == player_id {
        Side::Right
    } else {
        Side::Unknown
    }
}

/// Side derivation: where exactly one of the two identifiers of a snapshot
/// is ours, the derived side is that one; where neither is, it is unknown.
/// A state that knows its identity but not yet its side takes that side in
/// with the snapshot.
pub proof fn lemma_side_derivation(c: MultiplayerContext, s: Snapshot)
    requires
        c.side == Side::Unknown,
        c.has_identity(),
    ensures
        s.left_id == c.player_id && s.right_id != c.player_id ==> spec_derive_side(c.player_id, s)
            == Side::Left && c.with_snapshot(s).side == Side::Left,
        s.right_id == c.player_id && s.left_id != c.player_id ==> spec_derive_side(c.player_id, s)
            == Side::Right && c.with_snapshot(s).side == Side::Right,
        s.left_id != c.player_id && s.right_id != c.player_id ==> spec_derive_side(c.player_id, s)
            == Side::Unknown && c.with_snapshot(s).side == Side::Unknown,
{
}

impl MultiplayerContext {
    /// Both identifiers are assigned together or not at all, a side is only
    /// known together with an identity, and a worker runs exactly while a
    /// match attempt is under way.
    pub open spec fn wf(&self) -> bool {
        &&& (self.player_id == UNASSIGNED_ID) == (self.session_id == UNASSIGNED_ID)
        &&& self.side != Side::Unknown ==> self.player_id != UNASSIGNED_ID
        &&& self.active == (self.phase != SyncPhase::Disconnected)
    }

    pub open spec fn has_identity(&self) -> bool {
        self.player_id != UNASSIGNED_ID
    }

    /// The state after a snapshot has been taken in: the snapshot replaces
    /// the cached one, and an unknown side is derived from it once the
    /// identity is known.
    pub open spec fn with_snapshot(self, s: Snapshot) -> MultiplayerContext {
        MultiplayerContext {
            snapshot: Some(s),
            side: if self.side == Side::Unknown && self.has_identity() {
                spec_derive_side(self.player_id, s)
            } else {
                self.side
            },
            ..self
        }
    }

    /// No worker, no identity, no side, no snapshot.
    pub fn new() -> (r: MultiplayerContext)
        ensures
            r.wf(),
            !r.active,
            !r.has_identity(),
            r.session_id == UNASSIGNED_ID,
            r.side == Side::Unknown,
            r.snapshot.is_none(),
            r.phase == SyncPhase::Disconnected,
    {
        MultiplayerContext {
            active: false,
            player_id: UNASSIGNED_ID,
            session_id: UNASSIGNED_ID,
            side: Side::Unknown,
            snapshot: None,
            phase: SyncPhase::Disconnected,
        }
    }

    /// Whether the relay has handed out our identity.
    pub fn is_connected(&self) -> (r: bool)
        ensures
            r == (self.player_id != UNASSIGNED_ID && self.session_id != UNASSIGNED_ID),
    {
        self.player_id != UNASSIGNED_ID && self.session_id != UNASSIGNED_ID
    }

    /// The state and result after an identity response: the first valid
    /// identity is kept; the same one again changes nothing; a different
    /// one, or one with an unassigned identifier, is rejected and changes
    /// nothing.
    pub open spec fn with_identity(self, id: Identity) -> (MultiplayerContext, Result<
        (),
        IdentityError,
    >) {
        if !valid_identity(id) {
            (self, Err(IdentityError::Unassigned))
        } else if !self.has_identity() {
            (
                MultiplayerContext { player_id: id.player_id, session_id: id.session_id, ..self },
                Ok(()),
            )
        } else if self.player_id == id.player_id && self.session_id == id.session_id {
            (self, Ok(()))
        } else {
            (self, Err(IdentityError::Conflict))
        }
    }

    /// Takes in the relay's identity response, as `with_identity` says.
    pub fn apply_identity(&mut self, id: Identity) -> (r: Result<(), IdentityError>)
        requires
            old(self).wf(),
        ensures
            final(self).wf(),
            (*final(self), r) == old(self).with_identity(id),
    {
        if id.player_id == UNASSIGNED_ID || id.session_id == UNASSIGNED_ID {
            return Err(IdentityError::Unassigned);
        }
        if self.player_id == UNASSIGNED_ID {
            self.player_id = id.player_id;
            self.session_id = id.session_id;
            Ok(())
        } else if self.player_id == id.player_id && self.session_id == id.session_id {
            Ok(())
        } else {
            Err(IdentityError::Conflict)
        }
    }

    /// Takes in a snapshot from the relay: it replaces the cached one
    /// wholesale, and an unknown side is derived from it once the identity
    /// is known. A side once derived never changes.
    pub fn apply_snapshot(&mut self, s: Snapshot)
        requires
            old(self).wf(),
        ensures
            final(self).wf(),
            *final(self) == old(self).with_snapshot(s),
    {
        if self.side == Side::Unknown && self.player_id != UNASSIGNED_ID {
            self.side = derive_side(self.player_id, &s);
        }
        self.snapshot = Some(s);
    }

    /// Starts a match attempt: forgets identity, side and snapshot, marks
    /// the worker as running and enters the connecting phase. Returns
    /// whether a new worker has to be started, which is the case unless one
    /// already runs.
    pub fn start(&mut self) -> (r: bool)
        requires
            old(self).wf(),
        ensures
            final(self).wf(),
            r == !old(self).active,
            r ==> *final(self) == (MultiplayerContext {
                active: true,
                player_id: UNASSIGNED_ID,
                session_id: UNASSIGNED_ID,
                side: Side::Unknown,
                snapshot: None,
                phase: SyncPhase::Connecting,
            }),
            !r ==> *final(self) == *old(self),
    {
        if self.active {
            return false;
        }
        *self = MultiplayerContext {
            active: true,
            player_id: UNASSIGNED_ID,
            session_id: UNASSIGNED_ID,
            side: Side::Unknown,
            snapshot: None,
            phase: SyncPhase::Connecting,
        };
        true
    }

    /// One tick of the connecting phase: once the identity is known the
    /// attempt moves on to waiting for the peer. Returns whether it did.
    pub fn connect_step(&mut self) -> (r: bool)
        requires
            old(self).wf(),
        ensures
            final(self).wf(),
            r == (old(self).phase == SyncPhase::Connecting && old(self).has_identity()),
            r ==> *final(self) == (MultiplayerContext {
                phase: SyncPhase::AwaitingPeer,
                ..*old(self)
            }),
            !r ==> *final(self) == *old(self),
    {
        if self.phase == SyncPhase::Connecting && self.is_connected() {
            self.phase = SyncPhase::AwaitingPeer;
            true
        } else {
            false
        }
    }

    /// One tick of the waiting phase: once the side is known and the cached
    /// snapshot shows both players, returns the one readiness notice to send
    /// and enters the synchronized phase. Otherwise nothing changes.
    pub fn waiting_step(&mut self) -> (r: Option<Message>)
        requires
            old(self).wf(),
        ensures
            final(self).wf(),
            r.is_some() == (old(self).active && old(self).phase == SyncPhase::AwaitingPeer
                && old(self).side
                != Side::Unknown && old(self).snapshot.is_some() && spec_match_ready(
                old(self).snapshot.unwrap(),
            )),
            r.is_some() ==> r.unwrap()@ == (MessageView::ReadyNotice {
                session_id: old(self).session_id,
                player_id: old(self).player_id,
            }) && *final(self) == (MultiplayerContext {
                phase: SyncPhase::Synchronized,
                ..*old(self)
            }),
            r.is_none() ==> *final(self) == *old(self),
    {
        if !self.active || self.phase != SyncPhase::AwaitingPeer || self.side == Side::Unknown {
            return None;
        }
        match self.snapshot {
            Some(s) => {
                if s.match_ready() {
                    self.phase = SyncPhase::Synchronized;
                    Some(self.ready_notice())
                } else {
                    None
                }
            },
            None => None,
        }
    }

    /// The readiness notice of this client.
    pub fn ready_notice(&self) -> (r: Message)
        ensures
            r@ == (MessageView::ReadyNotice {
                session_id: self.session_id,
                player_id: self.player_id,
            }),
    {
        ready_message(self.session_id, self.player_id)
    }

    /// Ends the match attempt: the worker is to be stopped, identity, side
    /// and snapshot are discarded.
    pub fn disconnect(&mut self)
        ensures
            final(self).wf(),
            *final(self) == (MultiplayerContext {
                active: false,
                player_id: UNASSIGNED_ID,
                session_id: UNASSIGNED_ID,
                side: Side::Unknown,
                snapshot: None,
                phase: SyncPhase::Disconnected,
            }),
    {
        *self = MultiplayerContext::new();
    }
}

/// Identity law: for any valid identity taken in by a state without one,
/// the identity is set; taking in the same identity again leaves the state
/// as it is; taking in a different one afterwards is rejected and leaves the
/// state as it is.
pub proof fn lemma_identity_once(c: MultiplayerContext, id: Identity, other: Identity)
    requires
        c.wf(),
        !c.has_identity(),
        valid_identity(id),
        other != id,
    ensures
        ({
            let (c1, r1) = c.with_identity(id);
            let (c2, r2) = c1.with_identity(id);
            let (c3, r3) = c1.with_identity(other);
            &&& r1 == Ok::<(), IdentityError>(())
            &&& c1.wf()
            &&& c1.player_id == id.player_id && c1.session_id == id.session_id
            &&& r2 == Ok::<(), IdentityError>(()) && c2 == c1
            &&& r3 is Err && c3 == c1
            &&& valid_identity(other) ==> r3 == Err::<(), IdentityError>(IdentityError::Conflict)
        }),
{
}

} // verus!
