//! Decisions of the network worker. The worker owns the socket and runs its
//! own loop: it greets, asks once for an identity, then polls the relay's
//! snapshot, pushing whatever the simulation side queued. The socket calls
//! and the queues stay around these functions; they only see frames and
//! messages.
use vstd::prelude::*;

use crate::codec::{
    decode,
    encode,
    frame_of,
    parse,
    snapshot_request_frame,
    DecodeError,
    Identity,
    Message,
    MessageView,
};
use crate::session::valid_identity;
use crate::snapshot::{Snapshot, UNASSIGNED_ID};

verus! {

/// Why a relay reply was of no use.
#[derive(Clone, Copy, Debug, PartialEq, Eq, Structural)]
pub enum ProtocolError {
    /// The frame could not be decoded.
    Decode(DecodeError),
    /// The frame decoded to another kind of message than the one asked for.
    Unexpected,
}

/// What one worker iteration does on the socket.
#[derive(Clone, Debug)]
pub struct Iteration {
    /// A frame to send without waiting for a reply.
    pub push: Option<Vec<u8>>,
    /// The snapshot request of the poll round trip.
    pub pull: Vec<u8>,
    /// Whether to pause before the next iteration, bounding the request
    /// rate while nothing is queued.
    pub sleep: bool,
}

/// The greeting text of a frame, when it is a greeting.
pub fn greeting_text(frame: &[u8]) -> (r: Option<Vec<u8>>)
    ensures
        match parse(frame@) {
            Ok(MessageView::Hello { text }) => r.is_some() && r.unwrap()@ == text,
            _ => r.is_none(),
        },
{
    match decode(frame) {
        Ok(Message::Hello { text }) => Some(text),
        _ => None,
    }
}

/// The identity in the relay's reply to an identity request.
pub fn srv_get_id(reply: &[u8]) -> (r: Result<Identity, ProtocolError>)
    ensures
        match parse(reply@) {
            Ok(MessageView::IdentifyResponse(id)) => r == Ok::<Identity, ProtocolError>(id),
            Ok(_) => r == Err::<Identity, ProtocolError>(ProtocolError::Unexpected),
            Err(e) => r == Err::<Identity, ProtocolError>(ProtocolError::Decode(e)),
        },
{
    match decode(reply) {
        Ok(Message::IdentifyResponse(id)) => Ok(id),
        Ok(_) => Err(ProtocolError::Unexpected),
        Err(e) => Err(ProtocolError::Decode(e)),
    }
}

/// The snapshot in the relay's reply to a snapshot request.
pub fn srv_get_ctx(reply: &[u8]) -> (r: Result<Snapshot, ProtocolError>)
    ensures
        match parse(reply@) {
            Ok(MessageView::SnapshotResponse(s)) => r == Ok::<Snapshot, ProtocolError>(s),
            Ok(_) => r == Err::<Snapshot, ProtocolError>(ProtocolError::Unexpected),
            Err(e) => r == Err::<Snapshot, ProtocolError>(ProtocolError::Decode(e)),
        },
{
    match decode(reply) {
        Ok(Message::SnapshotResponse(s)) => Ok(s),
        Ok(_) => Err(ProtocolError::Unexpected),
        Err(e) => Err(ProtocolError::Decode(e)),
    }
}

/// Connection attempts the worker makes before it gives up.
pub const CONNECT_ATTEMPTS: u32 = 5;

/// Pause between two connection attempts, in milliseconds.
pub const CONNECT_RETRY_DELAY_MS: u64 = 1000;

/// Whether the worker tries to connect again once `failed` attempts have
/// failed: retries are bounded, so a relay that stays unreachable is not
/// hammered for good.
pub fn retry_connect(failed: u32) -> (r: bool)
    ensures
        r == (failed < CONNECT_ATTEMPTS),
{
    failed < CONNECT_ATTEMPTS
}

/// Whether a queued message is one the worker pushes to the relay.
pub open spec fn is_pushed(m: MessageView) -> bool {
    match m {
        MessageView::SnapshotResponse(_) => true,
        MessageView::ReadyNotice { .. } => true,
        _ => false,
    }
}

/// State of the network worker: the session it polls.
#[derive(Clone, Copy, Debug, PartialEq, Eq, Structural)]
pub struct Worker {
    pub session_id: u32,
}

impl Worker {
    /// A worker that knows no session yet.
    pub fn new() -> (r: Worker)
        ensures
            r.session_id == UNASSIGNED_ID,
    {
        Worker { session_id: UNASSIGNED_ID }
    }

    /// Takes the reply to the identity request; `None` when the round trip
    /// failed. On an identity response whose two identifiers are assigned
    /// the worker keeps its session and returns the message to forward to the
    /// simulation side; otherwise nothing changes and nothing is forwarded.
    pub fn take_identity(&mut self, reply: Option<Vec<u8>>) -> (r: Option<Message>)
        ensures
            match reply {
                Some(b) => match parse(b@) {
                    Ok(MessageView::IdentifyResponse(id)) => if valid_identity(id) {
                        r.is_some() && r.unwrap()@ == MessageView::IdentifyResponse(id)
                            && final(self).session_id == id.session_id
                    } else {
                        r.is_none() && *final(self) == *old(self)
                    },
                    _ => r.is_none() && *final(self) == *old(self),
                },
                None => r.is_none() && *final(self) == *old(self),
            },
    {
        match reply {
            Some(b) => match srv_get_id(b.as_slice()) {
                Ok(id) => {
                    if id.player_id == UNASSIGNED_ID || id.session_id == UNASSIGNED_ID {
                        return None;
                    }
                    self.session_id = id.session_id;
                    Some(Message::IdentifyResponse(id))
                },
                Err(_) => None,
            },
            None => None,
        }
    }

    /// Plans one iteration from what the outbound queue held: a snapshot
    /// contribution or a readiness notice is pushed, any other message is
    /// dropped; the snapshot of our session is always polled; the worker
    /// pauses only when the queue was empty.
    pub fn plan(&self, pending: Option<Message>) -> (r: Iteration)
        ensures
            r.pull@ == frame_of(MessageView::SnapshotRequest { session_id: self.session_id }),
            r.sleep == pending.is_none(),
            r.push.is_some() == (pending.is_some() && is_pushed(pending.unwrap()@)),
            r.push.is_some() ==> r.push.unwrap()@ == frame_of(pending.unwrap()@),
    {
        let pull = snapshot_request_frame(self.session_id);
        match pending {
            None => Iteration { push: None, pull, sleep: true },
            Some(m) => {
                let push = match &m {
                    Message::SnapshotResponse(_) => Some(encode(&m)),
                    Message::ReadyNotice { .. } => Some(encode(&m)),
                    _ => None,
                };
                Iteration { push, pull, sleep: false }
            },
        }
    }

    /// Takes the reply to the snapshot poll; `None` when the round trip
    /// failed. Returns the snapshot message to forward, or nothing when the
    /// reply was missing or of no use.
    pub fn take_snapshot(&self, reply: Option<Vec<u8>>) -> (r: Option<Message>)
        ensures
            match reply {
                Some(b) => match parse(b@) {
                    Ok(MessageView::SnapshotResponse(s)) => r.is_some() && r.unwrap()@
                        == MessageView::SnapshotResponse(s),
                    _ => r.is_none(),
                },
                None => r.is_none(),
            },
    {
        match reply {
            Some(b) => match srv_get_ctx(b.as_slice()) {
                Ok(s) => Some(Message::SnapshotResponse(s)),
                Err(_) => None,
            },
            None => None,
        }
    }
}

} // verus!
