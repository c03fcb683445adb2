//! Binary frames for the message vocabulary exchanged with the relay.
//!
//! A frame is one tag byte followed by the payload of that message kind.
//! Integers are four bytes, least significant first; signed values travel
//! as their two's complement bit pattern. A greeting carries its text
//! length as such an integer, then the text bytes.
//!
//! This framing is the library's own; it is not a protobuf encoding, and a
//! relay that speaks protobuf messages does not understand it.
use vstd::prelude::*;

use crate::snapshot::Snapshot;

verus! {

pub const TAG_HELLO: u8 = 1;

pub const TAG_IDENTIFY_REQUEST: u8 = 2;

pub const TAG_IDENTIFY_RESPONSE: u8 = 3;

pub const TAG_SNAPSHOT_REQUEST: u8 = 4;

pub const TAG_SNAPSHOT_RESPONSE: u8 = 5;

pub const TAG_READY_NOTICE: u8 = 6;

/// Number of payload bytes of a snapshot frame: ten integers.
pub const SNAPSHOT_PAYLOAD_LEN: usize = 40;

/// Identity handed out by the relay.
#[derive(Clone, Copy, Debug, PartialEq, Eq, Structural)]
pub struct Identity {
    pub player_id: u32,
    pub session_id: u32,
}

/// The closed set of messages that travel between client and relay.
#[derive(Clone, Debug)]
pub enum Message {
    /// Greeting; the text is carried as raw bytes.
    Hello { text: Vec<u8> },
    IdentifyRequest,
    IdentifyResponse(Identity),
    SnapshotRequest { session_id: u32 },
    /// A full snapshot from the relay, or a partial one pushed by a client.
    SnapshotResponse(Snapshot),
    ReadyNotice { session_id: u32, player_id: u32 },
}

/// Mathematical counterpart of `Message`.
pub ghost enum MessageView {
    Hello { text: Seq<u8> },
    IdentifyRequest,
    IdentifyResponse(Identity),
    SnapshotRequest { session_id: u32 },
    SnapshotResponse(Snapshot),
    ReadyNotice { session_id: u32, player_id: u32 },
}

impl View for Message {
    type V = MessageView;

    open spec fn view(&self) -> MessageView {
        match self {
            Message::Hello { text } => MessageView::Hello { text: text@ },
            Message::IdentifyRequest => MessageView::IdentifyRequest,
            Message::IdentifyResponse(id) => MessageView::IdentifyResponse(*id),
            Message::SnapshotRequest { session_id } => MessageView::SnapshotRequest {
                session_id: *session_id,
            },
            Message::SnapshotResponse(s) => MessageView::SnapshotResponse(*s),
            Message::ReadyNotice { session_id, player_id } => MessageView::ReadyNotice {
                session_id: *session_id,
                player_id: *player_id,
            },
        }
    }
}

/// Why a frame could not be decoded.
#[derive(Clone, Copy, Debug, PartialEq, Eq, Structural)]
pub enum DecodeError {
    /// The frame holds no byte at all.
    Empty,
    /// The tag byte names no message kind.
    UnknownTag(u8),
    /// The payload length does not fit the message kind.
    BadLength,
}

/// The four bytes of `v`, least significant first.
pub open spec fn le_bytes(v: u32) -> Seq<u8> {
    seq![
        (v & 0xff) as u8,
        ((v >> 8u32) & 0xff) as u8,
        ((v >> 16u32) & 0xff) as u8,
        ((v >> 24u32) & 0xff) as u8,
    ]
}

/// The integer that four bytes, least significant first, stand for.
pub open spec fn le_value(b0: u8, b1: u8, b2: u8, b3: u8) -> u32 {
    (b0 as u32) | ((b1 as u32) << 8u32) | ((b2 as u32) << 16u32) | ((b3 as u32) << 24u32)
}

/// The integer held at byte offset `at` of `b`.
pub open spec fn word_at(b: Seq<u8>, at: int) -> u32 {
    le_value(b[at], b[at + 1], b[at + 2], b[at + 3])
}

/// The signed integer held at byte offset `at` of `b`.
pub open spec fn signed_word_at(b: Seq<u8>, at: int) -> i32 {
    word_at(b, at) as i32
}

pub open spec fn le_signed(v: i32) -> Seq<u8> {
    le_bytes(v as u32)
}

/// The payload of a snapshot frame.
pub open spec fn snapshot_bytes(s: Snapshot) -> Seq<u8> {
    le_bytes(s.session_id) + le_bytes(s.left_id) + le_bytes(s.right_id) + le_signed(
        s.left_paddle_y,
    ) + le_signed(s.right_paddle_y) + le_bytes(s.ball_authority_id) + le_signed(s.ball_vx)
        + le_signed(s.ball_vy) + le_signed(s.ball_x) + le_signed(s.ball_y)
}

/// The snapshot that a 40-byte payload stands for.
pub open spec fn snapshot_of(b: Seq<u8>) -> Snapshot {
    Snapshot {
        session_id: word_at(b, 0),
        left_id: word_at(b, 4),
        right_id: word_at(b, 8),
        left_paddle_y: signed_word_at(b, 12),
        right_paddle_y: signed_word_at(b, 16),
        ball_authority_id: word_at(b, 20),
        ball_vx: signed_word_at(b, 24),
        ball_vy: signed_word_at(b, 28),
        ball_x: signed_word_at(b, 32),
        ball_y: signed_word_at(b, 36),
    }
}

/// The frame of a message.
pub open spec fn frame_of(m: MessageView) -> Seq<u8> {
    match m {
        MessageView::Hello { text } => seq![TAG_HELLO] + le_bytes(text.len() as u32) + text,
        MessageView::IdentifyRequest => seq![TAG_IDENTIFY_REQUEST],
        MessageView::IdentifyResponse(id) => seq![TAG_IDENTIFY_RESPONSE] + le_bytes(id.player_id)
            + le_bytes(id.session_id),
        MessageView::SnapshotRequest { session_id } => seq![TAG_SNAPSHOT_REQUEST] + le_bytes(
            session_id,
        ),
        MessageView::SnapshotResponse(s) => seq![TAG_SNAPSHOT_RESPONSE] + snapshot_bytes(s),
        MessageView::ReadyNotice { session_id, player_id } => seq![TAG_READY_NOTICE] + le_bytes(
            session_id,
        ) + le_bytes(player_id),
    }
}

/// Whether a message can be framed: a greeting's length must fit its field.
pub open spec fn encodable(m: MessageView) -> bool {
    match m {
        MessageView::Hello { text } => text.len() <= u32::MAX,
        _ => true,
    }
}

/// What decoding a frame yields.
pub open spec fn parse(b: Seq<u8>) -> Result<MessageView, DecodeError> {
    if b.len() == 0 {
        Err(DecodeError::Empty)
    } else {
        let tag = b[0];
        let n = b.len() - 1;
        if tag == TAG_HELLO {
            if n >= 4 && word_at(b, 1) == n - 4 {
                Ok(MessageView::Hello { text: b.subrange(5, b.len() as int) })
            } else {
                Err(DecodeError::BadLength)
            }
        } else if tag == TAG_IDENTIFY_REQUEST {
            if n == 0 {
                Ok(MessageView::IdentifyRequest)
            } else {
                Err(DecodeError::BadLength)
            }
        } else if tag == TAG_IDENTIFY_RESPONSE {
            if n == 8 {
                Ok(
                    MessageView::IdentifyResponse(
                        Identity { player_id: word_at(b, 1), session_id: word_at(b, 5) },
                    ),
                )
            } else {
                Err(DecodeError::BadLength)
            }
        } else if tag == TAG_SNAPSHOT_REQUEST {
            if n == 4 {
                Ok(MessageView::SnapshotRequest { session_id: word_at(b, 1) })
            } else {
                Err(DecodeError::BadLength)
            }
        } else if tag == TAG_SNAPSHOT_RESPONSE {
            if n == 40 {
                Ok(MessageView::SnapshotResponse(snapshot_of(b.subrange(1, 41))))
            } else {
                Err(DecodeError::BadLength)
            }
        } else if tag == TAG_READY_NOTICE {
            if n == 8 {
                Ok(MessageView::ReadyNotice { session_id: word_at(b, 1), player_id: word_at(b, 5) })
            } else {
                Err(DecodeError::BadLength)
            }
        } else {
            Err(DecodeError::UnknownTag(tag))
        }
    }
}

fn push_u32(out: &mut Vec<u8>, v: u32)
    ensures
        final(out)@ == old(out)@ + le_bytes(v),
{
    out.push((v & 0xff) as u8);
    out.push(((v >> 8u32) & 0xff) as u8);
    out.push(((v >> 16u32) & 0xff) as u8);
    out.push(((v >> 24u32) & 0xff) as u8);
    assert(final(out)@ =~= old(out)@ + le_bytes(v));
}

fn push_i32(out: &mut Vec<u8>, v: i32)
    ensures
        final(out)@ == old(out)@ + le_signed(v),
{
    push_u32(out, v as u32);
}

fn read_u32(b: &[u8], at: usize) -> (r: u32)
    requires
        at + 4 <= b@.len(),
    ensures
        r == word_at(b@, at as int),
{
    (b[at] as u32) | ((b[at + 1] as u32) << 8u32) | ((b[at + 2] as u32) << 16u32) | ((b[at
        + 3] as u32) << 24u32)
}

fn read_i32(b: &[u8], at: usize) -> (r: i32)
    requires
        at + 4 <= b@.len(),
    ensures
        r == signed_word_at(b@, at as int),
{
    read_u32(b, at) as i32
}

fn push_snapshot(out: &mut Vec<u8>, s: &Snapshot)
    ensures
        final(out)@ == old(out)@ + snapshot_bytes(*s),
{
    push_u32(out, s.session_id);
    push_u32(out, s.left_id);
    push_u32(out, s.right_id);
    push_i32(out, s.left_paddle_y);
    push_i32(out, s.right_paddle_y);
    push_u32(out, s.ball_authority_id);
    push_i32(out, s.ball_vx);
    push_i32(out, s.ball_vy);
    push_i32(out, s.ball_x);
    push_i32(out, s.ball_y);
    assert(final(out)@ =~= old(out)@ + snapshot_bytes(*s));
}

/// Encodes a message as one frame. Encoding cannot fail.
pub fn encode(m: &Message) -> (r: Vec<u8>)
    requires
        encodable(m@),
    ensures
        r@ == frame_of(m@),
{
    let mut out: Vec<u8> = Vec::new();
    match m {
        Message::Hello { text } => {
            out.push(TAG_HELLO);
            push_u32(&mut out, text.len() as u32);
            let mut i: usize = 0;
            while i < text.len()
                invariant
                    i <= text@.len(),
                    out@ == seq![TAG_HELLO] + le_bytes(text@.len() as u32) + text@.subrange(
                        0,
                        i as int,
                    ),
                decreases text@.len() - i,
            {
                out.push(text[i]);
                i = i + 1;
                assert(out@ =~= seq![TAG_HELLO] + le_bytes(text@.len() as u32) + text@.subrange(
                    0,
                    i as int,
                ));
            }
            assert(text@.subrange(0, text@.len() as int) =~= text@);
        },
        Message::IdentifyRequest => {
            out.push(TAG_IDENTIFY_REQUEST);
        },
        Message::IdentifyResponse(id) => {
            out.push(TAG_IDENTIFY_RESPONSE);
            push_u32(&mut out, id.player_id);
            push_u32(&mut out, id.session_id);
        },
        Message::SnapshotRequest { session_id } => {
            out.push(TAG_SNAPSHOT_REQUEST);
            push_u32(&mut out, *session_id);
        },
        Message::SnapshotResponse(s) => {
            out.push(TAG_SNAPSHOT_RESPONSE);
            push_snapshot(&mut out, s);
        },
        Message::ReadyNotice { session_id, player_id } => {
            out.push(TAG_READY_NOTICE);
            push_u32(&mut out, *session_id);
            push_u32(&mut out, *player_id);
        },
    }
    assert(out@ =~= frame_of(m@));
    out
}

fn read_snapshot(b: &[u8]) -> (r: Snapshot)
    requires
        b@.len() == 41,
    ensures
        r == snapshot_of(b@.subrange(1, 41)),
{
    Snapshot {
        session_id: read_u32(b, 1),
        left_id: read_u32(b, 5),
        right_id: read_u32(b, 9),
        left_paddle_y: read_i32(b, 13),
        right_paddle_y: read_i32(b, 17),
        ball_authority_id: read_u32(b, 21),
        ball_vx: read_i32(b, 25),
        ball_vy: read_i32(b, 29),
        ball_x: read_i32(b, 33),
        ball_y: read_i32(b, 37),
    }
}

/// Decodes one frame. Fails, without panicking, on an empty frame, an
/// unknown tag, or a payload whose length does not fit its tag.
pub fn decode(b: &[u8]) -> (r: Result<Message, DecodeError>)
    ensures
        match r {
            Ok(m) => parse(b@) == Ok::<MessageView, DecodeError>(m@),
            Err(e) => parse(b@) == Err::<MessageView, DecodeError>(e),
        },
{
    if b.len() == 0 {
        return Err(DecodeError::Empty);
    }
    let tag = b[0];
    let n = b.len() - 1;
    if tag == TAG_HELLO {
        if n >= 4 && read_u32(b, 1) as usize == n - 4 {
            let mut text: Vec<u8> = Vec::new();
            let mut i: usize = 5;
            while i < b.len()
                invariant
                    5 <= i <= b@.len(),
                    text@ == b@.subrange(5, i as int),
                decreases b@.len() - i,
            {
                text.push(b[i]);
                i = i + 1;
                assert(text@ =~= b@.subrange(5, i as int));
            }
            Ok(Message::Hello { text })
        } else {
            Err(DecodeError::BadLength)
        }
    } else if tag == TAG_IDENTIFY_REQUEST {
        if n == 0 {
            Ok(Message::IdentifyRequest)
        } else {
            Err(DecodeError::BadLength)
        }
    } else if tag == TAG_IDENTIFY_RESPONSE {
        if n == 8 {
            Ok(
                Message::IdentifyResponse(
                    Identity { player_id: read_u32(b, 1), session_id: read_u32(b, 5) },
                ),
            )
        } else {
            Err(DecodeError::BadLength)
        }
    } else if tag == TAG_SNAPSHOT_REQUEST {
        if n == 4 {
            Ok(Message::SnapshotRequest { session_id: read_u32(b, 1) })
        } else {
            Err(DecodeError::BadLength)
        }
    } else if tag == TAG_SNAPSHOT_RESPONSE {
        if n == SNAPSHOT_PAYLOAD_LEN {
            Ok(Message::SnapshotResponse(read_snapshot(b)))
        } else {
            Err(DecodeError::BadLength)
        }
    } else if tag == TAG_READY_NOTICE {
        if n == 8 {
            Ok(Message::ReadyNotice { session_id: read_u32(b, 1), player_id: read_u32(b, 5) })
        } else {
            Err(DecodeError::BadLength)
        }
    } else {
        Err(DecodeError::UnknownTag(tag))
    }
}

/// The frame of a greeting carrying `text`.
pub fn hello_frame(text: &Vec<u8>) -> (r: Vec<u8>)
    requires
        text@.len() <= u32::MAX,
    ensures
        r@ == frame_of(MessageView::Hello { text: text@ }),
{
    encode(&Message::Hello { text: text.clone() })
}

/// The frame of an identity request.
pub fn identify_request_frame() -> (r: Vec<u8>)
    ensures
        r@ == frame_of(MessageView::IdentifyRequest),
{
    encode(&Message::IdentifyRequest)
}

/// The frame of a request for the snapshot of `session_id`.
pub fn snapshot_request_frame(session_id: u32) -> (r: Vec<u8>)
    ensures
        r@ == frame_of(MessageView::SnapshotRequest { session_id }),
{
    encode(&Message::SnapshotRequest { session_id })
}

/// The message that pushes a snapshot contribution to the relay.
pub fn snapshot_message(ctx: Snapshot) -> (r: Message)
    ensures
        r@ == MessageView::SnapshotResponse(ctx),
{
    Message::SnapshotResponse(ctx)
}

/// The readiness notice of `player_id` in `session_id`.
pub fn ready_message(session_id: u32, player_id: u32) -> (r: Message)
    ensures
        r@ == (MessageView::ReadyNotice { session_id, player_id }),
{
    Message::ReadyNotice { session_id, player_id }
}

proof fn lemma_le_value_of_bytes(v: u32)
    ensures
        le_value(le_bytes(v)[0], le_bytes(v)[1], le_bytes(v)[2], le_bytes(v)[3]) == v,
{
    let b0 = (v & 0xff) as u8;
    let b1 = ((v >> 8u32) & 0xff) as u8;
    let b2 = ((v >> 16u32) & 0xff) as u8;
    let b3 = ((v >> 24u32) & 0xff) as u8;
    assert((b0 as u32) | ((b1 as u32) << 8u32) | ((b2 as u32) << 16u32) | ((b3 as u32) << 24u32)
        == v) by (bit_vector)
        requires
            b0 == (v & 0xff) as u8,
            b1 == ((v >> 8u32) & 0xff) as u8,
            b2 == ((v >> 16u32) & 0xff) as u8,
            b3 == ((v >> 24u32) & 0xff) as u8,
    ;
}

proof fn lemma_word_at(b: Seq<u8>, at: int, v: u32)
    requires
        0 <= at,
        at + 4 <= b.len(),
        b.subrange(at, at + 4) == le_bytes(v),
    ensures
        word_at(b, at) == v,
{
    lemma_le_value_of_bytes(v);
    assert(b[at] == b.subrange(at, at + 4)[0]);
    assert(b[at + 1] == b.subrange(at, at + 4)[1]);
    assert(b[at + 2] == b.subrange(at, at + 4)[2]);
    assert(b[at + 3] == b.subrange(at, at + 4)[3]);
}

proof fn lemma_signed_word_at(b: Seq<u8>, at: int, v: i32)
    requires
        0 <= at,
        at + 4 <= b.len(),
        b.subrange(at, at + 4) == le_signed(v),
    ensures
        signed_word_at(b, at) == v,
{
    lemma_word_at(b, at, v as u32);
    assert((v as u32) as i32 == v) by (bit_vector);
}

proof fn lemma_snapshot_round_trip(s: Snapshot)
    ensures
        snapshot_of(snapshot_bytes(s)) == s,
{
    let b = snapshot_bytes(s);
    assert(b.len() == 40);
    assert(b.subrange(0, 4) =~= le_bytes(s.session_id));
    assert(b.subrange(4, 8) =~= le_bytes(s.left_id));
    assert(b.subrange(8, 12) =~= le_bytes(s.right_id));
    assert(b.subrange(12, 16) =~= le_signed(s.left_paddle_y));
    assert(b.subrange(16, 20) =~= le_signed(s.right_paddle_y));
    assert(b.subrange(20, 24) =~= le_bytes(s.ball_authority_id));
    assert(b.subrange(24, 28) =~= le_signed(s.ball_vx));
    assert(b.subrange(28, 32) =~= le_signed(s.ball_vy));
    assert(b.subrange(32, 36) =~= le_signed(s.ball_x));
    assert(b.subrange(36, 40) =~= le_signed(s.ball_y));
    lemma_word_at(b, 0, s.session_id);
    lemma_word_at(b, 4, s.left_id);
    lemma_word_at(b, 8, s.right_id);
    lemma_signed_word_at(b, 12, s.left_paddle_y);
    lemma_signed_word_at(b, 16, s.right_paddle_y);
    lemma_word_at(b, 20, s.ball_authority_id);
    lemma_signed_word_at(b, 24, s.ball_vx);
    lemma_signed_word_at(b, 28, s.ball_vy);
    lemma_signed_word_at(b, 32, s.ball_x);
    lemma_signed_word_at(b, 36, s.ball_y);
}

/// Round trip: decoding the frame of any message that can be framed gives
/// back exactly that message, every field included.
pub proof fn lemma_round_trip(m: MessageView)
    requires
        encodable(m),
    ensures
        parse(frame_of(m)) == Ok::<MessageView, DecodeError>(m),
{
    let f = frame_of(m);
    match m {
        MessageView::Hello { text } => {
            assert(f.subrange(1, 5) =~= le_bytes(text.len() as u32));
            lemma_word_at(f, 1, text.len() as u32);
            assert(f.subrange(5, f.len() as int) =~= text);
        },
        MessageView::IdentifyRequest => {},
        MessageView::IdentifyResponse(id) => {
            assert(f.subrange(1, 5) =~= le_bytes(id.player_id));
            assert(f.subrange(5, 9) =~= le_bytes(id.session_id));
            lemma_word_at(f, 1, id.player_id);
            lemma_word_at(f, 5, id.session_id);
        },
        MessageView::SnapshotRequest { session_id } => {
            assert(f.subrange(1, 5) =~= le_bytes(session_id));
            lemma_word_at(f, 1, session_id);
        },
        MessageView::SnapshotResponse(s) => {
            assert(f.subrange(1, 41) =~= snapshot_bytes(s));
            lemma_snapshot_round_trip(s);
        },
        MessageView::ReadyNotice { session_id, player_id } => {
            assert(f.subrange(1, 5) =~= le_bytes(session_id));
            assert(f.subrange(5, 9) =~= le_bytes(player_id));
            lemma_word_at(f, 1, session_id);
            lemma_word_at(f, 5, player_id);
        },
    }
}

proof fn lemma_bytes_of_word(b: Seq<u8>, at: int)
    requires
        0 <= at,
        at + 4 <= b.len(),
    ensures
        le_bytes(word_at(b, at)) == b.subrange(at, at + 4),
{
    let b0 = b[at];
    let b1 = b[at + 1];
    let b2 = b[at + 2];
    let b3 = b[at + 3];
    let v = word_at(b, at);
    assert((v & 0xff) as u8 == b0 && ((v >> 8u32) & 0xff) as u8 == b1 && ((v >> 16u32) & 0xff) as u8
        == b2 && ((v >> 24u32) & 0xff) as u8 == b3) by (bit_vector)
        requires
            v == (b0 as u32) | ((b1 as u32) << 8u32) | ((b2 as u32) << 16u32) | ((b3 as u32)
                << 24u32),
    ;
    assert(le_bytes(v) =~= b.subrange(at, at + 4));
}

proof fn lemma_bytes_of_signed_word(b: Seq<u8>, at: int)
    requires
        0 <= at,
        at + 4 <= b.len(),
    ensures
        le_signed(signed_word_at(b, at)) == b.subrange(at, at + 4),
{
    lemma_bytes_of_word(b, at);
    let w = word_at(b, at);
    assert((w as i32) as u32 == w) by (bit_vector);
}

proof fn lemma_snapshot_canonical(p: Seq<u8>)
    requires
        p.len() == 40,
    ensures
        snapshot_bytes(snapshot_of(p)) == p,
{
    lemma_bytes_of_word(p, 0);
    lemma_bytes_of_word(p, 4);
    lemma_bytes_of_word(p, 8);
    lemma_bytes_of_signed_word(p, 12);
    lemma_bytes_of_signed_word(p, 16);
    lemma_bytes_of_word(p, 20);
    lemma_bytes_of_signed_word(p, 24);
    lemma_bytes_of_signed_word(p, 28);
    lemma_bytes_of_signed_word(p, 32);
    lemma_bytes_of_signed_word(p, 36);
    assert(snapshot_bytes(snapshot_of(p)) =~= p);
}

/// Every frame that decodes is exactly the frame of the message it decodes
/// to: a message has one frame, and decoding accepts nothing else.
pub proof fn lemma_frame_unique(b: Seq<u8>)
    ensures
        match parse(b) {
            Ok(m) => encodable(m) && frame_of(m) == b,
            Err(_) => true,
        },
{
    if b.len() > 0 {
        let tag = b[0];
        if tag == TAG_HELLO && b.len() >= 5 {
            lemma_bytes_of_word(b, 1);
            assert(b =~= seq![b[0]] + b.subrange(1, 5) + b.subrange(5, b.len() as int));
        } else if tag == TAG_IDENTIFY_RESPONSE && b.len() == 9 {
            lemma_bytes_of_word(b, 1);
            lemma_bytes_of_word(b, 5);
            assert(b =~= seq![b[0]] + b.subrange(1, 5) + b.subrange(5, 9));
        } else if tag == TAG_SNAPSHOT_REQUEST && b.len() == 5 {
            lemma_bytes_of_word(b, 1);
            assert(b =~= seq![b[0]] + b.subrange(1, 5));
        } else if tag == TAG_SNAPSHOT_RESPONSE && b.len() == 41 {
            lemma_snapshot_canonical(b.subrange(1, 41));
            assert(b =~= seq![b[0]] + b.subrange(1, 41));
        } else if tag == TAG_READY_NOTICE && b.len() == 9 {
            lemma_bytes_of_word(b, 1);
            lemma_bytes_of_word(b, 5);
            assert(b =~= seq![b[0]] + b.subrange(1, 5) + b.subrange(5, 9));
        } else if tag == TAG_IDENTIFY_REQUEST && b.len() == 1 {
            assert(b =~= seq![b[0]]);
        }
    }
}

} // verus!
