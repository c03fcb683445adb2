//! The relay's shared record of one match, and the sentinels that mark
//! fields left empty in it.
use vstd::prelude::*;

verus! {

/// Identifier value meaning "not assigned" or "not supplied".
pub const UNASSIGNED_ID: u32 = 0xFFFF_FFFF;

/// Coordinate or velocity value meaning "not supplied this round".
pub const NO_VALUE: i32 = 0x7FFF_FFFF;

/// The relay's snapshot of a match; also the shape of a client's partial
/// contribution to it.
#[derive(Clone, Copy, Debug, PartialEq, Eq, Structural)]
pub struct Snapshot {
    pub session_id: u32,
    pub left_id: u32,
    pub right_id: u32,
    pub left_paddle_y: i32,
    pub right_paddle_y: i32,
    pub ball_authority_id: u32,
    pub ball_vx: i32,
    pub ball_vy: i32,
    pub ball_x: i32,
    pub ball_y: i32,
}

/// Whether both players are registered in the snapshot, so that the match
/// can start.
pub open spec fn spec_match_ready(s: Snapshot) -> bool {
    s.left_id != UNASSIGNED_ID && s.right_id != UNASSIGNED_ID
}

impl Snapshot {
    /// A snapshot in which nothing is supplied.
    pub fn empty(session_id: u32) -> (r: Snapshot)
        ensures
            r == (Snapshot {
                session_id,
                left_id: UNASSIGNED_ID,
                right_id: UNASSIGNED_ID,
                left_paddle_y: NO_VALUE,
                right_paddle_y: NO_VALUE,
                ball_authority_id: UNASSIGNED_ID,
                ball_vx: NO_VALUE,
                ball_vy: NO_VALUE,
                ball_x: NO_VALUE,
                ball_y: NO_VALUE,
            }),
    {
        Snapshot {
            session_id,
            left_id: UNASSIGNED_ID,
            right_id: UNASSIGNED_ID,
            left_paddle_y: NO_VALUE,
            right_paddle_y: NO_VALUE,
            ball_authority_id: UNASSIGNED_ID,
            ball_vx: NO_VALUE,
            ball_vy: NO_VALUE,
            ball_x: NO_VALUE,
            ball_y: NO_VALUE,
        }
    }

    /// Match start condition: both `left_id` and `right_id` are assigned.
    pub fn match_ready(&self) -> (r: bool)
        ensures
            r == spec_match_ready(*self),
    {
        self.left_id != UNASSIGNED_ID && self.right_id != UNASSIGNED_ID
    }
}

} // verus!
