//! Client core of a two-player paddle game played through a relay: the wire
//! codec, the session state, ball authority, the network worker's decisions
//! and the game rules.
pub mod codec;
pub mod game;
pub mod screens;
pub mod session;
pub mod snapshot;
pub mod sync;
pub mod worker;
