//! The logic of broadcasting WebRTC tracks through actors.
//!
//! A broadcaster takes in the tracks of one peer, a recipient passes them on to another. Both
//! negotiate a connection with their peer by exchanging session descriptions. The negotiations and
//! the loops around a connection are state machines: each says what is to be done next and goes on
//! with what came of it, so that whoever drives them does the waiting and decides nothing.

pub mod answer;
pub mod broadcast;
pub mod codec;
pub mod description;
pub mod engine;
pub mod laws;
pub mod peer;
pub mod protocol;
pub mod reading;
pub mod recipient;
pub mod track;

pub use broadcast::{BroadcastContext, BroadcastContextFuture};
pub use codec::{decode, encode};
pub use track::LocalTrackMessage;
