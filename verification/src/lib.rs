//! Handing a share ticket from a sender to a receiver who know the same phrase.
//!
//! The two sides meet on a gossip topic that is derived from the phrase, run a
//! password-authenticated key exchange there, and pass the ticket under the key
//! that the exchange gives. This crate holds the messages and their wire format,
//! the key derivations, and the state machines of the two sides.

pub mod bytes;
pub mod cipher;
pub mod clock;
pub mod codec;
pub mod crypto;
pub mod delivery;
pub mod desktop;
pub mod digest;
pub mod error;
pub mod event;
pub mod hex;
pub mod key_laws;
pub mod laws;
pub mod pake;
pub mod proto;
pub mod receiver;
pub mod sender;
pub mod step_laws;
pub mod topic;
pub mod view_laws;
pub mod wire;
pub mod wire_laws;
