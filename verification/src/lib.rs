//! Atomic habits: the decision logic of a Holochain zome that keeps
//! "burners" (named groups of habits) and habits on an agent's source chain.
//!
//! The host (the Holochain conductor) does the storage and the networking. The
//! handlers of this crate are step machines: a handler hands out one host
//! request at a time ([`host::Call`]), and is resumed with the host's reply
//! ([`host::Reply`]) until it is done.

pub mod hash;
pub mod entries;
pub mod text;
pub mod host;
pub mod coordinator;
pub mod zome;
