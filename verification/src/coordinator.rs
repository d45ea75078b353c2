//! The coordinator zome: burners kept on the caller's own source chain, found
//! by a search path made of the first letters of their name.

pub mod lookup;
pub mod latest;
pub mod create;
pub mod update;
pub mod owned;
pub mod listing;
pub mod live;
pub mod live_entry;
pub mod store;
