//! The older, single zome: burners and habits listed under one path each,
//! answered in the shapes a GraphQL front end reads.

pub mod burner;
pub mod habit;
pub mod validation;
