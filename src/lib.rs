//! Atomic exchange of one compressed token for another: decompress the
//! input, collect it into a protocol pool, pay the quoted output out of the
//! pool under a program-derived custodian, and compress the output again.

pub mod custodian;
pub mod error;
pub mod event;
pub mod ledger;
pub mod pipeline;
pub mod quote;
pub mod settlement;
