//! Messages of the payment app: what it is instantiated and migrated with,
//! the requests it executes and answers, and the responses it gives.
//!
//! The message types hold values of the Abstract, CosmWasm and cw20 crates as
//! they are; `objects` declares those types to the verifier.

pub mod msg;
pub mod objects;
