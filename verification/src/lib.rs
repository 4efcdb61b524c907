//! A verified model of a single authorized value transfer in an
//! account-based ledger: the `collect_fee` instruction validates the
//! invocation context, enforces the source account's authorization, moves
//! the requested amount atomically through the ledger's transfer
//! primitive, and records exactly one completion event per success.

pub mod errors;
pub mod events;
pub mod handler;
pub mod ledger;
pub mod runtime;
pub mod state;
