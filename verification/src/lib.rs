//! Per-owner state records kept at program-derived addresses.
//!
//! Every caller can create one record, at an address derived from the
//! program's label and the caller's identity, and can afterwards replace the
//! 32-byte state root in it. Nobody else can change the record.
//!
//! - [`pubkey`]: identities and addresses.
//! - [`pda`]: the address derivation. It calls `anchor_lang` for the address
//!   that a set of seeds derives; that call is the one thing here that is
//!   believed and not proved.
//! - [`state`]: the record and the error kinds.
//! - [`layout`]: the bytes of a stored record.
//! - [`ledger`]: the store of records.
//! - [`instructions`]: the operations `initialize` and `update_state`.
//! - [`lifecycle`]: what holds of any sequence of operations.

pub mod instructions;
pub mod layout;
pub mod ledger;
pub mod lifecycle;
pub mod pda;
pub mod pubkey;
pub mod state;

pub use crate::instructions::{initialize, update_state, Initialize, UpdateState};
pub use crate::ledger::Ledger;
pub use crate::pubkey::Pubkey;
pub use crate::state::{AiState, StateError};
