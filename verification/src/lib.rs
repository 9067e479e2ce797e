//! An admission-gated, inventory-limited minting service.
//!
//! A payment notification is classified into a sale phase, checked against
//! the payer's quota and prepaid storage balance, and turned into a batch of
//! issuance requests for a remote contract. The outcome of the batch is
//! reconciled later by a settlement step.

pub mod account;
pub mod batch;
pub mod error;
pub mod guarantees;
pub mod message;
pub mod minter;
pub mod model;
pub mod store;

pub use crate::account::AccountId;
pub use crate::batch::{promise_mint_pack, MintBatch, MintRequest, MINT_STORAGE_COST};
pub use crate::error::MintError;
pub use crate::message::TokenReceiverMessage;
pub use crate::minter::{CollectRequest, Minter, PaymentOutcome, Snapshot};
pub use crate::model::{BatchOutcome, BatchState, Decision, Phase, WhitelistState};
