//! Proof-of-attendance credentials: deterministic account addressing, an
//! event registry and an attendance ledger, and the staged registration
//! transaction that ties them to token issuance.

pub mod address;
pub mod error;
pub mod laws;
pub mod register;
pub mod registry;

pub use address::Address;
pub use error::VerfiError;
