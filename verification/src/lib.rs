//! A per-user custodial vault on a deterministic ledger: a user opens a
//! vault, deposits into it, withdraws above a mandated reserve, and closes it
//! to reclaim every remaining unit. The vault and its metadata record are
//! addressed by deterministic derivation from the user's identity, and every
//! movement out of the vault is authorized by re-deriving those addresses
//! from persisted bumps rather than by any signature.
//!
//! `derivation` holds the trusted boundary to the derivation and rent
//! primitives, `state` the abstract ledger and its transition laws, and
//! `operations` the four verified handlers.

use vstd::prelude::*;

pub mod derivation;
pub mod operations;
pub mod state;

pub use state::VaultState;

verus! {

/// Errors that the vault operations report.
#[derive(Clone, Copy, Debug, PartialEq, Eq, Structural)]
pub enum VaultError {
    /// A supplied address does not re-derive from the stored bump and identity.
    AddressMismatch,
    /// A transfer would violate a balance or reserve invariant.
    InsufficientFunds,
    /// A vault record already occupies the derived state address.
    RecordAlreadyExists,
    /// No vault record exists at the derived state address.
    RecordNotFound,
}

} // verus!
