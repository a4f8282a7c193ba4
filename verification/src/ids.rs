//! Opaque account identifiers.
//!
//! The ledger environment identifies every party and every record by an
//! address from one namespace: creators, viewers, streams, vaults, mints and
//! token accounts alike. The engine never inspects an address; it only
//! compares addresses for equality (authorization guards, record linkage),
//! so an identifier is modeled as an opaque token with structural equality.

use vstd::prelude::*;

verus! {

/// An opaque address in the ledger environment's namespace.
///
/// The environment guarantees that distinct parties and distinct records
/// carry distinct identifiers; the engine relies only on equality.
#[derive(PartialEq, Eq, Structural, Clone, Copy, Debug, Hash)]
pub struct AccountId {
    pub id: u64,
}

} // verus!
