//! An escrowed prediction-market engine.
//!
//! A creator opens a timed prediction event (a "stream"); viewers deposit
//! stake behind one of a bounded set of outcome choices; after the event
//! closes, the creator declares a winning choice and the engine computes
//! proportional payouts from the pooled escrow, minus an optional creator
//! tip, or refunds all stakes if the event is canceled before resolution.
//!
//! The hosting ledger environment (identity verification, canonical address
//! derivation, record allocation, and the fungible-token transfer primitive)
//! is out of scope: operations here take verified caller identities and the
//! current time as plain arguments, mutate the records they are given, and
//! return the transfer amounts and events that the environment must apply
//! atomically with the record mutations.

pub mod digest;
pub mod errors;
pub mod events;
pub mod ids;
pub mod laws;
pub mod model;
pub mod payout;
pub mod predictions;
pub mod registry;
pub mod state;
pub mod vault;

pub use errors::CypherCastError;
pub use events::{CommunityVaultInitialized, PredictionSubmitted, RewardClaimed, StreamResolved};
pub use ids::AccountId;
pub use predictions::{claim_refund, claim_reward, join_stream, submit_prediction};
pub use registry::{activate_stream, cancel_stream, create_stream, end_stream, resolve_prediction};
pub use state::{CommunityVault, Participant, Prediction, Stream, TokenVault};
pub use vault::{initialize_community_vault, initialize_token_vault};

use vstd::prelude::*;

verus! {

/// Maximum prediction choice index; choices run over `0..=MAX_CHOICES`.
pub const MAX_CHOICES: u8 = 10;

/// Number of slots in a stream's per-choice stake table.
pub const CHOICE_SLOTS: usize = 11;

} // verus!
