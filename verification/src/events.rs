//! Events emitted by the engine's operations.
//!
//! An operation's only externally observable effects are its record
//! mutations, the transfer amounts it hands back to the environment, and
//! these events.

use vstd::prelude::*;
use crate::ids::AccountId;

verus! {

/// A viewer staked behind a choice.
#[derive(PartialEq, Eq, Structural, Clone, Copy, Debug)]
pub struct PredictionSubmitted {
    /// Address of the stream.
    pub stream: AccountId,
    /// Identity of the staking viewer.
    pub viewer: AccountId,
    /// Chosen outcome.
    pub choice: u8,
    /// Staked amount.
    pub amount: u64,
}

/// The creator resolved a stream.
#[derive(PartialEq, Eq, Structural, Clone, Copy, Debug)]
pub struct StreamResolved {
    /// Address of the stream.
    pub stream: AccountId,
    /// Declared winning choice.
    pub winning_choice: u8,
    /// Tip released to the creator.
    pub tip_amount: u64,
}

/// A winning viewer claimed a reward.
#[derive(PartialEq, Eq, Structural, Clone, Copy, Debug)]
pub struct RewardClaimed {
    /// Address of the stream.
    pub stream: AccountId,
    /// Identity of the claiming viewer.
    pub viewer: AccountId,
    /// Released reward amount.
    pub amount: u64,
}

/// The community vault was initialized.
#[derive(PartialEq, Eq, Structural, Clone, Copy, Debug)]
pub struct CommunityVaultInitialized {
    /// Authority over the pool.
    pub authority: AccountId,
    /// Mint of the pooled asset.
    pub mint: AccountId,
    /// Token account holding the pool.
    pub token_account: AccountId,
}

} // verus!
