//! Persistent records of the engine and their invariants.
//!
//! One `Stream` per prediction event, one `TokenVault` per stream, one
//! `Prediction` per (stream, viewer) stake, one `Participant` per
//! (stream, viewer) join, and a singleton `CommunityVault`. Each record is
//! exclusively owned by its canonical address; the environment serializes
//! operations that write the same record.

use vstd::prelude::*;
use crate::ids::AccountId;
use crate::{CHOICE_SLOTS, MAX_CHOICES};

verus! {

/// Number of bytes in a configuration commitment.
pub const DIGEST_LEN: usize = 32;

/// Maximum title length, in bytes.
pub const MAX_TITLE_LEN: usize = 200;

/// Sum of a per-choice stake table.
pub open spec fn sum_choices(s: Seq<u64>) -> int
    decreases s.len(),
{
    if s.len() == 0 {
        0
    } else {
        sum_choices(s.drop_last()) + s.last()
    }
}

/// Replacing one slot of a stake table changes its sum by the difference
/// between the new and the old entry.
pub proof fn lemma_sum_choices_update(s: Seq<u64>, i: int, v: u64)
    requires
        0 <= i < s.len(),
    ensures
        sum_choices(s.update(i, v)) == sum_choices(s) - s[i] + v,
    decreases s.len(),
{
    let t = s.update(i, v);
    if i == s.len() - 1 {
        assert(t.drop_last() =~= s.drop_last());
    } else {
        assert(t.drop_last() =~= s.drop_last().update(i, v));
        lemma_sum_choices_update(s.drop_last(), i, v);
    }
}

/// True of a commitment that is still the all-zero sentinel, i.e. of a
/// stream whose configuration has not been frozen yet.
pub open spec fn all_zero_digest(h: Seq<u8>) -> bool {
    forall|i: int| 0 <= i < h.len() ==> h[i] == 0
}

/// One prediction event: configuration, lifecycle flags and stake
/// aggregates.
#[derive(Clone, Debug)]
pub struct Stream {
    /// Identity that created the stream; the only caller allowed to
    /// activate, end, resolve or cancel it.
    pub creator: AccountId,
    /// Caller-chosen numeric id, part of the stream's canonical address.
    pub stream_id: u64,
    /// Title, as UTF-8 bytes; at most `MAX_TITLE_LEN` bytes.
    pub title: Vec<u8>,
    /// Scheduled start time (seconds).
    pub start_time: i64,
    /// Time the stream was ended; 0 until ended.
    pub end_time: i64,
    /// Submissions close at `start_time + lock_offset_secs`.
    pub lock_offset_secs: i64,
    /// Grace period after the end, frozen into the commitment.
    pub grace_period_secs: i64,
    /// Creator tip rate in basis points, at most 10_000.
    pub tip_bps: u16,
    /// Fixed-point display precision, at most 9.
    pub precision: u8,
    /// Configuration commitment: `DIGEST_LEN` bytes, all zero until the
    /// stream is activated, then frozen.
    pub config_hash: Vec<u8>,
    /// Total stake deposited over all choices.
    pub total_stake: u64,
    /// Stake deposited behind each choice; exactly `CHOICE_SLOTS` slots.
    pub total_by_choice: Vec<u64>,
    /// True from creation until the stream is ended or canceled.
    pub is_active: bool,
    /// True once the creator has resolved the stream.
    pub is_resolved: bool,
    /// Winning choice; meaningful only once resolved.
    pub winning_choice: u8,
    /// Tip released to the creator at resolution; 0 until then.
    pub tip_amount: u64,
    /// Time of resolution; 0 until resolved.
    pub resolved_at: i64,
    /// Time of cancellation; 0 means not canceled.
    pub canceled_at: i64,
}

impl Stream {
    /// True once the stream has been canceled.
    pub open spec fn is_canceled(self) -> bool {
        self.canceled_at != 0
    }

    /// True once the configuration has been frozen by activation.
    pub open spec fn is_activated(self) -> bool {
        !all_zero_digest(self.config_hash@)
    }

    /// Well-formedness of a stream record. Creation establishes it and
    /// every operation preserves it; in particular the total stake always
    /// equals the sum of the per-choice stakes, and the two terminal
    /// states exclude each other.
    pub open spec fn wf(self) -> bool {
        &&& self.title@.len() <= MAX_TITLE_LEN
        &&& self.tip_bps <= 10_000
        &&& self.precision <= 9
        &&& self.config_hash@.len() == DIGEST_LEN
        &&& self.total_by_choice@.len() == CHOICE_SLOTS
        &&& self.total_stake == sum_choices(self.total_by_choice@)
        &&& self.winning_choice <= MAX_CHOICES
        &&& !(self.is_resolved && self.is_canceled())
        &&& self.is_resolved ==> !self.is_active
        &&& self.is_canceled() ==> !self.is_active
        &&& !self.is_resolved ==> self.tip_amount == 0
        &&& !self.is_resolved ==> self.winning_choice == 0
    }
}

/// Escrow vault of one stream: holds the staked tokens and tracks the
/// cumulative amounts deposited into and released out of its token account.
#[derive(Clone, Copy, Debug)]
pub struct TokenVault {
    /// Address of the stream this vault escrows for.
    pub stream: AccountId,
    /// Token account that actually holds the staked balance.
    pub token_account: AccountId,
    /// Mint of the staked asset.
    pub mint: AccountId,
    /// Cumulative amount deposited.
    pub total_deposited: u64,
    /// Cumulative amount released.
    pub total_released: u64,
}

/// One viewer's immutable stake on one stream: the choice and amount are
/// fixed at submission; the two claim flags each flip to true at most once
/// and are never both set.
#[derive(Clone, Copy, Debug)]
pub struct Prediction {
    /// Address of the stream the prediction belongs to.
    pub stream: AccountId,
    /// Identity of the staking viewer.
    pub viewer: AccountId,
    /// Chosen outcome, at most `MAX_CHOICES`.
    pub choice: u8,
    /// Staked amount, fixed at submission.
    pub stake_amount: u64,
    /// Submission time.
    pub timestamp: i64,
    /// True once the reward has been claimed.
    pub reward_claimed: bool,
    /// True once the refund has been claimed.
    pub refunded: bool,
}

impl Prediction {
    /// Well-formedness of a prediction record.
    pub open spec fn wf(self) -> bool {
        &&& self.choice <= MAX_CHOICES
        &&& !(self.reward_claimed && self.refunded)
    }
}

/// Attendance record for one (stream, viewer) join event. The stake field
/// is kept for backward compatibility and is not authoritative for payout.
#[derive(Clone, Copy, Debug)]
pub struct Participant {
    /// Address of the joined stream.
    pub stream: AccountId,
    /// Identity of the joining viewer.
    pub viewer: AccountId,
    /// Always 0; staking goes through predictions.
    pub stake_amount: u64,
    /// Join time.
    pub joined_at: i64,
}

/// Protocol-level shared pool for contributions outside any one stream's
/// escrow.
#[derive(Clone, Copy, Debug)]
pub struct CommunityVault {
    /// Authority over the pool.
    pub authority: AccountId,
    /// Token account holding the pool.
    pub token_account: AccountId,
    /// Mint of the pooled asset.
    pub mint: AccountId,
    /// Cumulative contributions.
    pub total_contributions: u64,
}

} // verus!
