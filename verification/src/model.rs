//! A whole-stream model: one stream, its vault and all of its predictions.
//!
//! Each operation runs against the records it is handed and is verified in
//! isolation; this module ties the records of one stream together and
//! states the global invariant that arbitrary interleavings of operations
//! preserve, chiefly that the vault never reports more released than
//! deposited. The invariant and the transition relations here are spec
//! level; the laws module proves that every transition preserves the
//! invariant.

use vstd::prelude::*;
use crate::ids::AccountId;
use crate::predictions::{
    claim_refund_error, claim_reward_amount, claim_reward_error, submit_prediction_error,
};
use crate::registry::{
    activate_stream_error, cancel_stream_error, create_stream_error, end_stream_error,
    fresh_stream, resolve_prediction_error, resolve_tip,
};
use crate::state::{Prediction, Stream, TokenVault};
use crate::MAX_CHOICES;

verus! {

/// Everything the environment persists for one stream: the stream record,
/// its escrow vault, and every prediction record allocated under the
/// stream's address.
pub struct SystemView {
    /// Canonical address of the stream.
    pub stream_key: AccountId,
    /// The stream record.
    pub stream: Stream,
    /// The stream's escrow vault.
    pub vault: TokenVault,
    /// All prediction records of the stream, in allocation order.
    pub predictions: Seq<Prediction>,
}

/// Total stake over all predictions.
pub open spec fn total_staked(preds: Seq<Prediction>) -> int
    decreases preds.len(),
{
    if preds.len() == 0 {
        0
    } else {
        total_staked(preds.drop_last()) + preds.last().stake_amount
    }
}

/// Total stake of the predictions on one choice.
pub open spec fn stake_by_choice(preds: Seq<Prediction>, c: u8) -> int
    decreases preds.len(),
{
    if preds.len() == 0 {
        0
    } else {
        stake_by_choice(preds.drop_last(), c) + if preds.last().choice == c {
            preds.last().stake_amount as int
        } else {
            0
        }
    }
}

/// Total stake of the already-rewarded predictions on one choice.
pub open spec fn claimed_stake(preds: Seq<Prediction>, c: u8) -> int
    decreases preds.len(),
{
    if preds.len() == 0 {
        0
    } else {
        claimed_stake(preds.drop_last(), c) + if preds.last().choice == c
            && preds.last().reward_claimed {
            preds.last().stake_amount as int
        } else {
            0
        }
    }
}

/// Total stake of the already-refunded predictions.
pub open spec fn refunded_stake(preds: Seq<Prediction>) -> int
    decreases preds.len(),
{
    if preds.len() == 0 {
        0
    } else {
        refunded_stake(preds.drop_last()) + if preds.last().refunded {
            preds.last().stake_amount as int
        } else {
            0
        }
    }
}

/// One prediction's contribution to the claimed stake of a choice.
pub open spec fn claimed_part(p: Prediction, c: u8) -> int {
    if p.choice == c && p.reward_claimed {
        p.stake_amount as int
    } else {
        0
    }
}

/// One prediction's contribution to the refunded stake.
pub open spec fn refunded_part(p: Prediction) -> int {
    if p.refunded {
        p.stake_amount as int
    } else {
        0
    }
}

/// All four running sums over the prediction records are nonnegative.
pub proof fn lemma_sums_nonnegative(preds: Seq<Prediction>, c: u8)
    ensures
        0 <= total_staked(preds),
        0 <= stake_by_choice(preds, c),
        0 <= claimed_stake(preds, c),
        0 <= refunded_stake(preds),
    decreases preds.len(),
{
    if preds.len() > 0 {
        lemma_sums_nonnegative(preds.drop_last(), c);
    }
}

/// The claimed stake of a choice never exceeds the whole stake of that
/// choice.
pub proof fn lemma_claimed_le_stake_by_choice(preds: Seq<Prediction>, c: u8)
    ensures
        claimed_stake(preds, c) <= stake_by_choice(preds, c),
    decreases preds.len(),
{
    if preds.len() > 0 {
        lemma_claimed_le_stake_by_choice(preds.drop_last(), c);
    }
}

/// The refunded stake never exceeds the total stake.
pub proof fn lemma_refunded_le_total(preds: Seq<Prediction>)
    ensures
        refunded_stake(preds) <= total_staked(preds),
    decreases preds.len(),
{
    if preds.len() > 0 {
        lemma_refunded_le_total(preds.drop_last());
    }
}

/// While no prediction is reward-claimed, the claimed stake of every
/// choice is zero.
pub proof fn lemma_claimed_stake_none(preds: Seq<Prediction>, c: u8)
    requires
        forall|i: int| 0 <= i < preds.len() ==> !(#[trigger] preds[i]).reward_claimed,
    ensures
        claimed_stake(preds, c) == 0,
    decreases preds.len(),
{
    if preds.len() > 0 {
        assert(preds[preds.len() - 1] == preds.last());
        lemma_claimed_stake_none(preds.drop_last(), c);
    }
}

/// Appending a prediction grows each running sum by that prediction's
/// contribution.
pub proof fn lemma_sums_push(preds: Seq<Prediction>, p: Prediction, c: u8)
    ensures
        total_staked(preds.push(p)) == total_staked(preds) + p.stake_amount,
        stake_by_choice(preds.push(p), c) == stake_by_choice(preds, c) + (
        if p.choice == c {
            p.stake_amount as int
        } else {
            0
        }),
        claimed_stake(preds.push(p), c) == claimed_stake(preds, c) + claimed_part(p, c),
        refunded_stake(preds.push(p)) == refunded_stake(preds) + refunded_part(p),
{
    assert(preds.push(p).drop_last() =~= preds);
    assert(preds.push(p).last() == p);
}

/// Replacing one prediction by another with the same choice and stake
/// keeps the per-choice and total stakes, and moves the claimed and
/// refunded sums by the difference of the two contributions.
pub proof fn lemma_sums_update(preds: Seq<Prediction>, i: int, p2: Prediction, c: u8)
    requires
        0 <= i < preds.len(),
        p2.choice == preds[i].choice,
        p2.stake_amount == preds[i].stake_amount,
    ensures
        total_staked(preds.update(i, p2)) == total_staked(preds),
        stake_by_choice(preds.update(i, p2), c) == stake_by_choice(preds, c),
        claimed_stake(preds.update(i, p2), c) == claimed_stake(preds, c) - claimed_part(
            preds[i],
            c,
        ) + claimed_part(p2, c),
        refunded_stake(preds.update(i, p2)) == refunded_stake(preds) - refunded_part(preds[i])
            + refunded_part(p2),
    decreases preds.len(),
{
    let u = preds.update(i, p2);
    if i == preds.len() - 1 {
        assert(u.drop_last() =~= preds.drop_last());
        assert(u.last() == p2);
        assert(preds.last() == preds[i]);
    } else {
        assert(u.drop_last() =~= preds.drop_last().update(i, p2));
        assert(u.last() == preds.last());
        assert(preds.drop_last()[i] == preds[i]);
        lemma_sums_update(preds.drop_last(), i, p2, c);
    }
}

/// The global invariant of one stream's records.
///
/// The stream is well formed and its aggregates agree with the prediction
/// records; the vault's deposited total mirrors the stream's total stake;
/// claim flags only ever point at the stream's terminal state; and the
/// released total is covered, phase by phase, by what the payout rules owe:
/// nothing before a terminal state, the tip plus the claimed winners'
/// proportional share after resolution, the refunded stakes after
/// cancellation.
pub open spec fn inv(sys: SystemView) -> bool {
    let s = sys.stream;
    let v = sys.vault;
    let preds = sys.predictions;
    &&& s.wf()
    &&& v.stream == sys.stream_key
    &&& v.total_deposited == s.total_stake
    &&& forall|c: u8| c <= MAX_CHOICES ==> #[trigger] stake_by_choice(preds, c)
        == s.total_by_choice@[c as int]
    &&& total_staked(preds) == s.total_stake
    &&& forall|i: int| 0 <= i < preds.len() ==> (#[trigger] preds[i]).wf()
    &&& forall|i: int| 0 <= i < preds.len() ==> (#[trigger] preds[i]).stream == sys.stream_key
    &&& forall|i: int, j: int| 0 <= i < j < preds.len() ==> (#[trigger] preds[i].viewer)
        != (#[trigger] preds[j].viewer)
    &&& forall|i: int| 0 <= i < preds.len() && (#[trigger] preds[i]).reward_claimed ==> s.is_resolved
        && preds[i].choice == s.winning_choice
    &&& forall|i: int| 0 <= i < preds.len() && (#[trigger] preds[i]).refunded ==> s.is_canceled()
    &&& !s.is_resolved && !s.is_canceled() ==> v.total_released == 0
    &&& s.is_resolved ==> {
        let w = s.winning_choice;
        let winner_total = s.total_by_choice@[w as int] as int;
        let distributable = v.total_deposited - s.tip_amount;
        &&& s.tip_amount <= v.total_deposited
        &&& winner_total > 0
        &&& v.total_released <= s.tip_amount + (distributable * claimed_stake(preds, w))
            / winner_total
    }
    &&& s.is_canceled() ==> v.total_released <= refunded_stake(preds)
}

/// Creation of a stream together with the initialization of its vault:
/// a fresh stream for the given configuration, a zeroed vault bound to the
/// stream's address, and no predictions yet.
pub open spec fn create_transition(
    post: SystemView,
    creator: AccountId,
    stream_id: u64,
    title: Seq<u8>,
    start_time: i64,
    lock_offset_secs: i64,
    tip_bps: u16,
    precision: u8,
    grace_period_secs: i64,
    token_account: AccountId,
    mint: AccountId,
) -> bool {
    &&& create_stream_error(title, tip_bps, precision) is None
    &&& post.stream.wf()
    &&& fresh_stream(
        post.stream,
        creator,
        stream_id,
        title,
        start_time,
        lock_offset_secs,
        tip_bps,
        precision,
        grace_period_secs,
    )
    &&& post.vault == (TokenVault {
        stream: post.stream_key,
        token_account,
        mint,
        total_deposited: 0,
        total_released: 0,
    })
    &&& post.predictions.len() == 0
}

/// A successful activation: only the stored commitment changes.
pub open spec fn activate_transition(pre: SystemView, post: SystemView, caller: AccountId) -> bool {
    &&& activate_stream_error(pre.stream, caller) is None
    &&& post.stream.wf()
    &&& post.stream == (Stream { config_hash: post.stream.config_hash, ..pre.stream })
    &&& post.stream_key == pre.stream_key
    &&& post.vault == pre.vault
    &&& post.predictions == pre.predictions
}

/// A successful end: the stream goes inactive and records its end time.
pub open spec fn end_transition(
    pre: SystemView,
    post: SystemView,
    caller: AccountId,
    now: i64,
) -> bool {
    &&& end_stream_error(pre.stream, caller) is None
    &&& post.stream == (Stream { is_active: false, end_time: now, ..pre.stream })
    &&& post.stream_key == pre.stream_key
    &&& post.vault == pre.vault
    &&& post.predictions == pre.predictions
}

/// A successful submission: the environment found the per-(stream, viewer)
/// address vacant, transferred the stake into the vault, and committed the
/// aggregate increments together with the new prediction record.
pub open spec fn submit_transition(
    pre: SystemView,
    post: SystemView,
    viewer: AccountId,
    choice: u8,
    stake_amount: u64,
    now: i64,
) -> bool {
    &&& submit_prediction_error(
        pre.stream,
        pre.vault,
        pre.stream_key,
        choice,
        stake_amount,
        now,
    ) is None
    &&& forall|i: int| 0 <= i < pre.predictions.len() ==> (#[trigger] pre.predictions[i]).viewer
        != viewer
    &&& post.stream_key == pre.stream_key
    &&& post.stream == (Stream {
        total_stake: (pre.stream.total_stake + stake_amount) as u64,
        total_by_choice: post.stream.total_by_choice,
        ..pre.stream
    })
    &&& post.stream.total_by_choice@ == pre.stream.total_by_choice@.update(
        choice as int,
        (pre.stream.total_by_choice@[choice as int] + stake_amount) as u64,
    )
    &&& post.vault == (TokenVault {
        total_deposited: (pre.vault.total_deposited + stake_amount) as u64,
        ..pre.vault
    })
    &&& post.predictions == pre.predictions.push(
        Prediction {
            stream: pre.stream_key,
            viewer,
            choice,
            stake_amount,
            timestamp: now,
            reward_claimed: false,
            refunded: false,
        },
    )
}

/// A successful resolution: the tip leaves the vault and the stream fixes
/// its winner.
pub open spec fn resolve_transition(
    pre: SystemView,
    post: SystemView,
    caller: AccountId,
    winning_choice: u8,
    now: i64,
) -> bool {
    let tip = resolve_tip(pre.stream, pre.vault);
    &&& resolve_prediction_error(pre.stream, pre.vault, pre.stream_key, caller, winning_choice)
        is None
    &&& post.stream_key == pre.stream_key
    &&& post.stream == (Stream {
        is_resolved: true,
        winning_choice,
        tip_amount: tip as u64,
        resolved_at: now,
        ..pre.stream
    })
    &&& post.vault == (TokenVault {
        total_released: (pre.vault.total_released + tip) as u64,
        ..pre.vault
    })
    &&& post.predictions == pre.predictions
}

/// A successful cancellation at a nonzero instant.
pub open spec fn cancel_transition(
    pre: SystemView,
    post: SystemView,
    caller: AccountId,
    now: i64,
) -> bool {
    &&& cancel_stream_error(pre.stream, caller) is None
    &&& now != 0
    &&& post.stream == (Stream { is_active: false, canceled_at: now, ..pre.stream })
    &&& post.stream_key == pre.stream_key
    &&& post.vault == pre.vault
    &&& post.predictions == pre.predictions
}

/// A successful reward claim by the prediction at index `i`: its
/// proportional share leaves the vault and its claim flag is set.
pub open spec fn claim_reward_transition(pre: SystemView, post: SystemView, i: int) -> bool {
    let p = pre.predictions[i];
    let amount = claim_reward_amount(pre.stream, pre.vault, p);
    &&& 0 <= i < pre.predictions.len()
    &&& claim_reward_error(pre.stream, pre.vault, p, pre.stream_key, p.viewer) is None
    &&& post.stream_key == pre.stream_key
    &&& post.stream == pre.stream
    &&& post.vault == (TokenVault {
        total_released: (pre.vault.total_released + amount) as u64,
        ..pre.vault
    })
    &&& post.predictions == pre.predictions.update(
        i,
        (Prediction { reward_claimed: true, ..p }),
    )
}

/// A successful refund claim by the prediction at index `i`: its original
/// stake leaves the vault and its refund flag is set.
pub open spec fn claim_refund_transition(pre: SystemView, post: SystemView, i: int) -> bool {
    let p = pre.predictions[i];
    &&& 0 <= i < pre.predictions.len()
    &&& claim_refund_error(pre.stream, pre.vault, p, pre.stream_key, p.viewer) is None
    &&& post.stream_key == pre.stream_key
    &&& post.stream == pre.stream
    &&& post.vault == (TokenVault {
        total_released: (pre.vault.total_released + p.stake_amount) as u64,
        ..pre.vault
    })
    &&& post.predictions == pre.predictions.update(i, (Prediction { refunded: true, ..p }))
}

/// One atomic operation of the engine on a stream's records, whatever its
/// parameters: every state change the environment can commit after
/// creation is one of these.
pub open spec fn step(pre: SystemView, post: SystemView) -> bool {
    ||| exists|caller: AccountId| activate_transition(pre, post, caller)
    ||| exists|caller: AccountId, now: i64| end_transition(pre, post, caller, now)
    ||| exists|viewer: AccountId, choice: u8, stake_amount: u64, now: i64|
        submit_transition(pre, post, viewer, choice, stake_amount, now)
    ||| exists|caller: AccountId, winning_choice: u8, now: i64|
        resolve_transition(pre, post, caller, winning_choice, now)
    ||| exists|caller: AccountId, now: i64| cancel_transition(pre, post, caller, now)
    ||| exists|i: int| claim_reward_transition(pre, post, i)
    ||| exists|i: int| claim_refund_transition(pre, post, i)
}

/// An initial state: some creator just created the stream with some
/// configuration and initialized its vault.
pub open spec fn initial(sys: SystemView) -> bool {
    exists|
        creator: AccountId,
        stream_id: u64,
        title: Seq<u8>,
        start_time: i64,
        lock_offset_secs: i64,
        tip_bps: u16,
        precision: u8,
        grace_period_secs: i64,
        token_account: AccountId,
        mint: AccountId,
    |
        create_transition(
            sys,
            creator,
            stream_id,
            title,
            start_time,
            lock_offset_secs,
            tip_bps,
            precision,
            grace_period_secs,
            token_account,
            mint,
        )
}

/// A state the environment can reach in `n` operations after creation.
pub open spec fn reachable_in(sys: SystemView, n: nat) -> bool
    decreases n,
{
    if n == 0 {
        initial(sys)
    } else {
        exists|pre: SystemView| reachable_in(pre, (n - 1) as nat) && step(pre, sys)
    }
}

} // verus!
