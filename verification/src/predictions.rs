//! The prediction and participant ledger.
//!
//! One participant record per (stream, viewer) join, one prediction record
//! per (stream, viewer) stake. A prediction's choice and stake are fixed at
//! submission; its two claim flags guard the reward and refund paths, each
//! of which can release funds at most once. The environment allocates each
//! returned record at its canonical per-(stream, viewer) address and
//! rejects the allocation if the address is already occupied, which
//! enforces "at most one prediction per viewer per stream".

use vstd::prelude::*;
use crate::errors::CypherCastError;
use crate::events::{PredictionSubmitted, RewardClaimed};
use crate::ids::AccountId;
use crate::payout::{compute_reward, reward_of};
use crate::state::{lemma_sum_choices_update, Participant, Prediction, Stream, TokenVault};
use crate::MAX_CHOICES;

verus! {

/// Why `join_stream` rejects, or `None` when it succeeds.
pub open spec fn join_stream_error(s: Stream) -> Option<CypherCastError> {
    if !s.is_active {
        Some(CypherCastError::StreamNotActive)
    } else if s.is_canceled() {
        Some(CypherCastError::Canceled)
    } else {
        None
    }
}

/// Join an active stream: record attendance for the viewer. The stake
/// field of the record is kept at 0; staking goes through
/// `submit_prediction`.
pub fn join_stream(
    stream: &Stream,
    stream_key: AccountId,
    viewer: AccountId,
    _stake_amount: u64,
    now: i64,
) -> (r: Result<Participant, CypherCastError>)
    ensures
        r is Ok <==> join_stream_error(*stream) is None,
        match r {
            Ok(p) => p == (Participant { stream: stream_key, viewer, stake_amount: 0, joined_at: now }),
            Err(e) => Some(e) == join_stream_error(*stream),
        },
{
    if !stream.is_active {
        return Err(CypherCastError::StreamNotActive);
    }
    if stream.canceled_at != 0 {
        return Err(CypherCastError::Canceled);
    }
    Ok(Participant { stream: stream_key, viewer, stake_amount: 0, joined_at: now })
}

/// Why `submit_prediction` rejects, or `None` when it succeeds, in the
/// order the guards are checked.
pub open spec fn submit_prediction_error(
    s: Stream,
    v: TokenVault,
    stream_key: AccountId,
    choice: u8,
    stake_amount: u64,
    now: i64,
) -> Option<CypherCastError> {
    if v.stream != stream_key {
        Some(CypherCastError::Unauthorized)
    } else if !s.is_active {
        Some(CypherCastError::StreamNotActive)
    } else if s.is_canceled() {
        Some(CypherCastError::Canceled)
    } else if stake_amount == 0 {
        Some(CypherCastError::InvalidStakeAmount)
    } else if choice > MAX_CHOICES {
        Some(CypherCastError::InvalidChoice)
    } else if s.start_time + s.lock_offset_secs > i64::MAX || s.start_time + s.lock_offset_secs
        < i64::MIN {
        Some(CypherCastError::Overflow)
    } else if now >= s.start_time + s.lock_offset_secs {
        Some(CypherCastError::StreamLocked)
    } else if v.total_deposited + stake_amount > u64::MAX {
        Some(CypherCastError::Overflow)
    } else if s.total_stake + stake_amount > u64::MAX {
        Some(CypherCastError::Overflow)
    } else if s.total_by_choice@[choice as int] + stake_amount > u64::MAX {
        Some(CypherCastError::Overflow)
    } else {
        None
    }
}

/// Stake behind a choice of an active, unlocked stream. Atomically with
/// the environment's transfer of `stake_amount` from the viewer into the
/// vault's token account: the vault's deposited total, the stream's total
/// stake and the chosen slot each grow by the stake, and the returned
/// prediction record fixes the viewer's immutable commitment.
pub fn submit_prediction(
    stream: &mut Stream,
    vault: &mut TokenVault,
    stream_key: AccountId,
    viewer: AccountId,
    choice: u8,
    stake_amount: u64,
    now: i64,
) -> (r: Result<(Prediction, PredictionSubmitted), CypherCastError>)
    requires
        old(stream).wf(),
    ensures
        final(stream).wf(),
        r is Ok <==> submit_prediction_error(
            *old(stream),
            *old(vault),
            stream_key,
            choice,
            stake_amount,
            now,
        ) is None,
        match r {
            Ok((p, event)) => {
                &&& final(stream).total_stake == old(stream).total_stake + stake_amount
                &&& final(stream).total_by_choice@ == old(stream).total_by_choice@.update(
                    choice as int,
                    (old(stream).total_by_choice@[choice as int] + stake_amount) as u64,
                )
                &&& *final(stream) == (Stream {
                    total_stake: final(stream).total_stake,
                    total_by_choice: final(stream).total_by_choice,
                    ..*old(stream)
                })
                &&& *final(vault) == (TokenVault {
                    total_deposited: (old(vault).total_deposited + stake_amount) as u64,
                    ..*old(vault)
                })
                &&& p == (Prediction {
                    stream: stream_key,
                    viewer,
                    choice,
                    stake_amount,
                    timestamp: now,
                    reward_claimed: false,
                    refunded: false,
                })
                &&& p.wf()
                &&& event == (PredictionSubmitted { stream: stream_key, viewer, choice, amount: stake_amount })
            },
            Err(e) => {
                &&& *final(stream) == *old(stream)
                &&& *final(vault) == *old(vault)
                &&& Some(e) == submit_prediction_error(
                    *old(stream),
                    *old(vault),
                    stream_key,
                    choice,
                    stake_amount,
                    now,
                )
            },
        },
{
    if vault.stream != stream_key {
        return Err(CypherCastError::Unauthorized);
    }
    if !stream.is_active {
        return Err(CypherCastError::StreamNotActive);
    }
    if stream.canceled_at != 0 {
        return Err(CypherCastError::Canceled);
    }
    if stake_amount == 0 {
        return Err(CypherCastError::InvalidStakeAmount);
    }
    if choice > MAX_CHOICES {
        return Err(CypherCastError::InvalidChoice);
    }
    let cutoff = match stream.start_time.checked_add(stream.lock_offset_secs) {
        Some(c) => c,
        None => {
            return Err(CypherCastError::Overflow);
        },
    };
    if now >= cutoff {
        return Err(CypherCastError::StreamLocked);
    }
    let new_deposited = match vault.total_deposited.checked_add(stake_amount) {
        Some(x) => x,
        None => {
            return Err(CypherCastError::Overflow);
        },
    };
    let new_total = match stream.total_stake.checked_add(stake_amount) {
        Some(x) => x,
        None => {
            return Err(CypherCastError::Overflow);
        },
    };
    let idx = choice as usize;
    let new_slot = match stream.total_by_choice[idx].checked_add(stake_amount) {
        Some(x) => x,
        None => {
            return Err(CypherCastError::Overflow);
        },
    };
    proof {
        lemma_sum_choices_update(stream.total_by_choice@, idx as int, new_slot);
    }
    vault.total_deposited = new_deposited;
    stream.total_stake = new_total;
    stream.total_by_choice[idx] = new_slot;
    let prediction = Prediction {
        stream: stream_key,
        viewer,
        choice,
        stake_amount,
        timestamp: now,
        reward_claimed: false,
        refunded: false,
    };
    let event = PredictionSubmitted { stream: stream_key, viewer, choice, amount: stake_amount };
    Ok((prediction, event))
}

/// Why `claim_reward` rejects, or `None` when it succeeds, in the order
/// the guards are checked.
pub open spec fn claim_reward_error(
    s: Stream,
    v: TokenVault,
    p: Prediction,
    stream_key: AccountId,
    viewer: AccountId,
) -> Option<CypherCastError> {
    if p.viewer != viewer {
        Some(CypherCastError::Unauthorized)
    } else if p.stream != stream_key {
        Some(CypherCastError::Unauthorized)
    } else if v.stream != stream_key {
        Some(CypherCastError::Unauthorized)
    } else if !s.is_resolved {
        Some(CypherCastError::NotResolved)
    } else if s.is_canceled() {
        Some(CypherCastError::Canceled)
    } else if p.choice != s.winning_choice {
        Some(CypherCastError::NotWinner)
    } else if p.reward_claimed {
        Some(CypherCastError::RewardAlreadyClaimed)
    } else if p.refunded {
        Some(CypherCastError::RefundAlreadyClaimed)
    } else if s.total_by_choice@[s.winning_choice as int] == 0 {
        Some(CypherCastError::NoWinner)
    } else if s.tip_amount > v.total_deposited {
        Some(CypherCastError::Overflow)
    } else if claim_reward_amount(s, v, p) > u64::MAX {
        Some(CypherCastError::Overflow)
    } else if v.total_released + claim_reward_amount(s, v, p) > u64::MAX {
        Some(CypherCastError::Overflow)
    } else {
        None
    }
}

/// The exact reward owed to a winning prediction: its proportional share
/// of the distributable pool (deposited total minus tip), by floor
/// division over the total winning stake.
pub open spec fn claim_reward_amount(s: Stream, v: TokenVault, p: Prediction) -> int {
    reward_of(
        (v.total_deposited - s.tip_amount) as u64,
        p.stake_amount,
        s.total_by_choice@[s.winning_choice as int] as u64,
    )
}

/// Claim the proportional reward of a winning prediction on a resolved
/// stream, at most once. The returned amount is what the environment must
/// transfer out of the vault to the viewer, atomically with the release
/// bookkeeping and the claim flag.
pub fn claim_reward(
    stream: &Stream,
    stream_key: AccountId,
    vault: &mut TokenVault,
    prediction: &mut Prediction,
    viewer: AccountId,
) -> (r: Result<(u64, RewardClaimed), CypherCastError>)
    requires
        stream.wf(),
        old(prediction).wf(),
    ensures
        final(prediction).wf(),
        r is Ok <==> claim_reward_error(
            *stream,
            *old(vault),
            *old(prediction),
            stream_key,
            viewer,
        ) is None,
        match r {
            Ok((amount, event)) => {
                &&& amount == claim_reward_amount(*stream, *old(vault), *old(prediction))
                &&& *final(vault) == (TokenVault {
                    total_released: (old(vault).total_released + amount) as u64,
                    ..*old(vault)
                })
                &&& *final(prediction) == (Prediction { reward_claimed: true, ..*old(prediction) })
                &&& event == (RewardClaimed { stream: stream_key, viewer, amount })
            },
            Err(e) => {
                &&& *final(vault) == *old(vault)
                &&& *final(prediction) == *old(prediction)
                &&& Some(e) == claim_reward_error(
                    *stream,
                    *old(vault),
                    *old(prediction),
                    stream_key,
                    viewer,
                )
            },
        },
{
    if prediction.viewer != viewer {
        return Err(CypherCastError::Unauthorized);
    }
    if prediction.stream != stream_key {
        return Err(CypherCastError::Unauthorized);
    }
    if vault.stream != stream_key {
        return Err(CypherCastError::Unauthorized);
    }
    if !stream.is_resolved {
        return Err(CypherCastError::NotResolved);
    }
    if stream.canceled_at != 0 {
        return Err(CypherCastError::Canceled);
    }
    if prediction.choice != stream.winning_choice {
        return Err(CypherCastError::NotWinner);
    }
    if prediction.reward_claimed {
        return Err(CypherCastError::RewardAlreadyClaimed);
    }
    if prediction.refunded {
        return Err(CypherCastError::RefundAlreadyClaimed);
    }
    let winner_total = stream.total_by_choice[stream.winning_choice as usize];
    if winner_total == 0 {
        return Err(CypherCastError::NoWinner);
    }
    let distributable = match vault.total_deposited.checked_sub(stream.tip_amount) {
        Some(x) => x,
        None => {
            return Err(CypherCastError::Overflow);
        },
    };
    let amount = match compute_reward(distributable, prediction.stake_amount, winner_total) {
        Ok(x) => x,
        Err(e) => {
            return Err(e);
        },
    };
    let new_released = match vault.total_released.checked_add(amount) {
        Some(x) => x,
        None => {
            return Err(CypherCastError::Overflow);
        },
    };
    vault.total_released = new_released;
    prediction.reward_claimed = true;
    Ok((amount, RewardClaimed { stream: stream_key, viewer, amount }))
}

/// Why `claim_refund` rejects, or `None` when it succeeds, in the order
/// the guards are checked.
pub open spec fn claim_refund_error(
    s: Stream,
    v: TokenVault,
    p: Prediction,
    stream_key: AccountId,
    viewer: AccountId,
) -> Option<CypherCastError> {
    if p.viewer != viewer {
        Some(CypherCastError::Unauthorized)
    } else if p.stream != stream_key {
        Some(CypherCastError::Unauthorized)
    } else if v.stream != stream_key {
        Some(CypherCastError::Unauthorized)
    } else if !s.is_canceled() {
        Some(CypherCastError::Canceled)
    } else if p.reward_claimed {
        Some(CypherCastError::RewardAlreadyClaimed)
    } else if p.refunded {
        Some(CypherCastError::RefundAlreadyClaimed)
    } else if v.total_released + p.stake_amount > u64::MAX {
        Some(CypherCastError::Overflow)
    } else {
        None
    }
}

/// Refund the full original stake of a prediction on a canceled stream, at
/// most once. The returned amount is what the environment must transfer
/// out of the vault back to the viewer.
pub fn claim_refund(
    stream: &Stream,
    stream_key: AccountId,
    vault: &mut TokenVault,
    prediction: &mut Prediction,
    viewer: AccountId,
) -> (r: Result<u64, CypherCastError>)
    requires
        old(prediction).wf(),
    ensures
        final(prediction).wf(),
        r is Ok <==> claim_refund_error(
            *stream,
            *old(vault),
            *old(prediction),
            stream_key,
            viewer,
        ) is None,
        match r {
            Ok(amount) => {
                &&& amount == old(prediction).stake_amount
                &&& *final(vault) == (TokenVault {
                    total_released: (old(vault).total_released + amount) as u64,
                    ..*old(vault)
                })
                &&& *final(prediction) == (Prediction { refunded: true, ..*old(prediction) })
            },
            Err(e) => {
                &&& *final(vault) == *old(vault)
                &&& *final(prediction) == *old(prediction)
                &&& Some(e) == claim_refund_error(
                    *stream,
                    *old(vault),
                    *old(prediction),
                    stream_key,
                    viewer,
                )
            },
        },
{
    if prediction.viewer != viewer {
        return Err(CypherCastError::Unauthorized);
    }
    if prediction.stream != stream_key {
        return Err(CypherCastError::Unauthorized);
    }
    if vault.stream != stream_key {
        return Err(CypherCastError::Unauthorized);
    }
    if stream.canceled_at == 0 {
        return Err(CypherCastError::Canceled);
    }
    if prediction.reward_claimed {
        return Err(CypherCastError::RewardAlreadyClaimed);
    }
    if prediction.refunded {
        return Err(CypherCastError::RefundAlreadyClaimed);
    }
    let amount = prediction.stake_amount;
    let new_released = match vault.total_released.checked_add(amount) {
        Some(x) => x,
        None => {
            return Err(CypherCastError::Overflow);
        },
    };
    vault.total_released = new_released;
    prediction.refunded = true;
    Ok(amount)
}

} // verus!
