//! The stream lifecycle state machine.
//!
//! A stream is created active, may be activated once (freezing its
//! configuration behind a commitment), is ended by its creator, and then
//! reaches exactly one of two terminal states: resolved (winner declared,
//! tip released) or canceled (refund path). Every operation checks its
//! guards first and mutates nothing when it rejects.

use vstd::prelude::*;
use crate::digest::{config_digest, config_digest_of, digest_is_all_zero, zero_digest};
use crate::errors::CypherCastError;
use crate::events::StreamResolved;
use crate::ids::AccountId;
use crate::payout::{compute_tip, tip_of};
use crate::state::{
    all_zero_digest, sum_choices, Stream, TokenVault, DIGEST_LEN, MAX_TITLE_LEN,
};
use crate::{CHOICE_SLOTS, MAX_CHOICES};

verus! {

/// Why `create_stream` rejects, or `None` when it succeeds.
pub open spec fn create_stream_error(title: Seq<u8>, tip_bps: u16, precision: u8) -> Option<
    CypherCastError,
> {
    if title.len() > MAX_TITLE_LEN {
        Some(CypherCastError::TitleTooLong)
    } else if precision > 9 {
        Some(CypherCastError::InvalidConfig)
    } else if tip_bps > 10_000 {
        Some(CypherCastError::InvalidConfig)
    } else {
        None
    }
}

/// The freshly created stream for a given configuration: all aggregates
/// zero, active, unresolved, uncanceled, commitment still the sentinel.
pub open spec fn fresh_stream(
    s: Stream,
    creator: AccountId,
    stream_id: u64,
    title: Seq<u8>,
    start_time: i64,
    lock_offset_secs: i64,
    tip_bps: u16,
    precision: u8,
    grace_period_secs: i64,
) -> bool {
    &&& s.creator == creator
    &&& s.stream_id == stream_id
    &&& s.title@ == title
    &&& s.start_time == start_time
    &&& s.end_time == 0
    &&& s.lock_offset_secs == lock_offset_secs
    &&& s.grace_period_secs == grace_period_secs
    &&& s.tip_bps == tip_bps
    &&& s.precision == precision
    &&& s.config_hash@.len() == DIGEST_LEN
    &&& all_zero_digest(s.config_hash@)
    &&& s.total_stake == 0
    &&& s.total_by_choice@.len() == CHOICE_SLOTS
    &&& (forall|i: int| 0 <= i < CHOICE_SLOTS ==> s.total_by_choice@[i] == 0)
    &&& s.is_active
    &&& !s.is_resolved
    &&& s.winning_choice == 0
    &&& s.tip_amount == 0
    &&& s.resolved_at == 0
    &&& s.canceled_at == 0
}

/// Allocate a new stream for the given configuration, rejecting an
/// over-long title and an out-of-range tip rate or precision.
pub fn create_stream(
    creator: AccountId,
    stream_id: u64,
    title: Vec<u8>,
    start_time: i64,
    lock_offset_secs: i64,
    tip_bps: u16,
    precision: u8,
    grace_period_secs: i64,
) -> (r: Result<Stream, CypherCastError>)
    ensures
        r is Ok <==> create_stream_error(title@, tip_bps, precision) is None,
        match r {
            Ok(s) => {
                &&& s.wf()
                &&& fresh_stream(
                    s,
                    creator,
                    stream_id,
                    title@,
                    start_time,
                    lock_offset_secs,
                    tip_bps,
                    precision,
                    grace_period_secs,
                )
            },
            Err(e) => Some(e) == create_stream_error(title@, tip_bps, precision),
        },
{
    if title.len() > MAX_TITLE_LEN {
        return Err(CypherCastError::TitleTooLong);
    }
    if precision > 9 {
        return Err(CypherCastError::InvalidConfig);
    }
    if tip_bps > 10_000 {
        return Err(CypherCastError::InvalidConfig);
    }
    let mut total_by_choice: Vec<u64> = Vec::new();
    let mut i: usize = 0;
    while i < CHOICE_SLOTS
        invariant
            i <= CHOICE_SLOTS,
            total_by_choice@.len() == i,
            forall|j: int| 0 <= j < i ==> total_by_choice@[j] == 0,
            sum_choices(total_by_choice@) == 0,
        decreases CHOICE_SLOTS - i,
    {
        proof {
            assert(total_by_choice@.push(0u64).drop_last() =~= total_by_choice@);
        }
        total_by_choice.push(0);
        i = i + 1;
    }
    let stream = Stream {
        creator,
        stream_id,
        title,
        start_time,
        end_time: 0,
        lock_offset_secs,
        grace_period_secs,
        tip_bps,
        precision,
        config_hash: zero_digest(),
        total_stake: 0,
        total_by_choice,
        is_active: true,
        is_resolved: false,
        winning_choice: 0,
        tip_amount: 0,
        resolved_at: 0,
        canceled_at: 0,
    };
    Ok(stream)
}

/// Why `activate_stream` rejects, or `None` when it succeeds.
pub open spec fn activate_stream_error(s: Stream, caller: AccountId) -> Option<CypherCastError> {
    if s.creator != caller {
        Some(CypherCastError::Unauthorized)
    } else if s.is_canceled() {
        Some(CypherCastError::Canceled)
    } else if s.is_resolved {
        Some(CypherCastError::AlreadyResolved)
    } else if s.is_activated() {
        Some(CypherCastError::AlreadyActivated)
    } else {
        None
    }
}

/// Freeze a stream's configuration by storing the commitment over its
/// immutable configuration fields. Succeeds at most once: a stream whose
/// commitment has left the all-zero sentinel rejects a second activation.
pub fn activate_stream(stream: &mut Stream, caller: AccountId) -> (r: Result<
    (),
    CypherCastError,
>)
    requires
        old(stream).wf(),
    ensures
        final(stream).wf(),
        r is Ok <==> activate_stream_error(*old(stream), caller) is None,
        match r {
            Ok(()) => {
                &&& *final(stream) == (Stream {
                    config_hash: final(stream).config_hash,
                    ..*old(stream)
                })
                &&& final(stream).config_hash@ == config_digest_of(
                    old(stream).title@,
                    old(stream).tip_bps,
                    old(stream).precision,
                    old(stream).lock_offset_secs,
                    old(stream).grace_period_secs,
                )
            },
            Err(e) => {
                &&& *final(stream) == *old(stream)
                &&& Some(e) == activate_stream_error(*old(stream), caller)
            },
        },
{
    if stream.creator != caller {
        return Err(CypherCastError::Unauthorized);
    }
    if stream.canceled_at != 0 {
        return Err(CypherCastError::Canceled);
    }
    if stream.is_resolved {
        return Err(CypherCastError::AlreadyResolved);
    }
    if !digest_is_all_zero(&stream.config_hash) {
        return Err(CypherCastError::AlreadyActivated);
    }
    let commitment = config_digest(
        &stream.title,
        stream.tip_bps,
        stream.precision,
        stream.lock_offset_secs,
        stream.grace_period_secs,
    );
    stream.config_hash = commitment;
    Ok(())
}

/// Why `end_stream` rejects, or `None` when it succeeds.
pub open spec fn end_stream_error(s: Stream, caller: AccountId) -> Option<CypherCastError> {
    if !s.is_active {
        Some(CypherCastError::StreamNotActive)
    } else if s.creator != caller {
        Some(CypherCastError::Unauthorized)
    } else {
        None
    }
}

/// End an active stream: clear the active flag and record the end time.
/// Only an ended stream can be resolved.
pub fn end_stream(stream: &mut Stream, caller: AccountId, now: i64) -> (r: Result<
    (),
    CypherCastError,
>)
    requires
        old(stream).wf(),
    ensures
        final(stream).wf(),
        r is Ok <==> end_stream_error(*old(stream), caller) is None,
        match r {
            Ok(()) => *final(stream) == (Stream {
                is_active: false,
                end_time: now,
                ..*old(stream)
            }),
            Err(e) => {
                &&& *final(stream) == *old(stream)
                &&& Some(e) == end_stream_error(*old(stream), caller)
            },
        },
{
    if !stream.is_active {
        return Err(CypherCastError::StreamNotActive);
    }
    if stream.creator != caller {
        return Err(CypherCastError::Unauthorized);
    }
    stream.end_time = now;
    stream.is_active = false;
    Ok(())
}

/// The tip released at resolution: the basis-point share of the deposited
/// pool when the stream has a tip rate, and 0 otherwise.
pub open spec fn resolve_tip(s: Stream, v: TokenVault) -> int {
    if s.tip_bps > 0 {
        tip_of(v.total_deposited, s.tip_bps)
    } else {
        0
    }
}

/// Why `resolve_prediction` rejects, or `None` when it succeeds.
pub open spec fn resolve_prediction_error(
    s: Stream,
    v: TokenVault,
    stream_key: AccountId,
    caller: AccountId,
    winning_choice: u8,
) -> Option<CypherCastError> {
    if v.stream != stream_key {
        Some(CypherCastError::Unauthorized)
    } else if s.is_active {
        Some(CypherCastError::StreamStillActive)
    } else if s.is_resolved {
        Some(CypherCastError::AlreadyResolved)
    } else if s.is_canceled() {
        Some(CypherCastError::Canceled)
    } else if winning_choice > MAX_CHOICES {
        Some(CypherCastError::InvalidChoice)
    } else if s.creator != caller {
        Some(CypherCastError::Unauthorized)
    } else if s.total_by_choice@[winning_choice as int] == 0 {
        Some(CypherCastError::NoWinner)
    } else if v.total_released + resolve_tip(s, v) > u64::MAX {
        Some(CypherCastError::Overflow)
    } else {
        None
    }
}

/// Resolve an ended, uncanceled stream: release the creator's tip from the
/// vault (at most once, as a side effect), then mark the stream resolved
/// with the declared winner. The returned amount is what the environment
/// must transfer out of the vault to the creator (0 means no transfer).
pub fn resolve_prediction(
    stream: &mut Stream,
    vault: &mut TokenVault,
    stream_key: AccountId,
    caller: AccountId,
    winning_choice: u8,
    now: i64,
) -> (r: Result<(u64, StreamResolved), CypherCastError>)
    requires
        old(stream).wf(),
    ensures
        final(stream).wf(),
        r is Ok <==> resolve_prediction_error(
            *old(stream),
            *old(vault),
            stream_key,
            caller,
            winning_choice,
        ) is None,
        match r {
            Ok((tip, event)) => {
                &&& tip == resolve_tip(*old(stream), *old(vault))
                &&& tip <= old(vault).total_deposited
                &&& *final(stream) == (Stream {
                    is_resolved: true,
                    winning_choice,
                    tip_amount: tip,
                    resolved_at: now,
                    ..*old(stream)
                })
                &&& *final(vault) == (TokenVault {
                    total_released: (old(vault).total_released + tip) as u64,
                    ..*old(vault)
                })
                &&& event == (StreamResolved { stream: stream_key, winning_choice, tip_amount: tip })
            },
            Err(e) => {
                &&& *final(stream) == *old(stream)
                &&& *final(vault) == *old(vault)
                &&& Some(e) == resolve_prediction_error(
                    *old(stream),
                    *old(vault),
                    stream_key,
                    caller,
                    winning_choice,
                )
            },
        },
{
    if vault.stream != stream_key {
        return Err(CypherCastError::Unauthorized);
    }
    if stream.is_active {
        return Err(CypherCastError::StreamStillActive);
    }
    if stream.is_resolved {
        return Err(CypherCastError::AlreadyResolved);
    }
    if stream.canceled_at != 0 {
        return Err(CypherCastError::Canceled);
    }
    if winning_choice > MAX_CHOICES {
        return Err(CypherCastError::InvalidChoice);
    }
    if stream.creator != caller {
        return Err(CypherCastError::Unauthorized);
    }
    let winner_total = stream.total_by_choice[winning_choice as usize];
    if winner_total == 0 {
        return Err(CypherCastError::NoWinner);
    }
    let tip: u64 = if stream.tip_bps > 0 {
        compute_tip(vault.total_deposited, stream.tip_bps)
    } else {
        0
    };
    let new_released = match vault.total_released.checked_add(tip) {
        Some(x) => x,
        None => {
            return Err(CypherCastError::Overflow);
        },
    };
    vault.total_released = new_released;
    stream.tip_amount = tip;
    stream.is_resolved = true;
    stream.winning_choice = winning_choice;
    stream.resolved_at = now;
    Ok((tip, StreamResolved { stream: stream_key, winning_choice, tip_amount: tip }))
}

/// Why `cancel_stream` rejects, or `None` when it succeeds.
pub open spec fn cancel_stream_error(s: Stream, caller: AccountId) -> Option<CypherCastError> {
    if s.creator != caller {
        Some(CypherCastError::Unauthorized)
    } else if s.is_canceled() {
        Some(CypherCastError::AlreadyCanceled)
    } else if s.is_resolved {
        Some(CypherCastError::AlreadyResolved)
    } else {
        None
    }
}

/// Cancel an unresolved stream: clear the active flag and record the
/// cancellation time. Terminal, and mutually exclusive with resolution.
/// The cancellation instant must be nonzero, since 0 is the sentinel for
/// "not canceled".
pub fn cancel_stream(stream: &mut Stream, caller: AccountId, now: i64) -> (r: Result<
    (),
    CypherCastError,
>)
    requires
        old(stream).wf(),
        now != 0,
    ensures
        final(stream).wf(),
        r is Ok <==> cancel_stream_error(*old(stream), caller) is None,
        match r {
            Ok(()) => *final(stream) == (Stream {
                is_active: false,
                canceled_at: now,
                ..*old(stream)
            }),
            Err(e) => {
                &&& *final(stream) == *old(stream)
                &&& Some(e) == cancel_stream_error(*old(stream), caller)
            },
        },
{
    if stream.creator != caller {
        return Err(CypherCastError::Unauthorized);
    }
    if stream.canceled_at != 0 {
        return Err(CypherCastError::AlreadyCanceled);
    }
    if stream.is_resolved {
        return Err(CypherCastError::AlreadyResolved);
    }
    stream.is_active = false;
    stream.canceled_at = now;
    Ok(())
}

} // verus!
