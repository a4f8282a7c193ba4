//! The engine's laws: every transition preserves the global invariant, the
//! vault is always solvent, claims and activation are one-shot, the two
//! terminal states exclude each other, locked streams reject submissions,
//! and a winnerless choice cannot resolve.
//!
//! Each proof function here quantifies over its inputs: its hypotheses are
//! exactly what the operations' contracts ensure, so the laws hold of every
//! run the environment can produce by applying the operations atomically.

use vstd::prelude::*;
use crate::digest::config_digest_of;
use crate::errors::CypherCastError;
use crate::ids::AccountId;
use crate::model::{
    activate_transition, cancel_transition, claim_refund_transition, claim_reward_transition,
    claimed_part, claimed_stake, create_transition, end_transition, inv, lemma_claimed_le_stake_by_choice,
    lemma_claimed_stake_none, lemma_refunded_le_total, lemma_sums_nonnegative, lemma_sums_push,
    lemma_sums_update, refunded_part, refunded_stake, resolve_transition, stake_by_choice,
    initial, reachable_in, step, submit_transition, SystemView,
};
use crate::payout::{lemma_floor_div_sum, lemma_tip_le_deposited};
use crate::predictions::{claim_refund_error, claim_reward_error, submit_prediction_error};
use crate::registry::{activate_stream_error, cancel_stream_error, resolve_prediction_error};
use crate::state::{all_zero_digest, lemma_sum_choices_update, sum_choices, Prediction, Stream, TokenVault};
use crate::MAX_CHOICES;
use vstd::arithmetic::div_mod::{
    lemma_div_is_ordered, lemma_div_multiples_vanish, lemma_div_of0,
};
use vstd::arithmetic::mul::{
    lemma_mul_inequality, lemma_mul_is_commutative, lemma_mul_is_distributive_add,
    lemma_mul_nonnegative,
};

verus! {

/// In every state the invariant admits, the stream's total stake is the
/// sum of its per-choice stakes, and the vault never reports more released
/// than deposited.
pub proof fn lemma_vault_solvent(sys: SystemView)
    requires
        inv(sys),
    ensures
        sys.stream.total_stake == sum_choices(sys.stream.total_by_choice@),
        sys.vault.total_released <= sys.vault.total_deposited,
{
    let s = sys.stream;
    let v = sys.vault;
    let preds = sys.predictions;
    if s.is_resolved {
        let w = s.winning_choice;
        let winner_total = s.total_by_choice@[w as int] as int;
        let d = v.total_deposited - s.tip_amount;
        let cs = claimed_stake(preds, w);
        lemma_claimed_le_stake_by_choice(preds, w);
        lemma_sums_nonnegative(preds, w);
        assert(stake_by_choice(preds, w) == winner_total);
        assert(cs <= winner_total);
        lemma_mul_inequality(cs, winner_total, d);
        lemma_mul_is_commutative(cs, d);
        lemma_mul_is_commutative(winner_total, d);
        lemma_div_is_ordered(d * cs, d * winner_total, winner_total);
        lemma_div_multiples_vanish(d, winner_total);
        assert((winner_total * d) / winner_total == d);
        assert((d * cs) / winner_total <= d);
    } else if s.is_canceled() {
        lemma_refunded_le_total(preds);
    }
}

/// Creating a stream and initializing its vault establishes the invariant.
pub proof fn lemma_create_establishes_inv(
    post: SystemView,
    creator: AccountId,
    stream_id: u64,
    title: Seq<u8>,
    start_time: i64,
    lock_offset_secs: i64,
    tip_bps: u16,
    precision: u8,
    grace_period_secs: i64,
    token_account: AccountId,
    mint: AccountId,
)
    requires
        create_transition(
            post,
            creator,
            stream_id,
            title,
            start_time,
            lock_offset_secs,
            tip_bps,
            precision,
            grace_period_secs,
            token_account,
            mint,
        ),
    ensures
        inv(post),
{
    assert(post.predictions =~= Seq::<Prediction>::empty());
    assert forall|c: u8| c <= MAX_CHOICES implies #[trigger] stake_by_choice(post.predictions, c)
        == post.stream.total_by_choice@[c as int] by {
        assert(stake_by_choice(post.predictions, c) == 0);
        assert(post.stream.total_by_choice@[c as int] == 0);
    }
}

/// Activation preserves the invariant: it only swaps the stored
/// commitment.
pub proof fn lemma_activate_preserves_inv(pre: SystemView, post: SystemView, caller: AccountId)
    requires
        inv(pre),
        activate_transition(pre, post, caller),
    ensures
        inv(post),
{
}

/// Ending a stream preserves the invariant: it only clears the active
/// flag and records the end time.
pub proof fn lemma_end_preserves_inv(
    pre: SystemView,
    post: SystemView,
    caller: AccountId,
    now: i64,
)
    requires
        inv(pre),
        end_transition(pre, post, caller, now),
    ensures
        inv(post),
{
}

/// Cancellation preserves the invariant: the stream enters its refund
/// terminal state with nothing released yet.
pub proof fn lemma_cancel_preserves_inv(
    pre: SystemView,
    post: SystemView,
    caller: AccountId,
    now: i64,
)
    requires
        inv(pre),
        cancel_transition(pre, post, caller, now),
    ensures
        inv(post),
{
    lemma_refunded_le_total(post.predictions);
    lemma_sums_nonnegative(post.predictions, 0);
}

/// Submission preserves the invariant: the stake lands in the vault, the
/// stream's aggregates, and a fresh prediction record, all at once.
pub proof fn lemma_submit_preserves_inv(
    pre: SystemView,
    post: SystemView,
    viewer: AccountId,
    choice: u8,
    stake_amount: u64,
    now: i64,
)
    requires
        inv(pre),
        submit_transition(pre, post, viewer, choice, stake_amount, now),
    ensures
        inv(post),
{
    let p = Prediction {
        stream: pre.stream_key,
        viewer,
        choice,
        stake_amount,
        timestamp: now,
        reward_claimed: false,
        refunded: false,
    };
    lemma_sum_choices_update(
        pre.stream.total_by_choice@,
        choice as int,
        (pre.stream.total_by_choice@[choice as int] + stake_amount) as u64,
    );
    assert(post.stream.wf());
    assert forall|c: u8| c <= MAX_CHOICES implies #[trigger] stake_by_choice(post.predictions, c)
        == post.stream.total_by_choice@[c as int] by {
        lemma_sums_push(pre.predictions, p, c);
    }
    lemma_sums_push(pre.predictions, p, choice);
    assert forall|i: int, j: int| 0 <= i < j < post.predictions.len() implies (
    #[trigger] post.predictions[i].viewer) != (#[trigger] post.predictions[j].viewer) by {
        if j < pre.predictions.len() {
        } else {
            assert(post.predictions[j] == p);
        }
    }
}

/// Resolution preserves the invariant: the tip leaves the vault exactly
/// once, before any reward is claimed, and never exceeds the deposits.
pub proof fn lemma_resolve_preserves_inv(
    pre: SystemView,
    post: SystemView,
    caller: AccountId,
    winning_choice: u8,
    now: i64,
)
    requires
        inv(pre),
        resolve_transition(pre, post, caller, winning_choice, now),
    ensures
        inv(post),
{
    let s = post.stream;
    let v = post.vault;
    let preds = post.predictions;
    let winner_total = s.total_by_choice@[winning_choice as int] as int;
    let d = v.total_deposited - s.tip_amount;
    if pre.stream.tip_bps > 0 {
        lemma_tip_le_deposited(pre.vault.total_deposited, pre.stream.tip_bps);
    }
    assert(s.tip_amount <= v.total_deposited);
    assert(forall|i: int| 0 <= i < preds.len() ==> !(#[trigger] preds[i]).reward_claimed);
    lemma_claimed_stake_none(preds, winning_choice);
    assert(d * claimed_stake(preds, winning_choice) == 0) by {
        lemma_mul_is_commutative(d, 0);
    }
    lemma_div_of0(winner_total);
    assert((d * claimed_stake(preds, winning_choice)) / winner_total == 0);
}

/// A reward claim preserves the invariant: the released total stays
/// covered by the tip plus the claimed winners' proportional share.
pub proof fn lemma_claim_reward_preserves_inv(pre: SystemView, post: SystemView, i: int)
    requires
        inv(pre),
        claim_reward_transition(pre, post, i),
    ensures
        inv(post),
{
    let s = pre.stream;
    let v = pre.vault;
    let preds = pre.predictions;
    let p = preds[i];
    let p2 = Prediction { reward_claimed: true, ..p };
    let w = s.winning_choice;
    let winner_total = s.total_by_choice@[w as int] as int;
    let d = v.total_deposited - s.tip_amount;
    let cs = claimed_stake(preds, w);
    let amount = crate::predictions::claim_reward_amount(s, v, p);
    assert forall|c: u8| c <= MAX_CHOICES implies #[trigger] stake_by_choice(post.predictions, c)
        == post.stream.total_by_choice@[c as int] by {
        lemma_sums_update(preds, i, p2, c);
    }
    lemma_sums_update(preds, i, p2, w);
    lemma_sums_nonnegative(preds, w);
    assert(claimed_part(p, w) == 0);
    assert(claimed_part(p2, w) == p.stake_amount as int);
    assert(claimed_stake(post.predictions, w) == cs + p.stake_amount);
    assert(winner_total > 0);
    if d == 0 {
        assert(amount == 0);
        assert(d * cs == 0) by {
            lemma_mul_is_commutative(d, cs);
        }
        assert(d * (cs + p.stake_amount) == 0) by {
            lemma_mul_is_commutative(d, cs + p.stake_amount);
        }
        lemma_div_of0(winner_total);
    } else {
        assert(amount == (d * p.stake_amount) / winner_total);
        lemma_mul_nonnegative(d, cs);
        lemma_mul_nonnegative(d, p.stake_amount as int);
        lemma_floor_div_sum(d * cs, d * (p.stake_amount as int), winner_total);
        lemma_mul_is_distributive_add(d, cs, p.stake_amount as int);
        assert((d * cs) / winner_total + (d * (p.stake_amount as int)) / winner_total <= (d * (cs
            + p.stake_amount)) / winner_total);
    }
}

/// A refund claim preserves the invariant: the released total stays
/// covered by the refunded stakes.
pub proof fn lemma_claim_refund_preserves_inv(pre: SystemView, post: SystemView, i: int)
    requires
        inv(pre),
        claim_refund_transition(pre, post, i),
    ensures
        inv(post),
{
    let preds = pre.predictions;
    let p = preds[i];
    let p2 = Prediction { refunded: true, ..p };
    assert forall|c: u8| c <= MAX_CHOICES implies #[trigger] stake_by_choice(post.predictions, c)
        == post.stream.total_by_choice@[c as int] by {
        lemma_sums_update(preds, i, p2, c);
    }
    lemma_sums_update(preds, i, p2, 0);
    assert(refunded_part(p) == 0);
    assert(refunded_part(p2) == p.stake_amount as int);
    assert(refunded_stake(post.predictions) == refunded_stake(preds) + p.stake_amount);
}

/// Every operation the environment can commit preserves the global
/// invariant; with the creation lemma this makes the invariant hold in
/// every reachable state, under arbitrary interleavings of callers.
pub proof fn lemma_step_preserves_inv(pre: SystemView, post: SystemView)
    requires
        inv(pre),
        step(pre, post),
    ensures
        inv(post),
{
    if exists|caller: AccountId| activate_transition(pre, post, caller) {
        let caller = choose|caller: AccountId| activate_transition(pre, post, caller);
        lemma_activate_preserves_inv(pre, post, caller);
    } else if exists|caller: AccountId, now: i64| end_transition(pre, post, caller, now) {
        let (caller, now) = choose|caller: AccountId, now: i64|
            end_transition(pre, post, caller, now);
        lemma_end_preserves_inv(pre, post, caller, now);
    } else if exists|viewer: AccountId, choice: u8, stake_amount: u64, now: i64|
        submit_transition(pre, post, viewer, choice, stake_amount, now) {
        let (viewer, choice, stake_amount, now) = choose|
            viewer: AccountId,
            choice: u8,
            stake_amount: u64,
            now: i64,
        | submit_transition(pre, post, viewer, choice, stake_amount, now);
        lemma_submit_preserves_inv(pre, post, viewer, choice, stake_amount, now);
    } else if exists|caller: AccountId, winning_choice: u8, now: i64|
        resolve_transition(pre, post, caller, winning_choice, now) {
        let (caller, winning_choice, now) = choose|caller: AccountId, winning_choice: u8, now: i64|
            resolve_transition(pre, post, caller, winning_choice, now);
        lemma_resolve_preserves_inv(pre, post, caller, winning_choice, now);
    } else if exists|caller: AccountId, now: i64| cancel_transition(pre, post, caller, now) {
        let (caller, now) = choose|caller: AccountId, now: i64|
            cancel_transition(pre, post, caller, now);
        lemma_cancel_preserves_inv(pre, post, caller, now);
    } else if exists|i: int| claim_reward_transition(pre, post, i) {
        let i = choose|i: int| claim_reward_transition(pre, post, i);
        lemma_claim_reward_preserves_inv(pre, post, i);
    } else {
        let i = choose|i: int| claim_refund_transition(pre, post, i);
        lemma_claim_refund_preserves_inv(pre, post, i);
    }
}

/// The invariant holds in every initial state.
pub proof fn lemma_initial_inv(sys: SystemView)
    requires
        initial(sys),
    ensures
        inv(sys),
{
    let (creator, stream_id, title, start_time, lock_offset_secs, tip_bps, precision,
        grace_period_secs, token_account, mint) = choose|
        creator: AccountId,
        stream_id: u64,
        title: Seq<u8>,
        start_time: i64,
        lock_offset_secs: i64,
        tip_bps: u16,
        precision: u8,
        grace_period_secs: i64,
        token_account: AccountId,
        mint: AccountId,
    |
        create_transition(
            sys,
            creator,
            stream_id,
            title,
            start_time,
            lock_offset_secs,
            tip_bps,
            precision,
            grace_period_secs,
            token_account,
            mint,
        );
    lemma_create_establishes_inv(
        sys,
        creator,
        stream_id,
        title,
        start_time,
        lock_offset_secs,
        tip_bps,
        precision,
        grace_period_secs,
        token_account,
        mint,
    );
}

/// At every observation point — in every state the environment can reach
/// by any sequence of operations — the invariant holds; in particular the
/// stream's total stake is the sum of its per-choice stakes and the vault
/// never reports more released than deposited.
pub proof fn lemma_reachable_states_solvent(sys: SystemView, n: nat)
    requires
        reachable_in(sys, n),
    ensures
        inv(sys),
        sys.stream.total_stake == sum_choices(sys.stream.total_by_choice@),
        sys.vault.total_released <= sys.vault.total_deposited,
    decreases n,
{
    if n == 0 {
        lemma_initial_inv(sys);
    } else {
        let pre = choose|pre: SystemView| reachable_in(pre, (n - 1) as nat) && step(pre, sys);
        lemma_reachable_states_solvent(pre, (n - 1) as nat);
        lemma_step_preserves_inv(pre, sys);
    }
    lemma_vault_solvent(sys);
}

/// A viewer stakes at most once per stream: after a successful
/// submission, no second submission by the same viewer is possible on the
/// same stream, whatever choice, stake or time it tries.
pub proof fn lemma_submit_at_most_once(
    pre: SystemView,
    post: SystemView,
    viewer: AccountId,
    choice: u8,
    stake_amount: u64,
    now: i64,
    post2: SystemView,
    choice2: u8,
    stake2: u64,
    now2: i64,
)
    requires
        submit_transition(pre, post, viewer, choice, stake_amount, now),
    ensures
        !submit_transition(post, post2, viewer, choice2, stake2, now2),
{
    let n = post.predictions.len() - 1;
    assert(post.predictions[n].viewer == viewer);
}

/// A reward is claimed at most once: once a claim has succeeded on a
/// prediction, every later reward or refund claim on that prediction
/// fails, whatever the vault looks like by then.
pub proof fn lemma_claim_reward_at_most_once(
    s: Stream,
    v: TokenVault,
    p: Prediction,
    stream_key: AccountId,
    viewer: AccountId,
    p2: Prediction,
    v2: TokenVault,
)
    requires
        claim_reward_error(s, v, p, stream_key, viewer) is None,
        p2 == (Prediction { reward_claimed: true, ..p }),
    ensures
        claim_reward_error(s, v2, p2, stream_key, viewer) is Some,
        claim_refund_error(s, v2, p2, stream_key, viewer) is Some,
{
}

/// A refund is claimed at most once: once a refund has succeeded on a
/// prediction, every later reward or refund claim on that prediction
/// fails, whatever the vault looks like by then.
pub proof fn lemma_claim_refund_at_most_once(
    s: Stream,
    v: TokenVault,
    p: Prediction,
    stream_key: AccountId,
    viewer: AccountId,
    p2: Prediction,
    v2: TokenVault,
)
    requires
        claim_refund_error(s, v, p, stream_key, viewer) is None,
        p2 == (Prediction { refunded: true, ..p }),
    ensures
        claim_reward_error(s, v2, p2, stream_key, viewer) is Some,
        claim_refund_error(s, v2, p2, stream_key, viewer) is Some,
{
}

/// Resolution and cancellation are mutually exclusive terminal states: on
/// a resolved stream every cancellation fails, and on a canceled stream
/// every resolution fails, whoever calls and whatever they pass.
pub proof fn lemma_terminal_states_exclusive(
    s: Stream,
    v: TokenVault,
    stream_key: AccountId,
    caller: AccountId,
    winning_choice: u8,
)
    ensures
        s.is_resolved ==> cancel_stream_error(s, caller) is Some,
        s.is_canceled() ==> resolve_prediction_error(
            s,
            v,
            stream_key,
            caller,
            winning_choice,
        ) is Some,
{
}

/// Activation succeeds at most once: after a successful activation whose
/// commitment is not the all-zero sentinel, every further activation of
/// the stream fails. (A configuration whose commitment digests to all
/// zero bytes is the one input this law must leave out: the stored
/// sentinel could not tell it apart from an unactivated stream.)
pub proof fn lemma_activate_at_most_once(s: Stream, s2: Stream, caller: AccountId, caller2: AccountId)
    requires
        activate_stream_error(s, caller) is None,
        s2 == (Stream { config_hash: s2.config_hash, ..s }),
        s2.config_hash@ == config_digest_of(
            s.title@,
            s.tip_bps,
            s.precision,
            s.lock_offset_secs,
            s.grace_period_secs,
        ),
        !all_zero_digest(
            config_digest_of(s.title@, s.tip_bps, s.precision, s.lock_offset_secs, s.grace_period_secs),
        ),
    ensures
        activate_stream_error(s2, caller2) is Some,
{
}

/// Submissions at or past the lock cutoff always fail; when every guard
/// ahead of the time check passes, they fail with the lock error even
/// though the stream is still flagged active.
pub proof fn lemma_locked_submission_fails(
    s: Stream,
    v: TokenVault,
    stream_key: AccountId,
    choice: u8,
    stake_amount: u64,
    now: i64,
)
    requires
        i64::MIN <= s.start_time + s.lock_offset_secs <= i64::MAX,
        now >= s.start_time + s.lock_offset_secs,
    ensures
        submit_prediction_error(s, v, stream_key, choice, stake_amount, now) is Some,
        (v.stream == stream_key && s.is_active && !s.is_canceled() && stake_amount > 0 && choice
            <= MAX_CHOICES) ==> submit_prediction_error(s, v, stream_key, choice, stake_amount, now)
            == Some(CypherCastError::StreamLocked),
{
}

/// A winning choice with no stake behind it cannot resolve: whoever calls,
/// resolution with such a choice always fails.
pub proof fn lemma_no_winner_resolution_fails(
    s: Stream,
    v: TokenVault,
    stream_key: AccountId,
    caller: AccountId,
    winning_choice: u8,
)
    requires
        winning_choice <= MAX_CHOICES,
        s.total_by_choice@[winning_choice as int] == 0,
    ensures
        resolve_prediction_error(s, v, stream_key, caller, winning_choice) is Some,
{
}

} // verus!
