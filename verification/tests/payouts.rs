//! Staking and payout tests: submission guards, the lock cutoff, the
//! aggregate bookkeeping, exact tip and reward arithmetic, claims and
//! refunds, and the one-shot claim guards.

use cyphercast::{
    cancel_stream, claim_refund, claim_reward, create_stream, end_stream, initialize_token_vault,
    resolve_prediction, submit_prediction, AccountId, CypherCastError, Prediction, Stream,
    TokenVault,
};

fn id(n: u64) -> AccountId {
    AccountId { id: n }
}

fn new_stream(tip_bps: u16) -> Stream {
    create_stream(id(1), 7, b"demo".to_vec(), 0, 1_000, tip_bps, 2, 60).unwrap()
}

fn new_vault(stream: &Stream) -> TokenVault {
    initialize_token_vault(stream, id(100), id(1), id(101), id(102)).unwrap()
}

#[test]
fn submission_updates_all_aggregates() {
    let mut s = new_stream(0);
    let mut v = new_vault(&s);
    let (p, event) = submit_prediction(&mut s, &mut v, id(100), id(2), 3, 40, 10).unwrap();
    assert_eq!(v.total_deposited, 40);
    assert_eq!(s.total_stake, 40);
    assert_eq!(s.total_by_choice[3], 40);
    assert_eq!(p.stream, id(100));
    assert_eq!(p.viewer, id(2));
    assert_eq!(p.choice, 3);
    assert_eq!(p.stake_amount, 40);
    assert_eq!(p.timestamp, 10);
    assert!(!p.reward_claimed);
    assert!(!p.refunded);
    assert_eq!(event.stream, id(100));
    assert_eq!(event.viewer, id(2));
    assert_eq!(event.choice, 3);
    assert_eq!(event.amount, 40);
    // Total stake always equals the sum over the per-choice slots.
    submit_prediction(&mut s, &mut v, id(100), id(3), 0, 7, 10).unwrap();
    submit_prediction(&mut s, &mut v, id(100), id(4), 10, 13, 10).unwrap();
    assert_eq!(s.total_stake, 60);
    assert_eq!(s.total_by_choice.iter().sum::<u64>(), 60);
    assert_eq!(v.total_deposited, 60);
    assert!(v.total_released <= v.total_deposited);
}

#[test]
fn submission_guards() {
    let mut s = new_stream(0);
    let mut v = new_vault(&s);
    assert_eq!(
        submit_prediction(&mut s, &mut v, id(999), id(2), 1, 5, 10).unwrap_err(),
        CypherCastError::Unauthorized
    );
    assert_eq!(
        submit_prediction(&mut s, &mut v, id(100), id(2), 1, 0, 10).unwrap_err(),
        CypherCastError::InvalidStakeAmount
    );
    assert_eq!(
        submit_prediction(&mut s, &mut v, id(100), id(2), 11, 5, 10).unwrap_err(),
        CypherCastError::InvalidChoice
    );
    assert_eq!(s.total_stake, 0);
    assert_eq!(v.total_deposited, 0);
    let mut ended = new_stream(0);
    let mut ve = new_vault(&ended);
    end_stream(&mut ended, id(1), 20).unwrap();
    assert_eq!(
        submit_prediction(&mut ended, &mut ve, id(100), id(2), 1, 5, 10).unwrap_err(),
        CypherCastError::StreamNotActive
    );
}

#[test]
fn submission_past_lock_cutoff_fails_even_while_active() {
    // start_time 0, lock offset 1000: the cutoff is exactly 1000.
    let mut s = new_stream(0);
    let mut v = new_vault(&s);
    assert!(s.is_active);
    assert_eq!(
        submit_prediction(&mut s, &mut v, id(100), id(2), 1, 5, 1_000).unwrap_err(),
        CypherCastError::StreamLocked
    );
    assert_eq!(
        submit_prediction(&mut s, &mut v, id(100), id(2), 1, 5, 5_000).unwrap_err(),
        CypherCastError::StreamLocked
    );
    // One second before the cutoff still goes through.
    assert!(submit_prediction(&mut s, &mut v, id(100), id(2), 1, 5, 999).is_ok());
}

#[test]
fn submission_overflow_aborts_without_effects() {
    // A cutoff that does not fit an i64 aborts the submission.
    let mut s = create_stream(id(1), 7, b"demo".to_vec(), i64::MAX, 1, 0, 2, 60).unwrap();
    let mut v = new_vault(&s);
    assert_eq!(
        submit_prediction(&mut s, &mut v, id(100), id(2), 1, 5, 10).unwrap_err(),
        CypherCastError::Overflow
    );
    // A stake that overflows the running totals aborts and changes nothing.
    let mut s2 = new_stream(0);
    let mut v2 = new_vault(&s2);
    submit_prediction(&mut s2, &mut v2, id(100), id(2), 1, u64::MAX, 10).unwrap();
    assert_eq!(
        submit_prediction(&mut s2, &mut v2, id(100), id(3), 1, 1, 10).unwrap_err(),
        CypherCastError::Overflow
    );
    assert_eq!(v2.total_deposited, u64::MAX);
    assert_eq!(s2.total_stake, u64::MAX);
}

#[test]
fn tip_and_reward_follow_the_documented_formulas() {
    // Winning slot holds 100, the pool 1000, tip rate 5%: the tip is 50,
    // the distributable pool 950, and a 40 stake earns floor(950*40/100).
    let mut s = new_stream(500);
    let mut v = new_vault(&s);
    let (p_a, _) = submit_prediction(&mut s, &mut v, id(100), id(2), 1, 40, 10).unwrap();
    let (p_b, _) = submit_prediction(&mut s, &mut v, id(100), id(3), 1, 60, 10).unwrap();
    submit_prediction(&mut s, &mut v, id(100), id(4), 2, 900, 10).unwrap();
    assert_eq!(v.total_deposited, 1_000);
    assert_eq!(s.total_by_choice[1], 100);
    end_stream(&mut s, id(1), 20).unwrap();
    let (tip, event) = resolve_prediction(&mut s, &mut v, id(100), id(1), 1, 30).unwrap();
    assert_eq!(tip, 50);
    assert_eq!(s.tip_amount, 50);
    assert_eq!(v.total_released, 50);
    assert_eq!(event.tip_amount, 50);
    let mut p_a = p_a;
    let (reward_a, ev_a) = claim_reward(&s, id(100), &mut v, &mut p_a, id(2)).unwrap();
    assert_eq!(reward_a, 380);
    assert_eq!(ev_a.amount, 380);
    assert_eq!(ev_a.viewer, id(2));
    assert!(p_a.reward_claimed);
    let mut p_b = p_b;
    let (reward_b, _) = claim_reward(&s, id(100), &mut v, &mut p_b, id(3)).unwrap();
    assert_eq!(reward_b, 570);
    assert_eq!(v.total_released, 50 + 380 + 570);
    assert!(v.total_released <= v.total_deposited);
}

#[test]
fn floor_division_leaves_dust_in_the_vault() {
    // Three equal winners of a 1000 pool at no tip: each earns
    // floor(1000*10/30) and one unit stays behind as rounding dust.
    let mut s = new_stream(0);
    let mut v = new_vault(&s);
    let (pa, _) = submit_prediction(&mut s, &mut v, id(100), id(2), 1, 10, 10).unwrap();
    let (pb, _) = submit_prediction(&mut s, &mut v, id(100), id(3), 1, 10, 10).unwrap();
    let (pc, _) = submit_prediction(&mut s, &mut v, id(100), id(4), 1, 10, 10).unwrap();
    submit_prediction(&mut s, &mut v, id(100), id(5), 2, 970, 10).unwrap();
    end_stream(&mut s, id(1), 20).unwrap();
    resolve_prediction(&mut s, &mut v, id(100), id(1), 1, 30).unwrap();
    let mut total = 0u64;
    for (mut p, viewer) in [(pa, id(2)), (pb, id(3)), (pc, id(4))] {
        let (r, _) = claim_reward(&s, id(100), &mut v, &mut p, viewer).unwrap();
        assert_eq!(r, 333);
        total += r;
    }
    assert_eq!(total, 999);
    assert_eq!(v.total_released, 999);
    assert!(v.total_released <= v.total_deposited);
}

#[test]
fn reward_claims_are_one_shot_and_guarded() {
    let mut s = new_stream(0);
    let mut v = new_vault(&s);
    let (mut p, _) = submit_prediction(&mut s, &mut v, id(100), id(2), 1, 40, 10).unwrap();
    let (mut loser, _) = submit_prediction(&mut s, &mut v, id(100), id(3), 2, 60, 10).unwrap();
    assert_eq!(
        claim_reward(&s, id(100), &mut v, &mut p, id(2)).unwrap_err(),
        CypherCastError::NotResolved
    );
    end_stream(&mut s, id(1), 20).unwrap();
    resolve_prediction(&mut s, &mut v, id(100), id(1), 1, 30).unwrap();
    assert_eq!(
        claim_reward(&s, id(100), &mut v, &mut p, id(9)).unwrap_err(),
        CypherCastError::Unauthorized
    );
    assert_eq!(
        claim_reward(&s, id(100), &mut v, &mut loser, id(3)).unwrap_err(),
        CypherCastError::NotWinner
    );
    let (reward, _) = claim_reward(&s, id(100), &mut v, &mut p, id(2)).unwrap();
    assert_eq!(reward, 100);
    assert_eq!(
        claim_reward(&s, id(100), &mut v, &mut p, id(2)).unwrap_err(),
        CypherCastError::RewardAlreadyClaimed
    );
    // A refund on the resolved stream fails too.
    assert_eq!(
        claim_refund(&s, id(100), &mut v, &mut p, id(2)).unwrap_err(),
        CypherCastError::Canceled
    );
}

#[test]
fn refunds_return_exact_stakes_once() {
    let mut s = new_stream(500);
    let mut v = new_vault(&s);
    let (mut p, _) = submit_prediction(&mut s, &mut v, id(100), id(2), 1, 40, 10).unwrap();
    assert_eq!(
        claim_refund(&s, id(100), &mut v, &mut p, id(2)).unwrap_err(),
        CypherCastError::Canceled
    );
    cancel_stream(&mut s, id(1), 40).unwrap();
    let amount = claim_refund(&s, id(100), &mut v, &mut p, id(2)).unwrap();
    assert_eq!(amount, 40);
    assert!(p.refunded);
    assert_eq!(v.total_released, 40);
    assert_eq!(
        claim_refund(&s, id(100), &mut v, &mut p, id(2)).unwrap_err(),
        CypherCastError::RefundAlreadyClaimed
    );
    assert_eq!(
        claim_reward(&s, id(100), &mut v, &mut p, id(2)).unwrap_err(),
        CypherCastError::NotResolved
    );
}

#[test]
fn refund_of_a_zero_stake_prediction_transfers_zero() {
    // Cancel a stream that has no predictions, then refund a 0-stake
    // prediction record: exactly 0 moves and the flag still flips.
    let mut s = new_stream(0);
    let mut v = new_vault(&s);
    cancel_stream(&mut s, id(1), 40).unwrap();
    let mut p = Prediction {
        stream: id(100),
        viewer: id(2),
        choice: 0,
        stake_amount: 0,
        timestamp: 10,
        reward_claimed: false,
        refunded: false,
    };
    let amount = claim_refund(&s, id(100), &mut v, &mut p, id(2)).unwrap();
    assert_eq!(amount, 0);
    assert!(p.refunded);
    assert_eq!(v.total_released, 0);
}
