//! Lifecycle tests: creation, activation, ending, resolution and
//! cancellation, and the mutual exclusion of the two terminal states.

use cyphercast::{
    activate_stream, cancel_stream, create_stream, end_stream, initialize_token_vault,
    resolve_prediction, submit_prediction, AccountId, CypherCastError, Stream, TokenVault,
};

fn id(n: u64) -> AccountId {
    AccountId { id: n }
}

fn new_stream(tip_bps: u16) -> Stream {
    create_stream(id(1), 7, b"demo".to_vec(), 0, 1_000, tip_bps, 2, 60).unwrap()
}

fn new_vault(stream: &Stream) -> TokenVault {
    initialize_token_vault(stream, id(100), id(1), id(101), id(102)).unwrap()
}

#[test]
fn create_initializes_everything() {
    let s = new_stream(500);
    assert_eq!(s.creator, id(1));
    assert_eq!(s.stream_id, 7);
    assert_eq!(s.title, b"demo".to_vec());
    assert_eq!(s.start_time, 0);
    assert_eq!(s.end_time, 0);
    assert_eq!(s.lock_offset_secs, 1_000);
    assert_eq!(s.grace_period_secs, 60);
    assert_eq!(s.tip_bps, 500);
    assert_eq!(s.precision, 2);
    assert_eq!(s.config_hash, vec![0u8; 32]);
    assert_eq!(s.total_stake, 0);
    assert_eq!(s.total_by_choice, vec![0u64; 11]);
    assert!(s.is_active);
    assert!(!s.is_resolved);
    assert_eq!(s.winning_choice, 0);
    assert_eq!(s.tip_amount, 0);
    assert_eq!(s.resolved_at, 0);
    assert_eq!(s.canceled_at, 0);
}

#[test]
fn create_rejects_bad_config() {
    let long_title = vec![b'x'; 201];
    assert_eq!(
        create_stream(id(1), 7, long_title, 0, 1_000, 500, 2, 60).unwrap_err(),
        CypherCastError::TitleTooLong
    );
    assert_eq!(
        create_stream(id(1), 7, b"t".to_vec(), 0, 1_000, 500, 10, 60).unwrap_err(),
        CypherCastError::InvalidConfig
    );
    assert_eq!(
        create_stream(id(1), 7, b"t".to_vec(), 0, 1_000, 10_001, 2, 60).unwrap_err(),
        CypherCastError::InvalidConfig
    );
    let max_title = vec![b'x'; 200];
    assert!(create_stream(id(1), 7, max_title, 0, 1_000, 10_000, 9, 60).is_ok());
}

#[test]
fn vault_initialization_is_creator_only() {
    let s = new_stream(0);
    assert_eq!(
        initialize_token_vault(&s, id(100), id(9), id(101), id(102)).unwrap_err(),
        CypherCastError::Unauthorized
    );
    let v = new_vault(&s);
    assert_eq!(v.stream, id(100));
    assert_eq!(v.token_account, id(101));
    assert_eq!(v.mint, id(102));
    assert_eq!(v.total_deposited, 0);
    assert_eq!(v.total_released, 0);
}

#[test]
fn activation_freezes_config_once() {
    let mut s = new_stream(500);
    assert_eq!(s.config_hash, vec![0u8; 32]);
    activate_stream(&mut s, id(1)).unwrap();
    assert_eq!(s.config_hash.len(), 32);
    assert_ne!(s.config_hash, vec![0u8; 32]);
    let frozen = s.config_hash.clone();
    // A second activation always fails, and the commitment stays frozen.
    assert_eq!(
        activate_stream(&mut s, id(1)).unwrap_err(),
        CypherCastError::AlreadyActivated
    );
    assert_eq!(s.config_hash, frozen);
}

#[test]
fn activation_commitment_is_deterministic_and_config_bound() {
    let mut a = new_stream(500);
    let mut b = new_stream(500);
    activate_stream(&mut a, id(1)).unwrap();
    activate_stream(&mut b, id(1)).unwrap();
    assert_eq!(a.config_hash, b.config_hash);
    // A different tip rate commits to a different digest.
    let mut c = new_stream(600);
    activate_stream(&mut c, id(1)).unwrap();
    assert_ne!(a.config_hash, c.config_hash);
}

#[test]
fn activation_guards() {
    let mut s = new_stream(0);
    assert_eq!(
        activate_stream(&mut s, id(9)).unwrap_err(),
        CypherCastError::Unauthorized
    );
    let mut canceled = new_stream(0);
    cancel_stream(&mut canceled, id(1), 40).unwrap();
    assert_eq!(
        activate_stream(&mut canceled, id(1)).unwrap_err(),
        CypherCastError::Canceled
    );
    let mut resolved = new_stream(0);
    let mut v = new_vault(&resolved);
    submit_prediction(&mut resolved, &mut v, id(100), id(2), 1, 5, 10).unwrap();
    end_stream(&mut resolved, id(1), 20).unwrap();
    resolve_prediction(&mut resolved, &mut v, id(100), id(1), 1, 30).unwrap();
    assert_eq!(
        activate_stream(&mut resolved, id(1)).unwrap_err(),
        CypherCastError::AlreadyResolved
    );
}

#[test]
fn end_stream_records_time_and_flag() {
    let mut s = new_stream(0);
    assert_eq!(
        end_stream(&mut s, id(9), 20).unwrap_err(),
        CypherCastError::Unauthorized
    );
    end_stream(&mut s, id(1), 20).unwrap();
    assert!(!s.is_active);
    assert_eq!(s.end_time, 20);
    assert_eq!(
        end_stream(&mut s, id(1), 25).unwrap_err(),
        CypherCastError::StreamNotActive
    );
}

#[test]
fn resolve_requires_ended_stream() {
    let mut s = new_stream(0);
    let mut v = new_vault(&s);
    submit_prediction(&mut s, &mut v, id(100), id(2), 1, 5, 10).unwrap();
    assert_eq!(
        resolve_prediction(&mut s, &mut v, id(100), id(1), 1, 30).unwrap_err(),
        CypherCastError::StreamStillActive
    );
    end_stream(&mut s, id(1), 20).unwrap();
    assert_eq!(
        resolve_prediction(&mut s, &mut v, id(100), id(1), 11, 30).unwrap_err(),
        CypherCastError::InvalidChoice
    );
    assert_eq!(
        resolve_prediction(&mut s, &mut v, id(100), id(9), 1, 30).unwrap_err(),
        CypherCastError::Unauthorized
    );
    let (tip, event) = resolve_prediction(&mut s, &mut v, id(100), id(1), 1, 30).unwrap();
    assert_eq!(tip, 0);
    assert!(s.is_resolved);
    assert_eq!(s.winning_choice, 1);
    assert_eq!(s.resolved_at, 30);
    assert_eq!(event.stream, id(100));
    assert_eq!(event.winning_choice, 1);
    assert_eq!(event.tip_amount, 0);
    assert_eq!(
        resolve_prediction(&mut s, &mut v, id(100), id(1), 1, 35).unwrap_err(),
        CypherCastError::AlreadyResolved
    );
}

#[test]
fn terminal_states_are_mutually_exclusive() {
    // Resolve first: cancellation must fail from then on.
    let mut s = new_stream(0);
    let mut v = new_vault(&s);
    submit_prediction(&mut s, &mut v, id(100), id(2), 1, 5, 10).unwrap();
    end_stream(&mut s, id(1), 20).unwrap();
    resolve_prediction(&mut s, &mut v, id(100), id(1), 1, 30).unwrap();
    assert_eq!(
        cancel_stream(&mut s, id(1), 40).unwrap_err(),
        CypherCastError::AlreadyResolved
    );
    // Cancel first: resolution must fail from then on.
    let mut s2 = new_stream(0);
    let mut v2 = new_vault(&s2);
    submit_prediction(&mut s2, &mut v2, id(100), id(2), 1, 5, 10).unwrap();
    cancel_stream(&mut s2, id(1), 40).unwrap();
    assert!(!s2.is_active);
    assert_eq!(s2.canceled_at, 40);
    assert_eq!(
        resolve_prediction(&mut s2, &mut v2, id(100), id(1), 1, 50).unwrap_err(),
        CypherCastError::Canceled
    );
}

#[test]
fn cancel_guards() {
    let mut s = new_stream(0);
    assert_eq!(
        cancel_stream(&mut s, id(9), 40).unwrap_err(),
        CypherCastError::Unauthorized
    );
    cancel_stream(&mut s, id(1), 40).unwrap();
    assert_eq!(
        cancel_stream(&mut s, id(1), 45).unwrap_err(),
        CypherCastError::AlreadyCanceled
    );
}

#[test]
fn resolve_with_no_winner_stake_fails() {
    let mut s = new_stream(500);
    let mut v = new_vault(&s);
    submit_prediction(&mut s, &mut v, id(100), id(2), 1, 5, 10).unwrap();
    end_stream(&mut s, id(1), 20).unwrap();
    // Nothing was staked on choice 2.
    assert_eq!(
        resolve_prediction(&mut s, &mut v, id(100), id(1), 2, 30).unwrap_err(),
        CypherCastError::NoWinner
    );
    // The failed resolution released nothing and flipped nothing.
    assert!(!s.is_resolved);
    assert_eq!(v.total_released, 0);
    assert_eq!(s.tip_amount, 0);
}
