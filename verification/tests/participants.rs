//! Attendance and community-vault tests.

use cyphercast::{
    cancel_stream, create_stream, end_stream, initialize_community_vault, join_stream, AccountId,
    CypherCastError, Stream,
};

fn id(n: u64) -> AccountId {
    AccountId { id: n }
}

fn new_stream() -> Stream {
    create_stream(id(1), 7, b"demo".to_vec(), 0, 1_000, 0, 2, 60).unwrap()
}

#[test]
fn join_records_attendance_without_stake() {
    let s = new_stream();
    let p = join_stream(&s, id(100), id(2), 55, 10).unwrap();
    assert_eq!(p.stream, id(100));
    assert_eq!(p.viewer, id(2));
    // The stake argument is retained for compatibility only.
    assert_eq!(p.stake_amount, 0);
    assert_eq!(p.joined_at, 10);
}

#[test]
fn join_requires_a_live_stream() {
    let mut ended = new_stream();
    end_stream(&mut ended, id(1), 20).unwrap();
    assert_eq!(
        join_stream(&ended, id(100), id(2), 0, 30).unwrap_err(),
        CypherCastError::StreamNotActive
    );
    let mut canceled = new_stream();
    cancel_stream(&mut canceled, id(1), 40).unwrap();
    assert_eq!(
        join_stream(&canceled, id(100), id(2), 0, 50).unwrap_err(),
        CypherCastError::StreamNotActive
    );
}

#[test]
fn community_vault_initialization() {
    let (vault, event) = initialize_community_vault(id(7), id(8), id(9));
    assert_eq!(vault.authority, id(7));
    assert_eq!(vault.token_account, id(8));
    assert_eq!(vault.mint, id(9));
    assert_eq!(vault.total_contributions, 0);
    assert_eq!(event.authority, id(7));
    assert_eq!(event.token_account, id(8));
    assert_eq!(event.mint, id(9));
}
