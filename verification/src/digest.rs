//! Configuration commitments.
//!
//! Activating a stream freezes its configuration by storing a digest over
//! the immutable configuration fields. The digest itself comes from the
//! ledger environment's SHA-256 primitive; this module names its result and
//! provides the verified helpers around the stored commitment.

use vstd::prelude::*;
use crate::state::{all_zero_digest, DIGEST_LEN};

verus! {

/// The commitment over a stream's frozen configuration: a function of the
/// configuration fields alone.
pub uninterp spec fn config_digest_of(
    title: Seq<u8>,
    tip_bps: u16,
    precision: u8,
    lock_offset_secs: i64,
    grace_period_secs: i64,
) -> Seq<u8>;

/// Relies on anchor_lang::solana_program::hash::hashv: the SHA-256 digest of
/// the concatenated byte slices, 32 bytes long, depending on the bytes alone.
#[verifier::external_body]
pub fn config_digest(
    title: &Vec<u8>,
    tip_bps: u16,
    precision: u8,
    lock_offset_secs: i64,
    grace_period_secs: i64,
) -> (r: Vec<u8>)
    ensures
        r@ == config_digest_of(title@, tip_bps, precision, lock_offset_secs, grace_period_secs),
        r@.len() == DIGEST_LEN,
{
    let h = anchor_lang::solana_program::hash::hashv(&[
        title.as_slice(),
        &tip_bps.to_le_bytes(),
        &[precision],
        &lock_offset_secs.to_le_bytes(),
        &grace_period_secs.to_le_bytes(),
    ]);
    h.to_bytes().to_vec()
}

/// The all-zero sentinel commitment of a stream that is not yet activated.
pub fn zero_digest() -> (r: Vec<u8>)
    ensures
        r@.len() == DIGEST_LEN,
        all_zero_digest(r@),
{
    let mut r: Vec<u8> = Vec::new();
    let mut i: usize = 0;
    while i < DIGEST_LEN
        invariant
            i <= DIGEST_LEN,
            r@.len() == i,
            all_zero_digest(r@),
        decreases DIGEST_LEN - i,
    {
        r.push(0);
        i = i + 1;
    }
    r
}

/// Test whether a stored commitment is still the all-zero sentinel.
pub fn digest_is_all_zero(h: &Vec<u8>) -> (b: bool)
    ensures
        b == all_zero_digest(h@),
{
    let mut i: usize = 0;
    while i < h.len()
        invariant
            i <= h@.len(),
            forall|j: int| 0 <= j < i ==> h@[j] == 0,
        decreases h@.len() - i,
    {
        if h[i] != 0 {
            return false;
        }
        i = i + 1;
    }
    true
}

} // verus!
