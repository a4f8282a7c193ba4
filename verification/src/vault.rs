//! Vault initialization.
//!
//! The escrow vault of a stream is allocated at the address derived from
//! the stream's address, so there is exactly one vault per stream; the
//! environment performs the derivation and hands the operation the derived
//! addresses. Only the stream's creator may initialize its vault.

use vstd::prelude::*;
use crate::errors::CypherCastError;
use crate::events::CommunityVaultInitialized;
use crate::ids::AccountId;
use crate::state::{CommunityVault, Stream, TokenVault};

verus! {

/// Why `initialize_token_vault` rejects, or `None` when it succeeds.
pub open spec fn initialize_token_vault_error(stream: Stream, caller: AccountId) -> Option<
    CypherCastError,
> {
    if stream.creator != caller {
        Some(CypherCastError::Unauthorized)
    } else {
        None
    }
}

/// Initialize the escrow vault of a stream, binding it to an asset mint and
/// a token-storage address and zeroing both running totals.
pub fn initialize_token_vault(
    stream: &Stream,
    stream_key: AccountId,
    caller: AccountId,
    token_account: AccountId,
    mint: AccountId,
) -> (r: Result<TokenVault, CypherCastError>)
    ensures
        r is Ok <==> initialize_token_vault_error(*stream, caller) is None,
        match r {
            Ok(v) => v == (TokenVault {
                stream: stream_key,
                token_account,
                mint,
                total_deposited: 0,
                total_released: 0,
            }),
            Err(e) => Some(e) == initialize_token_vault_error(*stream, caller),
        },
{
    if stream.creator != caller {
        return Err(CypherCastError::Unauthorized);
    }
    Ok(TokenVault { stream: stream_key, token_account, mint, total_deposited: 0, total_released: 0 })
}

/// Initialize the protocol's community vault: bind it to its authority,
/// mint and token account, zero its contributions, and emit the
/// initialization event.
pub fn initialize_community_vault(
    dao_authority: AccountId,
    token_account: AccountId,
    mint: AccountId,
) -> (r: (CommunityVault, CommunityVaultInitialized))
    ensures
        r.0 == (CommunityVault { authority: dao_authority, token_account, mint, total_contributions: 0 }),
        r.1 == (CommunityVaultInitialized { authority: dao_authority, mint, token_account }),
{
    let vault = CommunityVault { authority: dao_authority, token_account, mint, total_contributions: 0 };
    let event = CommunityVaultInitialized { authority: dao_authority, mint, token_account };
    (vault, event)
}

} // verus!
