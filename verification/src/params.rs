//! Constants of the ledger.

use crate::primitives::{AccountId, Address, TokenId};
use vstd::prelude::*;

verus! {

/// Largest identifier of a token in which a fee can be paid.
pub const MAX_PROCESSABLE_TOKEN: TokenId = 1023;

/// First identifier of the range from which minted tokens are numbered. It
/// lies above every fungible token.
pub const MIN_NFT_TOKEN_ID: u32 = 65536;

/// The reserved balance slot that holds counters: in an ordinary account the
/// number of tokens it has minted, in the storage account the identifier
/// that the next minted token gets.
pub const NFT_TOKEN_ID: TokenId = 2147483647;

/// Identifier of the storage account, which holds the counter of token
/// identifiers and the fingerprint of every minted token.
pub const NFT_STORAGE_ACCOUNT_ID: AccountId = 16777215;

/// Largest identifier of a token in which a fee can be paid.
pub fn max_processable_token() -> (r: TokenId)
    ensures
        r == MAX_PROCESSABLE_TOKEN,
{
    MAX_PROCESSABLE_TOKEN
}

/// Address of the storage account.
pub open spec fn spec_nft_storage_account_address() -> Address {
    Address::spec_repeat_byte(0xff)
}

#[verifier::when_used_as_spec(spec_nft_storage_account_address)]
pub fn nft_storage_account_address() -> (r: Address)
    ensures
        r == spec_nft_storage_account_address(),
{
    Address::repeat_byte(0xff)
}

} // verus!
