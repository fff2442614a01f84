//! Minted tokens and what is derived from a token's hash.

use crate::big::{be_value, big_from_bytes_be, big_value};
use crate::primitives::{AccountId, Address, TokenId, H256};
use num::BigUint;
use vstd::prelude::*;

verus! {

/// Record of a minted token.
#[derive(Clone, Copy, Debug, PartialEq, Eq)]
pub struct NFT {
    /// Identifier of the token, unique over the ledger.
    pub id: TokenId,
    /// Account that minted the token.
    pub creator_id: AccountId,
    /// Address of the account that minted the token.
    pub creator_address: Address,
    /// How many tokens the creator had minted before this one.
    pub serial_id: u32,
    /// Address of the token, derived from its hash.
    pub address: Address,
    /// Fingerprint of the token's content, as the creator supplied it.
    pub content_hash: H256,
}

impl NFT {
    pub fn new(
        token_id: TokenId,
        serial_id: u32,
        creator_id: AccountId,
        creator_address: Address,
        address: Address,
        content_hash: H256,
    ) -> (r: NFT)
        ensures
            r == (NFT {
                id: token_id,
                creator_id,
                creator_address,
                serial_id,
                address,
                content_hash,
            }),
    {
        NFT { id: token_id, creator_id, creator_address, serial_id, address, content_hash }
    }
}

/// The address of a token: the last 20 bytes of its hash.
pub open spec fn token_address(hash: H256) -> Address {
    choose|address: Address| address.0@ == hash.0@.subrange(12, 32)
}

/// The address of the token with the given hash.
pub fn calculate_token_address(hash: &H256) -> (r: Address)
    ensures
        r == token_address(*hash),
        r.0@ == hash.0@.subrange(12, 32),
{
    let mut bytes = [0u8; 20];
    let mut i: usize = 0;
    while i < 20
        invariant
            i <= 20,
            forall|j: int| 0 <= j < i ==> bytes[j] == hash.0[12 + j],
        decreases 20 - i,
    {
        bytes[i] = hash.0[12 + i];
        i = i + 1;
    }
    assert(bytes@ =~= hash.0@.subrange(12, 32));
    let r = Address(bytes);
    assert(r.0 =~= token_address(*hash).0);
    r
}

/// The number that the last 16 bytes of a token's hash denote, the first of
/// them the most significant. It is what the storage account keeps of the
/// token.
pub open spec fn token_data(hash: H256) -> nat {
    be_value(hash.0@.subrange(16, 32))
}

/// 256 to the power of `n`.
pub open spec fn pow256(n: nat) -> nat
    decreases n,
{
    if n == 0 {
        1
    } else {
        256 * pow256((n - 1) as nat)
    }
}

/// A string of `n` bytes denotes a number below 256 to the power of `n`.
pub proof fn lemma_be_value_bound(bytes: Seq<u8>)
    ensures
        be_value(bytes) < pow256(bytes.len()),
    decreases bytes.len(),
{
    if bytes.len() > 0 {
        lemma_be_value_bound(bytes.drop_last());
    }
}

/// A token's fingerprint is a number of at most 128 bits.
pub proof fn lemma_token_data_bound(hash: H256)
    ensures
        token_data(hash) <= u128::MAX,
{
    lemma_be_value_bound(hash.0@.subrange(16, 32));
    reveal_with_fuel(pow256, 17);
}

/// The fingerprint of the token with the given hash.
pub fn calculate_token_data(hash: &H256) -> (r: BigUint)
    ensures
        big_value(r) == token_data(*hash),
{
    let mut tail: Vec<u8> = Vec::new();
    let mut i: usize = 16;
    while i < 32
        invariant
            16 <= i <= 32,
            tail@ == hash.0@.subrange(16, i as int),
        decreases 32 - i,
    {
        tail.push(hash.0[i]);
        i = i + 1;
    }
    big_from_bytes_be(tail.as_slice())
}

} // verus!
