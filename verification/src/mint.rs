//! What minting a token does, stated on the store as contracts speak of it.
//!
//! Two counters are kept as balances of the reserved slot `NFT_TOKEN_ID`:
//! in the creator's account the number of tokens that it has minted, in the
//! storage account the identifier of the next token. The storage account
//! also keeps, in the slot of each minted token, the token's fingerprint.
//! So every change that a mint makes is a change of a balance or of a
//! nonce, and a log of balance updates carries all of them.

use crate::account::AccountView;
use crate::operations::{MintNFTOpError, MintNFTOpView, MintNFTView, Receipt};
use crate::params::{
    spec_nft_storage_account_address, MAX_PROCESSABLE_TOKEN, MIN_NFT_TOKEN_ID,
    NFT_STORAGE_ACCOUNT_ID, NFT_TOKEN_ID,
};
use crate::primitives::{Address, Nonce, TokenId, H256};
use crate::state::StateView;
use crate::tokens::{token_address, token_data, NFT};
use crate::update::{LogEntry, UpdateView};
use vstd::prelude::*;

verus! {

/// What validating a request against a store gives: the operation with
/// both accounts resolved, or the first of the checks that fails.
pub open spec fn validate(s: StateView, tx: MintNFTView) -> Result<MintNFTOpView, MintNFTOpError> {
    if tx.fee_token > MAX_PROCESSABLE_TOKEN {
        Err(MintNFTOpError::InvalidTokenId)
    } else if tx.recipient == Address::spec_zero() {
        Err(MintNFTOpError::RecipientAccountIncorrect)
    } else if !s.accounts.contains_key(tx.creator_id) {
        Err(MintNFTOpError::CreatorAccountNotFound)
    } else if s.accounts[tx.creator_id].is_locked() {
        Err(MintNFTOpError::CreatorAccountIsLocked)
    } else if tx.signer is Some && tx.signer->0 != s.accounts[tx.creator_id].pub_key_hash {
        Err(MintNFTOpError::InvalidSignature)
    } else if !s.account_id_by_address.contains_key(tx.recipient) {
        Err(MintNFTOpError::RecipientAccountNotFound)
    } else {
        Ok(
            MintNFTOpView {
                tx,
                creator_account_id: tx.creator_id,
                recipient_account_id: s.account_id_by_address[tx.recipient],
            },
        )
    }
}

/// The storage account as it is created: at its address, with the counter
/// of token identifiers at the start of their range.
pub open spec fn fresh_nft_storage() -> AccountView {
    AccountView::fresh(spec_nft_storage_account_address(), 0).with_balance(
        NFT_TOKEN_ID,
        MIN_NFT_TOKEN_ID as nat,
    )
}

/// The store with a storage account: the store itself where it has one.
pub open spec fn with_nft_storage(s: StateView) -> StateView {
    if s.accounts.contains_key(NFT_STORAGE_ACCOUNT_ID) {
        s
    } else {
        s.insert_account(NFT_STORAGE_ACCOUNT_ID, fresh_nft_storage())
    }
}

/// The log of the storage account's creation: empty where the store has
/// one.
pub open spec fn nft_storage_log(s: StateView) -> Seq<LogEntry> {
    if s.accounts.contains_key(NFT_STORAGE_ACCOUNT_ID) {
        Seq::empty()
    } else {
        seq![
            (
                NFT_STORAGE_ACCOUNT_ID,
                UpdateView::Create { address: spec_nft_storage_account_address(), nonce: 0 },
            ),
            (
                NFT_STORAGE_ACCOUNT_ID,
                UpdateView::UpdateBalance {
                    old_nonce: 0,
                    new_nonce: 0,
                    token_id: NFT_TOKEN_ID,
                    old_balance: 0,
                    new_balance: MIN_NFT_TOKEN_ID as nat,
                },
            ),
        ]
    }
}

/// Why an operation is rejected before anything changes: the creator is
/// unknown, the nonce is not the creator's, or the creator cannot pay.
pub open spec fn fee_rejection(s: StateView, op: MintNFTOpView) -> Option<MintNFTOpError> {
    if !s.accounts.contains_key(op.creator_account_id) {
        Some(MintNFTOpError::CreatorAccountNotFound)
    } else if s.accounts[op.creator_account_id].nonce != op.tx.nonce {
        Some(MintNFTOpError::NonceMismatch)
    } else if s.accounts[op.creator_account_id].balance(op.tx.fee_token) < op.tx.fee {
        Some(MintNFTOpError::InsufficientBalance)
    } else {
        None
    }
}

/// The creator once the fee is paid: the fee is gone from its balance and
/// its nonce is one higher.
pub open spec fn creator_after_fee(s: StateView, op: MintNFTOpView) -> AccountView {
    let creator = s.accounts[op.creator_account_id];
    creator.with_balance(
        op.tx.fee_token,
        (creator.balance(op.tx.fee_token) - op.tx.fee) as nat,
    ).with_nonce((creator.nonce + 1) as Nonce)
}

/// How many tokens the creator has minted so far: the counter that it
/// keeps in the reserved slot.
pub open spec fn serial_counter(s: StateView, op: MintNFTOpView) -> nat {
    creator_after_fee(s, op).balance(NFT_TOKEN_ID)
}

/// The serial number of the token that the operation mints: the creator's
/// counter, or zero where the counter does not fit in 32 bits.
pub open spec fn mint_serial_id(s: StateView, op: MintNFTOpView) -> u32 {
    if serial_counter(s, op) <= u32::MAX {
        serial_counter(s, op) as u32
    } else {
        0
    }
}

/// The creator once the token is counted: its counter is one higher.
pub open spec fn creator_after_mint(s: StateView, op: MintNFTOpView) -> AccountView {
    creator_after_fee(s, op).with_balance(NFT_TOKEN_ID, serial_counter(s, op) + 1)
}

/// The store once the creator has paid and counted the token.
pub open spec fn after_creator(s: StateView, op: MintNFTOpView) -> StateView {
    s.insert_account(op.creator_account_id, creator_after_mint(s, op))
}

/// The storage account as the operation finds it, after the creator's
/// changes and after its own creation where the store had none.
pub open spec fn nft_storage_found(s: StateView, op: MintNFTOpView) -> AccountView {
    with_nft_storage(after_creator(s, op)).accounts[NFT_STORAGE_ACCOUNT_ID]
}

/// The counter of token identifiers as the operation finds it.
pub open spec fn token_counter(s: StateView, op: MintNFTOpView) -> nat {
    nft_storage_found(s, op).balance(NFT_TOKEN_ID)
}

/// The identifier of the token that the operation mints.
pub open spec fn mint_token_id(s: StateView, op: MintNFTOpView) -> TokenId {
    token_counter(s, op) as TokenId
}

/// The record of the token that the operation mints, given the token's
/// hash.
pub open spec fn minted_token(s: StateView, op: MintNFTOpView, hash: H256) -> NFT {
    NFT {
        id: mint_token_id(s, op),
        creator_id: op.creator_account_id,
        creator_address: s.accounts[op.creator_account_id].address,
        serial_id: mint_serial_id(s, op),
        address: token_address(hash),
        content_hash: op.tx.content_hash,
    }
}

/// The storage account once the identifier is handed out: the counter is
/// one higher.
pub open spec fn nft_storage_counted(s: StateView, op: MintNFTOpView) -> AccountView {
    nft_storage_found(s, op).with_balance(NFT_TOKEN_ID, token_counter(s, op) + 1)
}

/// The storage account once the token is minted: the token's slot holds
/// the token's fingerprint.
pub open spec fn nft_storage_after_mint(
    s: StateView,
    op: MintNFTOpView,
    hash: H256,
) -> AccountView {
    nft_storage_counted(s, op).with_balance(mint_token_id(s, op), token_data(hash))
}

/// The ledger is corrupt for this operation: the operation is not
/// rejected before anything changes, and the creator's nonce cannot grow,
/// the counter of token identifiers is no 32-bit identifier, or the slot
/// of the new token in the storage account is taken. No result is defined
/// for such an operation.
pub open spec fn mint_fatal(s: StateView, op: MintNFTOpView) -> bool {
    &&& fee_rejection(s, op) is None
    &&& {
        ||| s.accounts[op.creator_account_id].nonce == u32::MAX
        ||| token_counter(s, op) > u32::MAX
        ||| nft_storage_counted(s, op).balance(mint_token_id(s, op)) != 0
    }
}

/// The store once the token is minted and registered, before the
/// recipient gets it.
pub open spec fn after_storage(s: StateView, op: MintNFTOpView, hash: H256) -> StateView {
    after_creator(s, op).insert_account(
        NFT_STORAGE_ACCOUNT_ID,
        nft_storage_after_mint(s, op, hash),
    ).insert_nft(minted_token(s, op, hash))
}

/// Why the token cannot be handed over: the recipient is unknown, or holds
/// something in the token's slot already.
pub open spec fn recipient_rejection(s: StateView, op: MintNFTOpView, hash: H256) -> Option<
    MintNFTOpError,
> {
    let t = after_storage(s, op, hash);
    if !t.accounts.contains_key(op.recipient_account_id) {
        Some(MintNFTOpError::RecipientAccountNotFound)
    } else if t.accounts[op.recipient_account_id].balance(mint_token_id(s, op)) != 0 {
        Some(MintNFTOpError::TokenIsAlreadyInAccount)
    } else {
        None
    }
}

/// The store once the recipient holds the token.
pub open spec fn after_credit(s: StateView, op: MintNFTOpView, hash: H256) -> StateView {
    let t = after_storage(s, op, hash);
    t.insert_account(
        op.recipient_account_id,
        t.accounts[op.recipient_account_id].with_balance(mint_token_id(s, op), 1),
    )
}

/// Log entry of the fee: the creator's balance of the fee token and its
/// nonce, before and after.
pub open spec fn fee_entry(s: StateView, op: MintNFTOpView) -> LogEntry {
    let creator = s.accounts[op.creator_account_id];
    let paid = creator_after_fee(s, op);
    (
        op.creator_account_id,
        UpdateView::UpdateBalance {
            old_nonce: creator.nonce,
            new_nonce: paid.nonce,
            token_id: op.tx.fee_token,
            old_balance: creator.balance(op.tx.fee_token),
            new_balance: paid.balance(op.tx.fee_token),
        },
    )
}

/// Log entry of the creator's counter, which goes up by one.
pub open spec fn serial_entry(s: StateView, op: MintNFTOpView) -> LogEntry {
    let paid = creator_after_fee(s, op);
    (
        op.creator_account_id,
        UpdateView::UpdateBalance {
            old_nonce: paid.nonce,
            new_nonce: paid.nonce,
            token_id: NFT_TOKEN_ID,
            old_balance: serial_counter(s, op),
            new_balance: serial_counter(s, op) + 1,
        },
    )
}

/// Log entry of the counter of token identifiers, which goes up by one.
/// It is logged with nonce zero, whatever the storage account's nonce is.
pub open spec fn counter_entry(s: StateView, op: MintNFTOpView) -> LogEntry {
    (
        NFT_STORAGE_ACCOUNT_ID,
        UpdateView::UpdateBalance {
            old_nonce: 0,
            new_nonce: 0,
            token_id: NFT_TOKEN_ID,
            old_balance: token_counter(s, op),
            new_balance: token_counter(s, op) + 1,
        },
    )
}

/// Log entry of the minted token, under the creator, with the nonce that
/// the creator had when it paid the fee.
pub open spec fn token_entry(s: StateView, op: MintNFTOpView, hash: H256) -> LogEntry {
    (
        op.creator_account_id,
        UpdateView::MintNFT {
            token: minted_token(s, op, hash),
            nonce: s.accounts[op.creator_account_id].nonce,
        },
    )
}

/// Log entry of the token's fingerprint, which the storage account gets in
/// the token's slot.
pub open spec fn data_entry(s: StateView, op: MintNFTOpView, hash: H256) -> LogEntry {
    let storage = nft_storage_found(s, op);
    (
        NFT_STORAGE_ACCOUNT_ID,
        UpdateView::UpdateBalance {
            old_nonce: storage.nonce,
            new_nonce: storage.nonce,
            token_id: mint_token_id(s, op),
            old_balance: 0,
            new_balance: token_data(hash),
        },
    )
}

/// Log entry of the recipient's balance of the token, which becomes one.
pub open spec fn credit_entry(s: StateView, op: MintNFTOpView, hash: H256) -> LogEntry {
    let recipient = after_storage(s, op, hash).accounts[op.recipient_account_id];
    (
        op.recipient_account_id,
        UpdateView::UpdateBalance {
            old_nonce: recipient.nonce,
            new_nonce: recipient.nonce,
            token_id: mint_token_id(s, op),
            old_balance: 0,
            new_balance: 1,
        },
    )
}

/// The log of a mint that succeeds, in the order of the changes: the fee,
/// the creator's counter, the storage account's creation where the store
/// had none, the counter of token identifiers, the minted token, the
/// token's fingerprint, the recipient's balance.
pub open spec fn mint_log(s: StateView, op: MintNFTOpView, hash: H256) -> Seq<LogEntry> {
    seq![fee_entry(s, op), serial_entry(s, op)] + nft_storage_log(after_creator(s, op)) + seq![
        counter_entry(s, op),
        token_entry(s, op, hash),
        data_entry(s, op, hash),
        credit_entry(s, op, hash),
    ]
}

/// What applying an operation gives, where the token's hash is `hash`: the
/// store afterwards and the result.
///
/// An operation that is rejected for the creator's nonce or balance leaves
/// the store as it was. One that is rejected for the recipient has made
/// every change but the last: nothing is rolled back.
pub open spec fn mint(s: StateView, op: MintNFTOpView, hash: H256) -> (
    StateView,
    Result<Receipt, MintNFTOpError>,
) {
    match fee_rejection(s, op) {
        Some(error) => (s, Err(error)),
        None => match recipient_rejection(s, op, hash) {
            Some(error) => (after_storage(s, op, hash), Err(error)),
            None => (
                after_credit(s, op, hash),
                Ok(
                    Receipt {
                        fee: Some((op.tx.fee_token, op.tx.fee)),
                        updates: mint_log(s, op, hash),
                    },
                ),
            ),
        },
    }
}

} // verus!
