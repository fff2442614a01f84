//! The mint request, the validated operation and what applying it returns.

use crate::big::{big_clone, big_value};
use crate::primitives::{AccountId, Address, Nonce, PubKeyHash, TokenId, H256};
use crate::update::{log_view, AccountUpdates, LogEntry};
use num::BigUint;
use vstd::prelude::*;

verus! {

/// A request to mint a token and hand it to `recipient`.
#[derive(Debug, PartialEq, Eq)]
pub struct MintNFT {
    /// Account that mints the token and pays the fee.
    pub creator_id: AccountId,
    /// Address of that account, as the request states it.
    pub creator_address: Address,
    /// Fingerprint of the token's content.
    pub content_hash: H256,
    /// Address of the account that gets the token.
    pub recipient: Address,
    /// Fee that the creator pays.
    pub fee: BigUint,
    /// Token in which the fee is paid.
    pub fee_token: TokenId,
    /// Nonce of the creator that the request was made for.
    pub nonce: Nonce,
    /// Fingerprint of the key that signed the request, where the request
    /// carries a signature from which it can be recovered.
    pub signer: Option<PubKeyHash>,
}

/// A mint request as contracts speak of it.
pub struct MintNFTView {
    pub creator_id: AccountId,
    pub creator_address: Address,
    pub content_hash: H256,
    pub recipient: Address,
    pub fee: nat,
    pub fee_token: TokenId,
    pub nonce: Nonce,
    pub signer: Option<PubKeyHash>,
}

impl View for MintNFT {
    type V = MintNFTView;

    open spec fn view(&self) -> MintNFTView {
        MintNFTView {
            creator_id: self.creator_id,
            creator_address: self.creator_address,
            content_hash: self.content_hash,
            recipient: self.recipient,
            fee: big_value(self.fee),
            fee_token: self.fee_token,
            nonce: self.nonce,
            signer: self.signer,
        }
    }
}

impl Clone for MintNFT {
    fn clone(&self) -> (r: MintNFT)
        ensures
            r@ == self@,
    {
        MintNFT {
            creator_id: self.creator_id,
            creator_address: self.creator_address,
            content_hash: self.content_hash,
            recipient: self.recipient,
            fee: big_clone(&self.fee),
            fee_token: self.fee_token,
            nonce: self.nonce,
            signer: self.signer,
        }
    }
}

impl MintNFT {
    pub fn new(
        creator_id: AccountId,
        creator_address: Address,
        content_hash: H256,
        recipient: Address,
        fee: BigUint,
        fee_token: TokenId,
        nonce: Nonce,
        signer: Option<PubKeyHash>,
    ) -> (r: MintNFT)
        ensures
            r == (MintNFT {
                creator_id,
                creator_address,
                content_hash,
                recipient,
                fee,
                fee_token,
                nonce,
                signer,
            }),
    {
        MintNFT {
            creator_id,
            creator_address,
            content_hash,
            recipient,
            fee,
            fee_token,
            nonce,
            signer,
        }
    }

    /// The fingerprint of the key that signed the request; nothing where
    /// the request has no signature to check.
    pub fn verify_signature(&self) -> (r: Option<PubKeyHash>)
        ensures
            r == self.signer,
    {
        self.signer
    }
}

/// A mint request that was validated against a ledger: both accounts that
/// it touches are resolved.
#[derive(Debug, PartialEq, Eq)]
pub struct MintNFTOp {
    pub tx: MintNFT,
    pub creator_account_id: AccountId,
    pub recipient_account_id: AccountId,
}

/// A validated mint operation as contracts speak of it.
pub struct MintNFTOpView {
    pub tx: MintNFTView,
    pub creator_account_id: AccountId,
    pub recipient_account_id: AccountId,
}

impl View for MintNFTOp {
    type V = MintNFTOpView;

    open spec fn view(&self) -> MintNFTOpView {
        MintNFTOpView {
            tx: self.tx@,
            creator_account_id: self.creator_account_id,
            recipient_account_id: self.recipient_account_id,
        }
    }
}

impl Clone for MintNFTOp {
    fn clone(&self) -> (r: MintNFTOp)
        ensures
            r@ == self@,
    {
        MintNFTOp {
            tx: self.tx.clone(),
            creator_account_id: self.creator_account_id,
            recipient_account_id: self.recipient_account_id,
        }
    }
}

/// Why a mint request was rejected.
#[derive(Clone, Copy, Debug, PartialEq, Eq, Structural)]
pub enum MintNFTOpError {
    /// The fee token is above the largest processable one.
    InvalidTokenId,
    /// The recipient is the zero address.
    RecipientAccountIncorrect,
    /// The ledger has no account under the creator's identifier.
    CreatorAccountNotFound,
    /// The ledger has no account for the recipient.
    RecipientAccountNotFound,
    /// The creator has registered no signing key.
    CreatorAccountIsLocked,
    /// The request was signed with another key than the creator's.
    InvalidSignature,
    /// The request's nonce is not the creator's current nonce.
    NonceMismatch,
    /// The creator holds less than the fee.
    InsufficientBalance,
    /// The recipient already holds something in the new token's slot.
    TokenIsAlreadyInAccount,
}

/// A fee that an operation collected.
#[derive(Debug, PartialEq, Eq)]
pub struct CollectedFee {
    pub token: TokenId,
    pub amount: BigUint,
}

/// An operation that was carried out, as a block records it.
#[derive(Debug, PartialEq, Eq)]
pub enum ZkSyncOp {
    MintNFTOp(Box<MintNFTOp>),
}

/// What a successfully applied request returns.
#[derive(Debug, PartialEq, Eq)]
pub struct OpSuccess {
    pub fee: Option<CollectedFee>,
    pub updates: AccountUpdates,
    pub executed_op: ZkSyncOp,
}

/// What applying an operation returned, as contracts speak of it: the fee
/// that was collected and the log of changes.
pub struct Receipt {
    pub fee: Option<(TokenId, nat)>,
    pub updates: Seq<LogEntry>,
}

/// The fee of a result, as contracts speak of it.
pub open spec fn fee_view(fee: Option<CollectedFee>) -> Option<(TokenId, nat)> {
    match fee {
        Some(fee) => Some((fee.token, big_value(fee.amount))),
        None => None,
    }
}

/// What `apply_op` returned, as contracts speak of it.
pub open spec fn result_view(
    result: Result<(Option<CollectedFee>, AccountUpdates), MintNFTOpError>,
) -> Result<Receipt, MintNFTOpError> {
    match result {
        Ok((fee, updates)) => Ok(Receipt { fee: fee_view(fee), updates: log_view(updates@) }),
        Err(error) => Err(error),
    }
}

} // verus!
