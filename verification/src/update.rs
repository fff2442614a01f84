//! The log of what an operation changed.

use crate::big::{big_clone, big_value};
use crate::primitives::{AccountId, Address, Nonce, TokenId};
use crate::tokens::NFT;
use num::BigUint;
use vstd::prelude::*;

verus! {

/// One change to the ledger. Together with the identifier of the account
/// that it is logged under, it is enough to make the change again.
#[derive(Debug, PartialEq, Eq)]
pub enum AccountUpdate {
    /// An account was created.
    Create { address: Address, nonce: Nonce },
    /// A balance of the account changed: the slot, its old and its new
    /// value; the account's nonce went from `old_nonce` to `new_nonce`.
    UpdateBalance {
        old_nonce: Nonce,
        new_nonce: Nonce,
        balance_update: (TokenId, BigUint, BigUint),
    },
    /// The account minted `token` while its nonce was `nonce`.
    MintNFT { token: NFT, nonce: Nonce },
}

/// What an `AccountUpdate` says, with amounts as natural numbers.
pub enum UpdateView {
    Create { address: Address, nonce: Nonce },
    UpdateBalance {
        old_nonce: Nonce,
        new_nonce: Nonce,
        token_id: TokenId,
        old_balance: nat,
        new_balance: nat,
    },
    MintNFT { token: NFT, nonce: Nonce },
}

impl View for AccountUpdate {
    type V = UpdateView;

    open spec fn view(&self) -> UpdateView {
        match *self {
            AccountUpdate::Create { address, nonce } => UpdateView::Create { address, nonce },
            AccountUpdate::UpdateBalance { old_nonce, new_nonce, balance_update } => {
                UpdateView::UpdateBalance {
                    old_nonce,
                    new_nonce,
                    token_id: balance_update.0,
                    old_balance: big_value(balance_update.1),
                    new_balance: big_value(balance_update.2),
                }
            },
            AccountUpdate::MintNFT { token, nonce } => UpdateView::MintNFT { token, nonce },
        }
    }
}

impl Clone for AccountUpdate {
    fn clone(&self) -> (r: AccountUpdate)
        ensures
            r@ == self@,
    {
        match self {
            AccountUpdate::Create { address, nonce } => AccountUpdate::Create {
                address: *address,
                nonce: *nonce,
            },
            AccountUpdate::UpdateBalance { old_nonce, new_nonce, balance_update } => {
                AccountUpdate::UpdateBalance {
                    old_nonce: *old_nonce,
                    new_nonce: *new_nonce,
                    balance_update: (
                        balance_update.0,
                        big_clone(&balance_update.1),
                        big_clone(&balance_update.2),
                    ),
                }
            },
            AccountUpdate::MintNFT { token, nonce } => AccountUpdate::MintNFT {
                token: *token,
                nonce: *nonce,
            },
        }
    }
}

/// An ordered log: each change with the account it is logged under.
pub type AccountUpdates = Vec<(AccountId, AccountUpdate)>;

/// One entry of a log, as contracts speak of it.
pub type LogEntry = (AccountId, UpdateView);

/// What a log says, entry by entry.
pub open spec fn log_view(updates: Seq<(AccountId, AccountUpdate)>) -> Seq<LogEntry> {
    Seq::new(updates.len(), |i: int| (updates[i].0, updates[i].1@))
}

/// Appends one entry to a log.
pub(crate) fn push_update(updates: &mut AccountUpdates, id: AccountId, update: AccountUpdate)
    ensures
        log_view(final(updates)@) == log_view(old(updates)@).push((id, update@)),
{
    updates.push((id, update));
}

/// Appends a log to a log, keeping the order of both.
pub(crate) fn extend_updates(updates: &mut AccountUpdates, more: AccountUpdates)
    ensures
        log_view(final(updates)@) == log_view(old(updates)@) + log_view(more@),
{
    let mut rest = more;
    updates.append(&mut rest);
}

} // verus!
