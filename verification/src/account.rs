//! Accounts: an address, a nonce, a signing-key fingerprint and one balance
//! per token.

use crate::big::{big_add, big_clone, big_sub, big_value, big_zero};
use crate::primitives::{AccountId, Address, Nonce, PubKeyHash, TokenId};
use crate::update::{log_view, AccountUpdate, AccountUpdates, UpdateView};
use num::BigUint;
use std::collections::HashMap;
use vstd::prelude::*;

verus! {

broadcast use vstd::std_specs::hash::group_hash_axioms;

/// An account as contracts speak of it. `balances` has a value for every
/// token: zero where the account holds nothing.
pub struct AccountView {
    pub pub_key_hash: PubKeyHash,
    pub address: Address,
    pub nonce: Nonce,
    pub balances: Map<TokenId, nat>,
}

impl AccountView {
    /// The account that creation gives: no key, no balance.
    pub open spec fn fresh(address: Address, nonce: Nonce) -> AccountView {
        AccountView {
            pub_key_hash: PubKeyHash::spec_default(),
            address,
            nonce,
            balances: Map::total(|token: TokenId| 0nat),
        }
    }

    pub open spec fn balance(self, token: TokenId) -> nat {
        self.balances[token]
    }

    pub open spec fn with_balance(self, token: TokenId, amount: nat) -> AccountView {
        AccountView { balances: self.balances.insert(token, amount), ..self }
    }

    pub open spec fn with_nonce(self, nonce: Nonce) -> AccountView {
        AccountView { nonce, ..self }
    }

    /// An account that has registered no signing key cannot send operations.
    pub open spec fn is_locked(self) -> bool {
        self.pub_key_hash == PubKeyHash::spec_default()
    }
}

/// An account of the ledger.
#[derive(Debug)]
pub struct Account {
    pub pub_key_hash: PubKeyHash,
    pub address: Address,
    pub balances: HashMap<TokenId, BigUint>,
    pub nonce: Nonce,
}

impl View for Account {
    type V = AccountView;

    open spec fn view(&self) -> AccountView {
        AccountView {
            pub_key_hash: self.pub_key_hash,
            address: self.address,
            nonce: self.nonce,
            balances: self.spec_balances(),
        }
    }
}

impl Clone for Account {
    fn clone(&self) -> (r: Account)
        ensures
            r@ == self@,
    {
        let r = Account {
            pub_key_hash: self.pub_key_hash,
            address: self.address,
            balances: self.balances.clone(),
            nonce: self.nonce,
        };
        r
    }
}

impl Default for Account {
    fn default() -> (r: Account)
        ensures
            r@ == AccountView::fresh(Address::spec_zero(), 0),
    {
        Account::default_with_address(&Address::zero())
    }
}

impl Account {
    /// The balance of every token: what the account stores for it, zero
    /// where it stores nothing.
    pub open spec fn spec_balances(&self) -> Map<TokenId, nat> {
        Map::total(
            |token: TokenId|
                if self.balances@.contains_key(token) {
                    big_value(self.balances@[token])
                } else {
                    0nat
                },
        )
    }

    /// An account with the given address, nonce zero, no key and no balance.
    pub fn default_with_address(address: &Address) -> (r: Account)
        ensures
            r@ == AccountView::fresh(*address, 0),
    {
        let r = Account {
            pub_key_hash: PubKeyHash::default(),
            address: *address,
            balances: HashMap::new(),
            nonce: 0,
        };
        assert(r.spec_balances() =~= Map::total(|token: TokenId| 0nat));
        r
    }

    /// A new account together with the log of its creation.
    pub fn create_account(id: AccountId, address: Address) -> (r: (Account, AccountUpdates))
        ensures
            r.0@ == AccountView::fresh(address, 0),
            log_view(r.1@) == seq![(id, UpdateView::Create { address, nonce: 0 })],
    {
        let account = Account::default_with_address(&address);
        let updates = vec![(id, AccountUpdate::Create { address, nonce: account.nonce })];
        (account, updates)
    }

    /// What the account holds of a token.
    pub fn get_balance(&self, token: TokenId) -> (r: BigUint)
        ensures
            big_value(r) == self@.balance(token),
    {
        match self.balances.get(&token) {
            Some(balance) => big_clone(balance),
            None => big_zero(),
        }
    }

    /// Makes `amount` the balance of a token.
    pub fn set_balance(&mut self, token: TokenId, amount: BigUint)
        ensures
            final(self)@ == old(self)@.with_balance(token, big_value(amount)),
    {
        self.balances.insert(token, amount);
        assert(self.spec_balances() =~= old(self).spec_balances().insert(
            token,
            big_value(amount),
        ));
    }

    /// Adds `amount` to the balance of a token.
    pub fn add_balance(&mut self, token: TokenId, amount: &BigUint)
        ensures
            final(self)@ == old(self)@.with_balance(
                token,
                old(self)@.balance(token) + big_value(*amount),
            ),
    {
        let balance = match self.balances.remove(&token) {
            Some(balance) => balance,
            None => big_zero(),
        };
        let sum = big_add(balance, amount);
        self.balances.insert(token, sum);
        assert(self.spec_balances() =~= old(self).spec_balances().insert(
            token,
            old(self)@.balance(token) + big_value(*amount),
        ));
    }

    /// Takes `amount` from the balance of a token, which must hold as much.
    pub fn sub_balance(&mut self, token: TokenId, amount: &BigUint)
        requires
            old(self)@.balance(token) >= big_value(*amount),
        ensures
            final(self)@ == old(self)@.with_balance(
                token,
                (old(self)@.balance(token) - big_value(*amount)) as nat,
            ),
    {
        let balance = match self.balances.remove(&token) {
            Some(balance) => balance,
            None => big_zero(),
        };
        let rest = big_sub(balance, amount);
        self.balances.insert(token, rest);
        assert(self.spec_balances() =~= old(self).spec_balances().insert(
            token,
            (old(self)@.balance(token) - big_value(*amount)) as nat,
        ));
    }
}

} // verus!
