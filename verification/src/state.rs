//! The account store: accounts by identifier, identifiers by address, and
//! the registry of minted tokens.

use crate::account::{Account, AccountView};
use crate::big::big_clone;
use crate::primitives::{AccountId, Address, TokenId};
use crate::tokens::NFT;
use crate::update::{log_view, AccountUpdate, AccountUpdates, LogEntry, UpdateView};
use std::collections::HashMap;
use vstd::prelude::*;

verus! {

broadcast use vstd::std_specs::hash::group_hash_axioms;

/// The store as contracts speak of it.
pub struct StateView {
    /// The accounts, by identifier.
    pub accounts: Map<AccountId, AccountView>,
    /// For each address that was stored, the identifier under which it was
    /// stored last.
    pub account_id_by_address: Map<Address, AccountId>,
    /// The minted tokens, by identifier.
    pub nfts: Map<TokenId, NFT>,
}

impl StateView {
    pub open spec fn empty() -> StateView {
        StateView {
            accounts: Map::empty(),
            account_id_by_address: Map::empty(),
            nfts: Map::empty(),
        }
    }

    /// Every address leads to an account that the store holds.
    pub open spec fn wf(self) -> bool {
        forall|address: Address| #[trigger]
            self.account_id_by_address.contains_key(address) ==> self.accounts.contains_key(
                self.account_id_by_address[address],
            )
    }

    /// The store after `account` was stored under `id`: it replaces what
    /// was there, and its address leads to `id` from now on.
    pub open spec fn insert_account(self, id: AccountId, account: AccountView) -> StateView {
        StateView {
            accounts: self.accounts.insert(id, account),
            account_id_by_address: self.account_id_by_address.insert(account.address, id),
            nfts: self.nfts,
        }
    }

    /// The store after `token` was entered in the registry.
    pub open spec fn insert_nft(self, token: NFT) -> StateView {
        StateView { nfts: self.nfts.insert(token.id, token), ..self }
    }

    /// The store after one logged change was made again. A creation makes
    /// an account where the store has none under `id`; a balance update
    /// sets the balance and the nonce of the account under `id` to their
    /// new values, where the store has one; a mint enters the token in the
    /// registry.
    pub open spec fn apply_update(self, id: AccountId, update: UpdateView) -> StateView {
        match update {
            UpdateView::Create { address, nonce } => {
                if self.accounts.contains_key(id) {
                    self
                } else {
                    self.insert_account(id, AccountView::fresh(address, nonce))
                }
            },
            UpdateView::UpdateBalance { new_nonce, token_id, new_balance, .. } => {
                if self.accounts.contains_key(id) {
                    self.insert_account(
                        id,
                        self.accounts[id].with_balance(token_id, new_balance).with_nonce(new_nonce),
                    )
                } else {
                    self
                }
            },
            UpdateView::MintNFT { token, .. } => self.insert_nft(token),
        }
    }

    /// The store after a log was replayed, entry by entry, in order.
    pub open spec fn apply_updates(self, updates: Seq<LogEntry>) -> StateView
        decreases updates.len(),
    {
        if updates.len() == 0 {
            self
        } else {
            self.apply_updates(updates.drop_last()).apply_update(
                updates.last().0,
                updates.last().1,
            )
        }
    }
}

/// No address occurs twice in a list of pairs.
spec fn distinct_addresses(entries: Seq<(Address, AccountId)>) -> bool {
    forall|i: int, j: int|
        0 <= i < j < entries.len() ==> (#[trigger] entries[i]).0 != (#[trigger] entries[j]).0
}

/// Some pair of the list holds `address`.
spec fn has_address(entries: Seq<(Address, AccountId)>, address: Address) -> bool {
    exists|i: int| 0 <= i < entries.len() && (#[trigger] entries[i]).0 == address
}

/// Where a pair that holds `address` stands in the list.
spec fn position_of(entries: Seq<(Address, AccountId)>, address: Address) -> int {
    choose|i: int| 0 <= i < entries.len() && (#[trigger] entries[i]).0 == address
}

/// The map that a list of pairs without a repeated address stands for.
spec fn index_map(entries: Seq<(Address, AccountId)>) -> Map<Address, AccountId> {
    Map::new(
        |address: Address| has_address(entries, address),
        |address: Address| entries[position_of(entries, address)].1,
    )
}

/// The ledger's accounts and minted tokens.
#[derive(Debug)]
pub struct ZkSyncState {
    accounts: HashMap<AccountId, Account>,
    account_id_by_address: Vec<(Address, AccountId)>,
    nfts: HashMap<TokenId, NFT>,
}

impl View for ZkSyncState {
    type V = StateView;

    closed spec fn view(&self) -> StateView {
        StateView {
            accounts: Map::new(
                |id: AccountId| self.accounts@.contains_key(id),
                |id: AccountId| self.accounts@[id]@,
            ),
            account_id_by_address: index_map(self.account_id_by_address@),
            nfts: self.nfts@,
        }
    }
}

impl Clone for ZkSyncState {
    /// A snapshot of the store.
    fn clone(&self) -> (r: ZkSyncState)
        ensures
            r@ == self@,
            self.wf() ==> r.wf(),
    {
        let mut entries: Vec<(Address, AccountId)> = Vec::new();
        let mut i: usize = 0;
        while i < self.account_id_by_address.len()
            invariant
                i <= self.account_id_by_address@.len(),
                entries@ == self.account_id_by_address@.take(i as int),
            decreases self.account_id_by_address@.len() - i,
        {
            entries.push(self.account_id_by_address[i]);
            i = i + 1;
        }
        assert(entries@ =~= self.account_id_by_address@);
        ZkSyncState {
            accounts: self.accounts.clone(),
            account_id_by_address: entries,
            nfts: self.nfts.clone(),
        }
    }
}

impl ZkSyncState {
    /// The store is well formed: every address leads to a stored account.
    pub closed spec fn wf(&self) -> bool {
        &&& distinct_addresses(self.account_id_by_address@)
        &&& self@.wf()
    }

    /// A well-formed store has a well-formed view.
    pub proof fn lemma_wf_view(&self)
        requires
            self.wf(),
        ensures
            self@.wf(),
    {
    }

    /// A store without accounts and without tokens.
    pub fn empty() -> (r: ZkSyncState)
        ensures
            r.wf(),
            r@ == StateView::empty(),
    {
        let r = ZkSyncState {
            accounts: HashMap::new(),
            account_id_by_address: Vec::new(),
            nfts: HashMap::new(),
        };
        assert(r@.accounts =~= Map::empty());
        assert(r@.account_id_by_address =~= Map::empty());
        r
    }

    /// The account stored under `id`.
    pub fn get_account(&self, id: AccountId) -> (r: Option<Account>)
        ensures
            match r {
                Some(account) => self@.accounts.contains_key(id) && account@
                    == self@.accounts[id],
                None => !self@.accounts.contains_key(id),
            },
    {
        match self.accounts.get(&id) {
            Some(account) => Some(account.clone()),
            None => None,
        }
    }

    /// Where `address` stands in the list of addresses.
    fn find_address(&self, address: &Address) -> (r: Option<usize>)
        ensures
            match r {
                Some(i) => i < self.account_id_by_address@.len()
                    && self.account_id_by_address@[i as int].0 == *address,
                None => !has_address(self.account_id_by_address@, *address),
            },
    {
        let mut i: usize = 0;
        while i < self.account_id_by_address.len()
            invariant
                i <= self.account_id_by_address@.len(),
                forall|j: int|
                    0 <= j < i ==> (#[trigger] self.account_id_by_address@[j]).0 != *address,
            decreases self.account_id_by_address@.len() - i,
        {
            if self.account_id_by_address[i].0 == *address {
                return Some(i);
            }
            i = i + 1;
        }
        None
    }

    /// The account that `address` leads to, with its identifier.
    pub fn get_account_by_address(&self, address: &Address) -> (r: Option<(AccountId, Account)>)
        requires
            self.wf(),
        ensures
            match r {
                Some((id, account)) => {
                    &&& self@.account_id_by_address.contains_key(*address)
                    &&& id == self@.account_id_by_address[*address]
                    &&& self@.accounts.contains_key(id)
                    &&& account@ == self@.accounts[id]
                },
                None => !self@.account_id_by_address.contains_key(*address),
            },
    {
        match self.find_address(address) {
            Some(i) => {
                let id = self.account_id_by_address[i].1;
                assert(self@.account_id_by_address.contains_key(*address));
                match self.get_account(id) {
                    Some(account) => Some((id, account)),
                    None => vstd::pervasive::unreached(),
                }
            },
            None => None,
        }
    }

    /// Stores `account` under `id`, in place of what was there; its address
    /// leads to `id` from now on.
    pub fn insert_account(&mut self, id: AccountId, account: Account)
        requires
            old(self).wf(),
        ensures
            final(self).wf(),
            final(self)@ == old(self)@.insert_account(id, account@),
    {
        let ghost before = self.account_id_by_address@;
        let address = account.address;
        match self.find_address(&address) {
            Some(i) => {
                self.account_id_by_address[i] = (address, id);
            },
            None => {
                self.account_id_by_address.push((address, id));
            },
        }
        self.accounts.insert(id, account);
        proof {
            let after = self.account_id_by_address@;
            assert forall|a: Address| has_address(after, a) <==> (a == address || has_address(
                before,
                a,
            )) by {
                if has_address(before, a) {
                    let k = position_of(before, a);
                    assert(after[k].0 == a);
                }
                if a == address {
                    if after.len() == before.len() {
                        let k = choose|k: int| 0 <= k < before.len() && before[k].0 == address;
                        assert(after[k].0 == a);
                    } else {
                        assert(after[before.len() as int].0 == a);
                    }
                }
                if has_address(after, a) && a != address {
                    let k = position_of(after, a);
                    assert(before[k].0 == a);
                }
            }
            assert forall|a: Address| has_address(after, a) implies index_map(after)[a]
                == index_map(before).insert(address, id)[a] by {
                let k = position_of(after, a);
                if a != address {
                    assert(before[k].0 == a);
                    assert(position_of(before, a) == k);
                }
            }
            assert(index_map(after) =~= index_map(before).insert(address, id));
            assert(self@.accounts =~= old(self)@.accounts.insert(id, account@));
            assert forall|a: Address| #[trigger]
                self@.account_id_by_address.contains_key(a) implies self@.accounts.contains_key(
                self@.account_id_by_address[a],
            ) by {
                if a != address {
                    assert(old(self)@.account_id_by_address.contains_key(a));
                }
            }
        }
    }

    /// The record of a minted token.
    pub fn get_nft(&self, id: TokenId) -> (r: Option<NFT>)
        ensures
            match r {
                Some(token) => self@.nfts.contains_key(id) && token == self@.nfts[id],
                None => !self@.nfts.contains_key(id),
            },
    {
        match self.nfts.get(&id) {
            Some(token) => Some(*token),
            None => None,
        }
    }

    /// Enters a minted token in the registry, under its identifier.
    pub fn insert_nft(&mut self, token: NFT)
        requires
            old(self).wf(),
        ensures
            final(self).wf(),
            final(self)@ == old(self)@.insert_nft(token),
    {
        self.nfts.insert(token.id, token);
    }

    /// Makes one logged change again.
    pub fn apply_account_update(&mut self, id: AccountId, update: &AccountUpdate)
        requires
            old(self).wf(),
        ensures
            final(self).wf(),
            final(self)@ == old(self)@.apply_update(id, update@),
    {
        match update {
            AccountUpdate::Create { address, nonce } => {
                if self.get_account(id).is_none() {
                    let mut account = Account::default_with_address(address);
                    account.nonce = *nonce;
                    self.insert_account(id, account);
                }
            },
            AccountUpdate::UpdateBalance { new_nonce, balance_update, .. } => {
                if let Some(account) = self.get_account(id) {
                    let mut account = account;
                    account.set_balance(balance_update.0, big_clone(&balance_update.2));
                    account.nonce = *new_nonce;
                    self.insert_account(id, account);
                }
            },
            AccountUpdate::MintNFT { token, .. } => {
                self.insert_nft(*token);
            },
        }
    }

    /// Replays a log: makes each of its changes again, in order.
    pub fn apply_account_updates(&mut self, updates: &AccountUpdates)
        requires
            old(self).wf(),
        ensures
            final(self).wf(),
            final(self)@ == old(self)@.apply_updates(log_view(updates@)),
    {
        let mut i: usize = 0;
        while i < updates.len()
            invariant
                i <= updates@.len(),
                self.wf(),
                self@ == old(self)@.apply_updates(log_view(updates@).take(i as int)),
            decreases updates@.len() - i,
        {
            self.apply_account_update(updates[i].0, &updates[i].1);
            proof {
                let log = log_view(updates@);
                assert(log.take(i + 1).drop_last() =~= log.take(i as int));
            }
            i = i + 1;
        }
        assert(log_view(updates@).take(i as int) =~= log_view(updates@));
    }
}

} // verus!
