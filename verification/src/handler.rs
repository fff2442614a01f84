//! Minting a token: validating the request and applying it to the store.

use crate::account::Account;
use crate::big::{big_clone, big_eq, big_from_u32, big_ge, big_to_u32, big_zero};
use crate::mint::{
    after_creator, after_storage, creator_after_fee, creator_after_mint, fee_rejection, mint,
    mint_fatal, mint_log, mint_serial_id, minted_token, nft_storage_counted, nft_storage_found,
    nft_storage_log, validate, with_nft_storage,
};
use crate::operations::{
    fee_view, result_view, CollectedFee, MintNFT, MintNFTOp, MintNFTOpError, MintNFTOpView,
    MintNFTView, OpSuccess, Receipt, ZkSyncOp,
};
use crate::params::{
    max_processable_token, nft_storage_account_address, MIN_NFT_TOKEN_ID,
    NFT_STORAGE_ACCOUNT_ID, NFT_TOKEN_ID,
};
use crate::primitives::{AccountId, Address, PubKeyHash, TokenId, H256};
use crate::state::{StateView, ZkSyncState};
use crate::tokens::{calculate_token_address, calculate_token_data, NFT};
use crate::update::{extend_updates, log_view, push_update, AccountUpdate, AccountUpdates};
use vstd::prelude::*;

verus! {

/// What `create_op` returned, as contracts speak of it.
pub open spec fn op_result_view(result: Result<MintNFTOp, MintNFTOpError>) -> Result<
    MintNFTOpView,
    MintNFTOpError,
> {
    match result {
        Ok(op) => Ok(op@),
        Err(error) => Err(error),
    }
}

/// `post` and `result` are what applying `op` to `pre` gives, where the
/// token's hash is one that `hasher` returns for the creator's identifier,
/// the token's serial number and the content hash.
pub open spec fn applied_with<H: Fn(AccountId, u32, H256) -> H256>(
    hasher: H,
    pre: StateView,
    op: MintNFTOpView,
    post: StateView,
    result: Result<Receipt, MintNFTOpError>,
) -> bool {
    match fee_rejection(pre, op) {
        Some(error) => post == pre && result == Err::<Receipt, MintNFTOpError>(error),
        None => exists|token_hash: H256|
            {
                &&& #[trigger] hasher.ensures(
                    (op.creator_account_id, mint_serial_id(pre, op), op.tx.content_hash),
                    token_hash,
                )
                &&& (post, result) == mint(pre, op, token_hash)
            },
    }
}

/// What `apply_tx` returned, as contracts speak of it.
pub open spec fn success_view(result: Result<OpSuccess, MintNFTOpError>) -> Result<
    Receipt,
    MintNFTOpError,
> {
    match result {
        Ok(success) => Ok(
            Receipt { fee: fee_view(success.fee), updates: log_view(success.updates@) },
        ),
        Err(error) => Err(error),
    }
}

/// The operation that a successful `apply_tx` reports as carried out.
pub open spec fn executed_view(op: ZkSyncOp) -> MintNFTOpView {
    match op {
        ZkSyncOp::MintNFTOp(op) => op@,
    }
}

/// `post` and `result` are what validating `tx` against `pre` and applying
/// it give, where the token's hash is one that `hasher` returns. A request
/// that is not valid leaves the store as it is.
pub open spec fn tx_applied_with<H: Fn(AccountId, u32, H256) -> H256>(
    hasher: H,
    pre: StateView,
    tx: MintNFTView,
    post: StateView,
    result: Result<OpSuccess, MintNFTOpError>,
) -> bool {
    match validate(pre, tx) {
        Ok(op) => {
            &&& applied_with(hasher, pre, op, post, success_view(result))
            &&& result matches Ok(success) ==> executed_view(success.executed_op) == op
        },
        Err(error) => post == pre && success_view(result) == Err::<Receipt, MintNFTOpError>(
            error,
        ),
    }
}

/// The request is valid, and the ledger is corrupt for it.
pub open spec fn tx_fatal(s: StateView, tx: MintNFTView) -> bool {
    validate(s, tx) matches Ok(op) && mint_fatal(s, op)
}

impl ZkSyncState {
    /// Validates a request against the store, which it leaves as it is.
    pub fn create_op(&self, tx: MintNFT) -> (res: Result<MintNFTOp, MintNFTOpError>)
        requires
            self.wf(),
        ensures
            op_result_view(res) == validate(self@, tx@),
            res matches Ok(op) ==> op.tx == tx,
    {
        if tx.fee_token > max_processable_token() {
            return Err(MintNFTOpError::InvalidTokenId);
        }
        if tx.recipient == Address::zero() {
            return Err(MintNFTOpError::RecipientAccountIncorrect);
        }
        let creator = match self.get_account(tx.creator_id) {
            Some(account) => account,
            None => {
                return Err(MintNFTOpError::CreatorAccountNotFound);
            },
        };
        if creator.pub_key_hash == PubKeyHash::default() {
            return Err(MintNFTOpError::CreatorAccountIsLocked);
        }
        if let Some(pub_key_hash) = tx.verify_signature() {
            if pub_key_hash != creator.pub_key_hash {
                return Err(MintNFTOpError::InvalidSignature);
            }
        }
        let recipient = match self.get_account_by_address(&tx.recipient) {
            Some((recipient, _)) => recipient,
            None => {
                return Err(MintNFTOpError::RecipientAccountNotFound);
            },
        };
        Ok(MintNFTOp { creator_account_id: tx.creator_id, recipient_account_id: recipient, tx })
    }

    /// Validates a request and applies it.
    pub fn apply_tx<H: Fn(AccountId, u32, H256) -> H256>(
        &mut self,
        tx: MintNFT,
        hasher: H,
    ) -> (res: Result<OpSuccess, MintNFTOpError>)
        requires
            old(self).wf(),
            !tx_fatal(old(self)@, tx@),
            forall|creator_id: AccountId, serial_id: u32, content_hash: H256|
                hasher.requires((creator_id, serial_id, content_hash)),
        ensures
            final(self).wf(),
            tx_applied_with(hasher, old(self)@, tx@, final(self)@, res),
    {
        let op = match self.create_op(tx) {
            Ok(op) => op,
            Err(error) => {
                return Err(error);
            },
        };
        match self.apply_op(&op, hasher) {
            Ok((fee, updates)) => Ok(
                OpSuccess { fee, updates, executed_op: ZkSyncOp::MintNFTOp(Box::new(op)) },
            ),
            Err(error) => Err(error),
        }
    }

    /// Applies a validated operation. The hash of the token is what
    /// `hasher` gives for the creator's identifier, the token's serial
    /// number and the content hash; it is not asked for where the
    /// operation is rejected before anything changes.
    pub fn apply_op<H: Fn(AccountId, u32, H256) -> H256>(
        &mut self,
        op: &MintNFTOp,
        hasher: H,
    ) -> (res: Result<(Option<CollectedFee>, AccountUpdates), MintNFTOpError>)
        requires
            old(self).wf(),
            !mint_fatal(old(self)@, op@),
            forall|creator_id: AccountId, serial_id: u32, content_hash: H256|
                hasher.requires((creator_id, serial_id, content_hash)),
        ensures
            final(self).wf(),
            applied_with(hasher, old(self)@, op@, final(self)@, result_view(res)),
    {
        let ghost s = self@;
        let mut updates: AccountUpdates = Vec::new();

        // The creator pays the fee.
        let mut creator_account = match self.get_account(op.creator_account_id) {
            Some(account) => account,
            None => {
                return Err(MintNFTOpError::CreatorAccountNotFound);
            },
        };
        let old_balance = creator_account.get_balance(op.tx.fee_token);
        let nonce = creator_account.nonce;
        if nonce != op.tx.nonce {
            return Err(MintNFTOpError::NonceMismatch);
        }
        if !big_ge(&old_balance, &op.tx.fee) {
            return Err(MintNFTOpError::InsufficientBalance);
        }
        creator_account.sub_balance(op.tx.fee_token, &op.tx.fee);
        let new_balance = creator_account.get_balance(op.tx.fee_token);
        creator_account.nonce = creator_account.nonce + 1;
        push_update(
            &mut updates,
            op.creator_account_id,
            AccountUpdate::UpdateBalance {
                balance_update: (op.tx.fee_token, old_balance, new_balance),
                old_nonce: nonce,
                new_nonce: creator_account.nonce,
            },
        );
        self.insert_account(op.creator_account_id, creator_account.clone());
        assert(creator_account@ == creator_after_fee(s, op@));

        // The creator's balance of the reserved slot counts the tokens that
        // it has minted: the serial number of this one.
        let old_balance = creator_account.get_balance(NFT_TOKEN_ID);
        let old_nonce = creator_account.nonce;
        let serial_id = match big_to_u32(&old_balance) {
            Some(serial_id) => serial_id,
            None => 0,
        };
        creator_account.add_balance(NFT_TOKEN_ID, &big_from_u32(1));
        let new_balance = creator_account.get_balance(NFT_TOKEN_ID);
        push_update(
            &mut updates,
            op.creator_account_id,
            AccountUpdate::UpdateBalance {
                balance_update: (NFT_TOKEN_ID, old_balance, new_balance),
                old_nonce,
                new_nonce: creator_account.nonce,
            },
        );
        self.insert_account(op.creator_account_id, creator_account.clone());
        assert(creator_account@ == creator_after_mint(s, op@));
        assert(self@.accounts =~= after_creator(s, op@).accounts);
        assert(self@.account_id_by_address =~= after_creator(s, op@).account_id_by_address);
        assert(self@ == after_creator(s, op@));

        // The storage account's balance of the reserved slot is the
        // identifier of the next token.
        let (mut nft_account, account_updates) = self.get_or_create_nft_account_token_id();
        extend_updates(&mut updates, account_updates);
        assert(nft_account@ == nft_storage_found(s, op@));

        let new_token_id = nft_account.get_balance(NFT_TOKEN_ID);
        nft_account.add_balance(NFT_TOKEN_ID, &big_from_u32(1));
        let next_token_id = nft_account.get_balance(NFT_TOKEN_ID);
        let token_id: TokenId = match big_to_u32(&new_token_id) {
            Some(token_id) => token_id,
            None => vstd::pervasive::unreached(),
        };
        push_update(
            &mut updates,
            NFT_STORAGE_ACCOUNT_ID,
            AccountUpdate::UpdateBalance {
                balance_update: (NFT_TOKEN_ID, new_token_id, next_token_id),
                old_nonce: 0,
                new_nonce: 0,
            },
        );
        self.insert_account(NFT_STORAGE_ACCOUNT_ID, nft_account.clone());
        assert(nft_account@ == nft_storage_counted(s, op@));

        // The token, with the address derived from its hash.
        let token_hash = hasher(op.creator_account_id, serial_id, op.tx.content_hash);
        let token_address = calculate_token_address(&token_hash);
        let token = NFT::new(
            token_id,
            serial_id,
            op.creator_account_id,
            creator_account.address,
            token_address,
            op.tx.content_hash,
        );
        assert(token == minted_token(s, op@, token_hash));
        push_update(&mut updates, op.creator_account_id, AccountUpdate::MintNFT { token, nonce });
        self.insert_nft(token);
        self.insert_account(op.creator_account_id, creator_account);

        // The storage account keeps the token's fingerprint in the token's
        // slot, which was empty.
        let token_data = calculate_token_data(&token_hash);
        assert(nft_account@.balance(token_id) == 0);
        nft_account.add_balance(token_id, &token_data);
        let storage_nonce = nft_account.nonce;
        push_update(
            &mut updates,
            NFT_STORAGE_ACCOUNT_ID,
            AccountUpdate::UpdateBalance {
                balance_update: (token_id, big_zero(), token_data),
                old_nonce: storage_nonce,
                new_nonce: storage_nonce,
            },
        );
        self.insert_account(NFT_STORAGE_ACCOUNT_ID, nft_account);
        assert(self@.accounts =~= after_storage(s, op@, token_hash).accounts);
        assert(self@.account_id_by_address =~= after_storage(
            s,
            op@,
            token_hash,
        ).account_id_by_address);
        assert(self@ == after_storage(s, op@, token_hash));

        // The recipient gets the token.
        let mut recipient_account = match self.get_account(op.recipient_account_id) {
            Some(account) => account,
            None => {
                return Err(MintNFTOpError::RecipientAccountNotFound);
            },
        };
        let old_amount = recipient_account.get_balance(token_id);
        if !big_eq(&old_amount, &big_zero()) {
            return Err(MintNFTOpError::TokenIsAlreadyInAccount);
        }
        let old_nonce = recipient_account.nonce;
        recipient_account.add_balance(token_id, &big_from_u32(1));
        push_update(
            &mut updates,
            op.recipient_account_id,
            AccountUpdate::UpdateBalance {
                balance_update: (token_id, big_zero(), big_from_u32(1)),
                old_nonce,
                new_nonce: recipient_account.nonce,
            },
        );
        self.insert_account(op.recipient_account_id, recipient_account);

        let fee = CollectedFee { token: op.tx.fee_token, amount: big_clone(&op.tx.fee) };
        assert(log_view(updates@) =~= mint_log(s, op@, token_hash));
        Ok((Some(fee), updates))
    }

    /// Applies a validated operation, given the hash of the token that it
    /// mints.
    pub fn apply_op_hashed(&mut self, op: &MintNFTOp, token_hash: &H256) -> (res: Result<
        (Option<CollectedFee>, AccountUpdates),
        MintNFTOpError,
    >)
        requires
            old(self).wf(),
            !mint_fatal(old(self)@, op@),
        ensures
            final(self).wf(),
            (final(self)@, result_view(res)) == mint(old(self)@, op@, *token_hash),
    {
        let given = *token_hash;
        let hasher = |_creator_id: AccountId, _serial_id: u32, _content_hash: H256| -> (hash: H256)
            ensures
                hash == given,
            { given };
        self.apply_op(op, hasher)
    }

    /// The serial number that the token of a validated operation gets, or
    /// why the operation is rejected before anything changes.
    pub fn next_serial_id(&self, op: &MintNFTOp) -> (res: Result<u32, MintNFTOpError>)
        ensures
            match res {
                Ok(serial_id) => fee_rejection(self@, op@) is None && serial_id == mint_serial_id(
                    self@,
                    op@,
                ),
                Err(error) => fee_rejection(self@, op@) == Some(error),
            },
    {
        let mut creator_account = match self.get_account(op.creator_account_id) {
            Some(account) => account,
            None => {
                return Err(MintNFTOpError::CreatorAccountNotFound);
            },
        };
        if creator_account.nonce != op.tx.nonce {
            return Err(MintNFTOpError::NonceMismatch);
        }
        if !big_ge(&creator_account.get_balance(op.tx.fee_token), &op.tx.fee) {
            return Err(MintNFTOpError::InsufficientBalance);
        }
        creator_account.sub_balance(op.tx.fee_token, &op.tx.fee);
        match big_to_u32(&creator_account.get_balance(NFT_TOKEN_ID)) {
            Some(serial_id) => Ok(serial_id),
            None => Ok(0),
        }
    }

    /// Whether the ledger is corrupt for a validated operation, so that it
    /// must not be applied.
    pub fn mint_is_fatal(&self, op: &MintNFTOp) -> (r: bool)
        ensures
            r == mint_fatal(self@, op@),
    {
        let mut creator_account = match self.get_account(op.creator_account_id) {
            Some(account) => account,
            None => {
                return false;
            },
        };
        if creator_account.nonce != op.tx.nonce {
            return false;
        }
        if !big_ge(&creator_account.get_balance(op.tx.fee_token), &op.tx.fee) {
            return false;
        }
        if creator_account.nonce == u32::MAX {
            return true;
        }
        creator_account.sub_balance(op.tx.fee_token, &op.tx.fee);
        creator_account.nonce = creator_account.nonce + 1;
        creator_account.add_balance(NFT_TOKEN_ID, &big_from_u32(1));
        let nft_account = if op.creator_account_id == NFT_STORAGE_ACCOUNT_ID {
            creator_account
        } else {
            match self.get_account(NFT_STORAGE_ACCOUNT_ID) {
                Some(account) => account,
                None => {
                    let mut account = Account::default_with_address(
                        &nft_storage_account_address(),
                    );
                    account.add_balance(NFT_TOKEN_ID, &big_from_u32(MIN_NFT_TOKEN_ID));
                    account
                },
            }
        };
        match big_to_u32(&nft_account.get_balance(NFT_TOKEN_ID)) {
            None => true,
            Some(token_id) => token_id == NFT_TOKEN_ID || !big_eq(
                &nft_account.get_balance(token_id),
                &big_zero(),
            ),
        }
    }

    /// Applies a validated operation unless the ledger is corrupt for it.
    /// Where it is, nothing is returned and the store stays as it is.
    pub fn try_apply_op<H: Fn(AccountId, u32, H256) -> H256>(
        &mut self,
        op: &MintNFTOp,
        hasher: H,
    ) -> (res: Option<Result<(Option<CollectedFee>, AccountUpdates), MintNFTOpError>>)
        requires
            old(self).wf(),
            forall|creator_id: AccountId, serial_id: u32, content_hash: H256|
                hasher.requires((creator_id, serial_id, content_hash)),
        ensures
            final(self).wf(),
            match res {
                Some(result) => {
                    &&& !mint_fatal(old(self)@, op@)
                    &&& applied_with(hasher, old(self)@, op@, final(self)@, result_view(result))
                },
                None => mint_fatal(old(self)@, op@) && final(self)@ == old(self)@,
            },
    {
        if self.mint_is_fatal(op) {
            None
        } else {
            Some(self.apply_op(op, hasher))
        }
    }

    /// Validates a request and applies it unless the ledger is corrupt for
    /// it. Where it is, nothing is returned and the store stays as it is.
    pub fn try_apply_tx<H: Fn(AccountId, u32, H256) -> H256>(
        &mut self,
        tx: MintNFT,
        hasher: H,
    ) -> (res: Option<Result<OpSuccess, MintNFTOpError>>)
        requires
            old(self).wf(),
            forall|creator_id: AccountId, serial_id: u32, content_hash: H256|
                hasher.requires((creator_id, serial_id, content_hash)),
        ensures
            final(self).wf(),
            match res {
                Some(result) => {
                    &&& !tx_fatal(old(self)@, tx@)
                    &&& tx_applied_with(hasher, old(self)@, tx@, final(self)@, result)
                },
                None => tx_fatal(old(self)@, tx@) && final(self)@ == old(self)@,
            },
    {
        let op = match self.create_op(tx) {
            Ok(op) => op,
            Err(error) => {
                return Some(Err(error));
            },
        };
        match self.try_apply_op(&op, hasher) {
            Some(Ok((fee, updates))) => Some(
                Ok(OpSuccess { fee, updates, executed_op: ZkSyncOp::MintNFTOp(Box::new(op)) }),
            ),
            Some(Err(error)) => Some(Err(error)),
            None => None,
        }
    }

    /// The storage account, which is created first where the store has
    /// none, and the log of that creation.
    pub fn get_or_create_nft_account_token_id(&mut self) -> (r: (Account, AccountUpdates))
        requires
            old(self).wf(),
        ensures
            final(self).wf(),
            final(self)@ == with_nft_storage(old(self)@),
            r.0@ == final(self)@.accounts[NFT_STORAGE_ACCOUNT_ID],
            log_view(r.1@) == nft_storage_log(old(self)@),
    {
        match self.get_account(NFT_STORAGE_ACCOUNT_ID) {
            Some(account) => {
                let updates: AccountUpdates = Vec::new();
                (account, updates)
            },
            None => {
                let balance = big_from_u32(MIN_NFT_TOKEN_ID);
                let (mut account, mut updates) = Account::create_account(
                    NFT_STORAGE_ACCOUNT_ID,
                    nft_storage_account_address(),
                );
                account.add_balance(NFT_TOKEN_ID, &balance);
                self.insert_account(NFT_STORAGE_ACCOUNT_ID, account.clone());
                push_update(
                    &mut updates,
                    NFT_STORAGE_ACCOUNT_ID,
                    AccountUpdate::UpdateBalance {
                        balance_update: (NFT_TOKEN_ID, big_zero(), balance),
                        old_nonce: 0,
                        new_nonce: 0,
                    },
                );
                (account, updates)
            },
        }
    }
}

} // verus!
