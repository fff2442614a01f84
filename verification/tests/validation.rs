use num::BigUint;
use zksync_state::account::Account;
use zksync_state::operations::{MintNFT, MintNFTOpError};
use zksync_state::params::{max_processable_token, MAX_PROCESSABLE_TOKEN};
use zksync_state::primitives::{Address, PubKeyHash, H256};
use zksync_state::state::ZkSyncState;

fn amount(n: u32) -> BigUint {
    BigUint::from(n)
}

fn signing_key() -> PubKeyHash {
    PubKeyHash { data: [0x11; 20] }
}

fn minter_address() -> Address {
    Address::repeat_byte(0xc7)
}

fn holder_address() -> Address {
    Address::repeat_byte(0xa9)
}

/// Unlocked account 7 with 100 of token 0 and nonce 3, locked account 9.
fn two_accounts() -> ZkSyncState {
    let mut state = ZkSyncState::empty();
    let mut minter = Account::default_with_address(&minter_address());
    minter.pub_key_hash = signing_key();
    minter.nonce = 3;
    minter.set_balance(0, amount(100));
    state.insert_account(7, minter);
    state.insert_account(9, Account::default_with_address(&holder_address()));
    state
}

fn mint_request() -> MintNFT {
    MintNFT::new(
        7,
        minter_address(),
        H256([0x5a; 32]),
        holder_address(),
        amount(10),
        0,
        3,
        None,
    )
}

#[test]
fn valid_request_resolves_both_accounts() {
    let state = two_accounts();
    let op = state.create_op(mint_request()).unwrap();
    assert_eq!(op.creator_account_id, 7);
    assert_eq!(op.recipient_account_id, 9);
    assert_eq!(op.tx, mint_request());
}

#[test]
fn validation_leaves_the_store_alone() {
    let state = two_accounts();
    state.create_op(mint_request()).unwrap();
    let minter = state.get_account(7).unwrap();
    assert_eq!(minter.nonce, 3);
    assert_eq!(minter.get_balance(0), amount(100));
}

#[test]
fn largest_processable_fee_token_is_accepted() {
    assert_eq!(max_processable_token(), 1023);
    assert_eq!(MAX_PROCESSABLE_TOKEN, 1023);
    let state = two_accounts();
    let mut tx = mint_request();
    tx.fee_token = 1023;
    assert!(state.create_op(tx).is_ok());
}

#[test]
fn fee_token_above_the_largest_is_rejected() {
    let state = two_accounts();
    let mut tx = mint_request();
    tx.fee_token = 1024;
    assert_eq!(state.create_op(tx).unwrap_err(), MintNFTOpError::InvalidTokenId);
}

#[test]
fn zero_recipient_is_rejected() {
    let state = two_accounts();
    let mut tx = mint_request();
    tx.recipient = Address::zero();
    assert_eq!(state.create_op(tx).unwrap_err(), MintNFTOpError::RecipientAccountIncorrect);
}

#[test]
fn zero_recipient_is_rejected_even_where_an_account_has_that_address() {
    let mut state = two_accounts();
    state.insert_account(11, Account::default_with_address(&Address::zero()));
    let mut tx = mint_request();
    tx.recipient = Address::zero();
    assert_eq!(state.create_op(tx).unwrap_err(), MintNFTOpError::RecipientAccountIncorrect);
}

#[test]
fn unknown_creator_is_rejected() {
    let state = two_accounts();
    let mut tx = mint_request();
    tx.creator_id = 8;
    assert_eq!(state.create_op(tx).unwrap_err(), MintNFTOpError::CreatorAccountNotFound);
}

#[test]
fn locked_creator_is_rejected() {
    let state = two_accounts();
    let mut tx = mint_request();
    tx.creator_id = 9;
    tx.nonce = 0;
    assert_eq!(state.create_op(tx).unwrap_err(), MintNFTOpError::CreatorAccountIsLocked);
}

#[test]
fn signature_of_another_key_is_rejected() {
    let state = two_accounts();
    let mut tx = mint_request();
    tx.signer = Some(PubKeyHash { data: [0x22; 20] });
    assert_eq!(state.create_op(tx).unwrap_err(), MintNFTOpError::InvalidSignature);
}

#[test]
fn signature_of_the_creators_key_is_accepted() {
    let state = two_accounts();
    let mut tx = mint_request();
    tx.signer = Some(signing_key());
    assert_eq!(tx.verify_signature(), Some(signing_key()));
    assert!(state.create_op(tx).is_ok());
}

#[test]
fn request_without_signature_is_accepted() {
    let state = two_accounts();
    let tx = mint_request();
    assert_eq!(tx.verify_signature(), None);
    assert!(state.create_op(tx).is_ok());
}

#[test]
fn recipient_without_account_is_rejected() {
    let state = two_accounts();
    let mut tx = mint_request();
    tx.recipient = Address::repeat_byte(0x42);
    assert_eq!(state.create_op(tx).unwrap_err(), MintNFTOpError::RecipientAccountNotFound);
}

#[test]
fn checks_come_in_order() {
    let state = two_accounts();

    // Invalid fee token before the zero recipient.
    let mut tx = mint_request();
    tx.fee_token = 5000;
    tx.recipient = Address::zero();
    tx.creator_id = 8;
    assert_eq!(state.create_op(tx).unwrap_err(), MintNFTOpError::InvalidTokenId);

    // Zero recipient before the unknown creator.
    let mut tx = mint_request();
    tx.recipient = Address::zero();
    tx.creator_id = 8;
    assert_eq!(state.create_op(tx).unwrap_err(), MintNFTOpError::RecipientAccountIncorrect);

    // Unknown creator before the unknown recipient.
    let mut tx = mint_request();
    tx.creator_id = 8;
    tx.recipient = Address::repeat_byte(0x42);
    assert_eq!(state.create_op(tx).unwrap_err(), MintNFTOpError::CreatorAccountNotFound);

    // Locked creator before the wrong signature.
    let mut tx = mint_request();
    tx.creator_id = 9;
    tx.signer = Some(signing_key());
    assert_eq!(state.create_op(tx).unwrap_err(), MintNFTOpError::CreatorAccountIsLocked);

    // Wrong signature before the unknown recipient.
    let mut tx = mint_request();
    tx.signer = Some(PubKeyHash { data: [0x22; 20] });
    tx.recipient = Address::repeat_byte(0x42);
    assert_eq!(state.create_op(tx).unwrap_err(), MintNFTOpError::InvalidSignature);
}

#[test]
fn validation_does_not_look_at_nonce_or_balance() {
    let state = two_accounts();
    let mut tx = mint_request();
    tx.nonce = 77;
    tx.fee = amount(1_000_000);
    assert!(state.create_op(tx).is_ok());
}
