use num::BigUint;
use zksync_state::account::Account;
use zksync_state::operations::{CollectedFee, MintNFT, MintNFTOpError, ZkSyncOp};
use zksync_state::params::{MIN_NFT_TOKEN_ID, NFT_STORAGE_ACCOUNT_ID, NFT_TOKEN_ID};
use zksync_state::primitives::{Address, PubKeyHash, H256};
use zksync_state::state::ZkSyncState;
use zksync_state::update::AccountUpdate;

fn big(n: u32) -> BigUint {
    BigUint::from(n)
}

fn hasher(creator_id: u32, serial_id: u32, content_hash: H256) -> H256 {
    let mut bytes = content_hash.0;
    bytes[0..4].copy_from_slice(&creator_id.to_be_bytes());
    bytes[28..32].copy_from_slice(&serial_id.to_be_bytes());
    H256(bytes)
}

fn key() -> PubKeyHash {
    PubKeyHash { data: [0x11; 20] }
}

fn creator_address() -> Address {
    Address::repeat_byte(0xc7)
}

fn recipient_address() -> Address {
    Address::repeat_byte(0xa9)
}

fn content() -> H256 {
    H256([0x5a; 32])
}

/// Creator 7 with 100 of token 0 and nonce 3, recipient 9.
fn ledger() -> ZkSyncState {
    let mut state = ZkSyncState::empty();
    let mut creator = Account::default_with_address(&creator_address());
    creator.pub_key_hash = key();
    creator.nonce = 3;
    creator.set_balance(0, big(100));
    state.insert_account(7, creator);
    state.insert_account(9, Account::default_with_address(&recipient_address()));
    state
}

fn request(fee: u32, nonce: u32) -> MintNFT {
    MintNFT::new(7, creator_address(), content(), recipient_address(), big(fee), 0, nonce, None)
}

#[test]
fn mint_moves_fee_counters_and_token() {
    let mut state = ledger();
    let success = state.apply_tx(request(10, 3), hasher).unwrap();

    let creator = state.get_account(7).unwrap();
    assert_eq!(creator.get_balance(0), big(90));
    assert_eq!(creator.nonce, 4);
    assert_eq!(creator.get_balance(NFT_TOKEN_ID), big(1));

    let storage = state.get_account(NFT_STORAGE_ACCOUNT_ID).unwrap();
    assert_eq!(storage.get_balance(NFT_TOKEN_ID), big(MIN_NFT_TOKEN_ID + 1));
    assert_eq!(storage.address, Address::repeat_byte(0xff));
    assert_eq!(storage.nonce, 0);

    let token = state.get_nft(MIN_NFT_TOKEN_ID).unwrap();
    assert_eq!(token.id, MIN_NFT_TOKEN_ID);
    assert_eq!(token.serial_id, 0);
    assert_eq!(token.creator_id, 7);
    assert_eq!(token.creator_address, creator_address());
    assert_eq!(token.content_hash, content());

    let recipient = state.get_account(9).unwrap();
    assert_eq!(recipient.get_balance(MIN_NFT_TOKEN_ID), big(1));

    assert_eq!(success.fee, Some(CollectedFee { token: 0, amount: big(10) }));
    match success.executed_op {
        ZkSyncOp::MintNFTOp(op) => {
            assert_eq!(op.creator_account_id, 7);
            assert_eq!(op.recipient_account_id, 9);
        }
    }
}

#[test]
fn mint_derives_address_and_data_from_the_hash() {
    let mut state = ledger();
    state.apply_tx(request(10, 3), hasher).unwrap();
    let hash = hasher(7, 0, content());
    let token = state.get_nft(MIN_NFT_TOKEN_ID).unwrap();
    let mut address = [0u8; 20];
    address.copy_from_slice(&hash.0[12..]);
    assert_eq!(token.address, Address(address));
    let storage = state.get_account(NFT_STORAGE_ACCOUNT_ID).unwrap();
    assert_eq!(storage.get_balance(MIN_NFT_TOKEN_ID), BigUint::from_bytes_be(&hash.0[16..]));
}

#[test]
fn mint_logs_every_change_in_order() {
    let mut state = ledger();
    let success = state.apply_tx(request(10, 3), hasher).unwrap();
    let hash = hasher(7, 0, content());
    let token = state.get_nft(MIN_NFT_TOKEN_ID).unwrap();
    let expected = vec![
        (
            7,
            AccountUpdate::UpdateBalance {
                old_nonce: 3,
                new_nonce: 4,
                balance_update: (0, big(100), big(90)),
            },
        ),
        (
            7,
            AccountUpdate::UpdateBalance {
                old_nonce: 4,
                new_nonce: 4,
                balance_update: (NFT_TOKEN_ID, big(0), big(1)),
            },
        ),
        (
            NFT_STORAGE_ACCOUNT_ID,
            AccountUpdate::Create { address: Address::repeat_byte(0xff), nonce: 0 },
        ),
        (
            NFT_STORAGE_ACCOUNT_ID,
            AccountUpdate::UpdateBalance {
                old_nonce: 0,
                new_nonce: 0,
                balance_update: (NFT_TOKEN_ID, big(0), big(MIN_NFT_TOKEN_ID)),
            },
        ),
        (
            NFT_STORAGE_ACCOUNT_ID,
            AccountUpdate::UpdateBalance {
                old_nonce: 0,
                new_nonce: 0,
                balance_update: (
                    NFT_TOKEN_ID,
                    big(MIN_NFT_TOKEN_ID),
                    big(MIN_NFT_TOKEN_ID + 1),
                ),
            },
        ),
        (7, AccountUpdate::MintNFT { token, nonce: 3 }),
        (
            NFT_STORAGE_ACCOUNT_ID,
            AccountUpdate::UpdateBalance {
                old_nonce: 0,
                new_nonce: 0,
                balance_update: (
                    MIN_NFT_TOKEN_ID,
                    big(0),
                    BigUint::from_bytes_be(&hash.0[16..]),
                ),
            },
        ),
        (
            9,
            AccountUpdate::UpdateBalance {
                old_nonce: 0,
                new_nonce: 0,
                balance_update: (MIN_NFT_TOKEN_ID, big(0), big(1)),
            },
        ),
    ];
    assert_eq!(success.updates, expected);
}

#[test]
fn stale_nonce_is_rejected_and_nothing_changes() {
    let mut state = ledger();
    let result = state.apply_tx(request(10, 2), hasher);
    assert_eq!(result.unwrap_err(), MintNFTOpError::NonceMismatch);
    let creator = state.get_account(7).unwrap();
    assert_eq!(creator.get_balance(0), big(100));
    assert_eq!(creator.nonce, 3);
    assert_eq!(creator.get_balance(NFT_TOKEN_ID), big(0));
    assert!(state.get_account(NFT_STORAGE_ACCOUNT_ID).is_none());
    assert!(state.get_nft(MIN_NFT_TOKEN_ID).is_none());
    assert_eq!(state.get_account(9).unwrap().get_balance(MIN_NFT_TOKEN_ID), big(0));
}

#[test]
fn fee_above_balance_is_rejected_and_nothing_changes() {
    let mut state = ledger();
    let result = state.apply_tx(request(150, 3), hasher);
    assert_eq!(result.unwrap_err(), MintNFTOpError::InsufficientBalance);
    let creator = state.get_account(7).unwrap();
    assert_eq!(creator.get_balance(0), big(100));
    assert_eq!(creator.nonce, 3);
    assert!(state.get_account(NFT_STORAGE_ACCOUNT_ID).is_none());
    assert!(state.get_nft(MIN_NFT_TOKEN_ID).is_none());
}

#[test]
fn unknown_recipient_is_rejected_by_validation() {
    let state = ledger();
    let tx = MintNFT::new(
        7,
        creator_address(),
        content(),
        Address::repeat_byte(0x42),
        big(10),
        0,
        3,
        None,
    );
    assert_eq!(state.create_op(tx).unwrap_err(), MintNFTOpError::RecipientAccountNotFound);
    assert_eq!(state.get_account(7).unwrap().get_balance(0), big(100));
    assert_eq!(state.get_account(7).unwrap().nonce, 3);
}
