use num::BigUint;
use zksync_state::account::Account;
use zksync_state::primitives::{bytes_equal, Address, PubKeyHash, H256};
use zksync_state::state::ZkSyncState;
use zksync_state::tokens::{calculate_token_address, calculate_token_data, NFT};
use zksync_state::update::AccountUpdate;

fn units(n: u32) -> BigUint {
    BigUint::from(n)
}

fn counting_hash() -> H256 {
    let mut bytes = [0u8; 32];
    for (i, byte) in bytes.iter_mut().enumerate() {
        *byte = i as u8;
    }
    H256(bytes)
}

#[test]
fn new_account_is_empty_and_locked() {
    let address = Address::repeat_byte(0x31);
    let account = Account::default_with_address(&address);
    assert_eq!(account.address, address);
    assert_eq!(account.nonce, 0);
    assert_eq!(account.pub_key_hash, PubKeyHash::default());
    assert_eq!(account.pub_key_hash, PubKeyHash { data: [0; 20] });
    assert_eq!(account.get_balance(0), units(0));
    assert_eq!(account.get_balance(4_000_000_000), units(0));
}

#[test]
fn default_account_has_the_zero_address() {
    let account = Account::default();
    assert_eq!(account.address, Address::zero());
    assert_eq!(account.address, Address([0; 20]));
    assert_eq!(account.nonce, 0);
}

#[test]
fn create_account_logs_the_creation() {
    let address = Address::repeat_byte(0x31);
    let (account, updates) = Account::create_account(5, address);
    assert_eq!(account.address, address);
    assert_eq!(account.nonce, 0);
    assert_eq!(updates, vec![(5, AccountUpdate::Create { address, nonce: 0 })]);
}

#[test]
fn balances_add_up() {
    let mut account = Account::default_with_address(&Address::repeat_byte(1));
    account.add_balance(3, &units(40));
    account.add_balance(3, &units(2));
    account.add_balance(4, &units(7));
    assert_eq!(account.get_balance(3), units(42));
    assert_eq!(account.get_balance(4), units(7));
    assert_eq!(account.get_balance(5), units(0));
}

#[test]
fn balances_grow_beyond_any_machine_word() {
    let mut account = Account::default_with_address(&Address::repeat_byte(1));
    let huge = BigUint::parse_bytes(b"340282366920938463463374607431768211455", 10).unwrap();
    account.add_balance(3, &huge);
    account.add_balance(3, &huge);
    let twice = BigUint::parse_bytes(b"680564733841876926926749214863536422910", 10).unwrap();
    assert_eq!(account.get_balance(3), twice);
}

#[test]
fn balances_are_taken_from() {
    let mut account = Account::default_with_address(&Address::repeat_byte(1));
    account.set_balance(3, units(100));
    account.sub_balance(3, &units(10));
    assert_eq!(account.get_balance(3), units(90));
    account.sub_balance(3, &units(90));
    assert_eq!(account.get_balance(3), units(0));
    account.sub_balance(9, &units(0));
    assert_eq!(account.get_balance(9), units(0));
}

#[test]
fn set_balance_replaces() {
    let mut account = Account::default_with_address(&Address::repeat_byte(1));
    account.set_balance(3, units(100));
    account.set_balance(3, units(5));
    assert_eq!(account.get_balance(3), units(5));
}

#[test]
fn clone_of_an_account_is_independent() {
    let mut account = Account::default_with_address(&Address::repeat_byte(1));
    account.set_balance(3, units(100));
    account.nonce = 8;
    let copy = account.clone();
    account.add_balance(3, &units(1));
    assert_eq!(copy.get_balance(3), units(100));
    assert_eq!(copy.nonce, 8);
    assert_eq!(copy.address, Address::repeat_byte(1));
}

#[test]
fn empty_store_has_nothing() {
    let state = ZkSyncState::empty();
    assert!(state.get_account(0).is_none());
    assert!(state.get_account_by_address(&Address::zero()).is_none());
    assert!(state.get_nft(65536).is_none());
}

#[test]
fn stored_account_is_found_by_id_and_by_address() {
    let mut state = ZkSyncState::empty();
    let address = Address::repeat_byte(0x31);
    let mut account = Account::default_with_address(&address);
    account.set_balance(2, units(9));
    state.insert_account(5, account);

    let by_id = state.get_account(5).unwrap();
    assert_eq!(by_id.address, address);
    assert_eq!(by_id.get_balance(2), units(9));

    let (id, by_address) = state.get_account_by_address(&address).unwrap();
    assert_eq!(id, 5);
    assert_eq!(by_address.get_balance(2), units(9));

    assert!(state.get_account(6).is_none());
    assert!(state.get_account_by_address(&Address::repeat_byte(0x32)).is_none());
}

#[test]
fn storing_again_replaces_the_account() {
    let mut state = ZkSyncState::empty();
    let address = Address::repeat_byte(0x31);
    let mut account = Account::default_with_address(&address);
    account.set_balance(2, units(9));
    state.insert_account(5, account.clone());
    account.set_balance(2, units(1));
    account.nonce = 4;
    state.insert_account(5, account);
    let stored = state.get_account(5).unwrap();
    assert_eq!(stored.get_balance(2), units(1));
    assert_eq!(stored.nonce, 4);
}

#[test]
fn address_leads_to_the_identifier_stored_last() {
    let mut state = ZkSyncState::empty();
    let address = Address::repeat_byte(0x31);
    state.insert_account(5, Account::default_with_address(&address));
    state.insert_account(6, Account::default_with_address(&address));
    let (id, _) = state.get_account_by_address(&address).unwrap();
    assert_eq!(id, 6);
    assert!(state.get_account(5).is_some());
}

#[test]
fn fetched_account_is_a_copy() {
    let mut state = ZkSyncState::empty();
    state.insert_account(5, Account::default_with_address(&Address::repeat_byte(0x31)));
    let mut copy = state.get_account(5).unwrap();
    copy.set_balance(0, units(50));
    copy.nonce = 1;
    assert_eq!(state.get_account(5).unwrap().get_balance(0), units(0));
    assert_eq!(state.get_account(5).unwrap().nonce, 0);
}

#[test]
fn snapshot_does_not_follow_the_store() {
    let mut state = ZkSyncState::empty();
    state.insert_account(5, Account::default_with_address(&Address::repeat_byte(0x31)));
    let snapshot = state.clone();
    state.insert_account(6, Account::default_with_address(&Address::repeat_byte(0x32)));
    assert!(snapshot.get_account(5).is_some());
    assert!(snapshot.get_account(6).is_none());
    assert!(snapshot.get_account_by_address(&Address::repeat_byte(0x31)).is_some());
    assert!(snapshot.get_account_by_address(&Address::repeat_byte(0x32)).is_none());
}

#[test]
fn registry_keeps_tokens_by_identifier() {
    let mut state = ZkSyncState::empty();
    let token = NFT::new(
        65536,
        0,
        7,
        Address::repeat_byte(0xc7),
        Address::repeat_byte(0x01),
        H256([0x5a; 32]),
    );
    state.insert_nft(token);
    assert_eq!(state.get_nft(65536), Some(token));
    assert_eq!(state.get_nft(65537), None);
    assert_eq!(token.id, 65536);
    assert_eq!(token.serial_id, 0);
    assert_eq!(token.creator_id, 7);
    assert_eq!(token.creator_address, Address::repeat_byte(0xc7));
    assert_eq!(token.address, Address::repeat_byte(0x01));
    assert_eq!(token.content_hash, H256([0x5a; 32]));
}

#[test]
fn token_address_is_the_last_twenty_bytes_of_the_hash() {
    let address = calculate_token_address(&counting_hash());
    assert_eq!(
        address,
        Address([12, 13, 14, 15, 16, 17, 18, 19, 20, 21, 22, 23, 24, 25, 26, 27, 28, 29, 30, 31])
    );
}

#[test]
fn token_data_is_the_last_sixteen_bytes_most_significant_first() {
    let data = calculate_token_data(&counting_hash());
    let expected = BigUint::parse_bytes(b"101112131415161718191a1b1c1d1e1f", 16).unwrap();
    assert_eq!(data, expected);
    assert_eq!(
        data,
        BigUint::parse_bytes(b"21356283574076891493948969979685445151", 10).unwrap()
    );
}

#[test]
fn token_data_of_small_hashes() {
    let mut bytes = [0xffu8; 32];
    for byte in bytes[16..].iter_mut() {
        *byte = 0;
    }
    assert_eq!(calculate_token_data(&H256(bytes)), units(0));
    bytes[31] = 1;
    assert_eq!(calculate_token_data(&H256(bytes)), units(1));
    bytes[30] = 1;
    assert_eq!(calculate_token_data(&H256(bytes)), units(257));
    bytes[15] = 0;
    assert_eq!(calculate_token_data(&H256(bytes)), units(257));
}

#[test]
fn replaying_a_creation_makes_the_account_once() {
    let mut state = ZkSyncState::empty();
    let first = Address::repeat_byte(0x31);
    let second = Address::repeat_byte(0x32);
    state.apply_account_update(5, &AccountUpdate::Create { address: first, nonce: 2 });
    let created = state.get_account(5).unwrap();
    assert_eq!(created.address, first);
    assert_eq!(created.nonce, 2);
    assert_eq!(created.pub_key_hash, PubKeyHash::default());
    assert_eq!(state.get_account_by_address(&first).unwrap().0, 5);

    state.apply_account_update(5, &AccountUpdate::Create { address: second, nonce: 9 });
    let kept = state.get_account(5).unwrap();
    assert_eq!(kept.address, first);
    assert_eq!(kept.nonce, 2);
    assert!(state.get_account_by_address(&second).is_none());
}

#[test]
fn replaying_a_balance_update_sets_balance_and_nonce() {
    let mut state = ZkSyncState::empty();
    state.insert_account(5, Account::default_with_address(&Address::repeat_byte(0x31)));
    let update = AccountUpdate::UpdateBalance {
        old_nonce: 0,
        new_nonce: 1,
        balance_update: (3, units(0), units(25)),
    };
    state.apply_account_update(5, &update);
    let account = state.get_account(5).unwrap();
    assert_eq!(account.get_balance(3), units(25));
    assert_eq!(account.nonce, 1);

    // Nothing is there to update under another identifier.
    state.apply_account_update(6, &update);
    assert!(state.get_account(6).is_none());
}

#[test]
fn replaying_a_mint_registers_the_token() {
    let mut state = ZkSyncState::empty();
    let token = NFT::new(
        65540,
        3,
        7,
        Address::repeat_byte(0xc7),
        Address::repeat_byte(0x01),
        H256([0x5a; 32]),
    );
    state.apply_account_update(7, &AccountUpdate::MintNFT { token, nonce: 3 });
    assert_eq!(state.get_nft(65540), Some(token));
    assert!(state.get_account(7).is_none());
}

#[test]
fn replaying_a_log_goes_in_order() {
    let mut state = ZkSyncState::empty();
    let address = Address::repeat_byte(0x31);
    let log = vec![
        (5, AccountUpdate::Create { address, nonce: 0 }),
        (
            5,
            AccountUpdate::UpdateBalance {
                old_nonce: 0,
                new_nonce: 1,
                balance_update: (3, units(0), units(25)),
            },
        ),
        (
            5,
            AccountUpdate::UpdateBalance {
                old_nonce: 1,
                new_nonce: 2,
                balance_update: (3, units(25), units(20)),
            },
        ),
    ];
    state.apply_account_updates(&log);
    let account = state.get_account(5).unwrap();
    assert_eq!(account.get_balance(3), units(20));
    assert_eq!(account.nonce, 2);
}

#[test]
fn clone_of_an_update_says_the_same() {
    let update = AccountUpdate::UpdateBalance {
        old_nonce: 1,
        new_nonce: 2,
        balance_update: (3, units(25), units(20)),
    };
    assert_eq!(update.clone(), update);
    let creation = AccountUpdate::Create { address: Address::repeat_byte(9), nonce: 4 };
    assert_eq!(creation.clone(), creation);
}

#[test]
fn addresses_compare_by_their_bytes() {
    let mut bytes = [7u8; 20];
    assert_eq!(Address(bytes), Address::repeat_byte(7));
    bytes[19] = 8;
    assert_ne!(Address(bytes), Address::repeat_byte(7));
    bytes[19] = 7;
    bytes[0] = 8;
    assert_ne!(Address(bytes), Address::repeat_byte(7));
    assert_eq!(Address::zero(), Address([0; 20]));
    assert_ne!(Address::zero(), Address::repeat_byte(1));
}

#[test]
fn hashes_and_key_fingerprints_compare_by_their_bytes() {
    let mut bytes = [3u8; 32];
    assert_eq!(H256(bytes), H256([3; 32]));
    bytes[31] = 4;
    assert_ne!(H256(bytes), H256([3; 32]));
    let mut data = [5u8; 20];
    assert_eq!(PubKeyHash { data }, PubKeyHash { data: [5; 20] });
    data[10] = 6;
    assert_ne!(PubKeyHash { data }, PubKeyHash { data: [5; 20] });
}

#[test]
fn byte_arrays_are_equal_where_every_byte_is() {
    assert!(bytes_equal(&[1u8, 2, 3], &[1u8, 2, 3]));
    assert!(!bytes_equal(&[1u8, 2, 3], &[1u8, 2, 4]));
    assert!(!bytes_equal(&[0u8, 2, 3], &[1u8, 2, 3]));
    assert!(bytes_equal::<0>(&[], &[]));
}

#[test]
fn token_data_has_at_most_128_bits() {
    let data = calculate_token_data(&H256([0xff; 32]));
    assert_eq!(data, BigUint::from(u128::MAX));
    assert_eq!(
        data,
        BigUint::parse_bytes(b"340282366920938463463374607431768211455", 10).unwrap()
    );
}
