use cryptocurrency::api::{
    accept_request, service_id_response, service_id_route, transaction_response,
    transaction_route, ApiError, RequestBody, TransactionRequest, TransactionResponse,
};
use cryptocurrency::crypto::{PublicKey, Signature};
use cryptocurrency::messages::{TxCreateWallet, TxTransfer};
use cryptocurrency::schema::{gen_prefix, CurrencySchema, MapIndex};
use cryptocurrency::storage::Fork;
use cryptocurrency::transaction::Transaction;
use cryptocurrency::wallet::Wallet;
use cryptocurrency::INIT_BALANCE;

fn key(byte: u8) -> PublicKey {
    PublicKey::new([byte; 32])
}

fn signature() -> Signature {
    Signature::new([0u8; 64])
}

fn create(fork: &mut Fork, owner: u8, name: &str) {
    TxCreateWallet::new_with_signature(&key(owner), name, &signature()).execute(fork);
}

fn transfer(fork: &mut Fork, from: u8, to: u8, amount: u64) {
    TxTransfer::new_with_signature(&key(from), &key(to), amount, 0, &signature()).execute(fork);
}

fn wallet(fork: &mut Fork, owner: u8) -> Option<Wallet> {
    CurrencySchema::new(fork).wallet(&key(owner))
}

fn balance(fork: &mut Fork, owner: u8) -> u64 {
    wallet(fork, owner).unwrap().balance()
}

fn total(fork: &mut Fork, owners: &[u8]) -> u128 {
    let mut sum = 0u128;
    for owner in owners {
        if let Some(wallet) = wallet(fork, *owner) {
            sum += wallet.balance() as u128;
        }
    }
    sum
}

fn storage_key(owner: u8) -> Vec<u8> {
    let mut full = vec![0u8, 1, 0];
    full.extend_from_slice(&[owner; 32]);
    full
}

#[test]
fn transfer_moves_the_amount() {
    let mut fork = Fork::new();
    create(&mut fork, b'A', "A");
    create(&mut fork, b'B', "B");
    assert_eq!(balance(&mut fork, b'A'), 1000);
    assert_eq!(balance(&mut fork, b'B'), 1000);
    transfer(&mut fork, b'A', b'B', 300);
    assert_eq!(balance(&mut fork, b'A'), 700);
    assert_eq!(balance(&mut fork, b'B'), 1300);
}

#[test]
fn transfer_of_more_than_the_balance_is_skipped() {
    let mut fork = Fork::new();
    create(&mut fork, b'A', "A");
    create(&mut fork, b'B', "B");
    transfer(&mut fork, b'A', b'B', 1500);
    assert_eq!(balance(&mut fork, b'A'), 1000);
    assert_eq!(balance(&mut fork, b'B'), 1000);
}

#[test]
fn second_creation_keeps_the_first_wallet() {
    let mut fork = Fork::new();
    create(&mut fork, b'A', "first");
    create(&mut fork, b'A', "second");
    let wallet = wallet(&mut fork, b'A').unwrap();
    assert_eq!(wallet.name(), "first");
    assert_eq!(wallet.balance(), 1000);
    assert_eq!(wallet.pub_key(), key(b'A'));
}

#[test]
fn creation_twice_is_creation_once() {
    let mut once = Fork::new();
    create(&mut once, 1, "Alice");
    let mut twice = Fork::new();
    create(&mut twice, 1, "Alice");
    create(&mut twice, 1, "Alice");
    assert_eq!(once.get(&storage_key(1)), twice.get(&storage_key(1)));
    assert_eq!(wallet(&mut twice, 1), Some(Wallet::new(&key(1), "Alice", INIT_BALANCE)));
}

#[test]
fn creation_stores_the_wallet_under_the_prefixed_key() {
    let mut fork = Fork::new();
    create(&mut fork, 5, "Eve");
    assert_eq!(
        fork.get(&storage_key(5)),
        Some(Wallet::new(&key(5), "Eve", 1000).into_bytes())
    );
    assert!(fork.contains(&storage_key(5)));
    assert!(!fork.contains(&[5u8; 32]));
    assert_eq!(fork.get(&storage_key(6)), None);
}

#[test]
fn transfers_conserve_the_total() {
    let owners = [1u8, 2, 3, 4];
    let mut fork = Fork::new();
    create(&mut fork, 1, "one");
    create(&mut fork, 2, "two");
    create(&mut fork, 3, "three");
    assert_eq!(total(&mut fork, &owners), 3000);
    let transfers = [
        (1u8, 2u8, 300u64),
        (2, 3, 1300),
        (3, 1, 5000),
        (3, 3, 10),
        (1, 4, 10),
        (4, 1, 10),
        (3, 1, 2300),
        (1, 2, 0),
    ];
    for (from, to, amount) in transfers {
        transfer(&mut fork, from, to, amount);
        assert_eq!(total(&mut fork, &owners), 3000);
    }
    assert_eq!(balance(&mut fork, 1), 3000);
    assert_eq!(balance(&mut fork, 2), 0);
    assert_eq!(balance(&mut fork, 3), 0);
    assert_eq!(wallet(&mut fork, 4), None);
}

#[test]
fn transfer_of_the_whole_balance_leaves_zero() {
    let mut fork = Fork::new();
    create(&mut fork, 1, "one");
    create(&mut fork, 2, "two");
    transfer(&mut fork, 1, 2, 1000);
    assert_eq!(balance(&mut fork, 1), 0);
    assert_eq!(balance(&mut fork, 2), 2000);
    transfer(&mut fork, 1, 2, 1);
    assert_eq!(balance(&mut fork, 1), 0);
    assert_eq!(balance(&mut fork, 2), 2000);
}

#[test]
fn transfer_to_a_missing_wallet_is_skipped() {
    let mut fork = Fork::new();
    create(&mut fork, 1, "one");
    transfer(&mut fork, 1, 2, 100);
    assert_eq!(balance(&mut fork, 1), 1000);
    assert_eq!(wallet(&mut fork, 2), None);
    assert_eq!(fork.get(&storage_key(2)), None);
}

#[test]
fn transfer_from_a_missing_wallet_is_skipped() {
    let mut fork = Fork::new();
    create(&mut fork, 2, "two");
    transfer(&mut fork, 1, 2, 100);
    assert_eq!(balance(&mut fork, 2), 1000);
    assert_eq!(wallet(&mut fork, 1), None);
}

#[test]
fn transfer_to_oneself_is_skipped() {
    let mut fork = Fork::new();
    create(&mut fork, 1, "one");
    transfer(&mut fork, 1, 1, 100);
    assert_eq!(balance(&mut fork, 1), 1000);
}

#[test]
fn transfer_that_would_overflow_the_receiver_is_skipped() {
    let mut fork = Fork::new();
    create(&mut fork, 1, "one");
    MapIndex::new(gen_prefix(1, 0), &mut fork).put(&key(2), Wallet::new(&key(2), "two", u64::MAX - 99));
    transfer(&mut fork, 1, 2, 100);
    assert_eq!(balance(&mut fork, 1), 1000);
    assert_eq!(balance(&mut fork, 2), u64::MAX - 99);
    transfer(&mut fork, 1, 2, 99);
    assert_eq!(balance(&mut fork, 1), 901);
    assert_eq!(balance(&mut fork, 2), u64::MAX);
}

#[test]
fn transactions_leave_other_entries_alone() {
    let mut fork = Fork::new();
    fork.put(vec![0, 2, 0, 1], vec![1, 2, 3]);
    fork.put(vec![9], vec![]);
    create(&mut fork, 1, "one");
    create(&mut fork, 2, "two");
    create(&mut fork, 3, "three");
    let third = fork.get(&storage_key(3));
    transfer(&mut fork, 1, 2, 10);
    assert_eq!(fork.get(&[0, 2, 0, 1]), Some(vec![1, 2, 3]));
    assert_eq!(fork.get(&[9]), Some(vec![]));
    assert_eq!(fork.get(&storage_key(3)), third);
}

#[test]
fn value_that_is_no_wallet_counts_as_none() {
    let mut fork = Fork::new();
    fork.put(storage_key(1), vec![1, 2, 3]);
    assert_eq!(wallet(&mut fork, 1), None);
    create(&mut fork, 1, "one");
    assert_eq!(balance(&mut fork, 1), 1000);
}

#[test]
fn transaction_dispatches_to_its_kind() {
    let mut fork = Fork::new();
    let create_one = TxCreateWallet::new_with_signature(&key(1), "one", &signature());
    let create_two = TxCreateWallet::new_with_signature(&key(2), "two", &signature());
    let pay = TxTransfer::new_with_signature(&key(1), &key(2), 250, 1, &signature());
    Transaction::CreateWallet(create_one.clone()).execute(&mut fork);
    Transaction::CreateWallet(create_two).execute(&mut fork);
    let tx = Transaction::Transfer(pay.clone());
    tx.execute(&mut fork);
    assert_eq!(balance(&mut fork, 1), 750);
    assert_eq!(balance(&mut fork, 2), 1250);
    assert_eq!(tx.signer(), key(1));
    assert_eq!(tx.raw(), pay.raw());
    assert_eq!(Transaction::CreateWallet(create_one).signer(), key(1));
}

#[test]
fn fork_put_replaces_the_value() {
    let mut fork = Fork::new();
    assert_eq!(fork.get(b"k"), None);
    fork.put(b"k".to_vec(), b"one".to_vec());
    fork.put(b"l".to_vec(), b"other".to_vec());
    fork.put(b"k".to_vec(), b"two".to_vec());
    assert_eq!(fork.get(b"k"), Some(b"two".to_vec()));
    assert_eq!(fork.get(b"l"), Some(b"other".to_vec()));
    assert_eq!(fork.get(b""), None);
}

#[test]
fn index_keeps_to_its_prefix() {
    let mut fork = Fork::new();
    let wallet = Wallet::new(&key(1), "one", 5);
    let mut index = MapIndex::new(gen_prefix(0x0102, 3), &mut fork);
    assert!(!index.contains(&key(1)));
    index.put(&key(1), wallet.clone());
    assert!(index.contains(&key(1)));
    assert_eq!(index.get(&key(1)), Some(wallet.clone()));
    let mut full = vec![1u8, 2, 3];
    full.extend_from_slice(&[1u8; 32]);
    assert_eq!(fork.get(&full), Some(wallet.into_bytes()));
    assert_eq!(CurrencySchema::new(&mut fork).wallet(&key(1)), None);
    assert_eq!(gen_prefix(1, 0), vec![0, 1, 0]);
}

#[test]
fn tables_of_other_services_share_no_key() {
    let mut fork = Fork::new();
    let wallet = Wallet::new(&key(1), "one", 5);
    MapIndex::new(gen_prefix(2, 0), &mut fork).put(&key(1), wallet.clone());
    MapIndex::new(gen_prefix(1, 1), &mut fork).put(&key(1), wallet.clone());
    MapIndex::new(gen_prefix(0x0100, 0), &mut fork).put(&key(1), wallet);
    assert_eq!(CurrencySchema::new(&mut fork).wallet(&key(1)), None);
    create(&mut fork, 1, "mine");
    assert_eq!(
        MapIndex::new(gen_prefix(2, 0), &mut fork).get(&key(1)),
        Some(Wallet::new(&key(1), "one", 5))
    );
    assert_eq!(balance(&mut fork, 1), 1000);
    assert_eq!(gen_prefix(0x0100, 0), vec![1, 0, 0]);
    assert_eq!(gen_prefix(2, 1), vec![0, 2, 1]);
}

#[test]
fn stored_wallet_is_read_back() {
    for (name, amount) in [("", 0u64), ("Alice", 12), ("Ève", u64::MAX)] {
        let mut fork = Fork::new();
        fork.put(vec![7], vec![8]);
        let mut schema = CurrencySchema::new(&mut fork);
        schema.wallets().put(&key(1), Wallet::new(&key(1), name, amount));
        let read = schema.wallet(&key(1)).unwrap();
        assert_eq!(read.pub_key(), key(1));
        assert_eq!(read.name(), name);
        assert_eq!(read.balance(), amount);
        assert_eq!(schema.wallet(&key(2)), None);
        assert_eq!(schema.wallet(&key(1)), Some(read));
        assert_eq!(fork.get(&[7]), Some(vec![8]));
    }
}

#[test]
fn schema_wallets_is_the_wallets_table() {
    let mut fork = Fork::new();
    let wallet = Wallet::new(&key(1), "one", 5);
    let mut schema = CurrencySchema::new(&mut fork);
    schema.wallets().put(&key(1), wallet.clone());
    assert_eq!(schema.wallets().get(&key(1)), Some(wallet.clone()));
    assert_eq!(schema.wallet(&key(1)), Some(wallet.clone()));
    assert_eq!(schema.wallet(&key(2)), None);
    assert_eq!(fork.get(&storage_key(1)), Some(wallet.into_bytes()));
}

#[test]
fn request_becomes_its_transaction() {
    let create = TxCreateWallet::new_with_signature(&key(1), "one", &signature());
    let pay = TxTransfer::new_with_signature(&key(1), &key(2), 250, 1, &signature());
    assert_eq!(
        TransactionRequest::CreateWallet(create.clone()).into(),
        Transaction::CreateWallet(create.clone())
    );
    assert_eq!(TransactionRequest::Transfer(pay.clone()).into(), Transaction::Transfer(pay.clone()));
    assert_eq!(
        accept_request(RequestBody::Request(TransactionRequest::Transfer(pay.clone()))),
        Ok(Transaction::Transfer(pay))
    );
    assert_eq!(
        accept_request(RequestBody::Request(TransactionRequest::CreateWallet(create.clone()))),
        Ok(Transaction::CreateWallet(create))
    );
}

#[test]
fn empty_and_malformed_bodies_are_turned_down() {
    assert_eq!(accept_request(RequestBody::Empty), Err(ApiError::EmptyRequestBody));
    assert_eq!(accept_request(RequestBody::Malformed), Err(ApiError::IncorrectRequest));
}

#[test]
fn response_carries_the_hash_or_the_channel_failure() {
    let hash = cryptocurrency::crypto::Hash::new([7u8; 32]);
    assert_eq!(transaction_response(hash, true), Ok(TransactionResponse { tx_hash: hash }));
    assert_eq!(transaction_response(hash, false), Err(ApiError::Events));
    assert_eq!(hash.as_slice(), &[7u8; 32]);
}

#[test]
fn service_id_answer_and_routes() {
    assert_eq!(service_id_response().service_id, 1);
    assert_eq!(transaction_route(), "/v1/wallets/transaction");
    assert_eq!(service_id_route(), "/v1/config/serviceid");
}
