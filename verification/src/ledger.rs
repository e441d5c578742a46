//! What the transactions do to a store, as mathematics, and the laws that follow.
//!
//! A store is a map from byte keys to byte values. The functions here say which store a
//! transaction leaves; the executable transactions are proved to leave exactly that
//! store.
use vstd::prelude::*;
use vstd::bytes::*;
use vstd::utf8::*;
use crate::encoding::splice;
use crate::schema::{account, wallet_key, wallets_prefix};
use crate::wallet::{
    is_wallet, lemma_wallet_decode_encode, lemma_wallet_encode_decode, lemma_wallet_set_balance,
    wallet_bytes, wallet_view, WalletView, MAX_NAME_LENGTH,
};
use crate::INIT_BALANCE;

verus! {

/// The stored form of the wallet `wallet` with its balance set to `balance`.
pub open spec fn with_balance(wallet: WalletView, balance: u64) -> Seq<u8> {
    wallet_bytes(wallet.pub_key, wallet.name, balance)
}

/// The store that a request to create a wallet leaves: where the store holds no wallet
/// for `pub_key`, it gets one with the initial balance; otherwise nothing changes.
pub open spec fn create_wallet_spec(
    store: Map<Seq<u8>, Seq<u8>>,
    pub_key: Seq<u8>,
    name: Seq<char>,
) -> Map<Seq<u8>, Seq<u8>> {
    if account(store, pub_key) is None {
        store.insert(wallet_key(pub_key), wallet_bytes(pub_key, name, INIT_BALANCE))
    } else {
        store
    }
}

/// Whether a transfer is applied: the two wallets differ, both exist, the sender has the
/// amount, and the receiver's balance does not leave the range of `u64`.
pub open spec fn transfer_allowed(
    store: Map<Seq<u8>, Seq<u8>>,
    from: Seq<u8>,
    to: Seq<u8>,
    amount: u64,
) -> bool {
    &&& from != to
    &&& account(store, from) is Some
    &&& account(store, to) is Some
    &&& account(store, from)->Some_0.balance >= amount
    &&& account(store, to)->Some_0.balance + amount <= u64::MAX
}

/// The store that a transfer leaves: where the transfer is allowed, the amount has
/// moved from the sender's wallet to the receiver's; otherwise nothing changes.
pub open spec fn transfer_spec(
    store: Map<Seq<u8>, Seq<u8>>,
    from: Seq<u8>,
    to: Seq<u8>,
    amount: u64,
) -> Map<Seq<u8>, Seq<u8>> {
    if transfer_allowed(store, from, to, amount) {
        let sender = account(store, from)->Some_0;
        let receiver = account(store, to)->Some_0;
        store.insert(
            wallet_key(from),
            with_balance(sender, (sender.balance - amount) as u64),
        ).insert(wallet_key(to), with_balance(receiver, (receiver.balance + amount) as u64))
    } else {
        store
    }
}

/// Whether `key` belongs to the wallets table.
pub open spec fn is_wallet_key(key: Seq<u8>) -> bool {
    key.len() >= 3 && key.subrange(0, 3) == wallets_prefix()
}

/// The balance that one entry of a store adds to the total: that of the wallet it
/// holds, if it holds one.
pub open spec fn entry_balance(key: Seq<u8>, value: Seq<u8>) -> nat {
    if is_wallet_key(key) && is_wallet(value) {
        wallet_view(value).balance as nat
    } else {
        0
    }
}

/// The sum of the balances of all wallets in a store.
pub open spec fn total_balance(store: Map<Seq<u8>, Seq<u8>>) -> nat
    decreases store.dom().len(),
    when store.dom().finite()
{
    if store.dom().len() == 0 {
        0
    } else {
        let key = store.dom().choose();
        entry_balance(key, store[key]) + total_balance(store.remove(key))
    }
}

/// Two public keys with one storage key are the same.
pub proof fn lemma_wallet_key_injective(a: Seq<u8>, b: Seq<u8>)
    ensures
        is_wallet_key(wallet_key(a)),
        wallet_key(a) == wallet_key(b) ==> a == b,
{
    assert(wallet_key(a).subrange(0, 3) =~= wallets_prefix());
    assert(wallet_key(a).subrange(3, wallet_key(a).len() as int) =~= a);
    assert(wallet_key(b).subrange(3, wallet_key(b).len() as int) =~= b);
}

/// The total is the share of any one entry plus the total of the rest.
pub proof fn lemma_total_remove(store: Map<Seq<u8>, Seq<u8>>, key: Seq<u8>)
    requires
        store.dom().finite(),
        store.contains_key(key),
    ensures
        total_balance(store) == entry_balance(key, store[key]) + total_balance(store.remove(key)),
    decreases store.dom().len(),
{
    assert(store.dom().len() != 0) by {
        assert(store.dom().remove(key).len() >= 0);
    }
    let chosen = store.dom().choose();
    if chosen != key {
        let without_chosen = store.remove(chosen);
        let without_key = store.remove(key);
        assert(without_chosen.dom() =~= store.dom().remove(chosen));
        assert(without_key.dom() =~= store.dom().remove(key));
        lemma_total_remove(without_chosen, key);
        lemma_total_remove(without_key, chosen);
        assert(without_chosen.remove(key) =~= without_key.remove(chosen));
    }
}

/// Storing a value changes the total by the difference between the share of the new
/// entry and the share of the entry it replaces.
pub proof fn lemma_total_insert(store: Map<Seq<u8>, Seq<u8>>, key: Seq<u8>, value: Seq<u8>)
    requires
        store.dom().finite(),
    ensures
        store.insert(key, value).dom().finite(),
        total_balance(store.insert(key, value)) + (if store.contains_key(key) {
            entry_balance(key, store[key])
        } else {
            0
        }) == total_balance(store) + entry_balance(key, value),
{
    let after = store.insert(key, value);
    assert(after.dom() =~= store.dom().insert(key));
    lemma_total_remove(after, key);
    if store.contains_key(key) {
        lemma_total_remove(store, key);
        assert(after.remove(key) =~= store.remove(key));
    } else {
        assert(after.remove(key) =~= store);
    }
}

/// A stored wallet with another balance is a stored wallet, holds that balance and
/// otherwise what it held, and differs from the first in the bytes of the balance alone.
pub proof fn lemma_with_balance(raw: Seq<u8>, balance: u64)
    requires
        is_wallet(raw),
    ensures
        is_wallet(with_balance(wallet_view(raw), balance)),
        wallet_view(with_balance(wallet_view(raw), balance)) == (WalletView {
            balance,
            ..wallet_view(raw)
        }),
        with_balance(wallet_view(raw), balance) == splice(raw, 40, spec_u64_to_le_bytes(balance)),
{
    let changed = splice(raw, 40, spec_u64_to_le_bytes(balance));
    lemma_wallet_set_balance(raw, balance);
    lemma_wallet_decode_encode(changed);
}

/// A wallet that is stored is read back: the store then holds, for its public key, an
/// account with the contents the wallet was made of, and for every other public key
/// the account it held before.
pub proof fn law_stored_wallet_read_back(
    store: Map<Seq<u8>, Seq<u8>>,
    pub_key: Seq<u8>,
    name: Seq<char>,
    balance: u64,
)
    requires
        pub_key.len() == 32,
        encode_utf8(name).len() <= MAX_NAME_LENGTH,
    ensures
        account(
            store.insert(wallet_key(pub_key), wallet_bytes(pub_key, name, balance)),
            pub_key,
        ) == Some(WalletView { pub_key, name, balance }),
        forall|other: Seq<u8>|
            other != pub_key ==> #[trigger] account(
                store.insert(wallet_key(pub_key), wallet_bytes(pub_key, name, balance)),
                other,
            ) == account(store, other),
{
    lemma_wallet_encode_decode(pub_key, name, balance);
    assert forall|other: Seq<u8>| other != pub_key implies #[trigger] account(
        store.insert(wallet_key(pub_key), wallet_bytes(pub_key, name, balance)),
        other,
    ) == account(store, other) by {
        lemma_wallet_key_injective(other, pub_key);
    }
}

/// Conservation: no transfer changes the sum of all balances.
pub proof fn law_transfer_conserves_total(
    store: Map<Seq<u8>, Seq<u8>>,
    from: Seq<u8>,
    to: Seq<u8>,
    amount: u64,
)
    requires
        store.dom().finite(),
    ensures
        total_balance(transfer_spec(store, from, to, amount)) == total_balance(store),
{
    if transfer_allowed(store, from, to, amount) {
        let sender = account(store, from)->Some_0;
        let receiver = account(store, to)->Some_0;
        let sent = with_balance(sender, (sender.balance - amount) as u64);
        let received = with_balance(receiver, (receiver.balance + amount) as u64);
        let between = store.insert(wallet_key(from), sent);
        lemma_wallet_key_injective(from, to);
        lemma_wallet_key_injective(to, from);
        lemma_with_balance(store[wallet_key(from)], (sender.balance - amount) as u64);
        lemma_with_balance(store[wallet_key(to)], (receiver.balance + amount) as u64);
        lemma_total_insert(store, wallet_key(from), sent);
        lemma_total_insert(between, wallet_key(to), received);
    }
}

/// Every request to create a wallet adds the initial balance to the sum of all balances
/// if it creates a wallet, and nothing if the wallet exists.
pub proof fn law_creation_adds_initial_balance(
    store: Map<Seq<u8>, Seq<u8>>,
    pub_key: Seq<u8>,
    name: Seq<char>,
)
    requires
        store.dom().finite(),
        pub_key.len() == 32,
        encode_utf8(name).len() <= MAX_NAME_LENGTH,
    ensures
        total_balance(create_wallet_spec(store, pub_key, name)) == total_balance(store) + (
        if account(store, pub_key) is None {
            INIT_BALANCE as nat
        } else {
            0
        }),
{
    if account(store, pub_key) is None {
        lemma_wallet_key_injective(pub_key, pub_key);
        lemma_wallet_encode_decode(pub_key, name, INIT_BALANCE);
        lemma_total_insert(
            store,
            wallet_key(pub_key),
            wallet_bytes(pub_key, name, INIT_BALANCE),
        );
    }
}

/// Idempotent creation: a second request to create the wallet of a public key, under
/// whatever name, leaves the store that the first one left.
pub proof fn law_creation_idempotent(
    store: Map<Seq<u8>, Seq<u8>>,
    pub_key: Seq<u8>,
    name: Seq<char>,
    other_name: Seq<char>,
)
    requires
        pub_key.len() == 32,
        encode_utf8(name).len() <= MAX_NAME_LENGTH,
    ensures
        create_wallet_spec(create_wallet_spec(store, pub_key, name), pub_key, other_name)
            == create_wallet_spec(store, pub_key, name),
        account(create_wallet_spec(store, pub_key, name), pub_key) is Some,
        account(store, pub_key) is None ==> account(
            create_wallet_spec(store, pub_key, name),
            pub_key,
        ) == Some(WalletView { pub_key, name, balance: INIT_BALANCE }),
{
    lemma_wallet_encode_decode(pub_key, name, INIT_BALANCE);
}

/// No underflow: a transfer that is applied leaves the sender with the balance less the
/// amount, which is not negative, the receiver with the balance plus the amount, and
/// every other account as it was.
pub proof fn law_transfer_moves_amount(
    store: Map<Seq<u8>, Seq<u8>>,
    from: Seq<u8>,
    to: Seq<u8>,
    amount: u64,
)
    requires
        transfer_allowed(store, from, to, amount),
    ensures
        account(store, from)->Some_0.balance - amount >= 0,
        account(transfer_spec(store, from, to, amount), from) == Some(
            WalletView {
                balance: (account(store, from)->Some_0.balance - amount) as u64,
                ..account(store, from)->Some_0
            },
        ),
        account(transfer_spec(store, from, to, amount), to) == Some(
            WalletView {
                balance: (account(store, to)->Some_0.balance + amount) as u64,
                ..account(store, to)->Some_0
            },
        ),
        forall|other: Seq<u8>|
            other != from && other != to ==> #[trigger] account(
                transfer_spec(store, from, to, amount),
                other,
            ) == account(store, other),
{
    let sender = account(store, from)->Some_0;
    let receiver = account(store, to)->Some_0;
    lemma_wallet_key_injective(from, to);
    lemma_with_balance(store[wallet_key(from)], (sender.balance - amount) as u64);
    lemma_with_balance(store[wallet_key(to)], (receiver.balance + amount) as u64);
    assert forall|other: Seq<u8>| other != from && other != to implies #[trigger] account(
        transfer_spec(store, from, to, amount),
        other,
    ) == account(store, other) by {
        lemma_wallet_key_injective(other, from);
        lemma_wallet_key_injective(other, to);
    }
}

/// Missing account: a transfer that names a public key without a wallet, as sender or
/// as receiver, leaves the store as it was. So does a transfer from a wallet to itself,
/// and one for more than the sender has.
pub proof fn law_transfer_skipped(
    store: Map<Seq<u8>, Seq<u8>>,
    from: Seq<u8>,
    to: Seq<u8>,
    amount: u64,
)
    requires
        account(store, from) is None || account(store, to) is None || from == to || account(
            store,
            from,
        )->Some_0.balance < amount,
    ensures
        transfer_spec(store, from, to, amount) == store,
{
}

/// No transaction touches an entry of the store other than the wallets of the public
/// keys that it names.
pub proof fn law_only_named_accounts(
    store: Map<Seq<u8>, Seq<u8>>,
    from: Seq<u8>,
    to: Seq<u8>,
    amount: u64,
    name: Seq<char>,
    key: Seq<u8>,
)
    requires
        key != wallet_key(from),
        key != wallet_key(to),
    ensures
        transfer_spec(store, from, to, amount).contains_key(key) == store.contains_key(key),
        transfer_spec(store, from, to, amount)[key] == store[key],
        create_wallet_spec(store, from, name).contains_key(key) == store.contains_key(key),
        create_wallet_spec(store, from, name)[key] == store[key],
{
}

} // verus!
