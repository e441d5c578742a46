//! Typed access to the wallets kept in a store.
//!
//! Every wallet is stored under a key made of the table's prefix and the owner's public
//! key. The prefix holds the service identifier, so the table shares no key with the
//! tables of other services in the same store.
use vstd::prelude::*;
use crate::crypto::PublicKey;
use crate::storage::Fork;
use crate::wallet::{is_wallet, wallet_view, Wallet, WalletView};

verus! {

/// The prefix of the table with number `ord` of the service `service_id`: the
/// identifier in big-endian order, then the number.
pub open spec fn prefix_spec(service_id: u16, ord: u8) -> Seq<u8> {
    seq![(service_id / 256) as u8, (service_id % 256) as u8, ord]
}

/// The prefix of the wallets table.
pub open spec fn wallets_prefix() -> Seq<u8> {
    prefix_spec(crate::SERVICE_ID, 0)
}

/// The key under which the wallet of `pub_key` is stored.
pub open spec fn wallet_key(pub_key: Seq<u8>) -> Seq<u8> {
    wallets_prefix() + pub_key
}

/// The stored form of the wallet that `store` holds for `pub_key`. A value that is not
/// the stored form of a wallet counts as no wallet.
pub open spec fn stored_wallet(store: Map<Seq<u8>, Seq<u8>>, pub_key: Seq<u8>) -> Option<
    Seq<u8>,
> {
    if store.contains_key(wallet_key(pub_key)) && is_wallet(store[wallet_key(pub_key)]) {
        Some(store[wallet_key(pub_key)])
    } else {
        None
    }
}

/// The contents of the wallet that `store` holds for `pub_key`.
pub open spec fn account(store: Map<Seq<u8>, Seq<u8>>, pub_key: Seq<u8>) -> Option<WalletView> {
    match stored_wallet(store, pub_key) {
        Some(raw) => Some(wallet_view(raw)),
        None => None,
    }
}

/// Prefix isolation: a key of one table is a key of no other. Where two tables keep a
/// value under the same key of the store, they are the same table of the same service,
/// and the value is kept for the same key of the table.
pub proof fn law_prefix_isolation(
    service_id: u16,
    ord: u8,
    key: Seq<u8>,
    other_service_id: u16,
    other_ord: u8,
    other_key: Seq<u8>,
)
    requires
        prefix_spec(service_id, ord) + key == prefix_spec(other_service_id, other_ord)
            + other_key,
    ensures
        service_id == other_service_id,
        ord == other_ord,
        key == other_key,
{
    let full = prefix_spec(service_id, ord) + key;
    let other_full = prefix_spec(other_service_id, other_ord) + other_key;
    assert(full[0] == other_full[0]);
    assert(full[1] == other_full[1]);
    assert(full[2] == other_full[2]);
    assert(full.len() == other_full.len());
    assert(key =~= full.subrange(3, full.len() as int));
    assert(other_key =~= other_full.subrange(3, other_full.len() as int));
}

/// Makes the prefix of the table with number `ord` of the service `service_id`.
pub fn gen_prefix(service_id: u16, ord: u8) -> (prefix: Vec<u8>)
    ensures
        prefix@ == prefix_spec(service_id, ord),
{
    let mut prefix: Vec<u8> = Vec::new();
    prefix.push((service_id / 256) as u8);
    prefix.push((service_id % 256) as u8);
    prefix.push(ord);
    assert(prefix@ =~= prefix_spec(service_id, ord));
    prefix
}

/// A table of wallets by public key, within a store.
pub struct MapIndex<'a> {
    pub prefix: Vec<u8>,
    pub view: &'a mut Fork,
}

impl<'a> MapIndex<'a> {
    /// The table with the given prefix in `view`.
    pub fn new(prefix: Vec<u8>, view: &'a mut Fork) -> (index: MapIndex<'a>)
        ensures
            index.prefix == prefix,
            *index.view == *old(view),
            *final(index.view) == *final(view),
    {
        MapIndex { prefix, view }
    }

    /// What the store holds.
    pub open spec fn store(&self) -> Map<Seq<u8>, Seq<u8>> {
        self.view@
    }

    /// The key of the store under which the table keeps the value of `key`.
    pub open spec fn prefixed(&self, key: Seq<u8>) -> Seq<u8> {
        self.prefix@ + key
    }

    fn prefixed_key(&self, key: &PublicKey) -> (full: Vec<u8>)
        ensures
            full@ == self.prefixed(key@),
    {
        let mut full: Vec<u8> = Vec::new();
        full.extend_from_slice(self.prefix.as_slice());
        full.extend_from_slice(key.as_slice());
        full
    }

    /// The wallet stored for `key`; none where nothing is stored or what is stored is
    /// not a wallet.
    pub fn get(&self, key: &PublicKey) -> (wallet: Option<Wallet>)
        ensures
            match wallet {
                Some(w) => {
                    &&& self.store().contains_key(self.prefixed(key@))
                    &&& w.bytes() == self.store()[self.prefixed(key@)]
                    &&& w.wf()
                },
                None => !(self.store().contains_key(self.prefixed(key@)) && is_wallet(
                    self.store()[self.prefixed(key@)],
                )),
            },
    {
        let full = self.prefixed_key(key);
        match self.view.get(full.as_slice()) {
            Some(raw) => match Wallet::from_bytes(raw) {
                Ok(wallet) => Some(wallet),
                Err(_) => None,
            },
            None => None,
        }
    }

    /// Tells whether a wallet is stored for `key`.
    pub fn contains(&self, key: &PublicKey) -> (present: bool)
        ensures
            present == (self.store().contains_key(self.prefixed(key@)) && is_wallet(
                self.store()[self.prefixed(key@)],
            )),
    {
        self.get(key).is_some()
    }

    /// Stores `value` for `key`, in place of what was stored for it.
    pub fn put(&mut self, key: &PublicKey, value: Wallet)
        ensures
            final(self).store() == old(self).store().insert(
                old(self).prefixed(key@),
                value.bytes(),
            ),
            final(self).prefix == old(self).prefix,
            *final(final(self).view) == *final(old(self).view),
    {
        let full = self.prefixed_key(key);
        self.view.put(full, value.into_bytes());
    }
}

/// The tables of the service in a store.
pub struct CurrencySchema<'a> {
    pub view: &'a mut Fork,
}

impl<'a> CurrencySchema<'a> {
    /// What the store holds.
    pub open spec fn store(&self) -> Map<Seq<u8>, Seq<u8>> {
        self.view@
    }

    /// The schema of the store `view`.
    pub fn new(view: &'a mut Fork) -> (schema: CurrencySchema<'a>)
        ensures
            *schema.view == *old(view),
            *final(schema.view) == *final(view),
    {
        CurrencySchema { view }
    }

    /// The table of wallets.
    pub fn wallets(&mut self) -> (index: MapIndex<'_>)
        ensures
            index.prefix@ == wallets_prefix(),
            *index.view == *old(self).view,
            *final(self).view == *final(index.view),
            *final(final(self).view) == *final(old(self).view),
    {
        let prefix = gen_prefix(crate::SERVICE_ID, 0);
        MapIndex::new(prefix, &mut *self.view)
    }

    /// The wallet of `pub_key`, if the store holds one.
    pub fn wallet(&mut self, pub_key: &PublicKey) -> (wallet: Option<Wallet>)
        ensures
            final(self).store() == old(self).store(),
            *final(final(self).view) == *final(old(self).view),
            match wallet {
                Some(w) => stored_wallet(old(self).store(), pub_key@) == Some(w.bytes()) && w.wf(),
                None => stored_wallet(old(self).store(), pub_key@) is None,
            },
    {
        self.wallets().get(pub_key)
    }
}

} // verus!
