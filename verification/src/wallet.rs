//! The account record.
//!
//! A wallet is kept in its stored form: 48 header bytes followed by the bytes of the
//! owner's name.
//!
//! | bytes    | content                                             |
//! |----------|-----------------------------------------------------|
//! | 0 – 32   | public key of the owner                             |
//! | 32 – 36  | position of the name segment, always 48             |
//! | 36 – 40  | number of bytes in the name                         |
//! | 40 – 48  | balance                                             |
//! | 48 –     | name, UTF-8                                         |
use vstd::prelude::*;
use vstd::bytes::*;
use vstd::slice::slice_subrange;
use vstd::utf8::*;
use crate::crypto::PublicKey;
use crate::encoding::{
    check_str, check_str_spec, lemma_splice, read_str, read_u64, segment_bytes, splice, u32_at,
    u64_at, write_u64, DecodeError,
};

verus! {

broadcast use vstd::slice::group_slice_axioms;

/// Size of the fixed part of a stored wallet.
pub const WALLET_SIZE: usize = 48;

/// Largest number of bytes that a wallet's name can take.
pub const MAX_NAME_LENGTH: usize = 4294967247;

/// What a wallet holds.
pub struct WalletView {
    pub pub_key: Seq<u8>,
    pub name: Seq<char>,
    pub balance: u64,
}

/// The stored form of a wallet with the given contents.
pub open spec fn wallet_bytes(pub_key: Seq<u8>, name: Seq<char>, balance: u64) -> Seq<u8> {
    pub_key + spec_u32_to_le_bytes(48) + spec_u32_to_le_bytes(encode_utf8(name).len() as u32)
        + spec_u64_to_le_bytes(balance) + encode_utf8(name)
}

/// Outcome of checking that `raw` is the stored form of a wallet.
pub open spec fn check_wallet_spec(raw: Seq<u8>) -> Result<(), DecodeError> {
    if raw.len() > u32::MAX {
        Err(DecodeError::OffsetOverflow)
    } else if raw.len() < 48 {
        Err(
            DecodeError::UnexpectedlyShortPayload {
                actual_size: raw.len() as u32,
                minimum_size: 48,
            },
        )
    } else {
        match check_str_spec(raw, 32, 48) {
            Err(e) => Err(e),
            Ok(end) => if end != raw.len() {
                Err(
                    DecodeError::IncorrectLength {
                        actual_size: raw.len() as u32,
                        expected_size: end,
                    },
                )
            } else {
                Ok(())
            },
        }
    }
}

/// Whether `raw` is the stored form of a wallet.
pub open spec fn is_wallet(raw: Seq<u8>) -> bool {
    check_wallet_spec(raw) is Ok
}

/// The contents of the wallet stored as `raw`.
pub open spec fn wallet_view(raw: Seq<u8>) -> WalletView {
    WalletView {
        pub_key: raw.subrange(0, 32),
        name: decode_utf8(segment_bytes(raw, 32)),
        balance: u64_at(raw, 40),
    }
}

/// Encoding then decoding: the stored form of any contents is accepted, and read back it
/// gives these contents.
pub proof fn lemma_wallet_encode_decode(pub_key: Seq<u8>, name: Seq<char>, balance: u64)
    requires
        pub_key.len() == 32,
        encode_utf8(name).len() <= MAX_NAME_LENGTH,
    ensures
        is_wallet(wallet_bytes(pub_key, name, balance)),
        wallet_view(wallet_bytes(pub_key, name, balance)) == (WalletView {
            pub_key,
            name,
            balance,
        }),
        wallet_bytes(pub_key, name, balance).len() == 48 + encode_utf8(name).len(),
{
    broadcast use encode_utf8_valid_utf8, encode_utf8_decode_utf8;

    lemma_auto_spec_u32_to_from_le_bytes();
    lemma_auto_spec_u64_to_from_le_bytes();
    let text = encode_utf8(name);
    let count = text.len() as u32;
    let raw = wallet_bytes(pub_key, name, balance);
    assert(raw.len() == 48 + text.len());
    assert(raw.subrange(0, 32) =~= pub_key);
    assert(raw.subrange(32, 36) =~= spec_u32_to_le_bytes(48));
    assert(raw.subrange(36, 40) =~= spec_u32_to_le_bytes(count));
    assert(raw.subrange(40, 48) =~= spec_u64_to_le_bytes(balance));
    assert(raw.subrange(48, 48 + count) =~= text);
    assert(u32_at(raw, 32) == 48);
    assert(u32_at(raw, 36) == count);
    assert(segment_bytes(raw, 32) == text);
}

/// Decoding then encoding: a buffer that is accepted is the stored form of the contents
/// read from it, so no two buffers stand for the same wallet.
pub proof fn lemma_wallet_decode_encode(raw: Seq<u8>)
    requires
        is_wallet(raw),
    ensures
        wallet_bytes(wallet_view(raw).pub_key, wallet_view(raw).name, wallet_view(raw).balance)
            == raw,
{
    broadcast use decode_utf8_encode_utf8;

    lemma_auto_spec_u32_to_from_le_bytes();
    lemma_auto_spec_u64_to_from_le_bytes();
    let view = wallet_view(raw);
    let text = segment_bytes(raw, 32);
    assert(u32_at(raw, 32) == 48);
    assert(text == raw.subrange(48, raw.len() as int));
    assert(encode_utf8(view.name) == text);
    assert(spec_u32_to_le_bytes(48) == raw.subrange(32, 36));
    assert(spec_u32_to_le_bytes(text.len() as u32) == raw.subrange(36, 40));
    assert(spec_u64_to_le_bytes(view.balance) == raw.subrange(40, 48));
    assert(wallet_bytes(view.pub_key, view.name, view.balance) =~= raw);
}

/// Overwriting the balance of a stored wallet gives the stored form of the same wallet
/// with the new balance.
pub proof fn lemma_wallet_set_balance(raw: Seq<u8>, balance: u64)
    requires
        is_wallet(raw),
    ensures
        is_wallet(splice(raw, 40, spec_u64_to_le_bytes(balance))),
        wallet_view(splice(raw, 40, spec_u64_to_le_bytes(balance))) == (WalletView {
            balance,
            ..wallet_view(raw)
        }),
{
    lemma_auto_spec_u64_to_from_le_bytes();
    lemma_splice(raw, 40, spec_u64_to_le_bytes(balance));
    let out = splice(raw, 40, spec_u64_to_le_bytes(balance));
    assert(out.subrange(0, 32) == raw.subrange(0, 32));
    assert(out.subrange(32, 36) == raw.subrange(32, 36));
    assert(out.subrange(36, 40) == raw.subrange(36, 40));
    assert(out.subrange(40, 48) == spec_u64_to_le_bytes(balance));
    assert(segment_bytes(out, 32) == segment_bytes(raw, 32));
}

/// One account: the owner's public key, the owner's name and the balance.
#[derive(Clone, Debug, PartialEq, Eq)]
pub struct Wallet {
    raw: Vec<u8>,
}

impl View for Wallet {
    type V = WalletView;

    open spec fn view(&self) -> WalletView {
        wallet_view(self.bytes())
    }
}

impl Wallet {
    /// The stored form of the wallet.
    pub closed spec fn bytes(&self) -> Seq<u8> {
        self.raw@
    }

    /// The wallet holds a well-formed record.
    pub open spec fn wf(&self) -> bool {
        is_wallet(self.bytes())
    }

    /// Makes a wallet with the given contents.
    pub fn new(pub_key: &PublicKey, name: &str, balance: u64) -> (wallet: Wallet)
        requires
            encode_utf8(name@).len() <= MAX_NAME_LENGTH,
        ensures
            wallet.wf(),
            wallet@ == (WalletView { pub_key: pub_key@, name: name@, balance }),
            wallet.bytes() == wallet_bytes(pub_key@, name@, balance),
    {
        let text = name.as_bytes();
        let mut raw: Vec<u8> = Vec::new();
        raw.extend_from_slice(pub_key.as_slice());
        raw.extend_from_slice(u32_to_le_bytes(48).as_slice());
        raw.extend_from_slice(u32_to_le_bytes(text.len() as u32).as_slice());
        raw.extend_from_slice(u64_to_le_bytes(balance).as_slice());
        raw.extend_from_slice(text);
        proof {
            lemma_wallet_encode_decode(pub_key@, name@, balance);
            assert(raw@ =~= wallet_bytes(pub_key@, name@, balance));
        }
        Wallet { raw }
    }

    /// Checks that `raw` is the stored form of a wallet.
    pub fn check(raw: &[u8]) -> (outcome: Result<(), DecodeError>)
        ensures
            outcome == check_wallet_spec(raw@),
    {
        if raw.len() > u32::MAX as usize {
            return Err(DecodeError::OffsetOverflow);
        }
        if raw.len() < WALLET_SIZE {
            return Err(
                DecodeError::UnexpectedlyShortPayload {
                    actual_size: raw.len() as u32,
                    minimum_size: 48,
                },
            );
        }
        match check_str(raw, 32, 48) {
            Err(e) => Err(e),
            Ok(end) => {
                if end as usize != raw.len() {
                    Err(
                        DecodeError::IncorrectLength {
                            actual_size: raw.len() as u32,
                            expected_size: end,
                        },
                    )
                } else {
                    Ok(())
                }
            },
        }
    }

    /// Reads a wallet from its stored form.
    pub fn from_bytes(raw: Vec<u8>) -> (wallet: Result<Wallet, DecodeError>)
        ensures
            match wallet {
                Ok(w) => is_wallet(raw@) && w.bytes() == raw@ && w.wf(),
                Err(e) => check_wallet_spec(raw@) == Err::<(), DecodeError>(e),
            },
    {
        match Wallet::check(raw.as_slice()) {
            Ok(()) => Ok(Wallet { raw }),
            Err(e) => Err(e),
        }
    }

    /// The stored form of the wallet.
    pub fn into_bytes(self) -> (raw: Vec<u8>)
        ensures
            raw@ == self.bytes(),
    {
        self.raw
    }

    /// The stored form of the wallet.
    pub fn as_bytes(&self) -> (raw: &[u8])
        ensures
            raw@ == self.bytes(),
    {
        self.raw.as_slice()
    }

    /// Public key of the owner.
    pub fn pub_key(&self) -> (key: PublicKey)
        requires
            self.wf(),
        ensures
            key@ == self@.pub_key,
    {
        match PublicKey::from_slice(slice_subrange(self.raw.as_slice(), 0, 32)) {
            Some(key) => key,
            None => PublicKey::new([0u8; 32]),
        }
    }

    /// Name of the owner.
    pub fn name(&self) -> (name: &str)
        requires
            self.wf(),
        ensures
            name@ == self@.name,
    {
        read_str(self.raw.as_slice(), 32)
    }

    /// Current balance.
    pub fn balance(&self) -> (balance: u64)
        requires
            self.wf(),
        ensures
            balance == self@.balance,
    {
        read_u64(self.raw.as_slice(), 40)
    }

    /// Adds `amount` to the balance.
    pub fn increase(&mut self, amount: u64)
        requires
            old(self).wf(),
            old(self)@.balance + amount <= u64::MAX,
        ensures
            final(self).wf(),
            final(self)@ == (WalletView {
                balance: (old(self)@.balance + amount) as u64,
                ..old(self)@
            }),
    {
        let balance = self.balance() + amount;
        write_u64(&mut self.raw, 40, balance);
        proof {
            lemma_wallet_set_balance(old(self).bytes(), balance);
        }
    }

    /// Takes `amount` from the balance.
    pub fn decrease(&mut self, amount: u64)
        requires
            old(self).wf(),
            old(self)@.balance >= amount,
        ensures
            final(self).wf(),
            final(self)@ == (WalletView {
                balance: (old(self)@.balance - amount) as u64,
                ..old(self)@
            }),
    {
        let balance = self.balance() - amount;
        write_u64(&mut self.raw, 40, balance);
        proof {
            lemma_wallet_set_balance(old(self).bytes(), balance);
        }
    }
}

} // verus!
