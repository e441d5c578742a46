//! Signed messages and their wire form.
//!
//! A message is a buffer of bytes: a header of ten bytes, the fixed fields of its kind,
//! the segments of its variable-length fields, and the signature of all that precedes
//! it.
//!
//! | bytes   | header field                                   |
//! |---------|------------------------------------------------|
//! | 0       | network identifier                             |
//! | 1       | protocol version                               |
//! | 2 – 4   | message type                                   |
//! | 4 – 6   | service identifier                             |
//! | 6 – 10  | length of the whole buffer                     |
//!
//! The fields of a request to create a wallet, counted from the end of the header:
//! bytes 0 – 32 hold the public key, bytes 32 – 40 refer to the name. Those of a
//! transfer: bytes 0 – 32 hold the sender, 32 – 64 the receiver, 64 – 72 the amount and
//! 72 – 80 the seed.
use vstd::prelude::*;
use vstd::bytes::*;
use vstd::slice::slice_subrange;
use vstd::utf8::*;
use crate::crypto::{PublicKey, Signature};
use crate::encoding::{
    check_str, check_str_spec, read_str, read_u16, read_u64, segment_bytes, u16_at, u32_at,
    u64_at, DecodeError,
};
use crate::{SERVICE_ID, TX_CREATE_WALLET_ID, TX_TRANSFER_ID};

verus! {

broadcast use vstd::slice::group_slice_axioms;

/// Length of the message header.
pub const HEADER_LENGTH: usize = 10;

/// Network identifier written into new messages.
pub const TEST_NETWORK_ID: u8 = 0;

/// Protocol version written into new messages.
pub const PROTOCOL_MAJOR_VERSION: u8 = 0;

/// Size of the fixed fields of a request to create a wallet.
pub const TX_CREATE_WALLET_SIZE: usize = 40;

/// Size of the fixed fields of a transfer.
pub const TX_TRANSFER_SIZE: usize = 80;

/// Length of the shortest request to create a wallet.
pub const TX_CREATE_WALLET_MIN_LENGTH: usize = 114;

/// Length of every transfer.
pub const TX_TRANSFER_LENGTH: usize = 154;

/// Largest number of bytes that the name in a request to create a wallet can take.
pub const MAX_MESSAGE_NAME_LENGTH: usize = 4294967181;

/// The message type that the header of `raw` declares.
pub open spec fn header_message_type(raw: Seq<u8>) -> u16 {
    u16_at(raw, 2)
}

/// The service identifier that the header of `raw` declares.
pub open spec fn header_service_id(raw: Seq<u8>) -> u16 {
    u16_at(raw, 4)
}

/// The part of `raw` that is signed: all but the signature.
pub open spec fn body_of(raw: Seq<u8>) -> Seq<u8> {
    raw.subrange(0, raw.len() - 64)
}

/// The signature that `raw` ends with.
pub open spec fn signature_of(raw: Seq<u8>) -> Seq<u8> {
    raw.subrange(raw.len() - 64, raw.len() as int)
}

/// The header of a new message of `length` bytes.
pub open spec fn header_bytes(message_type: u16, service_id: u16, length: u32) -> Seq<u8> {
    seq![TEST_NETWORK_ID, PROTOCOL_MAJOR_VERSION] + spec_u16_to_le_bytes(message_type)
        + spec_u16_to_le_bytes(service_id) + spec_u32_to_le_bytes(length)
}

/// A message as it travels: a buffer of bytes of which nothing has been checked.
#[derive(Clone, Debug, PartialEq, Eq)]
pub struct RawMessage {
    raw: Vec<u8>,
}

impl View for RawMessage {
    type V = Seq<u8>;

    closed spec fn view(&self) -> Seq<u8> {
        self.raw@
    }
}

impl RawMessage {
    /// Takes a buffer as a message.
    pub fn from_vec(raw: Vec<u8>) -> (message: RawMessage)
        ensures
            message@ == raw@,
    {
        RawMessage { raw }
    }

    /// The buffer.
    pub fn into_vec(self) -> (raw: Vec<u8>)
        ensures
            raw@ == self@,
    {
        self.raw
    }

    /// The bytes of the message.
    pub fn as_bytes(&self) -> (raw: &[u8])
        ensures
            raw@ == self@,
    {
        self.raw.as_slice()
    }

    /// Length of the message in bytes.
    pub fn len(&self) -> (len: usize)
        ensures
            len == self@.len(),
    {
        self.raw.len()
    }

    /// Tells whether the message holds no bytes.
    pub fn is_empty(&self) -> (empty: bool)
        ensures
            empty == (self@.len() == 0),
    {
        self.raw.len() == 0
    }

    /// The network identifier.
    pub fn network_id(&self) -> (id: u8)
        requires
            self@.len() >= 1,
        ensures
            id == self@[0],
    {
        self.raw[0]
    }

    /// The protocol version.
    pub fn version(&self) -> (version: u8)
        requires
            self@.len() >= 2,
        ensures
            version == self@[1],
    {
        self.raw[1]
    }

    /// The identifier of the service that the message is for.
    pub fn service_id(&self) -> (id: u16)
        requires
            self@.len() >= 6,
        ensures
            id == header_service_id(self@),
    {
        read_u16(self.raw.as_slice(), 4)
    }

    /// The type of the message.
    pub fn message_type(&self) -> (message_type: u16)
        requires
            self@.len() >= 4,
        ensures
            message_type == header_message_type(self@),
    {
        read_u16(self.raw.as_slice(), 2)
    }

    /// The signed part of the message.
    pub fn body(&self) -> (body: &[u8])
        requires
            self@.len() >= 64,
        ensures
            body@ == body_of(self@),
    {
        slice_subrange(self.raw.as_slice(), 0, self.raw.len() - 64)
    }

    /// The signature of the message.
    pub fn signature(&self) -> (signature: Signature)
        requires
            self@.len() >= 64,
        ensures
            signature@ == signature_of(self@),
    {
        let bytes = slice_subrange(self.raw.as_slice(), self.raw.len() - 64, self.raw.len());
        match Signature::from_slice(bytes) {
            Some(signature) => signature,
            None => Signature::new([0u8; 64]),
        }
    }
}

/// Appends the header of a new message of `length` bytes to an empty buffer.
fn push_header(raw: &mut Vec<u8>, message_type: u16, service_id: u16, length: u32)
    requires
        old(raw)@.len() == 0,
    ensures
        final(raw)@ == header_bytes(message_type, service_id, length),
{
    raw.push(TEST_NETWORK_ID);
    raw.push(PROTOCOL_MAJOR_VERSION);
    raw.extend_from_slice(u16_to_le_bytes(message_type).as_slice());
    raw.extend_from_slice(u16_to_le_bytes(service_id).as_slice());
    raw.extend_from_slice(u32_to_le_bytes(length).as_slice());
    assert(raw@ =~= header_bytes(message_type, service_id, length));
}

/// What a request to create a wallet holds.
pub struct CreateWalletView {
    pub pub_key: Seq<u8>,
    pub name: Seq<char>,
    pub signature: Seq<u8>,
}

/// The wire form of a new request to create a wallet.
pub open spec fn create_wallet_bytes(pub_key: Seq<u8>, name: Seq<char>, signature: Seq<u8>) -> Seq<
    u8,
> {
    header_bytes(TX_CREATE_WALLET_ID, SERVICE_ID, (114 + encode_utf8(name).len()) as u32) + pub_key
        + spec_u32_to_le_bytes(50) + spec_u32_to_le_bytes(encode_utf8(name).len() as u32)
        + encode_utf8(name) + signature
}

/// Outcome of checking that `raw` is a request to create a wallet.
pub open spec fn check_create_wallet_spec(raw: Seq<u8>) -> Result<(), DecodeError> {
    if raw.len() > u32::MAX {
        Err(DecodeError::OffsetOverflow)
    } else if raw.len() < 114 {
        Err(
            DecodeError::UnexpectedlyShortPayload {
                actual_size: raw.len() as u32,
                minimum_size: 114,
            },
        )
    } else if header_message_type(raw) != TX_CREATE_WALLET_ID {
        Err(DecodeError::IncorrectMessageType { message_type: header_message_type(raw) })
    } else if header_service_id(raw) != SERVICE_ID {
        Err(DecodeError::IncorrectServiceId { service_id: header_service_id(raw) })
    } else {
        match check_str_spec(body_of(raw), 42, 50) {
            Err(e) => Err(e),
            Ok(end) => if end + 64 != raw.len() {
                Err(
                    DecodeError::IncorrectLength {
                        actual_size: raw.len() as u32,
                        expected_size: (end + 64) as u32,
                    },
                )
            } else {
                Ok(())
            },
        }
    }
}

/// The contents of the request to create a wallet with the wire form `raw`.
pub open spec fn create_wallet_view(raw: Seq<u8>) -> CreateWalletView {
    CreateWalletView {
        pub_key: raw.subrange(10, 42),
        name: decode_utf8(segment_bytes(body_of(raw), 42)),
        signature: signature_of(raw),
    }
}

/// Encoding then decoding: the wire form of any request to create a wallet is accepted,
/// and read back it gives the contents it was made from.
pub proof fn lemma_create_wallet_encode_decode(
    pub_key: Seq<u8>,
    name: Seq<char>,
    signature: Seq<u8>,
)
    requires
        pub_key.len() == 32,
        signature.len() == 64,
        encode_utf8(name).len() <= MAX_MESSAGE_NAME_LENGTH,
    ensures
        check_create_wallet_spec(create_wallet_bytes(pub_key, name, signature)) is Ok,
        create_wallet_view(create_wallet_bytes(pub_key, name, signature)) == (CreateWalletView {
            pub_key,
            name,
            signature,
        }),
{
    broadcast use encode_utf8_valid_utf8, encode_utf8_decode_utf8;

    lemma_auto_spec_u16_to_from_le_bytes();
    lemma_auto_spec_u32_to_from_le_bytes();
    let text = encode_utf8(name);
    let count = text.len() as u32;
    let raw = create_wallet_bytes(pub_key, name, signature);
    let body = body_of(raw);
    assert(raw.len() == 114 + text.len());
    assert(raw.subrange(2, 4) =~= spec_u16_to_le_bytes(TX_CREATE_WALLET_ID));
    assert(raw.subrange(4, 6) =~= spec_u16_to_le_bytes(SERVICE_ID));
    assert(raw.subrange(10, 42) =~= pub_key);
    assert(body.subrange(42, 46) =~= spec_u32_to_le_bytes(50));
    assert(body.subrange(46, 50) =~= spec_u32_to_le_bytes(count));
    assert(body.subrange(50, 50 + count) =~= text);
    assert(signature_of(raw) =~= signature);
    assert(u32_at(body, 42) == 50);
    assert(u32_at(body, 46) == count);
    assert(segment_bytes(body, 42) == text);
}

/// A signed request to create a wallet for the owner of a public key.
#[derive(Clone, Debug, PartialEq, Eq)]
pub struct TxCreateWallet {
    raw: RawMessage,
}

impl View for TxCreateWallet {
    type V = CreateWalletView;

    open spec fn view(&self) -> CreateWalletView {
        create_wallet_view(self.bytes())
    }
}

impl TxCreateWallet {
    /// The wire form of the request.
    pub closed spec fn bytes(&self) -> Seq<u8> {
        self.raw@
    }

    /// The request holds a well-formed message.
    pub open spec fn wf(&self) -> bool {
        check_create_wallet_spec(self.bytes()) is Ok
    }

    /// The type of the messages of this kind.
    pub fn message_id() -> (id: u16)
        ensures
            id == TX_CREATE_WALLET_ID,
    {
        TX_CREATE_WALLET_ID
    }

    /// The service that the messages of this kind are for.
    pub fn service_id() -> (id: u16)
        ensures
            id == SERVICE_ID,
    {
        SERVICE_ID
    }

    /// Makes a request that carries the given signature.
    pub fn new_with_signature(pub_key: &PublicKey, name: &str, signature: &Signature) -> (tx:
        TxCreateWallet)
        requires
            encode_utf8(name@).len() <= MAX_MESSAGE_NAME_LENGTH,
        ensures
            tx.wf(),
            tx@ == (CreateWalletView { pub_key: pub_key@, name: name@, signature: signature@ }),
            tx.bytes() == create_wallet_bytes(pub_key@, name@, signature@),
    {
        let text = name.as_bytes();
        let mut raw: Vec<u8> = Vec::new();
        push_header(&mut raw, TX_CREATE_WALLET_ID, SERVICE_ID, (114 + text.len()) as u32);
        raw.extend_from_slice(pub_key.as_slice());
        raw.extend_from_slice(u32_to_le_bytes(50).as_slice());
        raw.extend_from_slice(u32_to_le_bytes(text.len() as u32).as_slice());
        raw.extend_from_slice(text);
        raw.extend_from_slice(signature.as_slice());
        proof {
            lemma_create_wallet_encode_decode(pub_key@, name@, signature@);
            assert(raw@ =~= create_wallet_bytes(pub_key@, name@, signature@));
        }
        TxCreateWallet { raw: RawMessage::from_vec(raw) }
    }

    /// Checks that `raw` is the wire form of a request to create a wallet.
    pub fn check(raw: &[u8]) -> (outcome: Result<(), DecodeError>)
        ensures
            outcome == check_create_wallet_spec(raw@),
    {
        if raw.len() > u32::MAX as usize {
            return Err(DecodeError::OffsetOverflow);
        }
        if raw.len() < TX_CREATE_WALLET_MIN_LENGTH {
            return Err(
                DecodeError::UnexpectedlyShortPayload {
                    actual_size: raw.len() as u32,
                    minimum_size: 114,
                },
            );
        }
        let message_type = read_u16(raw, 2);
        if message_type != TX_CREATE_WALLET_ID {
            return Err(DecodeError::IncorrectMessageType { message_type });
        }
        let service_id = read_u16(raw, 4);
        if service_id != SERVICE_ID {
            return Err(DecodeError::IncorrectServiceId { service_id });
        }
        let body = slice_subrange(raw, 0, raw.len() - 64);
        match check_str(body, 42, 50) {
            Err(e) => Err(e),
            Ok(end) => {
                if end as usize + 64 != raw.len() {
                    Err(
                        DecodeError::IncorrectLength {
                            actual_size: raw.len() as u32,
                            expected_size: end + 64,
                        },
                    )
                } else {
                    Ok(())
                }
            },
        }
    }

    /// Reads a request from its wire form.
    pub fn from_raw(raw: RawMessage) -> (tx: Result<TxCreateWallet, DecodeError>)
        ensures
            match tx {
                Ok(t) => check_create_wallet_spec(raw@) is Ok && t.bytes() == raw@ && t.wf(),
                Err(e) => check_create_wallet_spec(raw@) == Err::<(), DecodeError>(e),
            },
    {
        match TxCreateWallet::check(raw.as_bytes()) {
            Ok(()) => Ok(TxCreateWallet { raw }),
            Err(e) => Err(e),
        }
    }

    /// The wire form of the request.
    pub fn raw(&self) -> (raw: &RawMessage)
        ensures
            raw@ == self.bytes(),
    {
        &self.raw
    }

    /// Public key of the owner of the new wallet.
    pub fn pub_key(&self) -> (key: PublicKey)
        requires
            self.wf(),
        ensures
            key@ == self@.pub_key,
    {
        match PublicKey::from_slice(slice_subrange(self.raw.as_bytes(), 10, 42)) {
            Some(key) => key,
            None => PublicKey::new([0u8; 32]),
        }
    }

    /// Name of the owner of the new wallet.
    pub fn name(&self) -> (name: &str)
        requires
            self.wf(),
        ensures
            name@ == self@.name,
            encode_utf8(name@).len() <= MAX_MESSAGE_NAME_LENGTH,
    {
        broadcast use decode_utf8_encode_utf8;

        read_str(self.raw.body(), 42)
    }

    /// The signature that the request carries.
    pub fn signature(&self) -> (signature: Signature)
        requires
            self.wf(),
        ensures
            signature@ == self@.signature,
    {
        self.raw.signature()
    }
}

/// What a transfer holds.
pub struct TransferView {
    pub from: Seq<u8>,
    pub to: Seq<u8>,
    pub amount: u64,
    pub seed: u64,
    pub signature: Seq<u8>,
}

/// The wire form of a new transfer.
pub open spec fn transfer_bytes(
    from: Seq<u8>,
    to: Seq<u8>,
    amount: u64,
    seed: u64,
    signature: Seq<u8>,
) -> Seq<u8> {
    header_bytes(TX_TRANSFER_ID, SERVICE_ID, 154) + from + to + spec_u64_to_le_bytes(amount)
        + spec_u64_to_le_bytes(seed) + signature
}

/// Outcome of checking that `raw` is a transfer.
pub open spec fn check_transfer_spec(raw: Seq<u8>) -> Result<(), DecodeError> {
    if raw.len() > u32::MAX {
        Err(DecodeError::OffsetOverflow)
    } else if raw.len() < 154 {
        Err(
            DecodeError::UnexpectedlyShortPayload {
                actual_size: raw.len() as u32,
                minimum_size: 154,
            },
        )
    } else if header_message_type(raw) != TX_TRANSFER_ID {
        Err(DecodeError::IncorrectMessageType { message_type: header_message_type(raw) })
    } else if header_service_id(raw) != SERVICE_ID {
        Err(DecodeError::IncorrectServiceId { service_id: header_service_id(raw) })
    } else if raw.len() != 154 {
        Err(DecodeError::IncorrectLength { actual_size: raw.len() as u32, expected_size: 154 })
    } else {
        Ok(())
    }
}

/// The contents of the transfer with the wire form `raw`.
pub open spec fn transfer_view(raw: Seq<u8>) -> TransferView {
    TransferView {
        from: raw.subrange(10, 42),
        to: raw.subrange(42, 74),
        amount: u64_at(raw, 74),
        seed: u64_at(raw, 82),
        signature: signature_of(raw),
    }
}

/// Encoding then decoding: the wire form of any transfer is accepted, and read back it
/// gives the contents it was made from.
pub proof fn lemma_transfer_encode_decode(
    from: Seq<u8>,
    to: Seq<u8>,
    amount: u64,
    seed: u64,
    signature: Seq<u8>,
)
    requires
        from.len() == 32,
        to.len() == 32,
        signature.len() == 64,
    ensures
        check_transfer_spec(transfer_bytes(from, to, amount, seed, signature)) is Ok,
        transfer_view(transfer_bytes(from, to, amount, seed, signature)) == (TransferView {
            from,
            to,
            amount,
            seed,
            signature,
        }),
{
    lemma_auto_spec_u16_to_from_le_bytes();
    lemma_auto_spec_u32_to_from_le_bytes();
    lemma_auto_spec_u64_to_from_le_bytes();
    let raw = transfer_bytes(from, to, amount, seed, signature);
    assert(raw.len() == 154);
    assert(raw.subrange(2, 4) =~= spec_u16_to_le_bytes(TX_TRANSFER_ID));
    assert(raw.subrange(4, 6) =~= spec_u16_to_le_bytes(SERVICE_ID));
    assert(raw.subrange(10, 42) =~= from);
    assert(raw.subrange(42, 74) =~= to);
    assert(raw.subrange(74, 82) =~= spec_u64_to_le_bytes(amount));
    assert(raw.subrange(82, 90) =~= spec_u64_to_le_bytes(seed));
    assert(signature_of(raw) =~= signature);
}

/// A signed request to move funds from one wallet to another.
#[derive(Clone, Debug, PartialEq, Eq)]
pub struct TxTransfer {
    raw: RawMessage,
}

impl View for TxTransfer {
    type V = TransferView;

    open spec fn view(&self) -> TransferView {
        transfer_view(self.bytes())
    }
}

impl TxTransfer {
    /// The wire form of the transfer.
    pub closed spec fn bytes(&self) -> Seq<u8> {
        self.raw@
    }

    /// The transfer holds a well-formed message.
    pub open spec fn wf(&self) -> bool {
        check_transfer_spec(self.bytes()) is Ok
    }

    /// The type of the messages of this kind.
    pub fn message_id() -> (id: u16)
        ensures
            id == TX_TRANSFER_ID,
    {
        TX_TRANSFER_ID
    }

    /// The service that the messages of this kind are for.
    pub fn service_id() -> (id: u16)
        ensures
            id == SERVICE_ID,
    {
        SERVICE_ID
    }

    /// Makes a transfer that carries the given signature.
    pub fn new_with_signature(
        from: &PublicKey,
        to: &PublicKey,
        amount: u64,
        seed: u64,
        signature: &Signature,
    ) -> (tx: TxTransfer)
        ensures
            tx.wf(),
            tx@ == (TransferView {
                from: from@,
                to: to@,
                amount,
                seed,
                signature: signature@,
            }),
            tx.bytes() == transfer_bytes(from@, to@, amount, seed, signature@),
    {
        let mut raw: Vec<u8> = Vec::new();
        push_header(&mut raw, TX_TRANSFER_ID, SERVICE_ID, 154);
        raw.extend_from_slice(from.as_slice());
        raw.extend_from_slice(to.as_slice());
        raw.extend_from_slice(u64_to_le_bytes(amount).as_slice());
        raw.extend_from_slice(u64_to_le_bytes(seed).as_slice());
        raw.extend_from_slice(signature.as_slice());
        proof {
            lemma_transfer_encode_decode(from@, to@, amount, seed, signature@);
            assert(raw@ =~= transfer_bytes(from@, to@, amount, seed, signature@));
        }
        TxTransfer { raw: RawMessage::from_vec(raw) }
    }

    /// Checks that `raw` is the wire form of a transfer.
    pub fn check(raw: &[u8]) -> (outcome: Result<(), DecodeError>)
        ensures
            outcome == check_transfer_spec(raw@),
    {
        if raw.len() > u32::MAX as usize {
            return Err(DecodeError::OffsetOverflow);
        }
        if raw.len() < TX_TRANSFER_LENGTH {
            return Err(
                DecodeError::UnexpectedlyShortPayload {
                    actual_size: raw.len() as u32,
                    minimum_size: 154,
                },
            );
        }
        let message_type = read_u16(raw, 2);
        if message_type != TX_TRANSFER_ID {
            return Err(DecodeError::IncorrectMessageType { message_type });
        }
        let service_id = read_u16(raw, 4);
        if service_id != SERVICE_ID {
            return Err(DecodeError::IncorrectServiceId { service_id });
        }
        if raw.len() != TX_TRANSFER_LENGTH {
            return Err(
                DecodeError::IncorrectLength { actual_size: raw.len() as u32, expected_size: 154 },
            );
        }
        Ok(())
    }

    /// Reads a transfer from its wire form.
    pub fn from_raw(raw: RawMessage) -> (tx: Result<TxTransfer, DecodeError>)
        ensures
            match tx {
                Ok(t) => check_transfer_spec(raw@) is Ok && t.bytes() == raw@ && t.wf(),
                Err(e) => check_transfer_spec(raw@) == Err::<(), DecodeError>(e),
            },
    {
        match TxTransfer::check(raw.as_bytes()) {
            Ok(()) => Ok(TxTransfer { raw }),
            Err(e) => Err(e),
        }
    }

    /// The wire form of the transfer.
    pub fn raw(&self) -> (raw: &RawMessage)
        ensures
            raw@ == self.bytes(),
    {
        &self.raw
    }

    /// Public key of the sender.
    pub fn from(&self) -> (key: PublicKey)
        requires
            self.wf(),
        ensures
            key@ == self@.from,
    {
        match PublicKey::from_slice(slice_subrange(self.raw.as_bytes(), 10, 42)) {
            Some(key) => key,
            None => PublicKey::new([0u8; 32]),
        }
    }

    /// Public key of the receiver.
    pub fn to(&self) -> (key: PublicKey)
        requires
            self.wf(),
        ensures
            key@ == self@.to,
    {
        match PublicKey::from_slice(slice_subrange(self.raw.as_bytes(), 42, 74)) {
            Some(key) => key,
            None => PublicKey::new([0u8; 32]),
        }
    }

    /// Amount to move.
    pub fn amount(&self) -> (amount: u64)
        requires
            self.wf(),
        ensures
            amount == self@.amount,
    {
        read_u64(self.raw.as_bytes(), 74)
    }

    /// A number that tells transfers apart which are otherwise the same.
    pub fn seed(&self) -> (seed: u64)
        requires
            self.wf(),
        ensures
            seed == self@.seed,
    {
        read_u64(self.raw.as_bytes(), 82)
    }

    /// The signature that the transfer carries.
    pub fn signature(&self) -> (signature: Signature)
        requires
            self.wf(),
        ensures
            signature@ == self@.signature,
    {
        self.raw.signature()
    }
}

} // verus!
