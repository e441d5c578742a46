//! What the service offers to the node that runs it: its name and identifier, and the
//! decoding of raw messages into transactions.
use vstd::prelude::*;
use crate::encoding::DecodeError;
use vstd::utf8::encode_utf8;
use crate::messages::{
    check_create_wallet_spec, check_transfer_spec, create_wallet_bytes, create_wallet_view,
    header_message_type, lemma_create_wallet_encode_decode, lemma_transfer_encode_decode,
    transfer_bytes, transfer_view, CreateWalletView, RawMessage, TransferView, TxCreateWallet,
    TxTransfer, MAX_MESSAGE_NAME_LENGTH,
};
use crate::transaction::Transaction;
use crate::{SERVICE_ID, TX_CREATE_WALLET_ID, TX_TRANSFER_ID};

verus! {

/// Outcome of decoding `raw` as a message of type `message_type` for the service
/// `service_id`. The type is looked at first: one that is not known is refused as such,
/// whatever the service. Then the service must be this one, and the buffer a
/// well-formed message of that type.
pub open spec fn decode_spec(service_id: u16, message_type: u16, raw: Seq<u8>) -> Result<
    (),
    DecodeError,
> {
    if message_type != TX_TRANSFER_ID && message_type != TX_CREATE_WALLET_ID {
        Err(DecodeError::IncorrectMessageType { message_type })
    } else if service_id != SERVICE_ID {
        Err(DecodeError::IncorrectServiceId { service_id })
    } else if message_type == TX_TRANSFER_ID {
        check_transfer_spec(raw)
    } else {
        check_create_wallet_spec(raw)
    }
}

/// Outcome of decoding `raw` by what its own header declares. The type is read first: a
/// buffer too short to hold one is refused for its length, a type that is not known is
/// refused as such whatever else the buffer holds, and a buffer of a known type is
/// held to the check of that type.
pub open spec fn tx_from_raw_spec(raw: Seq<u8>) -> Result<(), DecodeError> {
    if raw.len() < 4 {
        Err(
            DecodeError::UnexpectedlyShortPayload {
                actual_size: raw.len() as u32,
                minimum_size: 10,
            },
        )
    } else if header_message_type(raw) == TX_TRANSFER_ID {
        check_transfer_spec(raw)
    } else if header_message_type(raw) == TX_CREATE_WALLET_ID {
        check_create_wallet_spec(raw)
    } else {
        Err(DecodeError::IncorrectMessageType { message_type: header_message_type(raw) })
    }
}

/// The service decodes what the constructors encode: the wire form of any new request
/// to create a wallet and of any new transfer is accepted, as the kind it was made as.
pub proof fn law_encoded_transactions_decode(
    pub_key: Seq<u8>,
    name: Seq<char>,
    to: Seq<u8>,
    amount: u64,
    seed: u64,
    signature: Seq<u8>,
)
    requires
        pub_key.len() == 32,
        to.len() == 32,
        signature.len() == 64,
        encode_utf8(name).len() <= MAX_MESSAGE_NAME_LENGTH,
    ensures
        tx_from_raw_spec(create_wallet_bytes(pub_key, name, signature)) is Ok,
        header_message_type(create_wallet_bytes(pub_key, name, signature))
            == TX_CREATE_WALLET_ID,
        create_wallet_view(create_wallet_bytes(pub_key, name, signature)) == (CreateWalletView {
            pub_key,
            name,
            signature,
        }),
        tx_from_raw_spec(transfer_bytes(pub_key, to, amount, seed, signature)) is Ok,
        header_message_type(transfer_bytes(pub_key, to, amount, seed, signature))
            == TX_TRANSFER_ID,
        transfer_view(transfer_bytes(pub_key, to, amount, seed, signature)) == (TransferView {
            from: pub_key,
            to,
            amount,
            seed,
            signature,
        }),
{
    lemma_create_wallet_encode_decode(pub_key, name, signature);
    lemma_transfer_encode_decode(pub_key, to, amount, seed, signature);
}

/// Decodes a message that was declared to be of type `message_type` for the service
/// `service_id`.
pub fn decode(service_id: u16, message_type: u16, raw: RawMessage) -> (tx: Result<
    Transaction,
    DecodeError,
>)
    ensures
        match tx {
            Ok(t) => {
                &&& decode_spec(service_id, message_type, raw@) is Ok
                &&& t.wf()
                &&& t.bytes() == raw@
                &&& t is Transfer <==> message_type == TX_TRANSFER_ID
            },
            Err(e) => decode_spec(service_id, message_type, raw@) == Err::<(), DecodeError>(e),
        },
{
    if message_type != TX_TRANSFER_ID && message_type != TX_CREATE_WALLET_ID {
        return Err(DecodeError::IncorrectMessageType { message_type });
    }
    if service_id != SERVICE_ID {
        return Err(DecodeError::IncorrectServiceId { service_id });
    }
    if message_type == TX_TRANSFER_ID {
        match TxTransfer::from_raw(raw) {
            Ok(tx) => Ok(Transaction::Transfer(tx)),
            Err(e) => Err(e),
        }
    } else {
        match TxCreateWallet::from_raw(raw) {
            Ok(tx) => Ok(Transaction::CreateWallet(tx)),
            Err(e) => Err(e),
        }
    }
}

/// The service.
#[derive(Clone, Copy, Debug)]
pub struct CurrencyService;

impl CurrencyService {
    /// Name of the service.
    pub fn service_name(&self) -> (name: &'static str)
        ensures
            name@ == "cryptocurrency"@,
    {
        "cryptocurrency"
    }

    /// Identifier of the service.
    pub fn service_id(&self) -> (id: u16)
        ensures
            id == SERVICE_ID,
    {
        SERVICE_ID
    }

    /// Decodes a raw message into the transaction that its header declares.
    pub fn tx_from_raw(&self, raw: RawMessage) -> (tx: Result<Transaction, DecodeError>)
        ensures
            match tx {
                Ok(t) => {
                    &&& tx_from_raw_spec(raw@) is Ok
                    &&& t.wf()
                    &&& t.bytes() == raw@
                    &&& t is Transfer <==> header_message_type(raw@) == TX_TRANSFER_ID
                },
                Err(e) => tx_from_raw_spec(raw@) == Err::<(), DecodeError>(e),
            },
    {
        if raw.len() < 4 {
            return Err(
                DecodeError::UnexpectedlyShortPayload {
                    actual_size: raw.len() as u32,
                    minimum_size: 10,
                },
            );
        }
        let message_type = raw.message_type();
        if message_type == TX_TRANSFER_ID {
            match TxTransfer::from_raw(raw) {
                Ok(tx) => Ok(Transaction::Transfer(tx)),
                Err(e) => Err(e),
            }
        } else if message_type == TX_CREATE_WALLET_ID {
            match TxCreateWallet::from_raw(raw) {
                Ok(tx) => Ok(Transaction::CreateWallet(tx)),
                Err(e) => Err(e),
            }
        } else {
            Err(DecodeError::IncorrectMessageType { message_type })
        }
    }
}

} // verus!
