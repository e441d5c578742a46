//! The decisions of the submission endpoint.
//!
//! A client posts a request; the endpoint reads and parses the body, forwards the
//! transaction to be ordered, and answers with the hash of the transaction without
//! waiting for its execution. Reading, hashing and forwarding are the caller's part.
//! What is decided here is what becomes of each outcome.
use vstd::prelude::*;
use crate::messages::{TxCreateWallet, TxTransfer};
use crate::transaction::Transaction;
use crate::SERVICE_ID;

verus! {

/// A request as a client writes it: one of the known kinds of transaction.
#[derive(Clone, Debug, PartialEq, Eq)]
pub enum TransactionRequest {
    CreateWallet(TxCreateWallet),
    Transfer(TxTransfer),
}

impl TransactionRequest {
    /// The transaction that the request asks for.
    pub open spec fn transaction(self) -> Transaction {
        match self {
            TransactionRequest::CreateWallet(tx) => Transaction::CreateWallet(tx),
            TransactionRequest::Transfer(tx) => Transaction::Transfer(tx),
        }
    }

    /// Turns the request into the transaction that it asks for.
    pub fn into(self) -> (tx: Transaction)
        ensures
            tx == self.transaction(),
    {
        match self {
            TransactionRequest::CreateWallet(tx) => Transaction::CreateWallet(tx),
            TransactionRequest::Transfer(tx) => Transaction::Transfer(tx),
        }
    }
}

/// What came of reading the body of a posted request.
#[derive(Clone, Debug, PartialEq, Eq)]
pub enum RequestBody {
    /// The request had no body.
    Empty,
    /// The body is not a request of a known kind.
    Malformed,
    /// The body is a request.
    Request(TransactionRequest),
}

/// Why a posted request was turned down.
#[derive(Clone, Copy, Debug, PartialEq, Eq, Structural)]
pub enum ApiError {
    /// The request had no body.
    EmptyRequestBody,
    /// The body is not a request of a known kind.
    IncorrectRequest,
    /// The transaction could not be handed on to be ordered.
    Events,
}

/// The answer to an accepted request.
#[derive(Clone, Copy, Debug, PartialEq, Eq)]
pub struct TransactionResponse {
    pub tx_hash: crate::crypto::Hash,
}

/// The answer to a question for the identifier of the service.
#[derive(Clone, Copy, Debug, PartialEq, Eq, Structural)]
pub struct ServiceIdResponse {
    pub service_id: u16,
}

/// The transaction to forward for a posted request, or the error to answer with.
pub fn accept_request(body: RequestBody) -> (tx: Result<Transaction, ApiError>)
    ensures
        tx == match body {
            RequestBody::Empty => Err::<Transaction, ApiError>(ApiError::EmptyRequestBody),
            RequestBody::Malformed => Err(ApiError::IncorrectRequest),
            RequestBody::Request(request) => Ok(request.transaction()),
        },
{
    match body {
        RequestBody::Empty => Err(ApiError::EmptyRequestBody),
        RequestBody::Malformed => Err(ApiError::IncorrectRequest),
        RequestBody::Request(request) => Ok(request.into()),
    }
}

/// The answer to a request whose transaction has the hash `tx_hash`: the hash if the
/// transaction was handed on (`sent`), else an error; a failure to hand it on is never
/// passed over.
pub fn transaction_response(tx_hash: crate::crypto::Hash, sent: bool) -> (response: Result<
    TransactionResponse,
    ApiError,
>)
    ensures
        response == if sent {
            Ok::<TransactionResponse, ApiError>(TransactionResponse { tx_hash })
        } else {
            Err(ApiError::Events)
        },
{
    if sent {
        Ok(TransactionResponse { tx_hash })
    } else {
        Err(ApiError::Events)
    }
}

/// The answer to a question for the identifier of the service.
pub fn service_id_response() -> (response: ServiceIdResponse)
    ensures
        response.service_id == SERVICE_ID,
{
    ServiceIdResponse { service_id: SERVICE_ID }
}

/// Path to which requests are posted.
pub fn transaction_route() -> (route: &'static str)
    ensures
        route@ == "/v1/wallets/transaction"@,
{
    "/v1/wallets/transaction"
}

/// Path under which the identifier of the service is read.
pub fn service_id_route() -> (route: &'static str)
    ensures
        route@ == "/v1/config/serviceid"@,
{
    "/v1/config/serviceid"
}

} // verus!
