//! A deterministic ledger transaction engine: signed client requests are decoded from
//! their wire form, checked, and applied to account records kept in a key-value view.
use vstd::prelude::*;

pub mod api;
pub mod crypto;
pub mod encoding;
pub mod ledger;
pub mod messages;
pub mod schema;
pub mod service;
pub mod storage;
pub mod transaction;
pub mod wallet;

verus! {

/// Identifier of this service; part of every message header and of the storage prefix.
pub const SERVICE_ID: u16 = 1;

/// Message type of a request to create a wallet.
pub const TX_CREATE_WALLET_ID: u16 = 1;

/// Message type of a request to transfer funds.
pub const TX_TRANSFER_ID: u16 = 2;

/// Balance credited to every newly created wallet.
pub const INIT_BALANCE: u64 = 1000;

} // verus!
