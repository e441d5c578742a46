//! Checking and executing transactions.
//!
//! A transaction is checked before it is ordered and executed after. The check reads
//! nothing but the message. Execution never fails: a transaction that the state of the
//! store does not allow leaves the store as it was.
use vstd::prelude::*;
use crate::crypto::PublicKey;
use crate::ledger::{
    create_wallet_spec, law_transfer_conserves_total, lemma_with_balance, total_balance,
    transfer_spec,
};
use crate::messages::{RawMessage, TxCreateWallet, TxTransfer};
use crate::schema::CurrencySchema;
use crate::storage::Fork;
use crate::wallet::{lemma_wallet_decode_encode, Wallet};
use crate::INIT_BALANCE;

verus! {

impl TxCreateWallet {
    /// The public key that must have signed the request: that of the new wallet.
    pub fn signer(&self) -> (key: PublicKey)
        requires
            self.wf(),
        ensures
            key@ == self@.pub_key,
    {
        self.pub_key()
    }

    /// Tells whether the request may be ordered. `signature_valid` says whether the
    /// signature of the request is one of its body by the signer.
    pub fn verify(&self, signature_valid: bool) -> (accepted: bool)
        ensures
            accepted == signature_valid,
    {
        signature_valid
    }

    /// Creates the wallet with the initial balance, unless the store holds a wallet for
    /// the public key already.
    pub fn execute(&self, view: &mut Fork)
        requires
            self.wf(),
        ensures
            final(view)@ == create_wallet_spec(old(view)@, self@.pub_key, self@.name),
    {
        let mut schema = CurrencySchema { view };
        let pub_key = self.pub_key();
        if schema.wallet(&pub_key).is_none() {
            let wallet = Wallet::new(&pub_key, self.name(), INIT_BALANCE);
            schema.wallets().put(&pub_key, wallet);
        }
    }
}

impl TxTransfer {
    /// The public key that must have signed the transfer: the sender's.
    pub fn signer(&self) -> (key: PublicKey)
        requires
            self.wf(),
        ensures
            key@ == self@.from,
    {
        self.from()
    }

    /// Tells whether the transfer may be ordered: sender and receiver differ and the
    /// signature is valid. `signature_valid` says whether the signature of the transfer
    /// is one of its body by the signer.
    pub fn verify(&self, signature_valid: bool) -> (accepted: bool)
        requires
            self.wf(),
        ensures
            accepted == (self@.from != self@.to && signature_valid),
            self@.from == self@.to ==> !accepted,
    {
        !(self.from() == self.to()) && signature_valid
    }

    /// Moves the amount from the sender's wallet to the receiver's if the transfer is
    /// allowed. The sender's balance is compared with the amount before anything is
    /// taken from it.
    pub fn execute(&self, view: &mut Fork)
        requires
            self.wf(),
        ensures
            final(view)@ == transfer_spec(old(view)@, self@.from, self@.to, self@.amount),
    {
        let mut schema = CurrencySchema { view };
        let from = self.from();
        let to = self.to();
        let sender = schema.wallet(&from);
        let receiver = schema.wallet(&to);
        match sender {
            Some(mut sender) => match receiver {
                Some(mut receiver) => {
                    let amount = self.amount();
                    if !(from == to) && sender.balance() >= amount
                        && receiver.balance().checked_add(amount).is_some() {
                        let ghost sent = sender.bytes();
                        let ghost received = receiver.bytes();
                        sender.decrease(amount);
                        receiver.increase(amount);
                        proof {
                            lemma_with_balance(sent, sender@.balance);
                            lemma_with_balance(received, receiver@.balance);
                            lemma_wallet_decode_encode(sender.bytes());
                            lemma_wallet_decode_encode(receiver.bytes());
                        }
                        let mut wallets = schema.wallets();
                        wallets.put(&from, sender);
                        wallets.put(&to, receiver);
                    }
                },
                None => {},
            },
            None => {},
        }
    }
}

/// What a transaction holds: the contents of one of the kinds.
pub enum TransactionView {
    CreateWallet { pub_key: Seq<u8>, name: Seq<char> },
    Transfer { from: Seq<u8>, to: Seq<u8>, amount: u64 },
}

/// The store that a transaction leaves.
pub open spec fn apply(store: Map<Seq<u8>, Seq<u8>>, tx: TransactionView) -> Map<
    Seq<u8>,
    Seq<u8>,
> {
    match tx {
        TransactionView::CreateWallet { pub_key, name } => create_wallet_spec(
            store,
            pub_key,
            name,
        ),
        TransactionView::Transfer { from, to, amount } => transfer_spec(store, from, to, amount),
    }
}

/// The store that a sequence of transactions leaves, executed in order.
pub open spec fn apply_all(store: Map<Seq<u8>, Seq<u8>>, txs: Seq<TransactionView>) -> Map<
    Seq<u8>,
    Seq<u8>,
>
    decreases txs.len(),
{
    if txs.len() == 0 {
        store
    } else {
        apply(apply_all(store, txs.drop_last()), txs.last())
    }
}

/// Conservation: no sequence of transfers changes the sum of all balances.
pub proof fn law_transfers_conserve_total(
    store: Map<Seq<u8>, Seq<u8>>,
    txs: Seq<TransactionView>,
)
    requires
        store.dom().finite(),
        forall|i: int| 0 <= i < txs.len() ==> txs[i] is Transfer,
    ensures
        apply_all(store, txs).dom().finite(),
        total_balance(apply_all(store, txs)) == total_balance(store),
    decreases txs.len(),
{
    if txs.len() > 0 {
        let before = apply_all(store, txs.drop_last());
        law_transfers_conserve_total(store, txs.drop_last());
        match txs.last() {
            TransactionView::Transfer { from, to, amount } => {
                law_transfer_conserves_total(before, from, to, amount);
            },
            TransactionView::CreateWallet { .. } => {},
        }
    }
}

/// A transaction of one of the kinds that the service knows.
#[derive(Clone, Debug, PartialEq, Eq)]
pub enum Transaction {
    CreateWallet(TxCreateWallet),
    Transfer(TxTransfer),
}

impl View for Transaction {
    type V = TransactionView;

    open spec fn view(&self) -> TransactionView {
        match self {
            Transaction::CreateWallet(tx) => TransactionView::CreateWallet {
                pub_key: tx@.pub_key,
                name: tx@.name,
            },
            Transaction::Transfer(tx) => TransactionView::Transfer {
                from: tx@.from,
                to: tx@.to,
                amount: tx@.amount,
            },
        }
    }
}

impl Transaction {
    /// The transaction holds a well-formed message.
    pub open spec fn wf(&self) -> bool {
        match self {
            Transaction::CreateWallet(tx) => tx.wf(),
            Transaction::Transfer(tx) => tx.wf(),
        }
    }

    /// The wire form of the transaction.
    pub open spec fn bytes(&self) -> Seq<u8> {
        match self {
            Transaction::CreateWallet(tx) => tx.bytes(),
            Transaction::Transfer(tx) => tx.bytes(),
        }
    }

    /// The public key that must have signed the transaction.
    pub open spec fn spec_signer(&self) -> Seq<u8> {
        match self {
            Transaction::CreateWallet(tx) => tx@.pub_key,
            Transaction::Transfer(tx) => tx@.from,
        }
    }

    /// The wire form of the transaction.
    pub fn raw(&self) -> (raw: &RawMessage)
        ensures
            raw@ == self.bytes(),
    {
        match self {
            Transaction::CreateWallet(tx) => tx.raw(),
            Transaction::Transfer(tx) => tx.raw(),
        }
    }

    /// The public key that must have signed the transaction.
    pub fn signer(&self) -> (key: PublicKey)
        requires
            self.wf(),
        ensures
            key@ == self.spec_signer(),
    {
        match self {
            Transaction::CreateWallet(tx) => tx.signer(),
            Transaction::Transfer(tx) => tx.signer(),
        }
    }

    /// Tells whether the transaction may be ordered. `signature_valid` says whether its
    /// signature is one of its body by the signer.
    pub fn verify(&self, signature_valid: bool) -> (accepted: bool)
        requires
            self.wf(),
        ensures
            accepted == match self@ {
                TransactionView::CreateWallet { .. } => signature_valid,
                TransactionView::Transfer { from, to, .. } => from != to && signature_valid,
            },
    {
        match self {
            Transaction::CreateWallet(tx) => tx.verify(signature_valid),
            Transaction::Transfer(tx) => tx.verify(signature_valid),
        }
    }

    /// Applies the transaction to the store.
    pub fn execute(&self, view: &mut Fork)
        requires
            self.wf(),
        ensures
            final(view)@ == apply(old(view)@, self@),
    {
        match self {
            Transaction::CreateWallet(tx) => tx.execute(view),
            Transaction::Transfer(tx) => tx.execute(view),
        }
    }
}

} // verus!
