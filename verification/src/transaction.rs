//! Decoded transactions, as far as the ledger reads them.

use vstd::prelude::*;

use crate::coin::{OutPoint, OutPointView};
use crate::external::{compute_txid, consensus_decode, consensus_decoding, transaction_id};
use crate::txid::Txid;

verus! {

/// What a [`TxIn`] holds, as a mathematical value.
pub struct TxInView {
    pub previous_output: OutPointView,
    pub script_sig: Seq<u8>,
    pub sequence: u32,
}

/// Transaction input: the output it spends and how it unlocks it.
#[derive(Clone, Debug, PartialEq, Eq)]
pub struct TxIn {
    /// The output that this input spends.
    pub previous_output: OutPoint,
    /// The script that satisfies the spent output's spending condition.
    pub script_sig: Vec<u8>,
    /// The sequence number.
    pub sequence: u32,
}

impl View for TxIn {
    type V = TxInView;

    open spec fn view(&self) -> TxInView {
        TxInView {
            previous_output: self.previous_output@,
            script_sig: self.script_sig@,
            sequence: self.sequence,
        }
    }
}

/// What a [`TxOut`] holds, as a mathematical value.
pub struct TxOutView {
    pub value: u64,
    pub script_pubkey: Seq<u8>,
}

/// Transaction output: an amount and the condition for spending it.
#[derive(Clone, Debug, PartialEq, Eq)]
pub struct TxOut {
    /// Amount in satoshis.
    pub value: u64,
    /// Spending condition.
    pub script_pubkey: Vec<u8>,
}

impl View for TxOut {
    type V = TxOutView;

    open spec fn view(&self) -> TxOutView {
        TxOutView { value: self.value, script_pubkey: self.script_pubkey@ }
    }
}

/// What a [`Transaction`] holds, as a mathematical value.
pub struct TransactionView {
    pub version: i32,
    pub lock_time: u32,
    pub input: Seq<TxInView>,
    pub output: Seq<TxOutView>,
}

impl TransactionView {
    /// A coinbase transaction has exactly one input, and that input names no
    /// output.
    pub open spec fn is_coinbase(self) -> bool {
        self.input.len() == 1 && self.input[0].previous_output.is_null()
    }

    /// The identifier of the transaction.
    pub open spec fn txid(self) -> Seq<u8> {
        transaction_id(self)
    }
}

/// A decoded transaction, without witness data: the part that determines
/// its identifier and its effect on the set of unspent outputs.
#[derive(Clone, Debug, PartialEq, Eq)]
pub struct Transaction {
    /// The protocol version.
    pub version: i32,
    /// Block height or timestamp before which the transaction is not valid.
    pub lock_time: u32,
    /// The inputs, in order.
    pub input: Vec<TxIn>,
    /// The outputs, in order.
    pub output: Vec<TxOut>,
}

impl View for Transaction {
    type V = TransactionView;

    open spec fn view(&self) -> TransactionView {
        TransactionView {
            version: self.version,
            lock_time: self.lock_time,
            input: self.input@.map_values(|i: TxIn| i@),
            output: self.output@.map_values(|o: TxOut| o@),
        }
    }
}

impl Transaction {
    /// Decodes a transaction from the start of `bytes`, in the consensus
    /// encoding. Bytes after the transaction are not looked at.
    pub fn decode(bytes: &[u8]) -> (decoded: Option<Transaction>)
        ensures
            decoded.is_some() == consensus_decoding(bytes@).is_some(),
            decoded.is_some() ==> decoded.unwrap()@ == consensus_decoding(bytes@).unwrap(),
    {
        consensus_decode(bytes)
    }

    /// Computes the identifier of the transaction.
    pub fn compute_txid(&self) -> (txid: Txid)
        ensures
            txid@ == self@.txid(),
    {
        compute_txid(self)
    }

    /// Checks if this is a coinbase transaction.
    pub fn is_coinbase(&self) -> (coinbase: bool)
        ensures
            coinbase == self@.is_coinbase(),
    {
        self.input.len() == 1 && self.input[0].previous_output.is_null()
    }
}

} // verus!
