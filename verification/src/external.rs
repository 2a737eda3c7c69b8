//! The boundary to code that is not verified here. Every item in this module
//! is trusted: its contract is taken from the source or the documentation of
//! what it calls and is not checked by the verifier. Nothing outside this
//! module is trusted.

use bitcoin::absolute::LockTime;
use bitcoin::consensus::Decodable;
use bitcoin::constants::genesis_block;
use bitcoin::hashes::Hash as BitcoinHash;
use bitcoin::Network as BitcoinNetwork;
use bitcoin::transaction::Version;
use bitcoin::OutPoint as BitcoinOutPoint;
use bitcoin::Transaction as BitcoinTransaction;
use bitcoin::TxIn as BitcoinTxIn;
use bitcoin::TxOut as BitcoinTxOut;
use bitcoin::Txid as BitcoinTxid;
use bitcoin::{Amount, ScriptBuf, Sequence, Witness};
use vstd::prelude::*;

use crate::coin::OutPoint;
use crate::import_queue::{genesis_block_hash, Network};
use crate::transaction::{Transaction, TransactionView, TxIn, TxOut};
use crate::txid::Txid;

verus! {

/// `String::push` of std: appends one character to the string.
#[verifier::external_body]
pub(crate) fn push_char(s: &mut String, c: char)
    ensures
        final(s)@ == old(s)@.push(c),
{
    s.push(c)
}

/// `bitcoin::Txid`, carried as an opaque value.
#[verifier::external_type_specification]
#[verifier::external_body]
pub struct ExBitcoinTxid(BitcoinTxid);

/// The 32 bytes that a `bitcoin::Txid` holds, in the order of
/// `to_byte_array` (the order in which the hash function produced them).
pub uninterp spec fn bitcoin_txid_bytes(txid: BitcoinTxid) -> Seq<u8>;

/// `bitcoin::hashes::Hash::to_byte_array` on a `bitcoin::Txid`: hands out the
/// byte array that the identifier wraps.
#[verifier::external_body]
pub(crate) fn txid_to_byte_array(txid: BitcoinTxid) -> (bytes: [u8; 32])
    ensures
        bytes@ == bitcoin_txid_bytes(txid),
{
    txid.to_byte_array()
}

/// `bitcoin::hashes::Hash::from_byte_array` for `bitcoin::Txid`: wraps the
/// byte array unchanged, so that `to_byte_array` gives it back.
#[verifier::external_body]
pub(crate) fn txid_from_byte_array(bytes: [u8; 32]) -> (txid: BitcoinTxid)
    ensures
        bitcoin_txid_bytes(txid) == bytes@,
{
    BitcoinTxid::from_byte_array(bytes)
}

/// The transaction that `bitcoin::Transaction::consensus_decode` reads from
/// the start of `bytes`, without its witness data; `None` where it reports
/// an error.
pub uninterp spec fn consensus_decoding(bytes: Seq<u8>) -> Option<TransactionView>;

/// `bitcoin::Transaction::consensus_decode` on a reader over `bytes`. The
/// decoder reads one transaction from the front and leaves the rest
/// untouched; the fields of what it read are handed out one for one, the
/// witnesses dropped.
#[verifier::external_body]
pub(crate) fn consensus_decode(bytes: &[u8]) -> (decoded: Option<Transaction>)
    ensures
        decoded.is_some() == consensus_decoding(bytes@).is_some(),
        decoded.is_some() ==> decoded.unwrap()@ == consensus_decoding(bytes@).unwrap(),
{
    let tx = BitcoinTransaction::consensus_decode(&mut &bytes[..]).ok()?;
    let input = tx.input.into_iter().map(|i| TxIn {
        previous_output: OutPoint {
            txid: Txid(i.previous_output.txid.to_byte_array()),
            vout: i.previous_output.vout,
        },
        script_sig: i.script_sig.into_bytes(),
        sequence: i.sequence.0,
    });
    let output = tx.output.into_iter().map(|o| TxOut {
        value: o.value.to_sat(),
        script_pubkey: o.script_pubkey.into_bytes(),
    });
    let (version, lock_time) = (tx.version.0, tx.lock_time.to_consensus_u32());
    Some(Transaction { version, lock_time, input: input.collect(), output: output.collect() })
}

/// The 32 bytes of the identifier that `bitcoin::Transaction::compute_txid`
/// gives to the transaction with these fields: the double SHA-256 hash of
/// its encoding without witness data.
pub uninterp spec fn transaction_id(tx: TransactionView) -> Seq<u8>;

/// `bitcoin::Transaction::compute_txid` on the `bitcoin` crate's transaction
/// with the same version, lock time, inputs and outputs, and no witnesses
/// (the identifier does not cover them).
#[verifier::external_body]
pub(crate) fn compute_txid(tx: &Transaction) -> (txid: Txid)
    ensures
        txid@ == transaction_id(tx@),
{
    let input = tx.input.iter().map(|TxIn { previous_output: spent, script_sig, sequence }| {
        BitcoinTxIn {
            previous_output: BitcoinOutPoint::new(BitcoinTxid::from_byte_array(spent.txid.0), spent.vout),
            script_sig: ScriptBuf::from_bytes(script_sig.clone()),
            sequence: Sequence(*sequence),
            witness: Witness::new(),
        }
    });
    let output = tx.output.iter().map(|o| BitcoinTxOut {
        value: Amount::from_sat(o.value),
        script_pubkey: ScriptBuf::from_bytes(o.script_pubkey.clone()),
    });
    let (version, lock_time) = (Version(tx.version), LockTime::from_consensus(tx.lock_time));
    let tx = BitcoinTransaction { version, lock_time, input: input.collect(), output: output.collect() };
    Txid(tx.compute_txid().to_byte_array())
}

/// The 16 bytes of `sp_crypto_hashing::twox_128` for `data`: the XX hashes
/// of `data` with the seeds 0 and 1, eight little-endian bytes each.
pub uninterp spec fn twox_128_hash(data: Seq<u8>) -> Seq<u8>;

/// `sp_crypto_hashing::twox_128`: a hash of 128 bits that depends on the
/// bytes of `data` alone.
#[verifier::external_body]
pub(crate) fn twox_128(data: &[u8]) -> (hash: [u8; 16])
    ensures
        hash@ == twox_128_hash(data@),
{
    sp_crypto_hashing::twox_128(data)
}

/// `bitcoin::constants::genesis_block` for the network, and `block_hash` of
/// the block it returns. The crate builds the block from constants, and its
/// `ChainHash` constants give the hash for each network.
#[verifier::external_body]
pub(crate) fn bitcoin_genesis_block_hash(network: Network) -> (hash: [u8; 32])
    ensures
        hash@ == genesis_block_hash(network),
{
    let network = match network {
        Network::Bitcoin => BitcoinNetwork::Bitcoin,
        Network::Testnet => BitcoinNetwork::Testnet,
        Network::Testnet4 => BitcoinNetwork::Testnet4,
        Network::Signet => BitcoinNetwork::Signet,
        Network::Regtest => BitcoinNetwork::Regtest,
    };
    genesis_block(network).block_hash().to_byte_array()
}

} // verus!
