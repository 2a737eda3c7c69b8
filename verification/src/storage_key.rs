//! The keys under which the coins are persisted, for readers of the stored
//! state that build proofs or range queries against it.
//!
//! A coin lies under the hashed name of the pallet, the hashed name of the
//! map, the 32 bytes of the transaction identifier and the output index in
//! four little-endian bytes.

use bitcoin::Txid as BitcoinTxid;
use vstd::prelude::*;

use crate::bytes::extend;
use crate::coin::Vout;
use crate::external::{bitcoin_txid_bytes, twox_128, twox_128_hash};
use crate::txid::Txid;

verus! {

/// What the ledger needs to know of the runtime that holds it.
pub trait Config {
    /// The name under which the runtime holds the pallet.
    spec fn pallet_name() -> Seq<u8>;

    /// The name under which the runtime holds the pallet.
    fn name() -> (name: Vec<u8>)
        ensures
            name@ == Self::pallet_name(),
    ;
}

/// The Subcoin runtime, which holds the pallet under the name `Bitcoin`.
pub struct Runtime;

impl Config for Runtime {
    /// `Bitcoin`, in ASCII.
    open spec fn pallet_name() -> Seq<u8> {
        seq![66u8, 105u8, 116u8, 99u8, 111u8, 105u8, 110u8]
    }

    fn name() -> (name: Vec<u8>) {
        let name: Vec<u8> = vec![66u8, 105u8, 116u8, 99u8, 111u8, 105u8, 110u8];
        assert(name@ =~= Self::pallet_name());
        name
    }
}

/// The name of the map of coins within the pallet: `Coins`, in ASCII.
pub open spec fn coins_name() -> Seq<u8> {
    seq![67u8, 111u8, 105u8, 110u8, 115u8]
}

/// The four bytes of `value`, least significant first.
pub open spec fn u32_le_bytes(value: u32) -> Seq<u8> {
    seq![
        (value % 256) as u8,
        (value / 256 % 256) as u8,
        (value / 65536 % 256) as u8,
        (value / 16777216) as u8,
    ]
}

/// The prefix that the keys of all coins share where the pallet is held
/// under `pallet_name`: the hash of that name, then the hash of the name of
/// the map.
pub open spec fn prefix_of(pallet_name: Seq<u8>) -> Seq<u8> {
    twox_128_hash(pallet_name) + twox_128_hash(coins_name())
}

/// The prefix that the keys of all coins share in the runtime `T`.
pub open spec fn storage_prefix<T: Config>() -> Seq<u8> {
    prefix_of(T::pallet_name())
}

/// The key of the coin at output `index` of the transaction whose
/// identifier holds the bytes `txid`.
pub open spec fn storage_key<T: Config>(txid: Seq<u8>, index: Vout) -> Seq<u8> {
    storage_prefix::<T>() + txid + u32_le_bytes(index)
}

/// Different indices have different encodings.
pub proof fn lemma_u32_le_bytes_injective(a: u32, b: u32)
    requires
        u32_le_bytes(a) == u32_le_bytes(b),
    ensures
        a == b,
{
    let x = u32_le_bytes(a);
    let y = u32_le_bytes(b);
    assert(x[0] == y[0] && x[1] == y[1] && x[2] == y[2] && x[3] == y[3]);
}

/// Two outputs share a key only if they are the same output: keys of
/// identifiers of equal length are equal only where the identifiers and the
/// indices are.
pub proof fn lemma_storage_key_injective<T: Config>(
    first_txid: Seq<u8>,
    first_index: Vout,
    second_txid: Seq<u8>,
    second_index: Vout,
)
    requires
        first_txid.len() == second_txid.len(),
        storage_key::<T>(first_txid, first_index) == storage_key::<T>(second_txid, second_index),
    ensures
        first_txid == second_txid,
        first_index == second_index,
{
    let prefix = storage_prefix::<T>();
    let a = storage_key::<T>(first_txid, first_index);
    let b = storage_key::<T>(second_txid, second_index);
    let n = prefix.len() as int;
    let m = first_txid.len() as int;
    assert forall|i: int| 0 <= i < m implies first_txid[i] == second_txid[i] by {
        assert(a[n + i] == first_txid[i]);
        assert(b[n + i] == second_txid[i]);
    }
    assert(first_txid =~= second_txid);
    assert forall|i: int| 0 <= i < 4 implies u32_le_bytes(first_index)[i] == u32_le_bytes(
        second_index,
    )[i] by {
        assert(a[n + m + i] == u32_le_bytes(first_index)[i]);
        assert(b[n + m + i] == u32_le_bytes(second_index)[i]);
    }
    assert(u32_le_bytes(first_index) =~= u32_le_bytes(second_index));
    lemma_u32_le_bytes_injective(first_index, second_index);
}

/// The prefix made of the hash of the pallet's name and the hash of the
/// map's name.
pub fn join_hashes(pallet_hash: [u8; 16], map_hash: [u8; 16]) -> (prefix: [u8; 32])
    ensures
        prefix@ == pallet_hash@ + map_hash@,
{
    let mut prefix = [0u8; 32];
    let mut i: usize = 0;
    while i < 16
        invariant
            i <= 16,
            forall|j: int| 0 <= j < i ==> prefix@[j] == pallet_hash@[j],
            forall|j: int| 0 <= j < i ==> prefix@[16 + j] == map_hash@[j],
        decreases 16 - i,
    {
        prefix[i] = pallet_hash[i];
        prefix[16 + i] = map_hash[i];
        i += 1;
    }
    assert(prefix@ =~= pallet_hash@ + map_hash@);
    prefix
}

/// Returns the prefix that the storage keys of all coins share where the
/// pallet is held under `pallet_name`.
pub fn coin_storage_prefix_of(pallet_name: &[u8]) -> (prefix: [u8; 32])
    ensures
        prefix@ == prefix_of(pallet_name@),
{
    let map_name: Vec<u8> = vec![67u8, 111u8, 105u8, 110u8, 115u8];
    assert(map_name@ =~= coins_name());
    let pallet_hash = twox_128(pallet_name);
    let map_hash = twox_128(map_name.as_slice());
    join_hashes(pallet_hash, map_hash)
}

/// Returns the prefix that the storage keys of all coins share.
pub fn coin_storage_prefix<T: Config>() -> (prefix: [u8; 32])
    ensures
        prefix@ == storage_prefix::<T>(),
{
    let pallet_name = T::name();
    coin_storage_prefix_of(pallet_name.as_slice())
}

/// The four bytes of `value`, least significant first.
pub fn encode_index(value: Vout) -> (bytes: [u8; 4])
    ensures
        bytes@ == u32_le_bytes(value),
{
    let bytes = [
        (value % 256) as u8,
        (value / 256 % 256) as u8,
        (value / 65536 % 256) as u8,
        (value / 16777216) as u8,
    ];
    assert(bytes@ =~= u32_le_bytes(value));
    bytes
}

/// The key under `prefix` of the coin at output `index` of transaction
/// `txid`: the prefix, the 32 bytes of the identifier, and the index in
/// four little-endian bytes.
pub fn final_key(prefix: &[u8; 32], txid: &Txid, index: Vout) -> (key: Vec<u8>)
    ensures
        key@ == prefix@ + txid@ + u32_le_bytes(index),
        key@.len() == 68,
{
    let index_bytes = encode_index(index);
    let mut key: Vec<u8> = Vec::new();
    extend(&mut key, prefix.as_slice());
    extend(&mut key, txid.0.as_slice());
    extend(&mut key, index_bytes.as_slice());
    assert(key@ =~= prefix@ + txid@ + u32_le_bytes(index));
    key
}

/// Returns the storage key for the referenced output.
pub fn coin_storage_key<T: Config>(bitcoin_txid: BitcoinTxid, index: Vout) -> (key: Vec<u8>)
    ensures
        key@ == storage_key::<T>(bitcoin_txid_bytes(bitcoin_txid), index),
        key@.len() == 68,
{
    let txid = Txid::from_bitcoin_txid(bitcoin_txid);
    let prefix = coin_storage_prefix::<T>();
    final_key(&prefix, &txid, index)
}

/// The storage keys of the coins in the Subcoin runtime.
pub struct CoinStorageKey;

impl CoinStorageKey {
    /// The storage key of the coin at output `vout` of transaction `txid`.
    pub fn storage_key(&self, txid: BitcoinTxid, vout: u32) -> (key: Vec<u8>)
        ensures
            key@ == storage_key::<Runtime>(bitcoin_txid_bytes(txid), vout),
            key@.len() == 68,
    {
        coin_storage_key::<Runtime>(txid, vout)
    }

    /// The prefix that the storage keys of all coins share.
    pub fn storage_prefix(&self) -> (prefix: [u8; 32])
        ensures
            prefix@ == storage_prefix::<Runtime>(),
    {
        coin_storage_prefix::<Runtime>()
    }
}

} // verus!
