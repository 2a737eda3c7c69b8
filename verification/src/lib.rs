//! The ledger core of a Bitcoin-compatible chain: the set of unspent
//! transaction outputs and the rules that apply transactions to it, the
//! storage keys under which coins are persisted, the per-block import hook,
//! and the controller that decides when an imported block has enough
//! confirmations to be finalized.

mod bytes;
pub mod coin;
pub mod coins;
pub mod external;
pub mod finalizer;
pub mod genesis;
pub mod history;
pub mod import_queue;
pub mod pallet;
pub mod storage_key;
pub mod transaction;
pub mod txid;

pub use crate::coin::{Coin, OutPoint, Vout, MAX_SCRIPT_SIZE};
pub use crate::coins::Coins;
pub use crate::finalizer::{
    BlockNumber, ConfirmationFinalizer, FinalizeCall, FinalizeTask, FinalizerAction, SkipReason,
    SyncStatus,
};
pub use crate::genesis::{genesis_updates, GenesisConfig, MAINNET_GENESIS_TX};
pub use crate::import_queue::{
    extract_bitcoin_block_hash, genesis_block_hash_mapping, insert_bitcoin_block_hash_mapping,
    BlockImportParams, DigestItem, ForkChoiceStrategy, Header, HeaderError, Network,
    SubstrateImportQueueVerifier, NAKAMOTO_HASH_ENGINE_ID,
};
pub use crate::pallet::{coin_updates, CoinUpdate, Error, Origin, Pallet};
pub use crate::storage_key::{
    coin_storage_key, coin_storage_prefix, coin_storage_prefix_of, CoinStorageKey, Config,
    Runtime,
};
pub use crate::transaction::{Transaction, TxIn, TxOut};
pub use crate::txid::Txid;
