//! The step that every block takes before it enters the import pipeline.
//!
//! The step settles how the block competes with other forks, reads the hash
//! of the Bitcoin block from the header, and notes for the chain's metadata
//! which Bitcoin block and which native block belong together. It checks
//! nothing of what the block holds.

use vstd::prelude::*;

use crate::bytes::to_vec;
use crate::external::bitcoin_genesis_block_hash;

verus! {

/// Names the consensus engine that a digest item is meant for.
pub type ConsensusEngineId = [u8; 4];

/// The engine identifier under which a header carries the hash of its
/// Bitcoin block: `hash`, in ASCII.
pub const NAKAMOTO_HASH_ENGINE_ID: ConsensusEngineId = [104, 97, 115, 104];

/// What a [`DigestItem`] holds, as a mathematical value.
pub enum DigestItemView {
    PreRuntime(Seq<u8>, Seq<u8>),
    Consensus(Seq<u8>, Seq<u8>),
    Seal(Seq<u8>, Seq<u8>),
    Other(Seq<u8>),
    RuntimeEnvironmentUpdated,
}

/// One entry of a header's digest.
#[derive(Clone, Debug, PartialEq, Eq)]
pub enum DigestItem {
    /// A message from the block's author to the runtime.
    PreRuntime(ConsensusEngineId, Vec<u8>),
    /// A message from the runtime to the consensus engine.
    Consensus(ConsensusEngineId, Vec<u8>),
    /// The author's seal on the block.
    Seal(ConsensusEngineId, Vec<u8>),
    /// Anything else.
    Other(Vec<u8>),
    /// The runtime code or heap pages have changed.
    RuntimeEnvironmentUpdated,
}

impl View for DigestItem {
    type V = DigestItemView;

    open spec fn view(&self) -> DigestItemView {
        match self {
            DigestItem::PreRuntime(engine, data) => DigestItemView::PreRuntime(engine@, data@),
            DigestItem::Consensus(engine, data) => DigestItemView::Consensus(engine@, data@),
            DigestItem::Seal(engine, data) => DigestItemView::Seal(engine@, data@),
            DigestItem::Other(data) => DigestItemView::Other(data@),
            DigestItem::RuntimeEnvironmentUpdated => DigestItemView::RuntimeEnvironmentUpdated,
        }
    }
}

/// What a [`Header`] holds, as a mathematical value.
pub struct HeaderView {
    pub hash: Seq<u8>,
    pub digest: Seq<DigestItemView>,
}

/// A block header, as far as the import step reads it.
#[derive(Clone, Debug, PartialEq, Eq)]
pub struct Header {
    /// The hash of the header, which names the native block.
    pub hash: [u8; 32],
    /// The entries of the header's digest, in order.
    pub digest: Vec<DigestItem>,
}

impl View for Header {
    type V = HeaderView;

    open spec fn view(&self) -> HeaderView {
        HeaderView { hash: self.hash@, digest: self.digest@.map_values(|item: DigestItem| item@) }
    }
}

/// How a block competes with the blocks of other forks.
#[derive(Clone, Copy, Debug, PartialEq, Eq)]
pub enum ForkChoiceStrategy {
    /// The longest chain wins.
    LongestChain,
    /// The block says itself whether it is the new best block.
    Custom(bool),
}

/// An entry for the chain's metadata: a key, and the value to store under
/// it or `None` to delete what is stored there.
pub type AuxEntry = (Vec<u8>, Option<Vec<u8>>);

/// An [`AuxEntry`] as a mathematical value.
pub type AuxEntryView = (Seq<u8>, Option<Seq<u8>>);

/// The entries of `entries`, as mathematical values.
pub open spec fn aux_view(entries: Seq<AuxEntry>) -> Seq<AuxEntryView> {
    entries.map_values(
        |entry: AuxEntry|
            (
                entry.0@,
                match entry.1 {
                    Some(value) => Some(value@),
                    None => None,
                },
            ),
    )
}

/// What a [`BlockImportParams`] holds, as a mathematical value.
pub struct BlockImportParamsView {
    pub header: HeaderView,
    pub fork_choice: Option<ForkChoiceStrategy>,
    pub auxiliary: Seq<AuxEntryView>,
}

/// A block on its way into the import pipeline, as far as the import step
/// reads and changes it.
#[derive(Clone, Debug, PartialEq, Eq)]
pub struct BlockImportParams {
    /// The header of the block.
    pub header: Header,
    /// How the block competes with other forks, once decided.
    pub fork_choice: Option<ForkChoiceStrategy>,
    /// What the import of the block writes to the chain's metadata.
    pub auxiliary: Vec<AuxEntry>,
}

impl View for BlockImportParams {
    type V = BlockImportParamsView;

    open spec fn view(&self) -> BlockImportParamsView {
        BlockImportParamsView {
            header: self.header@,
            fork_choice: self.fork_choice,
            auxiliary: aux_view(self.auxiliary@),
        }
    }
}

/// Why no Bitcoin block hash could be read from a header.
#[derive(Clone, Copy, Debug, PartialEq, Eq)]
pub enum HeaderError {
    /// More than one digest item claims to carry the hash.
    MultiplePreRuntimeDigests,
    /// No digest item carries the hash.
    MissingBitcoinBlockHashDigest,
    /// The digest item that carries the hash does not hold 32 bytes.
    InvalidBitcoinBlockHashDigest,
}

/// Whether a digest item is meant to carry the hash of the Bitcoin block: a
/// pre-runtime item under [`NAKAMOTO_HASH_ENGINE_ID`].
pub open spec fn carries_block_hash(item: DigestItemView) -> bool {
    item is PreRuntime && item->PreRuntime_0 == NAKAMOTO_HASH_ENGINE_ID@
}

/// Whether the item at position `i` is the only one of `digest` that
/// carries a block hash.
pub open spec fn sole_block_hash_digest(digest: Seq<DigestItemView>, i: int) -> bool {
    &&& 0 <= i < digest.len()
    &&& carries_block_hash(digest[i])
    &&& forall|j: int| 0 <= j < digest.len() && j != i ==> !carries_block_hash(#[trigger] digest[j])
}

/// The Bitcoin block hash that a digest carries: the 32 bytes of the only
/// item that carries one.
pub open spec fn bitcoin_block_hash(digest: Seq<DigestItemView>) -> Result<Seq<u8>, HeaderError> {
    if exists|i: int, j: int|
        0 <= i < j < digest.len() && carries_block_hash(#[trigger] digest[i])
            && carries_block_hash(#[trigger] digest[j]) {
        Err(HeaderError::MultiplePreRuntimeDigests)
    } else if exists|i: int| 0 <= i < digest.len() && carries_block_hash(#[trigger] digest[i]) {
        let i = choose|i: int| 0 <= i < digest.len() && carries_block_hash(#[trigger] digest[i]);
        if digest[i]->PreRuntime_1.len() == 32 {
            Ok(digest[i]->PreRuntime_1)
        } else {
            Err(HeaderError::InvalidBitcoinBlockHashDigest)
        }
    } else {
        Err(HeaderError::MissingBitcoinBlockHashDigest)
    }
}

/// The two entries that tie a Bitcoin block and a native block together:
/// the native hash under the Bitcoin hash, and the Bitcoin hash under the
/// native hash.
pub open spec fn block_hash_mapping(
    bitcoin_block_hash: Seq<u8>,
    substrate_block_hash: Seq<u8>,
) -> Seq<AuxEntryView> {
    seq![
        (bitcoin_block_hash, Some(substrate_block_hash)),
        (substrate_block_hash, Some(bitcoin_block_hash)),
    ]
}

/// What the rejection of a block says.
pub open spec fn rejection(error: HeaderError) -> Seq<char> {
    match error {
        HeaderError::MultiplePreRuntimeDigests =>
            "Failed to extract bitcoin block hash: MultiplePreRuntimeDigests"@,
        HeaderError::MissingBitcoinBlockHashDigest =>
            "Failed to extract bitcoin block hash: MissingBitcoinBlockHashDigest"@,
        HeaderError::InvalidBitcoinBlockHashDigest =>
            "Failed to extract bitcoin block hash: InvalidBitcoinBlockHashDigest"@,
    }
}

fn is_hash_engine(engine: &ConsensusEngineId) -> (same: bool)
    ensures
        same == (engine@ == NAKAMOTO_HASH_ENGINE_ID@),
{
    let same = engine[0] == NAKAMOTO_HASH_ENGINE_ID[0] && engine[1] == NAKAMOTO_HASH_ENGINE_ID[1]
        && engine[2] == NAKAMOTO_HASH_ENGINE_ID[2] && engine[3] == NAKAMOTO_HASH_ENGINE_ID[3];
    proof {
        if same {
            assert(engine@ =~= NAKAMOTO_HASH_ENGINE_ID@);
        }
    }
    same
}

fn item_carries_block_hash(item: &DigestItem) -> (carries: bool)
    ensures
        carries == carries_block_hash(item@),
{
    match item {
        DigestItem::PreRuntime(engine, _) => is_hash_engine(engine),
        _ => false,
    }
}

/// Extracts the Bitcoin block hash from the given header.
pub fn extract_bitcoin_block_hash(header: &Header) -> (result: Result<[u8; 32], HeaderError>)
    ensures
        match bitcoin_block_hash(header@.digest) {
            Ok(hash) => result is Ok && result.unwrap()@ == hash,
            Err(error) => result == Err::<[u8; 32], HeaderError>(error),
        },
        result is Ok ==> exists|i: int|
            sole_block_hash_digest(header@.digest, i) && header@.digest[i]->PreRuntime_1
                == result.unwrap()@,
{
    let ghost digest = header@.digest;
    let mut found: Option<usize> = None;
    let mut k: usize = 0;
    while k < header.digest.len()
        invariant
            k <= header.digest@.len(),
            digest == header@.digest,
            digest.len() == header.digest@.len(),
            match found {
                Some(i) => {
                    &&& i < k
                    &&& carries_block_hash(digest[i as int])
                    &&& forall|j: int|
                        0 <= j < k && j != i ==> !carries_block_hash(#[trigger] digest[j])
                },
                None => forall|j: int| 0 <= j < k ==> !carries_block_hash(#[trigger] digest[j]),
            },
        decreases header.digest@.len() - k,
    {
        if item_carries_block_hash(&header.digest[k]) {
            assert(carries_block_hash(digest[k as int]));
            match found {
                Some(i) => {
                    assert(carries_block_hash(digest[i as int]));
                    return Err(HeaderError::MultiplePreRuntimeDigests);
                },
                None => {
                    found = Some(k);
                },
            }
        }
        k += 1;
    }
    match found {
        None => Err(HeaderError::MissingBitcoinBlockHashDigest),
        Some(i) => {
            assert(sole_block_hash_digest(digest, i as int));
            proof {
                let c = choose|c: int|
                    0 <= c < digest.len() && carries_block_hash(#[trigger] digest[c]);
                assert(c == i);
            }
            match &header.digest[i] {
                DigestItem::PreRuntime(_, data) => {
                    assert(data@ == digest[i as int]->PreRuntime_1);
                    if data.len() != 32 {
                        return Err(HeaderError::InvalidBitcoinBlockHashDigest);
                    }
                    let mut hash = [0u8; 32];
                    let mut n: usize = 0;
                    while n < 32
                        invariant
                            n <= 32,
                            data@.len() == 32,
                            forall|j: int| 0 <= j < n ==> hash@[j] == data@[j],
                        decreases 32 - n,
                    {
                        hash[n] = data[n];
                        n += 1;
                    }
                    assert(hash@ =~= data@);
                    Ok(hash)
                },
                _ => Err(HeaderError::MissingBitcoinBlockHashDigest),
            }
        },
    }
}

/// Adds to `block_import_params` the two entries that tie the Bitcoin block
/// and the native block together.
pub fn insert_bitcoin_block_hash_mapping(
    block_import_params: &mut BlockImportParams,
    bitcoin_block_hash: [u8; 32],
    substrate_block_hash: [u8; 32],
)
    ensures
        final(block_import_params)@ == (BlockImportParamsView {
            auxiliary: old(block_import_params)@.auxiliary + block_hash_mapping(
                bitcoin_block_hash@,
                substrate_block_hash@,
            ),
            ..old(block_import_params)@
        }),
{
    let ghost before = block_import_params.auxiliary@;
    block_import_params.auxiliary.push(
        (to_vec(bitcoin_block_hash.as_slice()), Some(to_vec(substrate_block_hash.as_slice()))),
    );
    block_import_params.auxiliary.push(
        (to_vec(substrate_block_hash.as_slice()), Some(to_vec(bitcoin_block_hash.as_slice()))),
    );
    assert(aux_view(block_import_params.auxiliary@) =~= aux_view(before) + block_hash_mapping(
        bitcoin_block_hash@,
        substrate_block_hash@,
    ));
}

/// Verifier used by the import queue.
///
/// Prepares the blocks received from the network for import.
pub struct SubstrateImportQueueVerifier;

impl SubstrateImportQueueVerifier {
    /// Prepares a block for import: the longest chain is to win, and the
    /// block's hash and the hash of its Bitcoin block are noted for the
    /// chain's metadata. A block whose header does not carry exactly one
    /// Bitcoin block hash of 32 bytes is rejected.
    pub fn verify(&self, block_import_params: BlockImportParams) -> (result: Result<
        BlockImportParams,
        String,
    >)
        ensures
            match bitcoin_block_hash(block_import_params@.header.digest) {
                Ok(hash) => result is Ok && result.unwrap()@ == (BlockImportParamsView {
                    header: block_import_params@.header,
                    fork_choice: Some(ForkChoiceStrategy::LongestChain),
                    auxiliary: block_import_params@.auxiliary + block_hash_mapping(
                        hash,
                        block_import_params@.header.hash,
                    ),
                }),
                Err(error) => result is Err && result.unwrap_err()@ == rejection(error),
            },
    {
        let mut block_import_params = block_import_params;
        block_import_params.fork_choice = Some(ForkChoiceStrategy::LongestChain);
        let bitcoin_block_hash = match extract_bitcoin_block_hash(&block_import_params.header) {
            Ok(hash) => hash,
            Err(HeaderError::MultiplePreRuntimeDigests) => {
                let message = "Failed to extract bitcoin block hash: MultiplePreRuntimeDigests";
                return Err(message.to_owned());
            },
            Err(HeaderError::MissingBitcoinBlockHashDigest) => {
                let message = "Failed to extract bitcoin block hash: MissingBitcoinBlockHashDigest";
                return Err(message.to_owned());
            },
            Err(HeaderError::InvalidBitcoinBlockHashDigest) => {
                let message = "Failed to extract bitcoin block hash: InvalidBitcoinBlockHashDigest";
                return Err(message.to_owned());
            },
        };
        let substrate_block_hash = block_import_params.header.hash;
        insert_bitcoin_block_hash_mapping(
            &mut block_import_params,
            bitcoin_block_hash,
            substrate_block_hash,
        );
        Ok(block_import_params)
    }
}

/// The Bitcoin networks.
#[derive(Clone, Copy, Debug, PartialEq, Eq)]
pub enum Network {
    /// Mainnet Bitcoin.
    Bitcoin,
    /// Bitcoin's testnet network.
    Testnet,
    /// Bitcoin's testnet4 network.
    Testnet4,
    /// Bitcoin's signet network.
    Signet,
    /// Bitcoin's regtest network.
    Regtest,
}

/// The hash of the genesis block of `network`, in the order in which the
/// hash function produced its bytes.
pub open spec fn genesis_block_hash(network: Network) -> Seq<u8> {
    match network {
        Network::Bitcoin => seq![
            111u8, 226, 140, 10, 182, 241, 179, 114, 193, 166, 162, 70, 174, 99, 247, 79, 147, 30,
            131, 101, 225, 90, 8, 156, 104, 214, 25, 0, 0, 0, 0, 0,
        ],
        Network::Testnet => seq![
            67u8, 73, 127, 215, 248, 38, 149, 113, 8, 244, 163, 15, 217, 206, 195, 174, 186, 121,
            151, 32, 132, 233, 14, 173, 1, 234, 51, 9, 0, 0, 0, 0,
        ],
        Network::Testnet4 => seq![
            67u8, 240, 139, 218, 176, 80, 227, 91, 86, 124, 134, 75, 145, 244, 127, 80, 174, 114,
            90, 226, 222, 83, 188, 251, 186, 242, 132, 218, 0, 0, 0, 0,
        ],
        Network::Signet => seq![
            246u8, 30, 238, 59, 99, 163, 128, 164, 119, 160, 99, 175, 50, 178, 187, 201, 124, 159,
            249, 240, 31, 44, 66, 37, 233, 115, 152, 129, 8, 0, 0, 0,
        ],
        Network::Regtest => seq![
            6u8, 34, 110, 70, 17, 26, 11, 89, 202, 175, 18, 96, 67, 235, 91, 191, 40, 195, 79, 58,
            94, 51, 42, 31, 199, 178, 183, 60, 241, 136, 145, 15,
        ],
    }
}

/// The entry that ties the genesis block of `bitcoin_network` and the
/// native genesis block together: the native hash, to be stored under the
/// Bitcoin hash.
pub fn genesis_block_hash_mapping(
    bitcoin_network: Network,
    substrate_genesis_hash: [u8; 32],
) -> (entry: (Vec<u8>, Vec<u8>))
    ensures
        entry.0@ == genesis_block_hash(bitcoin_network),
        entry.1@ == substrate_genesis_hash@,
{
    let bitcoin_genesis_hash = bitcoin_genesis_block_hash(bitcoin_network);
    (to_vec(bitcoin_genesis_hash.as_slice()), to_vec(substrate_genesis_hash.as_slice()))
}

} // verus!
