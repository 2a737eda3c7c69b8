use bitcoin::hashes::Hash as BitcoinHash;
use subcoin_core::{
    extract_bitcoin_block_hash, genesis_block_hash_mapping, insert_bitcoin_block_hash_mapping,
    BlockImportParams, DigestItem, ForkChoiceStrategy, Header, HeaderError, Network,
    SubstrateImportQueueVerifier, NAKAMOTO_HASH_ENGINE_ID,
};

fn hash_item(tag: u8) -> DigestItem {
    DigestItem::PreRuntime(NAKAMOTO_HASH_ENGINE_ID, vec![tag; 32])
}

fn params(digest: Vec<DigestItem>) -> BlockImportParams {
    BlockImportParams {
        header: Header { hash: [0x5b; 32], digest },
        fork_choice: None,
        auxiliary: vec![(vec![1, 2], None)],
    }
}

fn reversed_hex(bytes: &[u8]) -> String {
    bytes.iter().rev().map(|b| format!("{:02x}", b)).collect()
}

#[test]
fn engine_identifier_is_hash() {
    assert_eq!(NAKAMOTO_HASH_ENGINE_ID, *b"hash");
}

#[test]
fn extracts_the_only_block_hash() {
    let header = Header {
        hash: [0; 32],
        digest: vec![
            DigestItem::Other(vec![9; 32]),
            DigestItem::PreRuntime(*b"hedr", vec![8; 32]),
            DigestItem::Consensus(NAKAMOTO_HASH_ENGINE_ID, vec![7; 32]),
            hash_item(0xc4),
            DigestItem::Seal(NAKAMOTO_HASH_ENGINE_ID, vec![6; 32]),
            DigestItem::RuntimeEnvironmentUpdated,
        ],
    };
    assert_eq!(extract_bitcoin_block_hash(&header), Ok([0xc4; 32]));
}

#[test]
fn extraction_copies_every_byte() {
    let bytes: Vec<u8> = (0..32u8).collect();
    let header = Header {
        hash: [0; 32],
        digest: vec![DigestItem::PreRuntime(NAKAMOTO_HASH_ENGINE_ID, bytes.clone())],
    };
    assert_eq!(extract_bitcoin_block_hash(&header).map(|h| h.to_vec()), Ok(bytes));
}

#[test]
fn a_header_without_block_hash_is_refused() {
    let header = Header { hash: [0; 32], digest: vec![] };
    assert_eq!(
        extract_bitcoin_block_hash(&header),
        Err(HeaderError::MissingBitcoinBlockHashDigest)
    );
    let header = Header {
        hash: [0; 32],
        digest: vec![
            DigestItem::PreRuntime(*b"hedr", vec![8; 32]),
            DigestItem::Seal(NAKAMOTO_HASH_ENGINE_ID, vec![6; 32]),
        ],
    };
    assert_eq!(
        extract_bitcoin_block_hash(&header),
        Err(HeaderError::MissingBitcoinBlockHashDigest)
    );
}

#[test]
fn a_header_with_two_block_hashes_is_refused() {
    let header = Header { hash: [0; 32], digest: vec![hash_item(1), hash_item(1)] };
    assert_eq!(extract_bitcoin_block_hash(&header), Err(HeaderError::MultiplePreRuntimeDigests));
    let header = Header {
        hash: [0; 32],
        digest: vec![
            DigestItem::PreRuntime(NAKAMOTO_HASH_ENGINE_ID, vec![1; 3]),
            DigestItem::Other(vec![]),
            hash_item(2),
        ],
    };
    assert_eq!(extract_bitcoin_block_hash(&header), Err(HeaderError::MultiplePreRuntimeDigests));
}

#[test]
fn a_block_hash_of_the_wrong_length_is_refused() {
    for len in [0usize, 1, 31, 33, 64] {
        let header = Header {
            hash: [0; 32],
            digest: vec![DigestItem::PreRuntime(NAKAMOTO_HASH_ENGINE_ID, vec![1; len])],
        };
        assert_eq!(
            extract_bitcoin_block_hash(&header),
            Err(HeaderError::InvalidBitcoinBlockHashDigest)
        );
    }
}

#[test]
fn mapping_is_recorded_in_both_directions() {
    let mut block = params(vec![]);
    insert_bitcoin_block_hash_mapping(&mut block, [0xb1; 32], [0x5b; 32]);
    assert_eq!(
        block.auxiliary,
        vec![
            (vec![1, 2], None),
            (vec![0xb1; 32], Some(vec![0x5b; 32])),
            (vec![0x5b; 32], Some(vec![0xb1; 32])),
        ]
    );
    assert_eq!(block.fork_choice, None);
    assert_eq!(block.header, params(vec![]).header);
}

#[test]
fn verify_prepares_the_block() {
    let block = params(vec![DigestItem::Other(vec![1]), hash_item(0xb1)]);
    let verified = SubstrateImportQueueVerifier.verify(block.clone()).unwrap();
    assert_eq!(verified.fork_choice, Some(ForkChoiceStrategy::LongestChain));
    assert_eq!(verified.header, block.header);
    assert_eq!(
        verified.auxiliary,
        vec![
            (vec![1, 2], None),
            (vec![0xb1; 32], Some(vec![0x5b; 32])),
            (vec![0x5b; 32], Some(vec![0xb1; 32])),
        ]
    );
}

#[test]
fn verify_overrules_an_earlier_fork_choice() {
    let mut block = params(vec![hash_item(0xb1)]);
    block.fork_choice = Some(ForkChoiceStrategy::Custom(true));
    let verified = SubstrateImportQueueVerifier.verify(block).unwrap();
    assert_eq!(verified.fork_choice, Some(ForkChoiceStrategy::LongestChain));
}

#[test]
fn verify_rejects_a_block_without_block_hash() {
    assert_eq!(
        SubstrateImportQueueVerifier.verify(params(vec![])),
        Err("Failed to extract bitcoin block hash: MissingBitcoinBlockHashDigest".to_string())
    );
}

#[test]
fn verify_rejects_a_block_with_two_block_hashes() {
    assert_eq!(
        SubstrateImportQueueVerifier.verify(params(vec![hash_item(1), hash_item(2)])),
        Err("Failed to extract bitcoin block hash: MultiplePreRuntimeDigests".to_string())
    );
}

#[test]
fn verify_rejects_a_block_hash_of_the_wrong_length() {
    let digest = vec![DigestItem::PreRuntime(NAKAMOTO_HASH_ENGINE_ID, vec![1; 31])];
    assert_eq!(
        SubstrateImportQueueVerifier.verify(params(digest)),
        Err("Failed to extract bitcoin block hash: InvalidBitcoinBlockHashDigest".to_string())
    );
}

#[test]
fn genesis_mapping_of_the_main_network() {
    let (key, value) = genesis_block_hash_mapping(Network::Bitcoin, [0x5b; 32]);
    assert_eq!(
        reversed_hex(&key),
        "000000000019d6689c085ae165831e934ff763ae46a2a6c172b3f1b60a8ce26f"
    );
    assert_eq!(value, vec![0x5b; 32]);
}

#[test]
fn genesis_mapping_of_every_network() {
    let networks = [
        (Network::Bitcoin, bitcoin::Network::Bitcoin),
        (Network::Testnet, bitcoin::Network::Testnet),
        (Network::Testnet4, bitcoin::Network::Testnet4),
        (Network::Signet, bitcoin::Network::Signet),
        (Network::Regtest, bitcoin::Network::Regtest),
    ];
    for (network, bitcoin_network) in networks {
        let (key, value) = genesis_block_hash_mapping(network, [7; 32]);
        let block = bitcoin::constants::genesis_block(bitcoin_network);
        assert_eq!(key, block.block_hash().to_byte_array().to_vec());
        assert_eq!(
            key,
            bitcoin::constants::ChainHash::using_genesis_block(bitcoin_network).to_bytes().to_vec()
        );
        assert_eq!(value, vec![7; 32]);
    }
}

#[test]
fn genesis_hashes_as_they_are_shown() {
    let shown = [
        (Network::Testnet, "000000000933ea01ad0ee984209779baaec3ced90fa3f408719526f8d77f4943"),
        (Network::Testnet4, "00000000da84f2bafbbc53dee25a72ae507ff4914b867c565be350b0da8bf043"),
        (Network::Signet, "00000008819873e925422c1ff0f99f7cc9bbb232af63a077a480a3633bee1ef6"),
        (Network::Regtest, "0f9188f13cb7b2c71f2a335e3a4fc328bf5beb436012afca590b1a11466e2206"),
    ];
    for (network, hex) in shown {
        let (key, _) = genesis_block_hash_mapping(network, [0; 32]);
        assert_eq!(reversed_hex(&key), hex);
    }
}
