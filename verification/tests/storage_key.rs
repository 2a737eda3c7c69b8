use bitcoin::hashes::Hash as BitcoinHash;
use parity_scale_codec::Encode;
use subcoin_core::storage_key::{final_key, join_hashes};
use subcoin_core::{
    coin_storage_key, coin_storage_prefix, coin_storage_prefix_of, CoinStorageKey, Config,
    Runtime, Txid,
};

fn txid(tag: u8) -> bitcoin::Txid {
    let mut bytes = [tag; 32];
    bytes[0] = 0xaa;
    bytes[31] = 0xbb;
    bitcoin::Txid::from_byte_array(bytes)
}

#[test]
fn runtime_holds_the_pallet_as_bitcoin() {
    assert_eq!(Runtime::name(), b"Bitcoin".to_vec());
}

#[test]
fn prefix_is_the_hashed_pallet_name_and_map_name() {
    let prefix = coin_storage_prefix::<Runtime>();
    assert_eq!(prefix[..16], sp_crypto_hashing::twox_128(b"Bitcoin"));
    assert_eq!(prefix[16..], sp_crypto_hashing::twox_128(b"Coins"));
    assert_ne!(prefix[..16], *b"Bitcoin\0\0\0\0\0\0\0\0\0");
}

#[test]
fn prefix_follows_the_pallet_name() {
    assert_eq!(coin_storage_prefix_of(b"Bitcoin"), coin_storage_prefix::<Runtime>());
    let prefix = coin_storage_prefix_of(b"System");
    // The hashed name of the system pallet, as every Substrate chain has it.
    assert_eq!(
        prefix[..16],
        [
            0x26, 0xaa, 0x39, 0x4e, 0xea, 0x56, 0x30, 0xe0, 0x7c, 0x48, 0xae, 0x0c, 0x95, 0x58,
            0xce, 0xf7
        ]
    );
    assert_eq!(prefix[16..], coin_storage_prefix::<Runtime>()[16..]);
    assert_ne!(prefix[..16], coin_storage_prefix::<Runtime>()[..16]);
}

#[test]
fn key_is_prefix_identifier_and_index() {
    let key = coin_storage_key::<Runtime>(txid(3), 0x0102_0304);
    assert_eq!(key.len(), 68);
    assert_eq!(key[..32], coin_storage_prefix::<Runtime>());
    assert_eq!(key[32..64], txid(3).to_byte_array());
    assert_eq!(key[64..], [4, 3, 2, 1]);
}

#[test]
fn index_is_encoded_as_the_codec_does() {
    for index in [0u32, 1, 255, 256, 65_535, 65_536, 16_777_215, 16_777_216, u32::MAX] {
        let key = coin_storage_key::<Runtime>(txid(3), index);
        assert_eq!(key[64..], index.encode()[..]);
        assert_eq!(subcoin_core::storage_key::encode_index(index).to_vec(), index.encode());
    }
}

#[test]
fn keys_differ_where_outputs_differ() {
    let key = coin_storage_key::<Runtime>(txid(3), 7);
    assert_eq!(key, coin_storage_key::<Runtime>(txid(3), 7));
    assert_ne!(key, coin_storage_key::<Runtime>(txid(3), 8));
    assert_ne!(key, coin_storage_key::<Runtime>(txid(4), 7));
}

#[test]
fn coin_storage_key_of_the_subcoin_runtime() {
    let keys = CoinStorageKey;
    assert_eq!(keys.storage_prefix(), coin_storage_prefix::<Runtime>());
    assert_eq!(keys.storage_key(txid(5), 9), coin_storage_key::<Runtime>(txid(5), 9));
    assert!(keys.storage_key(txid(5), 9).starts_with(&keys.storage_prefix()));
}

#[test]
fn hashes_are_joined_in_order() {
    let mut expected = [1u8; 32];
    expected[16..].copy_from_slice(&[2u8; 16]);
    assert_eq!(join_hashes([1; 16], [2; 16]), expected);
}

#[test]
fn final_key_lays_out_prefix_identifier_and_index() {
    let mut identifier = [0u8; 32];
    identifier[0] = 0xaa;
    identifier[31] = 0xbb;
    let key = final_key(&[0x11; 32], &Txid(identifier), 258);
    let mut expected = vec![0x11u8; 32];
    expected.extend_from_slice(&identifier);
    expected.extend_from_slice(&[2, 1, 0, 0]);
    assert_eq!(key, expected);
}
