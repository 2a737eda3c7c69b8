use bitcoin::hashes::Hash as BitcoinHash;
use subcoin_core::Txid;

fn counting() -> [u8; 32] {
    let mut bytes = [0u8; 32];
    for (i, byte) in bytes.iter_mut().enumerate() {
        *byte = i as u8;
    }
    bytes
}

#[test]
fn hex_is_byte_reversed_lowercase() {
    let txid = Txid(counting());
    assert_eq!(
        txid.to_hex(),
        "1f1e1d1c1b1a191817161514131211100f0e0d0c0b0a09080706050403020100"
    );
}

#[test]
fn hex_of_extreme_bytes() {
    assert_eq!(Txid([0u8; 32]).to_hex(), "0".repeat(64));
    assert_eq!(Txid([0xffu8; 32]).to_hex(), "f".repeat(64));
    let mut bytes = [0u8; 32];
    bytes[31] = 0xa9;
    bytes[0] = 0x0b;
    let hex = Txid(bytes).to_hex();
    assert_eq!(hex.len(), 64);
    assert!(hex.starts_with("a9"));
    assert!(hex.ends_with("0b"));
}

#[test]
fn hex_agrees_with_the_bitcoin_crate() {
    let bitcoin_txid = bitcoin::Txid::from_byte_array(counting());
    assert_eq!(Txid::from_bitcoin_txid(bitcoin_txid).to_hex(), bitcoin_txid.to_string());
}

#[test]
fn from_bitcoin_txid_keeps_the_byte_order() {
    let bitcoin_txid = bitcoin::Txid::from_byte_array(counting());
    assert_eq!(Txid::from_bitcoin_txid(bitcoin_txid), Txid(counting()));
}

#[test]
fn into_bitcoin_txid_keeps_the_byte_order() {
    let bitcoin_txid = Txid(counting()).into_bitcoin_txid();
    assert_eq!(bitcoin_txid.to_byte_array(), counting());
    assert_eq!(
        bitcoin_txid.to_string(),
        "1f1e1d1c1b1a191817161514131211100f0e0d0c0b0a09080706050403020100"
    );
}

#[test]
fn txid_round_trips_through_the_bitcoin_crate() {
    let txid = Txid(counting());
    assert_eq!(Txid::from_bitcoin_txid(txid.into_bitcoin_txid()), txid);
}

#[test]
fn equals_compares_every_byte() {
    let txid = Txid(counting());
    assert!(txid.equals(&Txid(counting())));
    for i in 0..32 {
        let mut bytes = counting();
        bytes[i] ^= 1;
        assert!(!txid.equals(&Txid(bytes)));
    }
}
