//! Transaction identifiers.

use bitcoin::Txid as BitcoinTxid;
use vstd::prelude::*;

use crate::external::{bitcoin_txid_bytes, push_char, txid_from_byte_array, txid_to_byte_array};

verus! {

/// Identifier of a transaction: the 32 bytes of its double SHA-256 hash, in
/// the order in which the hash function produced them.
#[derive(Clone, Copy, Debug, PartialEq, Eq, Hash)]
pub struct Txid(pub [u8; 32]);

impl View for Txid {
    type V = Seq<u8>;

    open spec fn view(&self) -> Seq<u8> {
        self.0@
    }
}

/// The lowercase hexadecimal digit for a value below sixteen.
pub open spec fn hex_digit(nibble: int) -> char {
    seq!['0', '1', '2', '3', '4', '5', '6', '7', '8', '9', 'a', 'b', 'c', 'd', 'e', 'f'][nibble]
}

/// The conventional rendering of a hash: its bytes from last to first, two
/// lowercase hexadecimal digits each, high nibble first.
pub open spec fn display_hex(bytes: Seq<u8>) -> Seq<char> {
    Seq::new(
        2 * bytes.len(),
        |i: int|
            {
                let byte = bytes[bytes.len() - 1 - i / 2];
                if i % 2 == 0 {
                    hex_digit(byte as int / 16)
                } else {
                    hex_digit(byte as int % 16)
                }
            },
    )
}

fn hex_char(nibble: u8) -> (c: char)
    requires
        nibble < 16,
    ensures
        c == hex_digit(nibble as int),
{
    if nibble < 10 {
        (48u8 + nibble) as char
    } else {
        (87u8 + nibble) as char
    }
}

impl Txid {
    /// The identifier that the `bitcoin` crate's value holds.
    pub fn from_bitcoin_txid(txid: BitcoinTxid) -> (id: Txid)
        ensures
            id@ == bitcoin_txid_bytes(txid),
    {
        Txid(txid_to_byte_array(txid))
    }

    /// The `bitcoin` crate's value for this identifier.
    pub fn into_bitcoin_txid(self) -> (txid: BitcoinTxid)
        ensures
            bitcoin_txid_bytes(txid) == self@,
    {
        txid_from_byte_array(self.0)
    }

    /// Whether two identifiers hold the same bytes.
    pub fn equals(&self, other: &Txid) -> (same: bool)
        ensures
            same == (self@ == other@),
    {
        let mut i: usize = 0;
        while i < 32
            invariant
                i <= 32,
                forall|j: int| 0 <= j < i ==> self.0[j] == other.0[j],
            decreases 32 - i,
        {
            if self.0[i] != other.0[i] {
                return false;
            }
            i += 1;
        }
        assert(self@ =~= other@);
        true
    }

    /// The identifier as it is conventionally shown: byte-reversed, in
    /// lowercase hexadecimal.
    pub fn to_hex(&self) -> (text: String)
        ensures
            text@ == display_hex(self@),
    {
        let mut text = String::new();
        let mut i: usize = 32;
        while i > 0
            invariant
                i <= 32,
                text@ == display_hex(self@).subrange(0, 2 * (32 - i)),
            decreases i,
        {
            i -= 1;
            let byte = self.0[i];
            push_char(&mut text, hex_char(byte / 16));
            push_char(&mut text, hex_char(byte % 16));
        }
        assert(text@ == display_hex(self@));
        text
    }
}

} // verus!
