//! Outputs, the references that name them, and the coins they become.

use vstd::prelude::*;

use crate::txid::Txid;

verus! {

/// Script length that the size accounting of a stored coin allows for.
pub const MAX_SCRIPT_SIZE: usize = 10_000;

/// Transaction output index.
pub type Vout = u32;

/// Reference to one output of one transaction.
#[derive(Clone, Copy, Debug, PartialEq, Eq, Hash)]
pub struct OutPoint {
    /// The transaction that created the output.
    pub txid: Txid,
    /// The position of the output among that transaction's outputs.
    pub vout: Vout,
}

/// What an [`OutPoint`] holds, as a mathematical value.
pub struct OutPointView {
    pub txid: Seq<u8>,
    pub vout: Vout,
}

impl OutPointView {
    /// The reference that stands in the single input of a coinbase
    /// transaction and names no output: an all-zero identifier with the
    /// largest index.
    pub open spec fn is_null(self) -> bool {
        &&& self.vout == u32::MAX
        &&& self.txid.len() == 32
        &&& forall|i: int| 0 <= i < 32 ==> self.txid[i] == 0u8
    }
}

impl View for OutPoint {
    type V = OutPointView;

    open spec fn view(&self) -> OutPointView {
        OutPointView { txid: self.txid@, vout: self.vout }
    }
}

impl OutPoint {
    /// Whether two references name the same output.
    pub fn equals(&self, other: &OutPoint) -> (same: bool)
        ensures
            same == (self@ == other@),
    {
        self.vout == other.vout && self.txid.equals(&other.txid)
    }

    /// Whether this is the null reference of a coinbase input.
    pub fn is_null(&self) -> (null: bool)
        ensures
            null == self@.is_null(),
    {
        if self.vout != u32::MAX {
            return false;
        }
        let mut i: usize = 0;
        while i < 32
            invariant
                i <= 32,
                forall|j: int| 0 <= j < i ==> self.txid@[j] == 0u8,
            decreases 32 - i,
        {
            if self.txid.0[i] != 0 {
                assert(self.txid@[i as int] != 0u8);
                return false;
            }
            i += 1;
        }
        true
    }
}

/// What a [`Coin`] holds, as a mathematical value.
pub struct CoinView {
    pub is_coinbase: bool,
    pub amount: u64,
    pub script_pubkey: Seq<u8>,
}

/// Unspent transaction output.
#[derive(Clone, Debug, PartialEq, Eq)]
pub struct Coin {
    /// Whether the coin is from a coinbase transaction.
    pub is_coinbase: bool,
    /// Transfer value in satoshis.
    pub amount: u64,
    /// Spending condition of the output.
    pub script_pubkey: Vec<u8>,
}

impl View for Coin {
    type V = CoinView;

    open spec fn view(&self) -> CoinView {
        CoinView {
            is_coinbase: self.is_coinbase,
            amount: self.amount,
            script_pubkey: self.script_pubkey@,
        }
    }
}

impl Coin {
    /// Bytes that the size accounting reserves for one stored coin: one for
    /// the flag, eight for the amount, and [`MAX_SCRIPT_SIZE`] for the
    /// script. A longer script is accounted for at this size and is still
    /// stored whole.
    pub fn max_encoded_len() -> (len: usize)
        ensures
            len == 10_009,
    {
        1 + 8 + MAX_SCRIPT_SIZE
    }

    /// A coin with the same contents.
    pub fn duplicate(&self) -> (copy: Coin)
        ensures
            copy@ == self@,
    {
        let script_pubkey = self.script_pubkey.clone();
        assert(script_pubkey@ =~= self.script_pubkey@);
        Coin { is_coinbase: self.is_coinbase, amount: self.amount, script_pubkey }
    }
}

} // verus!
