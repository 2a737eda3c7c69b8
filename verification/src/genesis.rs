//! Creation of the first coins, from the outputs of the genesis transaction.

use vstd::prelude::*;

use crate::coin::{Coin, CoinView, OutPoint, OutPointView};
use crate::external::consensus_decoding;
use crate::pallet::{
    is_output, made, updates_view, CoinUpdate, CoinUpdateView, CoinsView, Error, Pallet,
};
use crate::transaction::{Transaction, TransactionView};
use crate::txid::Txid;

verus! {

/// The consensus encoding of the only transaction of the genesis block of
/// the Bitcoin main network.
pub const MAINNET_GENESIS_TX: [u8; 204] = [
    1, 0, 0, 0, 1, 0, 0, 0, 0, 0, 0, 0, 0, 0, 0, 0, 0, 0, 0, 0, 0, 0, 0, 0, 0, 0, 0, 0,
    0, 0, 0, 0, 0, 0, 0, 0, 0, 255, 255, 255, 255, 77, 4, 255, 255, 0, 29, 1, 4, 69,
    84, 104, 101, 32, 84, 105, 109, 101, 115, 32, 48, 51, 47, 74, 97, 110, 47, 50, 48,
    48, 57, 32, 67, 104, 97, 110, 99, 101, 108, 108, 111, 114, 32, 111, 110, 32, 98,
    114, 105, 110, 107, 32, 111, 102, 32, 115, 101, 99, 111, 110, 100, 32, 98, 97, 105,
    108, 111, 117, 116, 32, 102, 111, 114, 32, 98, 97, 110, 107, 115, 255, 255, 255,
    255, 1, 0, 242, 5, 42, 1, 0, 0, 0, 67, 65, 4, 103, 138, 253, 176, 254, 85, 72, 39,
    25, 103, 241, 166, 113, 48, 183, 16, 92, 214, 168, 40, 224, 57, 9, 166, 121, 98,
    224, 234, 31, 97, 222, 182, 73, 246, 188, 63, 76, 239, 56, 196, 243, 85, 4, 229,
    30, 193, 18, 222, 92, 56, 77, 247, 186, 11, 141, 87, 138, 76, 112, 43, 107, 241,
    29, 95, 172, 0, 0, 0, 0,
];

/// The coin that output `index` of the genesis transaction becomes. It is
/// marked as coinbase whatever the inputs of the transaction are.
pub open spec fn genesis_coin_of(tx: TransactionView, index: int) -> CoinView {
    CoinView {
        is_coinbase: true,
        amount: tx.output[index].value,
        script_pubkey: tx.output[index].script_pubkey,
    }
}

/// The coins that the outputs of the genesis transaction become: one per
/// output, under the transaction's identifier and the output's index.
pub open spec fn genesis_coins(txid: Seq<u8>, tx: TransactionView) -> CoinsView {
    Map::new(
        |out_point: OutPointView| is_output(txid, tx.output.len() as int, out_point),
        |out_point: OutPointView| genesis_coin_of(tx, out_point.vout as int),
    )
}

/// The changes that create the genesis coins, in order: one creation for
/// each output of the genesis transaction, and no spend.
pub open spec fn planned_genesis_updates(txid: Seq<u8>, tx: TransactionView) -> Seq<
    CoinUpdateView,
> {
    Seq::new(
        tx.output.len(),
        |index: int|
            CoinUpdateView::Create(
                OutPointView { txid, vout: index as u32 },
                genesis_coin_of(tx, index),
            ),
    )
}

/// How one attempt to create the genesis coins relates the set before it to
/// the result and the set after it. The coins are created only in an empty
/// set; any other is left as it is.
pub open spec fn genesis_transition(
    before: CoinsView,
    txid: Seq<u8>,
    tx: TransactionView,
    result: Result<(), Error>,
    after: CoinsView,
) -> bool {
    if before != Map::<OutPointView, CoinView>::empty() {
        result == Err::<(), Error>(Error::AlreadyInitialized) && after == before
    } else if tx.output.len() > u32::MAX {
        result == Err::<(), Error>(Error::TooManyOutputs) && after == before
    } else {
        result is Ok && after == genesis_coins(txid, tx)
    }
}

proof fn lemma_genesis_made_so_far(txid: Seq<u8>, tx: TransactionView, count: int)
    requires
        tx.output.len() <= u32::MAX,
        0 <= count <= tx.output.len(),
    ensures
        ({
            let reached = made(
                Map::<OutPointView, CoinView>::empty(),
                planned_genesis_updates(txid, tx),
                count,
            );
            &&& reached is Some
            &&& reached.unwrap().dom() == Set::new(
                |out_point: OutPointView| is_output(txid, count, out_point),
            )
            &&& forall|out_point: OutPointView| #[trigger]
                reached.unwrap().contains_key(out_point) ==> reached.unwrap()[out_point]
                    == genesis_coin_of(tx, out_point.vout as int)
        }),
    decreases count,
{
    let empty = Map::<OutPointView, CoinView>::empty();
    let plan = planned_genesis_updates(txid, tx);
    if count == 0 {
        assert(empty.dom() =~= Set::new(|out_point: OutPointView| is_output(txid, 0, out_point)));
    } else {
        lemma_genesis_made_so_far(txid, tx, count - 1);
        let reached = made(empty, plan, count - 1).unwrap();
        let created = OutPointView { txid, vout: (count - 1) as u32 };
        assert(plan[count - 1] == CoinUpdateView::Create(created, genesis_coin_of(tx, count - 1)));
        assert(reached.insert(created, genesis_coin_of(tx, count - 1)).dom() =~= Set::new(
            |out_point: OutPointView| is_output(txid, count, out_point),
        ));
    }
}

/// Whoever makes the planned genesis updates one by one in an empty set
/// creates the genesis coins: every update can be made, and together they
/// leave exactly those coins.
pub proof fn lemma_planned_genesis_updates_create(txid: Seq<u8>, tx: TransactionView)
    requires
        tx.output.len() <= u32::MAX,
    ensures
        made(
            Map::<OutPointView, CoinView>::empty(),
            planned_genesis_updates(txid, tx),
            tx.output.len() as int,
        ) == Some(genesis_coins(txid, tx)),
{
    lemma_genesis_made_so_far(txid, tx, tx.output.len() as int);
    let reached = made(
        Map::<OutPointView, CoinView>::empty(),
        planned_genesis_updates(txid, tx),
        tx.output.len() as int,
    ).unwrap();
    assert(reached =~= genesis_coins(txid, tx));
}

/// After the genesis coins have been created from a transaction with at
/// least one output, a second attempt is refused and changes nothing: no
/// coin is added and none is overwritten.
pub proof fn lemma_genesis_only_once(
    first_txid: Seq<u8>,
    first_tx: TransactionView,
    first: (Result<(), Error>, CoinsView),
    second_txid: Seq<u8>,
    second_tx: TransactionView,
    second: (Result<(), Error>, CoinsView),
)
    requires
        0 < first_tx.output.len() <= u32::MAX,
        genesis_transition(
            Map::<OutPointView, CoinView>::empty(),
            first_txid,
            first_tx,
            first.0,
            first.1,
        ),
        genesis_transition(first.1, second_txid, second_tx, second.0, second.1),
    ensures
        first.0 is Ok,
        first.1 == genesis_coins(first_txid, first_tx),
        second.0 == Err::<(), Error>(Error::AlreadyInitialized),
        second.1 == first.1,
{
    let created = OutPointView { txid: first_txid, vout: 0 };
    assert(is_output(first_txid, first_tx.output.len() as int, created));
    assert(first.1.contains_key(created));
}

/// What the ledger is started from.
#[derive(Clone, Debug, PartialEq, Eq)]
pub struct GenesisConfig {
    /// The consensus encoding of the genesis transaction.
    pub genesis_tx: Vec<u8>,
}

impl Default for GenesisConfig {
    /// The genesis transaction of the Bitcoin main network.
    fn default() -> (config: GenesisConfig)
        ensures
            config.genesis_tx@ == MAINNET_GENESIS_TX@,
    {
        let mut genesis_tx: Vec<u8> = Vec::new();
        let mut i: usize = 0;
        while i < 204
            invariant
                i <= 204,
                genesis_tx@ == MAINNET_GENESIS_TX@.subrange(0, i as int),
            decreases 204 - i,
        {
            genesis_tx.push(MAINNET_GENESIS_TX[i]);
            i += 1;
        }
        GenesisConfig { genesis_tx }
    }
}

/// The changes that create the genesis coins from the outputs of `tx`
/// under the identifier `txid`, in the order in which they are to be made.
pub fn genesis_updates(txid: Txid, tx: &Transaction) -> (result: Result<Vec<CoinUpdate>, Error>)
    ensures
        result is Ok <==> tx@.output.len() <= u32::MAX,
        result is Err ==> result.unwrap_err() == Error::TooManyOutputs,
        result is Ok ==> updates_view(result.unwrap()@) == planned_genesis_updates(txid@, tx@),
{
    if tx.output.len() > u32::MAX as usize {
        return Err(Error::TooManyOutputs);
    }
    let ghost plan = planned_genesis_updates(txid@, tx@);
    let mut updates: Vec<CoinUpdate> = Vec::new();
    let mut i: usize = 0;
    while i < tx.output.len()
        invariant
            i <= tx.output@.len(),
            tx@.output.len() == tx.output@.len(),
            tx@.output.len() <= u32::MAX,
            plan == planned_genesis_updates(txid@, tx@),
            updates@.len() == i,
            forall|j: int| 0 <= j < i ==> (#[trigger] updates@[j])@ == plan[j],
        decreases tx.output@.len() - i,
    {
        let coin = Coin {
            is_coinbase: true,
            amount: tx.output[i].value,
            script_pubkey: tx.output[i].script_pubkey.clone(),
        };
        assert(coin@ == genesis_coin_of(tx@, i as int)) by {
            assert(coin.script_pubkey@ =~= tx.output@[i as int].script_pubkey@);
        }
        updates.push(CoinUpdate::Create(OutPoint { txid, vout: i as u32 }, coin));
        i += 1;
    }
    assert(updates_view(updates@) =~= plan);
    Ok(updates)
}

impl Pallet {
    /// Creates the genesis coins from the outputs of `tx`, under the
    /// identifier `txid`. No input is looked at.
    pub fn initialize_genesis(&mut self, txid: Txid, tx: &Transaction) -> (result: Result<
        (),
        Error,
    >)
        ensures
            genesis_transition(old(self)@, txid@, tx@, result, final(self)@),
    {
        if !self.coins.is_empty() {
            return Err(Error::AlreadyInitialized);
        }
        let updates = match genesis_updates(txid, tx) {
            Ok(updates) => updates,
            Err(error) => {
                return Err(error);
            },
        };
        let ghost goal = genesis_coins(txid@, tx@);
        let ghost plan = planned_genesis_updates(txid@, tx@);
        assert(updates@.len() == updates_view(updates@).len());
        let mut i: usize = 0;
        while i < updates.len()
            invariant
                i <= updates@.len(),
                updates@.len() == tx@.output.len(),
                tx@.output.len() <= u32::MAX,
                goal == genesis_coins(txid@, tx@),
                plan == planned_genesis_updates(txid@, tx@),
                updates_view(updates@) == plan,
                self@.dom() == Set::new(
                    |out_point: OutPointView| is_output(txid@, i as int, out_point),
                ),
                forall|out_point: OutPointView| #[trigger]
                    self@.contains_key(out_point) ==> self@[out_point] == goal[out_point],
            decreases updates@.len() - i,
        {
            assert(updates@[i as int]@ == plan[i as int]);
            let made = self.update(&updates[i]);
            assert(made is Ok);
            assert(self@.dom() =~= Set::new(
                |out_point: OutPointView| is_output(txid@, i + 1, out_point),
            ));
            i += 1;
        }
        assert(self@ =~= goal);
        Ok(())
    }
}

impl GenesisConfig {
    /// Creates the genesis coins in `pallet` from the configured
    /// transaction. The transaction is decoded only where the set of
    /// unspent outputs is empty.
    pub fn build(&self, pallet: &mut Pallet) -> (result: Result<(), Error>)
        ensures
            old(pallet)@ != Map::<OutPointView, CoinView>::empty() ==> result == Err::<(), Error>(
                Error::AlreadyInitialized,
            ) && final(pallet)@ == old(pallet)@,
            old(pallet)@ == Map::<OutPointView, CoinView>::empty() ==> match consensus_decoding(
                self.genesis_tx@,
            ) {
                Some(tx) => genesis_transition(
                    old(pallet)@,
                    tx.txid(),
                    tx,
                    result,
                    final(pallet)@,
                ),
                None => {
                    &&& result == Err::<(), Error>(Error::UndecodableTransaction)
                    &&& final(pallet)@ == old(pallet)@
                },
            },
    {
        if !pallet.coins.is_empty() {
            return Err(Error::AlreadyInitialized);
        }
        match Pallet::decode_transaction(self.genesis_tx.as_slice()) {
            Ok(tx) => {
                let txid = tx.compute_txid();
                pallet.initialize_genesis(txid, &tx)
            },
            Err(error) => Err(error),
        }
    }
}

} // verus!
