//! The ledger state machine: applies decoded transactions to the set of
//! unspent outputs. Transactions are taken as already validated; nothing
//! here checks scripts, signatures or amounts.

use vstd::prelude::*;

use crate::coin::{Coin, CoinView, OutPoint, OutPointView};
use crate::coins::Coins;
use crate::external::consensus_decoding;
use crate::transaction::{Transaction, TransactionView, TxInView};
use crate::txid::Txid;

verus! {

/// The UTXO set as a mathematical value.
pub type CoinsView = Map<OutPointView, CoinView>;

/// Who asks for a transaction to be applied.
#[derive(Clone, Copy, Debug, PartialEq, Eq)]
pub enum Origin {
    /// The system itself.
    Root,
    /// An account, by its public key.
    Signed([u8; 32]),
    /// Nobody: the call is part of block execution.
    Unsigned,
}

/// Why a transaction was not applied.
#[derive(Clone, Copy, Debug, PartialEq, Eq)]
pub enum Error {
    /// The call did not come without an origin.
    BadOrigin,
    /// The bytes are not the encoding of a transaction.
    UndecodableTransaction,
    /// The transaction has more outputs than an output index can number.
    TooManyOutputs,
    /// An input spends an output that is not unspent when its turn comes.
    /// The inputs before it have been spent.
    CoinNotFound {
        /// The position of the input in the transaction.
        input: usize,
        /// The output that the input refers to.
        out_point: OutPoint,
    },
    /// The set of unspent outputs was not empty when the genesis coins were
    /// to be created.
    AlreadyInitialized,
}

impl Error {
    /// Errors that show a corrupted state or a caller that skipped
    /// validation. After one of them no further transaction may be applied.
    pub open spec fn fatal(self) -> bool {
        self is UndecodableTransaction || self is TooManyOutputs || self is CoinNotFound
    }

    /// Whether the host must halt on this error.
    pub fn is_fatal(&self) -> (fatal: bool)
        ensures
            fatal == self.fatal(),
    {
        match self {
            Error::UndecodableTransaction => true,
            Error::TooManyOutputs => true,
            Error::CoinNotFound { .. } => true,
            Error::BadOrigin => false,
            Error::AlreadyInitialized => false,
        }
    }
}

/// The coin that output `index` of `tx` becomes.
pub open spec fn coin_of(tx: TransactionView, index: int) -> CoinView {
    CoinView {
        is_coinbase: tx.is_coinbase(),
        amount: tx.output[index].value,
        script_pubkey: tx.output[index].script_pubkey,
    }
}

/// The outputs that the first `count` inputs refer to.
pub open spec fn referenced(input: Seq<TxInView>, count: int) -> Set<OutPointView> {
    Set::new(
        |out_point: OutPointView|
            exists|k: int| 0 <= k < count && (#[trigger] input[k]).previous_output == out_point,
    )
}

/// Input `k` cannot be spent when its turn comes: the output it refers to
/// is not in `coins`, or an earlier input of the same transaction has taken
/// it.
pub open spec fn unspendable(coins: CoinsView, input: Seq<TxInView>, k: int) -> bool {
    ||| !coins.contains_key(input[k].previous_output)
    ||| referenced(input, k).contains(input[k].previous_output)
}

/// Each of the first `count` inputs can be spent in turn.
pub open spec fn spendable(coins: CoinsView, input: Seq<TxInView>, count: int) -> bool {
    forall|k: int| 0 <= k < count ==> !unspendable(coins, input, k)
}

/// `coins` without the outputs that the first `count` inputs refer to.
pub open spec fn without_inputs(coins: CoinsView, input: Seq<TxInView>, count: int) -> CoinsView {
    coins.remove_keys(referenced(input, count))
}

/// Whether `out_point` names one of the first `count` outputs of the
/// transaction with identifier `txid`.
pub open spec fn is_output(txid: Seq<u8>, count: int, out_point: OutPointView) -> bool {
    out_point.txid == txid && out_point.vout < count
}

/// `coins` with the first `count` outputs of `tx` added under the
/// identifier `txid`. An output already recorded under the same reference
/// is replaced.
pub open spec fn with_outputs(
    coins: CoinsView,
    txid: Seq<u8>,
    tx: TransactionView,
    count: int,
) -> CoinsView {
    Map::new(
        |out_point: OutPointView|
            coins.contains_key(out_point) || is_output(txid, count, out_point),
        |out_point: OutPointView|
            if is_output(txid, count, out_point) {
                coin_of(tx, out_point.vout as int)
            } else {
                coins[out_point]
            },
    )
}

/// What a [`CoinUpdate`] holds, as a mathematical value.
pub enum CoinUpdateView {
    Spend(OutPointView),
    Create(OutPointView, CoinView),
}

/// One change to the set of unspent outputs.
#[derive(Clone, Debug, PartialEq, Eq)]
pub enum CoinUpdate {
    /// Remove the coin of this output, which must be there.
    Spend(OutPoint),
    /// Record this coin for this output.
    Create(OutPoint, Coin),
}

impl View for CoinUpdate {
    type V = CoinUpdateView;

    open spec fn view(&self) -> CoinUpdateView {
        match self {
            CoinUpdate::Spend(out_point) => CoinUpdateView::Spend(out_point@),
            CoinUpdate::Create(out_point, coin) => CoinUpdateView::Create(out_point@, coin@),
        }
    }
}

/// The updates of `updates`, as mathematical values.
pub open spec fn updates_view(updates: Seq<CoinUpdate>) -> Seq<CoinUpdateView> {
    updates.map_values(|update: CoinUpdate| update@)
}

/// The number of outputs that `tx` spends: none for a coinbase transaction,
/// one for each input of any other.
pub open spec fn spend_count(tx: TransactionView) -> int {
    if tx.is_coinbase() {
        0
    } else {
        tx.input.len() as int
    }
}

/// The changes that `tx` makes to the set of unspent outputs under the
/// identifier `txid`, in the order in which they are made: first one spend
/// for each input, unless the transaction is a coinbase, then one creation
/// for each output.
pub open spec fn planned_updates(txid: Seq<u8>, tx: TransactionView) -> Seq<CoinUpdateView> {
    Seq::new(
        (spend_count(tx) + tx.output.len()) as nat,
        |k: int|
            if k < spend_count(tx) {
                CoinUpdateView::Spend(tx.input[k].previous_output)
            } else {
                let index = k - spend_count(tx);
                CoinUpdateView::Create(
                    OutPointView { txid, vout: index as u32 },
                    coin_of(tx, index),
                )
            },
    )
}

/// Whether `update` can be made to `coins`: a coin can be spent only where
/// it is.
pub open spec fn update_applies(coins: CoinsView, update: CoinUpdateView) -> bool {
    match update {
        CoinUpdateView::Spend(out_point) => coins.contains_key(out_point),
        CoinUpdateView::Create(_, _) => true,
    }
}

/// `coins` after `update` has been made.
pub open spec fn updated(coins: CoinsView, update: CoinUpdateView) -> CoinsView {
    match update {
        CoinUpdateView::Spend(out_point) => coins.remove(out_point),
        CoinUpdateView::Create(out_point, coin) => coins.insert(out_point, coin),
    }
}

/// Whether `tx` can be applied to `coins`: its outputs can be numbered, and
/// unless it is a coinbase transaction, each of its inputs finds the output
/// it spends.
pub open spec fn accepts(coins: CoinsView, tx: TransactionView) -> bool {
    &&& tx.output.len() <= u32::MAX
    &&& tx.is_coinbase() || spendable(coins, tx.input, tx.input.len() as int)
}

/// The set of unspent outputs after `tx` has been applied to `coins` under
/// the identifier `txid`: what its inputs spend is gone, then its outputs
/// are there. A coinbase transaction spends nothing.
pub open spec fn applied(coins: CoinsView, txid: Seq<u8>, tx: TransactionView) -> CoinsView {
    let remaining = if tx.is_coinbase() {
        coins
    } else {
        without_inputs(coins, tx.input, tx.input.len() as int)
    };
    with_outputs(remaining, txid, tx, tx.output.len() as int)
}

/// How one application of `tx` under the identifier `txid` relates the set
/// before it to the result and the set after it. For each `before`, `txid`
/// and `tx`, exactly one `result` and one `after` stand in this relation.
pub open spec fn transition(
    before: CoinsView,
    txid: Seq<u8>,
    tx: TransactionView,
    result: Result<(), Error>,
    after: CoinsView,
) -> bool {
    match result {
        Ok(()) => accepts(before, tx) && after == applied(before, txid, tx),
        Err(Error::TooManyOutputs) => tx.output.len() > u32::MAX && after == before,
        Err(Error::CoinNotFound { input, out_point }) => {
            &&& tx.output.len() <= u32::MAX
            &&& !tx.is_coinbase()
            &&& 0 <= input < tx.input.len()
            &&& out_point@ == tx.input[input as int].previous_output
            &&& spendable(before, tx.input, input as int)
            &&& unspendable(before, tx.input, input as int)
            &&& after == without_inputs(before, tx.input, input as int)
        },
        Err(_) => false,
    }
}

/// For each set, identifier and transaction, one result and one set after
/// it: two outcomes that both stand in [`transition`] are the same.
pub proof fn lemma_transition_is_deterministic(
    before: CoinsView,
    txid: Seq<u8>,
    tx: TransactionView,
    first: (Result<(), Error>, CoinsView),
    second: (Result<(), Error>, CoinsView),
)
    requires
        transition(before, txid, tx, first.0, first.1),
        transition(before, txid, tx, second.0, second.1),
    ensures
        first.0 is Ok <==> second.0 is Ok,
        first.0 is Err ==> first.0.unwrap_err() == second.0.unwrap_err(),
        first.1 == second.1,
{
    match (first.0, second.0) {
        (
            Err(Error::CoinNotFound { input: i, out_point: a }),
            Err(Error::CoinNotFound { input: j, out_point: b }),
        ) => {
            if i < j {
                assert(!unspendable(before, tx.input, i as int));
            } else if j < i {
                assert(!unspendable(before, tx.input, j as int));
            }
            assert(a.txid.0 =~= b.txid.0);
        },
        (Err(Error::CoinNotFound { input: i, out_point: _ }), Ok(())) => {
            assert(!unspendable(before, tx.input, i as int));
        },
        (Ok(()), Err(Error::CoinNotFound { input: j, out_point: _ })) => {
            assert(!unspendable(before, tx.input, j as int));
        },
        _ => {},
    }
}

/// A coinbase transaction is applied whatever the set holds: it looks up
/// and removes nothing. Every coin it creates is marked as coinbase and
/// carries the amount and the script of its output; every other coin is
/// left as it was.
pub proof fn lemma_coinbase_only_creates(before: CoinsView, txid: Seq<u8>, tx: TransactionView)
    requires
        tx.is_coinbase(),
        tx.output.len() <= u32::MAX,
    ensures
        accepts(before, tx),
        forall|out_point: OutPointView| #[trigger]
            before.contains_key(out_point) ==> applied(before, txid, tx).contains_key(out_point),
        forall|out_point: OutPointView|
            before.contains_key(out_point) && !is_output(txid, tx.output.len() as int, out_point)
                ==> #[trigger] applied(before, txid, tx)[out_point] == before[out_point],
        forall|out_point: OutPointView|
            is_output(txid, tx.output.len() as int, out_point) ==> {
                &&& #[trigger] applied(before, txid, tx).contains_key(out_point)
                &&& applied(before, txid, tx)[out_point] == CoinView {
                    is_coinbase: true,
                    amount: tx.output[out_point.vout as int].value,
                    script_pubkey: tx.output[out_point.vout as int].script_pubkey,
                }
            },
        forall|out_point: OutPointView| #[trigger]
            applied(before, txid, tx).contains_key(out_point) ==> before.contains_key(out_point)
                || is_output(txid, tx.output.len() as int, out_point),
{
}

/// A transaction that is not a coinbase and has an input whose output is
/// not in the set is never applied: the result is a fatal error, and no
/// coin is created.
pub proof fn lemma_missing_coin_is_fatal(
    before: CoinsView,
    txid: Seq<u8>,
    tx: TransactionView,
    k: int,
    result: Result<(), Error>,
    after: CoinsView,
)
    requires
        !tx.is_coinbase(),
        0 <= k < tx.input.len(),
        !before.contains_key(tx.input[k].previous_output),
        transition(before, txid, tx, result, after),
    ensures
        !accepts(before, tx),
        result is Err,
        result.unwrap_err().fatal(),
        forall|out_point: OutPointView| #[trigger]
            after.contains_key(out_point) ==> before.contains_key(out_point),
{
    assert(unspendable(before, tx.input, k));
}

/// The changes that `tx` makes to the set of unspent outputs under the
/// identifier `txid`, in the order in which they are to be made. Whoever
/// holds the set makes them one by one and halts when a coin to spend is
/// not there.
pub fn coin_updates(txid: Txid, tx: &Transaction) -> (result: Result<Vec<CoinUpdate>, Error>)
    ensures
        result is Ok <==> tx@.output.len() <= u32::MAX,
        result is Err ==> result.unwrap_err() == Error::TooManyOutputs,
        result is Ok ==> updates_view(result.unwrap()@) == planned_updates(txid@, tx@),
{
    if tx.output.len() > u32::MAX as usize {
        return Err(Error::TooManyOutputs);
    }
    let ghost plan = planned_updates(txid@, tx@);
    let ghost spends = spend_count(tx@);
    let is_coinbase = tx.is_coinbase();
    let mut updates: Vec<CoinUpdate> = Vec::new();
    if !is_coinbase {
        let mut k: usize = 0;
        while k < tx.input.len()
            invariant
                k <= tx.input@.len(),
                tx@.input.len() == tx.input@.len(),
                spends == tx@.input.len(),
                plan == planned_updates(txid@, tx@),
                spends == spend_count(tx@),
                updates@.len() == k,
                forall|j: int| 0 <= j < k ==> (#[trigger] updates@[j])@ == plan[j],
            decreases tx.input@.len() - k,
        {
            updates.push(CoinUpdate::Spend(tx.input[k].previous_output));
            k += 1;
        }
    }
    let mut i: usize = 0;
    while i < tx.output.len()
        invariant
            i <= tx.output@.len(),
            tx@.output.len() == tx.output@.len(),
            tx@.output.len() <= u32::MAX,
            is_coinbase == tx@.is_coinbase(),
            plan == planned_updates(txid@, tx@),
            spends == spend_count(tx@),
            updates@.len() == spends + i,
            forall|j: int| 0 <= j < spends + i ==> (#[trigger] updates@[j])@ == plan[j],
        decreases tx.output@.len() - i,
    {
        let coin = Coin {
            is_coinbase,
            amount: tx.output[i].value,
            script_pubkey: tx.output[i].script_pubkey.clone(),
        };
        assert(coin@ == coin_of(tx@, i as int)) by {
            assert(coin.script_pubkey@ =~= tx.output@[i as int].script_pubkey@);
        }
        updates.push(CoinUpdate::Create(OutPoint { txid, vout: i as u32 }, coin));
        i += 1;
    }
    assert(updates_view(updates@) =~= plan);
    Ok(updates)
}

/// The set after the first `count` of `updates` have been made to `coins`
/// in order; `None` where one of them could not be made.
pub open spec fn made(coins: CoinsView, updates: Seq<CoinUpdateView>, count: int) -> Option<
    CoinsView,
>
    decreases count,
{
    if count <= 0 {
        Some(coins)
    } else {
        match made(coins, updates, count - 1) {
            Some(reached) => if update_applies(reached, updates[count - 1]) {
                Some(updated(reached, updates[count - 1]))
            } else {
                None
            },
            None => None,
        }
    }
}

proof fn lemma_made_so_far(before: CoinsView, txid: Seq<u8>, tx: TransactionView, count: int)
    requires
        tx.output.len() <= u32::MAX,
        0 <= count <= spend_count(tx) + tx.output.len(),
    ensures
        ({
            let plan = planned_updates(txid, tx);
            let spends = spend_count(tx);
            let reached = made(before, plan, count);
            let spent = if count <= spends {
                count
            } else {
                spends
            };
            &&& reached is Some <==> spendable(before, tx.input, spent)
            &&& reached is Some && count <= spends ==> reached.unwrap() == without_inputs(
                before,
                tx.input,
                count,
            )
            &&& reached is Some && count >= spends ==> reached.unwrap() == with_outputs(
                without_inputs(before, tx.input, spends),
                txid,
                tx,
                count - spends,
            )
        }),
    decreases count,
{
    let plan = planned_updates(txid, tx);
    let spends = spend_count(tx);
    let base = without_inputs(before, tx.input, spends);
    if count == 0 {
        assert(before =~= without_inputs(before, tx.input, 0));
        if spends == 0 {
            assert(before =~= with_outputs(base, txid, tx, 0));
        }
    } else {
        let k = count - 1;
        lemma_made_so_far(before, txid, tx, k);
        if made(before, plan, k) is Some {
            let reached = made(before, plan, k).unwrap();
            if k < spends {
                let out_point = tx.input[k].previous_output;
                assert(plan[k] == CoinUpdateView::Spend(out_point));
                assert(update_applies(reached, plan[k]) <==> !unspendable(before, tx.input, k));
                if update_applies(reached, plan[k]) {
                    assert(referenced(tx.input, count) =~= referenced(tx.input, k).insert(
                        out_point,
                    ));
                    assert(updated(reached, plan[k]) =~= without_inputs(before, tx.input, count));
                    if count == spends {
                        assert(updated(reached, plan[k]) =~= with_outputs(base, txid, tx, 0));
                    }
                }
            } else {
                assert(updated(reached, plan[k]) =~= with_outputs(
                    base,
                    txid,
                    tx,
                    count - spends,
                ));
            }
        } else {
            if k < spends {
                assert(!spendable(before, tx.input, k));
            }
        }
    }
}

/// Whoever makes the planned updates of a transaction one by one, and stops
/// where one cannot be made, applies the transaction: all of them can be
/// made exactly where the transaction is accepted, and they leave the set
/// that the application of the transaction leaves.
pub proof fn lemma_planned_updates_apply(before: CoinsView, txid: Seq<u8>, tx: TransactionView)
    requires
        tx.output.len() <= u32::MAX,
    ensures
        ({
            let plan = planned_updates(txid, tx);
            &&& made(before, plan, plan.len() as int) is Some <==> accepts(before, tx)
            &&& accepts(before, tx) ==> made(before, plan, plan.len() as int) == Some(
                applied(before, txid, tx),
            )
        }),
{
    let spends = spend_count(tx);
    lemma_made_so_far(before, txid, tx, spends + tx.output.len());
    if tx.is_coinbase() {
        assert(without_inputs(before, tx.input, 0) =~= before);
    }
}

/// The ledger: the set of unspent outputs and the operations that change it.
pub struct Pallet {
    /// UTXO set.
    pub coins: Coins,
}

impl View for Pallet {
    type V = CoinsView;

    open spec fn view(&self) -> CoinsView {
        self.coins@
    }
}

impl Pallet {
    /// A ledger without coins.
    pub fn new() -> (pallet: Pallet)
        ensures
            pallet@ == Map::<OutPointView, CoinView>::empty(),
    {
        Pallet { coins: Coins::new() }
    }

    /// Makes one change to the set of unspent outputs. Where a coin to
    /// spend is not there, nothing changes and the output that was asked
    /// for is handed back.
    pub fn update(&mut self, update: &CoinUpdate) -> (result: Result<(), OutPoint>)
        ensures
            result is Ok <==> update_applies(old(self)@, update@),
            result is Ok ==> final(self)@ == updated(old(self)@, update@),
            result is Err ==> final(self)@ == old(self)@ && update@ == CoinUpdateView::Spend(
                result.unwrap_err()@,
            ),
    {
        match update {
            CoinUpdate::Spend(out_point) => {
                let ghost before = self@;
                match self.coins.take(out_point) {
                    Some(_) => Ok(()),
                    None => {
                        assert(self@ =~= before);
                        Err(*out_point)
                    },
                }
            },
            CoinUpdate::Create(out_point, coin) => {
                self.coins.insert(*out_point, coin.duplicate());
                Ok(())
            },
        }
    }

    /// Applies `tx` under the identifier `txid`: spends what its inputs
    /// refer to, all of them before any output is created, then creates its
    /// outputs. A coinbase transaction has no input to spend.
    ///
    /// An error leaves the ledger in need of a halt: the inputs before the
    /// failing one have been spent and no output has been created.
    pub fn apply_transaction(&mut self, txid: Txid, tx: &Transaction) -> (result: Result<
        (),
        Error,
    >)
        ensures
            result.is_ok() <==> accepts(old(self)@, tx@),
            result.is_err() ==> result.unwrap_err().fatal(),
            transition(old(self)@, txid@, tx@, result, final(self)@),
    {
        let updates = match coin_updates(txid, tx) {
            Ok(updates) => updates,
            Err(error) => {
                return Err(error);
            },
        };
        let ghost before = self@;
        let ghost plan = planned_updates(txid@, tx@);
        let ghost spends = spend_count(tx@);
        let ghost base = if tx@.is_coinbase() {
            before
        } else {
            without_inputs(before, tx@.input, spends)
        };
        assert(self@ =~= without_inputs(before, tx@.input, 0));
        assert(spends == 0 ==> self@ =~= with_outputs(base, txid@, tx@, 0));
        assert(updates@.len() == updates_view(updates@).len());
        let mut k: usize = 0;
        while k < updates.len()
            invariant
                k <= updates@.len(),
                updates@.len() == spends + tx@.output.len(),
                0 <= spends <= tx@.input.len(),
                before == old(self)@,
                plan == planned_updates(txid@, tx@),
                updates_view(updates@) == plan,
                spends == spend_count(tx@),
                tx@.output.len() <= u32::MAX,
                base == if tx@.is_coinbase() {
                    before
                } else {
                    without_inputs(before, tx@.input, spends)
                },
                k <= spends ==> spendable(before, tx@.input, k as int) && self@ == without_inputs(
                    before,
                    tx@.input,
                    k as int,
                ),
                k >= spends ==> spendable(before, tx@.input, spends) && self@ == with_outputs(
                    base,
                    txid@,
                    tx@,
                    k - spends,
                ),
            decreases updates@.len() - k,
        {
            assert(updates@[k as int]@ == plan[k as int]);
            let ghost reached = self@;
            match self.update(&updates[k]) {
                Ok(()) => {
                    proof {
                        if k < spends {
                            let out_point = tx@.input[k as int].previous_output;
                            assert(!unspendable(before, tx@.input, k as int));
                            assert(referenced(tx@.input, k + 1) =~= referenced(
                                tx@.input,
                                k as int,
                            ).insert(out_point));
                            assert(self@ =~= without_inputs(before, tx@.input, k + 1));
                            if k + 1 == spends {
                                assert(self@ =~= with_outputs(base, txid@, tx@, 0));
                            }
                        } else {
                            assert(self@ =~= with_outputs(base, txid@, tx@, k + 1 - spends));
                        }
                    }
                },
                Err(out_point) => {
                    assert(k < spends);
                    assert(unspendable(before, tx@.input, k as int));
                    return Err(Error::CoinNotFound { input: k, out_point });
                },
            }
            k += 1;
        }
        Ok(())
    }

    /// Applies `tx` under the identifier that its contents give it.
    pub fn process_bitcoin_transaction(&mut self, tx: &Transaction) -> (result: Result<(), Error>)
        ensures
            result.is_ok() <==> accepts(old(self)@, tx@),
            result.is_err() ==> result.unwrap_err().fatal(),
            transition(old(self)@, tx@.txid(), tx@, result, final(self)@),
    {
        let txid = tx.compute_txid();
        self.apply_transaction(txid, tx)
    }

    /// Decodes a transaction that the caller has decoded once before. A
    /// failure shows a fault of the caller and is fatal.
    pub fn decode_transaction(btc_tx: &[u8]) -> (result: Result<Transaction, Error>)
        ensures
            result.is_ok() <==> consensus_decoding(btc_tx@).is_some(),
            result.is_ok() ==> result.unwrap()@ == consensus_decoding(btc_tx@).unwrap(),
            result.is_err() ==> result.unwrap_err() == Error::UndecodableTransaction,
    {
        match Transaction::decode(btc_tx) {
            Some(tx) => Ok(tx),
            None => Err(Error::UndecodableTransaction),
        }
    }

    /// Applies the transaction encoded in `btc_tx`. Only a call without an
    /// origin is served; any other is turned away before the bytes are
    /// looked at.
    pub fn transact(&mut self, origin: Origin, btc_tx: Vec<u8>) -> (result: Result<(), Error>)
        ensures
            !(origin is Unsigned) ==> result == Err::<(), Error>(Error::BadOrigin) && final(self)@
                == old(self)@,
            origin is Unsigned ==> match consensus_decoding(btc_tx@) {
                Some(tx) => transition(old(self)@, tx.txid(), tx, result, final(self)@),
                None => result == Err::<(), Error>(Error::UndecodableTransaction) && final(self)@
                    == old(self)@,
            },
    {
        match origin {
            Origin::Unsigned => {},
            _ => {
                return Err(Error::BadOrigin);
            },
        }
        match Self::decode_transaction(btc_tx.as_slice()) {
            Ok(tx) => self.process_bitcoin_transaction(&tx),
            Err(error) => Err(error),
        }
    }
}

} // verus!
