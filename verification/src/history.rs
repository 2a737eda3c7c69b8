//! What a run of transactions leaves unspent.

use vstd::prelude::*;

use crate::coin::{CoinView, OutPointView};
use crate::pallet::{accepts, applied, coin_of, is_output, spendable, unspendable, CoinsView};
use crate::transaction::TransactionView;

verus! {

/// The set that the first `count` transactions of `txs` leave when they are
/// applied to `coins` in order, the transaction at position `k` under the
/// identifier `ids[k]`; `None` where one of them is not accepted.
pub open spec fn applied_all(
    coins: CoinsView,
    ids: Seq<Seq<u8>>,
    txs: Seq<TransactionView>,
    count: int,
) -> Option<CoinsView>
    decreases count,
{
    if count <= 0 {
        Some(coins)
    } else {
        match applied_all(coins, ids, txs, count - 1) {
            Some(reached) => if accepts(reached, txs[count - 1]) {
                Some(applied(reached, ids[count - 1], txs[count - 1]))
            } else {
                None
            },
            None => None,
        }
    }
}

/// Whether `out_point` names an output of one of the first `count`
/// transactions.
pub open spec fn created_by(
    ids: Seq<Seq<u8>>,
    txs: Seq<TransactionView>,
    count: int,
    out_point: OutPointView,
) -> bool {
    exists|k: int|
        0 <= k < count && is_output(ids[k], #[trigger] txs[k].output.len() as int, out_point)
}

/// Whether input `m` of the transaction at position `k` spends `out_point`.
pub open spec fn spends(
    txs: Seq<TransactionView>,
    k: int,
    m: int,
    out_point: OutPointView,
) -> bool {
    &&& !txs[k].is_coinbase()
    &&& 0 <= m < txs[k].input.len()
    &&& txs[k].input[m].previous_output == out_point
}

/// Whether one of the first `count` transactions spends `out_point`.
pub open spec fn spent_by(txs: Seq<TransactionView>, count: int, out_point: OutPointView) -> bool {
    exists|k: int, m: int| 0 <= k < count && #[trigger] spends(txs, k, m, out_point)
}

/// No two of the first `count` identifiers are the same.
pub open spec fn distinct_ids(ids: Seq<Seq<u8>>, count: int) -> bool {
    forall|i: int, j: int| 0 <= i < j < count ==> #[trigger] ids[i] != #[trigger] ids[j]
}

proof fn lemma_prefix_applied(
    coins: CoinsView,
    ids: Seq<Seq<u8>>,
    txs: Seq<TransactionView>,
    count: int,
    k: int,
)
    requires
        0 <= k < count,
        applied_all(coins, ids, txs, count) is Some,
    ensures
        applied_all(coins, ids, txs, k) is Some,
        accepts(applied_all(coins, ids, txs, k).unwrap(), txs[k]),
    decreases count,
{
    if k < count - 1 {
        lemma_prefix_applied(coins, ids, txs, count - 1, k);
    }
}

/// After a run of transactions with pairwise different identifiers, each
/// accepted in its turn and the first applied to the empty set, the set
/// holds exactly the outputs that a transaction of the run created and none
/// spent, each with the amount and the script of its output and marked as
/// coinbase where its transaction was one. No spent output remains.
pub proof fn lemma_unspent_outputs_remain(
    ids: Seq<Seq<u8>>,
    txs: Seq<TransactionView>,
    count: int,
    out_point: OutPointView,
)
    requires
        0 <= count <= txs.len(),
        ids.len() == txs.len(),
        distinct_ids(ids, count),
        applied_all(Map::<OutPointView, CoinView>::empty(), ids, txs, count) is Some,
    ensures
        ({
            let coins = applied_all(
                Map::<OutPointView, CoinView>::empty(),
                ids,
                txs,
                count,
            ).unwrap();
            &&& coins.contains_key(out_point) <==> created_by(ids, txs, count, out_point)
                && !spent_by(txs, count, out_point)
            &&& forall|k: int|
                0 <= k < count && coins.contains_key(out_point) && is_output(
                    ids[k],
                    #[trigger] txs[k].output.len() as int,
                    out_point,
                ) ==> coins[out_point] == coin_of(txs[k], out_point.vout as int)
        }),
    decreases count,
{
    let empty = Map::<OutPointView, CoinView>::empty();
    if count > 0 {
        let last = count - 1;
        let tx = txs[last];
        let id = ids[last];
        lemma_prefix_applied(empty, ids, txs, count, last);
        let reached = applied_all(empty, ids, txs, last).unwrap();
        let coins = applied(reached, id, tx);
        assert(applied_all(empty, ids, txs, count) == Some(coins));
        lemma_unspent_outputs_remain(ids, txs, last, out_point);
        let by_last = is_output(id, tx.output.len() as int, out_point);
        let taken = !tx.is_coinbase() && exists|m: int| spends(txs, last, m, out_point);

        // What the last transaction creates, no earlier one has spent and it
        // does not spend itself: an output is spent only after a
        // transaction with its identifier has been applied.
        if by_last {
            if spent_by(txs, count, out_point) {
                let (k, m) = choose|k: int, m: int|
                    0 <= k < count && #[trigger] spends(txs, k, m, out_point);
                lemma_prefix_applied(empty, ids, txs, count, k);
                let then = applied_all(empty, ids, txs, k).unwrap();
                assert(!unspendable(then, txs[k].input, m));
                assert(then.contains_key(out_point));
                lemma_unspent_outputs_remain(ids, txs, k, out_point);
                let j = choose|j: int|
                    0 <= j < k && is_output(
                        ids[j],
                        #[trigger] txs[j].output.len() as int,
                        out_point,
                    );
                assert(ids[j] != ids[last]);
            }
            assert(created_by(ids, txs, count, out_point)) by {
                assert(is_output(ids[last], txs[last].output.len() as int, out_point));
            }
        } else {
            assert(created_by(ids, txs, count, out_point) <==> created_by(
                ids,
                txs,
                last,
                out_point,
            )) by {
                if created_by(ids, txs, count, out_point) {
                    let k = choose|k: int|
                        0 <= k < count && is_output(
                            ids[k],
                            #[trigger] txs[k].output.len() as int,
                            out_point,
                        );
                    assert(is_output(ids[k], txs[k].output.len() as int, out_point));
                }
                if created_by(ids, txs, last, out_point) {
                    let k = choose|k: int|
                        0 <= k < last && is_output(
                            ids[k],
                            #[trigger] txs[k].output.len() as int,
                            out_point,
                        );
                    assert(is_output(ids[k], txs[k].output.len() as int, out_point));
                }
            }
            assert(spent_by(txs, count, out_point) <==> spent_by(txs, last, out_point)
                || taken) by {
                if spent_by(txs, count, out_point) {
                    let (k, m) = choose|k: int, m: int|
                        0 <= k < count && #[trigger] spends(txs, k, m, out_point);
                    if k < last {
                        assert(spends(txs, k, m, out_point));
                    } else {
                        assert(spends(txs, last, m, out_point));
                    }
                }
                if spent_by(txs, last, out_point) {
                    let (k, m) = choose|k: int, m: int|
                        0 <= k < last && #[trigger] spends(txs, k, m, out_point);
                    assert(spends(txs, k, m, out_point));
                }
                if taken {
                    let m = choose|m: int| spends(txs, last, m, out_point);
                    assert(spends(txs, last, m, out_point));
                }
            }
            assert(coins.contains_key(out_point) <==> reached.contains_key(out_point)
                && !taken) by {
                if !tx.is_coinbase() {
                    let count_in = tx.input.len() as int;
                    if taken {
                        let m = choose|m: int| spends(txs, last, m, out_point);
                        assert(tx.input[m].previous_output == out_point);
                    }
                    if crate::pallet::referenced(tx.input, count_in).contains(out_point) {
                        let m = choose|m: int|
                            0 <= m < count_in && (#[trigger] tx.input[m]).previous_output
                                == out_point;
                        assert(spends(txs, last, m, out_point));
                    }
                }
            }
        }
        assert forall|k: int|
            0 <= k < count && coins.contains_key(out_point) && is_output(
                ids[k],
                #[trigger] txs[k].output.len() as int,
                out_point,
            ) implies coins[out_point] == coin_of(txs[k], out_point.vout as int) by {
            if k < last {
                assert(ids[k] != ids[last]);
                assert(!by_last);
                assert(reached.contains_key(out_point));
            }
        }
    } else {
        assert(!created_by(ids, txs, count, out_point));
    }
}

/// In a run of accepted transactions with pairwise different identifiers,
/// no coin is ever replaced: the outputs that a transaction creates are not
/// in the set that it is applied to. A coin stays as it was created until
/// it is spent.
pub proof fn lemma_created_outputs_are_new(
    ids: Seq<Seq<u8>>,
    txs: Seq<TransactionView>,
    count: int,
    out_point: OutPointView,
)
    requires
        0 < count <= txs.len(),
        ids.len() == txs.len(),
        distinct_ids(ids, count),
        applied_all(Map::<OutPointView, CoinView>::empty(), ids, txs, count) is Some,
        is_output(ids[count - 1], txs[count - 1].output.len() as int, out_point),
    ensures
        applied_all(Map::<OutPointView, CoinView>::empty(), ids, txs, count - 1) is Some,
        !applied_all(
            Map::<OutPointView, CoinView>::empty(),
            ids,
            txs,
            count - 1,
        ).unwrap().contains_key(out_point),
{
    let empty = Map::<OutPointView, CoinView>::empty();
    let last = count - 1;
    lemma_prefix_applied(empty, ids, txs, count, last);
    lemma_unspent_outputs_remain(ids, txs, last, out_point);
    if created_by(ids, txs, last, out_point) {
        let j = choose|j: int|
            0 <= j < last && is_output(ids[j], #[trigger] txs[j].output.len() as int, out_point);
        assert(ids[j] != ids[last]);
    }
}

} // verus!
