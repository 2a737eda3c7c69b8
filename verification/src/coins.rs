//! The set of unspent transaction outputs.

use vstd::prelude::*;

use crate::coin::{Coin, CoinView, OutPoint, OutPointView};

verus! {

/// The UTXO set: at most one coin per output reference. Coins are created
/// and spent, never changed in place.
pub struct Coins {
    entries: Vec<(OutPoint, Coin)>,
}

spec fn holds(entries: Seq<(OutPoint, Coin)>, out_point: OutPointView) -> bool {
    exists|i: int| 0 <= i < entries.len() && (#[trigger] entries[i]).0@ == out_point
}

spec fn slot_of(entries: Seq<(OutPoint, Coin)>, out_point: OutPointView) -> int {
    choose|i: int| 0 <= i < entries.len() && (#[trigger] entries[i]).0@ == out_point
}

spec fn distinct(entries: Seq<(OutPoint, Coin)>) -> bool {
    forall|i: int, j: int|
        0 <= i < j < entries.len() ==> (#[trigger] entries[i]).0@ != (#[trigger] entries[j]).0@
}

spec fn as_map(entries: Seq<(OutPoint, Coin)>) -> Map<OutPointView, CoinView> {
    Map::new(
        |out_point: OutPointView| holds(entries, out_point),
        |out_point: OutPointView| entries[slot_of(entries, out_point)].1@,
    )
}

proof fn lemma_slot(entries: Seq<(OutPoint, Coin)>, i: int)
    requires
        distinct(entries),
        0 <= i < entries.len(),
    ensures
        holds(entries, entries[i].0@),
        slot_of(entries, entries[i].0@) == i,
        as_map(entries).contains_key(entries[i].0@),
        as_map(entries)[entries[i].0@] == entries[i].1@,
{
    let k = entries[i].0@;
    let s = slot_of(entries, k);
    assert(0 <= s < entries.len() && entries[s].0@ == k);
    if s < i {
        assert(entries[s].0@ != entries[i].0@);
    } else if i < s {
        assert(entries[i].0@ != entries[s].0@);
    }
}

proof fn lemma_count(entries: Seq<(OutPoint, Coin)>)
    requires
        distinct(entries),
    ensures
        as_map(entries).dom().finite(),
        as_map(entries).dom().len() == entries.len(),
    decreases entries.len(),
{
    if entries.len() == 0 {
        assert(as_map(entries).dom() =~= Set::<OutPointView>::empty());
    } else {
        let front = entries.drop_last();
        let last = entries.last();
        assert forall|i: int, j: int| 0 <= i < j < front.len() implies (#[trigger] front[i]).0@ != (
        #[trigger] front[j]).0@ by {
            assert(entries[i].0@ != entries[j].0@);
        }
        lemma_count(front);
        assert(!holds(front, last.0@)) by {
            if holds(front, last.0@) {
                let i = slot_of(front, last.0@);
                assert(front[i].0@ == last.0@);
                assert(entries[i].0@ != entries[entries.len() - 1].0@);
            }
        }
        assert(as_map(entries).dom() =~= as_map(front).dom().insert(last.0@)) by {
            assert forall|k: OutPointView|
                holds(entries, k) <==> (holds(front, k) || k == last.0@) by {
                if holds(entries, k) {
                    let i = slot_of(entries, k);
                    if i < front.len() {
                        assert(front[i].0@ == k);
                    }
                }
                if holds(front, k) {
                    let i = slot_of(front, k);
                    assert(entries[i].0@ == k);
                }
                if k == last.0@ {
                    assert(entries[entries.len() - 1].0@ == k);
                }
            }
        }
    }
}

impl View for Coins {
    type V = Map<OutPointView, CoinView>;

    closed spec fn view(&self) -> Map<OutPointView, CoinView> {
        as_map(self.entries@)
    }
}

impl Coins {
    #[verifier::type_invariant]
    spec fn well_formed(self) -> bool {
        distinct(self.entries@)
    }

    /// The empty set.
    pub fn new() -> (coins: Coins)
        ensures
            coins@ == Map::<OutPointView, CoinView>::empty(),
    {
        let coins = Coins { entries: Vec::new() };
        assert(coins@ =~= Map::<OutPointView, CoinView>::empty());
        coins
    }

    /// The number of unspent outputs.
    pub fn len(&self) -> (count: usize)
        ensures
            self@.dom().finite(),
            count == self@.len(),
    {
        proof {
            use_type_invariant(self);
            lemma_count(self.entries@);
        }
        self.entries.len()
    }

    /// Whether no output is unspent.
    pub fn is_empty(&self) -> (empty: bool)
        ensures
            empty == (self@ == Map::<OutPointView, CoinView>::empty()),
            empty == (self@.len() == 0),
    {
        let empty = self.entries.len() == 0;
        proof {
            use_type_invariant(self);
            lemma_count(self.entries@);
            if empty {
                assert(self@ =~= Map::<OutPointView, CoinView>::empty());
            } else {
                lemma_slot(self.entries@, 0);
            }
        }
        empty
    }

    fn position(&self, out_point: &OutPoint) -> (found: Option<usize>)
        ensures
            match found {
                Some(i) => i < self.entries@.len() && self.entries@[i as int].0@ == out_point@,
                None => !holds(self.entries@, out_point@),
            },
    {
        let mut i: usize = 0;
        while i < self.entries.len()
            invariant
                i <= self.entries@.len(),
                forall|j: int| 0 <= j < i ==> (#[trigger] self.entries@[j]).0@ != out_point@,
            decreases self.entries@.len() - i,
        {
            if self.entries[i].0.equals(out_point) {
                return Some(i);
            }
            i += 1;
        }
        None
    }

    /// Whether the referenced output is unspent.
    pub fn contains(&self, out_point: &OutPoint) -> (present: bool)
        ensures
            present == self@.contains_key(out_point@),
    {
        self.position(out_point).is_some()
    }

    /// The coin of the referenced output, if it is unspent.
    pub fn get(&self, out_point: &OutPoint) -> (coin: Option<&Coin>)
        ensures
            coin.is_some() == self@.contains_key(out_point@),
            coin.is_some() ==> coin.unwrap()@ == self@[out_point@],
    {
        match self.position(out_point) {
            Some(i) => {
                proof {
                    use_type_invariant(self);
                    lemma_slot(self.entries@, i as int);
                }
                Some(&self.entries[i].1)
            },
            None => None,
        }
    }

    /// Records `coin` as the unspent output that `out_point` names. A coin
    /// already recorded there is replaced.
    pub fn insert(&mut self, out_point: OutPoint, coin: Coin)
        ensures
            final(self)@ == old(self)@.insert(out_point@, coin@),
    {
        proof {
            use_type_invariant(&*self);
        }
        let ghost before = self.entries@;
        let found = self.position(&out_point);
        let mut entries: Vec<(OutPoint, Coin)> = Vec::new();
        core::mem::swap(&mut self.entries, &mut entries);
        match found {
            Some(i) => {
                entries.set(i, (out_point, coin));
                proof {
                    let after = entries@;
                    assert(distinct(after)) by {
                        assert forall|a: int, b: int| 0 <= a < b < after.len() implies (
                        #[trigger] after[a]).0@ != (#[trigger] after[b]).0@ by {
                            assert(before[a].0@ != before[b].0@);
                        }
                    }
                    assert(as_map(after) =~= as_map(before).insert(out_point@, coin@)) by {
                        assert forall|k: OutPointView| holds(after, k) <==> (holds(before, k) || k
                            == out_point@) by {
                            if holds(after, k) {
                                let s = slot_of(after, k);
                                assert(before[s].0@ == k);
                            }
                            if holds(before, k) {
                                let s = slot_of(before, k);
                                assert(after[s].0@ == k);
                            }
                            if k == out_point@ {
                                assert(after[i as int].0@ == k);
                            }
                        }
                        assert forall|k: OutPointView| holds(after, k) implies as_map(after)[k] == (
                        if k == out_point@ {
                            coin@
                        } else {
                            as_map(before)[k]
                        }) by {
                            let s = slot_of(after, k);
                            lemma_slot(after, s);
                            if k != out_point@ {
                                assert(before[s].0@ == k);
                                lemma_slot(before, s);
                            } else {
                                lemma_slot(after, i as int);
                            }
                        }
                    }
                }
            },
            None => {
                entries.push((out_point, coin));
                proof {
                    let after = entries@;
                    let n = before.len() as int;
                    assert(distinct(after)) by {
                        assert forall|a: int, b: int| 0 <= a < b < after.len() implies (
                        #[trigger] after[a]).0@ != (#[trigger] after[b]).0@ by {
                            if b < n {
                                assert(before[a].0@ != before[b].0@);
                            } else {
                                assert(before[a].0@ != out_point@);
                            }
                        }
                    }
                    assert(as_map(after) =~= as_map(before).insert(out_point@, coin@)) by {
                        assert forall|k: OutPointView| holds(after, k) <==> (holds(before, k) || k
                            == out_point@) by {
                            if holds(after, k) {
                                let s = slot_of(after, k);
                                if s < n {
                                    assert(before[s].0@ == k);
                                }
                            }
                            if holds(before, k) {
                                let s = slot_of(before, k);
                                assert(after[s].0@ == k);
                            }
                            if k == out_point@ {
                                assert(after[n].0@ == k);
                            }
                        }
                        assert forall|k: OutPointView| holds(after, k) implies as_map(after)[k] == (
                        if k == out_point@ {
                            coin@
                        } else {
                            as_map(before)[k]
                        }) by {
                            let s = slot_of(after, k);
                            lemma_slot(after, s);
                            if k != out_point@ {
                                assert(before[s].0@ == k);
                                lemma_slot(before, s);
                            } else {
                                lemma_slot(after, n);
                            }
                        }
                    }
                }
            },
        }
        self.entries = entries;
    }

    /// Removes the referenced output and hands out its coin. Where the
    /// output is not unspent, nothing changes.
    pub fn take(&mut self, out_point: &OutPoint) -> (spent: Option<Coin>)
        ensures
            spent.is_some() == old(self)@.contains_key(out_point@),
            spent.is_some() ==> spent.unwrap()@ == old(self)@[out_point@],
            final(self)@ == old(self)@.remove(out_point@),
    {
        proof {
            use_type_invariant(&*self);
        }
        let ghost before = self.entries@;
        let found = self.position(out_point);
        let mut entries: Vec<(OutPoint, Coin)> = Vec::new();
        core::mem::swap(&mut self.entries, &mut entries);
        let spent = match found {
            Some(i) => {
                let (_, coin) = entries.swap_remove(i);
                proof {
                    let after = entries@;
                    let last = before.len() - 1;
                    lemma_slot(before, i as int);
                    // Where each remaining coin stood before the removal.
                    let origin = |a: int| if a == i { last } else { a };
                    assert forall|a: int| 0 <= a < after.len() implies #[trigger] after[a]
                        == before[origin(a)] by {}
                    assert(distinct(after)) by {
                        assert forall|a: int, b: int| 0 <= a < b < after.len() implies (
                        #[trigger] after[a]).0@ != (#[trigger] after[b]).0@ by {
                            let x = origin(a);
                            let y = origin(b);
                            if x < y {
                                assert(before[x].0@ != before[y].0@);
                            } else {
                                assert(before[y].0@ != before[x].0@);
                            }
                        }
                    }
                    assert(as_map(after) =~= as_map(before).remove(out_point@)) by {
                        assert forall|k: OutPointView| holds(after, k) <==> (holds(before, k) && k
                            != out_point@) by {
                            if holds(after, k) {
                                let s = slot_of(after, k);
                                let x = origin(s);
                                assert(before[x].0@ == k);
                                if x < i {
                                    assert(before[x].0@ != before[i as int].0@);
                                } else {
                                    assert(before[i as int].0@ != before[x].0@);
                                }
                            }
                            if holds(before, k) && k != out_point@ {
                                let s = slot_of(before, k);
                                if s == last {
                                    assert(after[i as int].0@ == k);
                                } else {
                                    assert(after[s].0@ == k);
                                }
                            }
                        }
                        assert forall|k: OutPointView| holds(after, k) implies as_map(after)[k]
                            == as_map(before)[k] by {
                            let s = slot_of(after, k);
                            lemma_slot(after, s);
                            lemma_slot(before, origin(s));
                        }
                    }
                }
                Some(coin)
            },
            None => {
                assert(as_map(before).remove(out_point@) =~= as_map(before));
                None
            },
        };
        self.entries = entries;
        spent
    }
}

} // verus!
