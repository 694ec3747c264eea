//! Fallback chains: strategies tried in a fixed order, either until one
//! satisfies its predicate, or all of them, with results merged by key.

use vstd::prelude::*;

verus! {

/// How a chain treats the strategies after one that succeeded.
#[derive(Clone, Copy, Debug, PartialEq, Eq, Structural)]
pub enum Discipline {
    /// The first success wins; what follows it is not tried.
    Exclusive,
    /// Every strategy is tried; results are united.
    Additive,
}

/// How far a chain of strategies has come.
#[derive(Clone, Copy, Debug)]
pub struct Chain {
    pub discipline: Discipline,
    /// The number of strategies of the chain.
    pub total: usize,
    /// The number of strategies tried so far; they are tried in order, so
    /// these are the strategies before position `next`.
    pub next: usize,
    /// The position of the first strategy that satisfied its predicate.
    pub winner: Option<usize>,
}

impl Chain {
    /// A chain of which nothing has been tried.
    pub open spec fn fresh(discipline: Discipline, total: usize) -> Chain {
        Chain { discipline, total, next: 0, winner: None }
    }

    pub open spec fn wf(self) -> bool {
        &&& self.next <= self.total
        &&& self.winner matches Some(w) ==> w < self.next
    }

    /// The position of the strategy to try next, if one is left to try.
    pub open spec fn pending(self) -> Option<usize> {
        if self.next < self.total && (self.discipline == Discipline::Additive
            || self.winner is None) {
            Some(self.next)
        } else {
            None
        }
    }

    /// The chain after the pending strategy was tried, with whether its
    /// result satisfied the predicate; unchanged where nothing is pending.
    pub open spec fn observed(self, satisfied: bool) -> Chain {
        if self.pending() is Some {
            Chain {
                discipline: self.discipline,
                total: self.total,
                next: (self.next + 1) as usize,
                winner: if satisfied && self.winner is None {
                    Some(self.next)
                } else {
                    self.winner
                },
            }
        } else {
            self
        }
    }

    /// The chain after its strategies were tried in order for as long as
    /// one was pending, where `passes[i]` says whether the result of
    /// strategy `i` satisfies the predicate.
    pub open spec fn run(discipline: Discipline, total: usize, passes: Seq<bool>) -> Chain
        decreases passes.len(),
    {
        if passes.len() == 0 {
            Chain::fresh(discipline, total)
        } else {
            Chain::run(discipline, total, passes.drop_last()).observed(passes.last())
        }
    }

    pub fn new(discipline: Discipline, total: usize) -> (r: Chain)
        ensures
            r == Chain::fresh(discipline, total),
            r.wf(),
    {
        Chain { discipline, total, next: 0, winner: None }
    }

    pub fn next_strategy(&self) -> (r: Option<usize>)
        ensures
            r == self.pending(),
    {
        if self.next < self.total && (self.discipline == Discipline::Additive
            || self.winner.is_none()) {
            Some(self.next)
        } else {
            None
        }
    }

    pub fn observe(&mut self, satisfied: bool)
        ensures
            *final(self) == old(self).observed(satisfied),
            old(self).wf() ==> final(self).wf(),
    {
        if self.next_strategy().is_some() {
            if satisfied && self.winner.is_none() {
                self.winner = Some(self.next);
            }
            self.next = self.next + 1;
        }
    }
}

proof fn lemma_run_before_success(discipline: Discipline, total: usize, passes: Seq<bool>)
    requires
        passes.len() <= total,
        forall|j: int| 0 <= j < passes.len() ==> !#[trigger] passes[j],
    ensures
        Chain::run(discipline, total, passes).next == passes.len(),
        Chain::run(discipline, total, passes).winner is None,
        Chain::run(discipline, total, passes).discipline == discipline,
        Chain::run(discipline, total, passes).total == total,
    decreases passes.len(),
{
    if passes.len() > 0 {
        let init = passes.drop_last();
        assert forall|j: int| 0 <= j < init.len() implies !#[trigger] init[j] by {
            assert(init[j] == passes[j]);
        }
        lemma_run_before_success(discipline, total, init);
        assert(!passes[passes.len() - 1]);
    }
}

proof fn lemma_run_after_success(total: usize, passes: Seq<bool>, k: int, n: int)
    requires
        passes.len() <= total,
        0 <= k < n <= passes.len(),
        passes[k],
        forall|j: int| 0 <= j < k ==> !#[trigger] passes[j],
    ensures
        Chain::run(Discipline::Exclusive, total, passes.subrange(0, n)).next == k + 1,
        Chain::run(Discipline::Exclusive, total, passes.subrange(0, n)).winner == Some(k as usize),
        Chain::run(Discipline::Exclusive, total, passes.subrange(0, n)).discipline
            == Discipline::Exclusive,
        Chain::run(Discipline::Exclusive, total, passes.subrange(0, n)).total == total,
    decreases n,
{
    let upto = passes.subrange(0, n);
    assert(upto.drop_last() == passes.subrange(0, n - 1));
    assert(upto.last() == passes[n - 1]);
    if n == k + 1 {
        let init = passes.subrange(0, k);
        assert forall|j: int| 0 <= j < init.len() implies !#[trigger] init[j] by {
            assert(init[j] == passes[j]);
        }
        lemma_run_before_success(Discipline::Exclusive, total, init);
    } else {
        lemma_run_after_success(total, passes, k, n - 1);
    }
}

/// In an exclusive chain in which strategy `k` is the first whose result
/// satisfies the predicate, the strategies up to `k` are tried, in order,
/// and no other: before each of them the chain has that one pending, and
/// after `k` nothing is pending, `k` is the winner and `k + 1` strategies
/// were tried.
pub proof fn law_exclusive_stops_at_first_success(total: usize, passes: Seq<bool>, k: int)
    requires
        passes.len() == total,
        0 <= k < total,
        passes[k],
        forall|j: int| 0 <= j < k ==> !#[trigger] passes[j],
    ensures
        forall|i: int|
            0 <= i <= k ==> (#[trigger] Chain::run(
                Discipline::Exclusive,
                total,
                passes.subrange(0, i),
            )).pending() == Some(i as usize),
        Chain::run(Discipline::Exclusive, total, passes).next == k + 1,
        Chain::run(Discipline::Exclusive, total, passes).winner == Some(k as usize),
        Chain::run(Discipline::Exclusive, total, passes).pending() is None,
{
    assert forall|i: int| 0 <= i <= k implies (#[trigger] Chain::run(
        Discipline::Exclusive,
        total,
        passes.subrange(0, i),
    )).pending() == Some(i as usize) by {
        let init = passes.subrange(0, i);
        assert forall|j: int| 0 <= j < init.len() implies !#[trigger] init[j] by {
            assert(init[j] == passes[j]);
        }
        lemma_run_before_success(Discipline::Exclusive, total, init);
    }
    lemma_run_after_success(total, passes, k, passes.len() as int);
    assert(passes.subrange(0, passes.len() as int) == passes);
}

/// In an exclusive chain in which no result satisfies the predicate, every
/// strategy is tried and there is no winner.
pub proof fn law_exclusive_exhausted(total: usize, passes: Seq<bool>)
    requires
        passes.len() == total,
        forall|j: int| 0 <= j < total ==> !#[trigger] passes[j],
    ensures
        Chain::run(Discipline::Exclusive, total, passes).next == total,
        Chain::run(Discipline::Exclusive, total, passes).winner is None,
        Chain::run(Discipline::Exclusive, total, passes).pending() is None,
{
    lemma_run_before_success(Discipline::Exclusive, total, passes);
}

/// In an additive chain every strategy is tried, whatever the results.
pub proof fn law_additive_tries_all(total: usize, passes: Seq<bool>)
    requires
        passes.len() <= total,
    ensures
        Chain::run(Discipline::Additive, total, passes).next == passes.len(),
        Chain::run(Discipline::Additive, total, passes).discipline == Discipline::Additive,
        Chain::run(Discipline::Additive, total, passes).total == total,
        passes.len() < total ==> Chain::run(Discipline::Additive, total, passes).pending() == Some(
            passes.len() as usize,
        ),
        passes.len() == total ==> Chain::run(Discipline::Additive, total, passes).pending() is None,
    decreases passes.len(),
{
    if passes.len() > 0 {
        law_additive_tries_all(total, passes.drop_last());
    }
}

// ---------------------------------------------------------------------------
// Union with deduplication
// ---------------------------------------------------------------------------

/// Whether an item of `s` has the key `k`.
pub open spec fn holds_key<T>(s: Seq<T>, key: spec_fn(T) -> Seq<char>, k: Seq<char>) -> bool {
    exists|i: int| 0 <= i < s.len() && key(#[trigger] s[i]) == k
}

/// Whether no two items of `s` have the same key.
pub open spec fn distinct<T>(s: Seq<T>, key: spec_fn(T) -> Seq<char>) -> bool {
    forall|i: int, j: int| 0 <= i < j < s.len() ==> key(#[trigger] s[i]) != key(#[trigger] s[j])
}

/// The number of items of `s` that have the key `k`.
pub open spec fn count_key<T>(s: Seq<T>, key: spec_fn(T) -> Seq<char>, k: Seq<char>) -> nat
    decreases s.len(),
{
    if s.len() == 0 {
        0
    } else {
        count_key(s.drop_last(), key, k) + if key(s.last()) == k {
            1nat
        } else {
            0nat
        }
    }
}

/// `acc`, then in order each item of `incoming` whose key no item before it
/// has.
pub open spec fn merged<T>(acc: Seq<T>, incoming: Seq<T>, key: spec_fn(T) -> Seq<char>) -> Seq<T>
    decreases incoming.len(),
{
    if incoming.len() == 0 {
        acc
    } else {
        let init = merged(acc, incoming.drop_last(), key);
        if holds_key(init, key, key(incoming.last())) {
            init
        } else {
            init.push(incoming.last())
        }
    }
}

/// Merging keeps what was there, in place.
pub proof fn law_merge_keeps_first<T>(acc: Seq<T>, incoming: Seq<T>, key: spec_fn(T) -> Seq<char>)
    ensures
        merged(acc, incoming, key).len() >= acc.len(),
        merged(acc, incoming, key).subrange(0, acc.len() as int) == acc,
    decreases incoming.len(),
{
    if incoming.len() == 0 {
        assert(acc.subrange(0, acc.len() as int) == acc);
    } else {
        law_merge_keeps_first(acc, incoming.drop_last(), key);
        let init = merged(acc, incoming.drop_last(), key);
        assert(merged(acc, incoming, key).subrange(0, acc.len() as int) =~= init.subrange(
            0,
            acc.len() as int,
        ));
    }
}

/// The merged list holds a key exactly where one of the two lists holds it.
pub proof fn law_merge_covers<T>(
    acc: Seq<T>,
    incoming: Seq<T>,
    key: spec_fn(T) -> Seq<char>,
    k: Seq<char>,
)
    ensures
        holds_key(merged(acc, incoming, key), key, k) <==> holds_key(acc, key, k) || holds_key(
            incoming,
            key,
            k,
        ),
    decreases incoming.len(),
{
    if incoming.len() > 0 {
        let rest = incoming.drop_last();
        let last = incoming.last();
        let init = merged(acc, rest, key);
        let all = merged(acc, incoming, key);
        law_merge_covers(acc, rest, key, k);
        if holds_key(incoming, key, k) {
            let i = choose|i: int| 0 <= i < incoming.len() && key(#[trigger] incoming[i]) == k;
            if i < rest.len() {
                assert(rest[i] == incoming[i]);
                assert(holds_key(rest, key, k));
            }
        }
        if holds_key(rest, key, k) {
            let i = choose|i: int| 0 <= i < rest.len() && key(#[trigger] rest[i]) == k;
            assert(incoming[i] == rest[i]);
            assert(holds_key(incoming, key, k));
        }
        if holds_key(init, key, key(last)) {
            assert(all == init);
            if key(last) == k {
                assert(holds_key(all, key, k));
                assert(key(incoming[incoming.len() - 1]) == k);
            }
        } else {
            assert(all == init.push(last));
            if holds_key(init, key, k) {
                let i = choose|i: int| 0 <= i < init.len() && key(#[trigger] init[i]) == k;
                assert(all[i] == init[i]);
                assert(holds_key(all, key, k));
            }
            if key(last) == k {
                assert(all[all.len() - 1] == last);
                assert(holds_key(all, key, k));
                assert(key(incoming[incoming.len() - 1]) == k);
            }
            if holds_key(all, key, k) {
                let i = choose|i: int| 0 <= i < all.len() && key(#[trigger] all[i]) == k;
                if i < init.len() {
                    assert(init[i] == all[i]);
                    assert(holds_key(init, key, k));
                } else {
                    assert(key(incoming[incoming.len() - 1]) == k);
                }
            }
        }
    }
}

/// Merging into a list without duplicate keys gives a list without
/// duplicate keys.
pub proof fn law_merge_keeps_distinct<T>(
    acc: Seq<T>,
    incoming: Seq<T>,
    key: spec_fn(T) -> Seq<char>,
)
    requires
        distinct(acc, key),
    ensures
        distinct(merged(acc, incoming, key), key),
    decreases incoming.len(),
{
    if incoming.len() > 0 {
        let init = merged(acc, incoming.drop_last(), key);
        let last = incoming.last();
        law_merge_keeps_distinct(acc, incoming.drop_last(), key);
        if !holds_key(init, key, key(last)) {
            let all = init.push(last);
            assert forall|i: int, j: int| 0 <= i < j < all.len() implies key(#[trigger] all[i])
                != key(#[trigger] all[j]) by {
                if j < init.len() {
                    assert(all[i] == init[i] && all[j] == init[j]);
                } else {
                    assert(all[i] == init[i]);
                    assert(all[j] == last);
                }
            }
        }
    }
}

proof fn lemma_count_absent<T>(s: Seq<T>, key: spec_fn(T) -> Seq<char>, k: Seq<char>)
    requires
        !holds_key(s, key, k),
    ensures
        count_key(s, key, k) == 0,
    decreases s.len(),
{
    if s.len() > 0 {
        let init = s.drop_last();
        assert(key(s[s.len() - 1]) != k);
        if holds_key(init, key, k) {
            let i = choose|i: int| 0 <= i < init.len() && key(#[trigger] init[i]) == k;
            assert(s[i] == init[i]);
        }
        lemma_count_absent(init, key, k);
    }
}

proof fn lemma_count_once<T>(s: Seq<T>, key: spec_fn(T) -> Seq<char>, k: Seq<char>)
    requires
        distinct(s, key),
        holds_key(s, key, k),
    ensures
        count_key(s, key, k) == 1,
    decreases s.len(),
{
    let i = choose|i: int| 0 <= i < s.len() && key(#[trigger] s[i]) == k;
    let init = s.drop_last();
    assert forall|a: int, b: int| 0 <= a < b < init.len() implies key(#[trigger] init[a]) != key(
        #[trigger] init[b],
    ) by {
        assert(init[a] == s[a] && init[b] == s[b]);
    }
    if key(s.last()) == k {
        if holds_key(init, key, k) {
            let j = choose|j: int| 0 <= j < init.len() && key(#[trigger] init[j]) == k;
            assert(s[j] == init[j]);
            assert(key(s[j]) != key(s[s.len() - 1]));
        }
        lemma_count_absent(init, key, k);
    } else {
        assert(i < init.len());
        assert(init[i] == s[i]);
        lemma_count_once(init, key, k);
    }
}

/// A list without duplicate keys holds a key once or not at all.
pub proof fn law_count_of_distinct<T>(s: Seq<T>, key: spec_fn(T) -> Seq<char>, k: Seq<char>)
    requires
        distinct(s, key),
    ensures
        count_key(s, key, k) == if holds_key(s, key, k) {
            1nat
        } else {
            0nat
        },
{
    if holds_key(s, key, k) {
        lemma_count_once(s, key, k);
    } else {
        lemma_count_absent(s, key, k);
    }
}

/// The union of what two strategies gave holds each key that either of
/// them gave exactly once, and no other key.
pub proof fn law_union_holds_each_key_once<T>(
    first: Seq<T>,
    second: Seq<T>,
    key: spec_fn(T) -> Seq<char>,
    k: Seq<char>,
)
    ensures
        count_key(merged(merged(Seq::<T>::empty(), first, key), second, key), key, k) == if holds_key(
            first,
            key,
            k,
        ) || holds_key(second, key, k) {
            1nat
        } else {
            0nat
        },
{
    let empty = Seq::<T>::empty();
    let one = merged(empty, first, key);
    let both = merged(one, second, key);
    law_merge_keeps_distinct(empty, first, key);
    law_merge_keeps_distinct(one, second, key);
    law_merge_covers(empty, first, key, k);
    law_merge_covers(one, second, key, k);
    if holds_key(first, key, k) || holds_key(second, key, k) {
        lemma_count_once(both, key, k);
    } else {
        lemma_count_absent(both, key, k);
    }
}

} // verus!
