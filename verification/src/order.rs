//! The stable ascending order of a sequence of integer keys.
//!
//! An order is a sequence of positions into the keys. The stable ascending
//! order lists every position once, smaller keys first, and positions with
//! equal keys in the turn in which they were given. There is exactly one.

use vstd::prelude::*;
use vstd::set_lib::{lemma_int_range, lemma_subset_equality, set_int_range};

verus! {

/// Position `a` comes before position `b`: its key is smaller, or the keys are
/// equal and `a` is the earlier position.
pub open spec fn precedes(keys: Seq<int>, a: int, b: int) -> bool {
    keys[a] < keys[b] || (keys[a] == keys[b] && a < b)
}

/// `order` lists positions into `keys`, as many as there are keys, each ahead
/// of all that follow it. No position occurs twice then, so each occurs once.
pub open spec fn is_stable_order(keys: Seq<int>, order: Seq<int>) -> bool {
    &&& order.len() == keys.len()
    &&& forall|i: int| 0 <= i < order.len() ==> 0 <= #[trigger] order[i] < keys.len()
    &&& forall|i: int, j: int|
        0 <= i < j < order.len() ==> precedes(keys, #[trigger] order[i], #[trigger] order[j])
}

/// The stable ascending order of `keys`.
pub open spec fn stable_order(keys: Seq<int>) -> Seq<int> {
    choose|order: Seq<int>| is_stable_order(keys, order)
}

/// No two keys are equal.
pub open spec fn distinct_keys(keys: Seq<int>) -> bool {
    forall|i: int, j: int| 0 <= i < j < keys.len() ==> #[trigger] keys[i] != #[trigger] keys[j]
}

/// `perm` rearranges `n` positions: it names positions below `n`, none twice.
pub open spec fn is_rearrangement(perm: Seq<int>, n: int) -> bool {
    &&& perm.len() == n
    &&& forall|i: int| 0 <= i < n ==> 0 <= #[trigger] perm[i] < n
    &&& forall|i: int, j: int| 0 <= i < j < n ==> #[trigger] perm[i] != #[trigger] perm[j]
}

/// The keys as integers.
pub open spec fn key_ints(keys: Seq<i64>) -> Seq<int> {
    Seq::new(keys.len(), |i: int| keys[i] as int)
}

/// The positions as integers.
pub open spec fn position_ints(order: Seq<usize>) -> Seq<int> {
    Seq::new(order.len(), |i: int| order[i] as int)
}

/// A rearrangement of `n` positions names every position below `n`.
pub proof fn lemma_rearrangement_covers(perm: Seq<int>, n: int, v: int)
    requires
        is_rearrangement(perm, n),
        0 <= v < n,
    ensures
        exists|i: int| 0 <= i < n && perm[i] == v,
{
    broadcast use vstd::seq_lib::seq_to_set_is_finite;

    assert(perm.no_duplicates()) by {
        assert forall|i: int, j: int| 0 <= i < perm.len() && 0 <= j < perm.len() && i != j implies perm[i]
            != perm[j] by {
            if i < j {
                assert(perm[i] != perm[j]);
            } else {
                assert(perm[j] != perm[i]);
            }
        }
    }
    perm.unique_seq_to_set();
    lemma_int_range(0, n);
    assert(perm.to_set().subset_of(set_int_range(0, n))) by {
        assert forall|x: int| perm.to_set().contains(x) implies set_int_range(0, n).contains(x) by {
            let i = choose|i: int| 0 <= i < perm.len() && perm[i] == x;
            assert(0 <= perm[i] < n);
        }
    }
    lemma_subset_equality(perm.to_set(), set_int_range(0, n));
    assert(set_int_range(0, n).contains(v));
    assert(perm.to_set().contains(v));
    let i = choose|i: int| 0 <= i < perm.len() && perm[i] == v;
    assert(0 <= i < n && perm[i] == v);
}

/// A stable order is a rearrangement of the positions of its keys.
pub proof fn lemma_stable_order_rearranges(keys: Seq<int>, order: Seq<int>)
    requires
        is_stable_order(keys, order),
    ensures
        is_rearrangement(order, keys.len() as int),
{
    assert forall|i: int, j: int| 0 <= i < j < keys.len() implies #[trigger] order[i]
        != #[trigger] order[j] by {
        assert(precedes(keys, order[i], order[j]));
    }
}

/// There is one stable order only: two of the same keys are equal.
pub proof fn lemma_stable_order_unique(keys: Seq<int>, a: Seq<int>, b: Seq<int>)
    requires
        is_stable_order(keys, a),
        is_stable_order(keys, b),
    ensures
        a == b,
{
    let n = keys.len() as int;
    lemma_stable_order_rearranges(keys, a);
    lemma_stable_order_rearranges(keys, b);
    assert forall|k: int| 0 <= k < n implies a[k] == b[k] by {
        lemma_agree_up_to(keys, a, b, k);
    }
    assert(a =~= b);
}

/// Two stable orders of the same keys agree at position `k` and before it.
proof fn lemma_agree_up_to(keys: Seq<int>, a: Seq<int>, b: Seq<int>, k: int)
    requires
        is_stable_order(keys, a),
        is_stable_order(keys, b),
        is_rearrangement(a, keys.len() as int),
        is_rearrangement(b, keys.len() as int),
        0 <= k < keys.len(),
    ensures
        forall|j: int| 0 <= j <= k ==> a[j] == b[j],
    decreases k,
{
    let n = keys.len() as int;
    if k > 0 {
        lemma_agree_up_to(keys, a, b, k - 1);
    }
    if a[k] != b[k] {
        lemma_rearrangement_covers(b, n, a[k]);
        let m = choose|m: int| 0 <= m < n && b[m] == a[k];
        lemma_rearrangement_covers(a, n, b[k]);
        let w = choose|w: int| 0 <= w < n && a[w] == b[k];
        if m < k {
            assert(a[m] == b[m]);
            assert(a[m] != a[k]);
        }
        if w < k {
            assert(b[w] == a[w]);
            assert(b[w] != b[k]);
        }
        assert(m > k && w > k);
        assert(precedes(keys, b[k], b[m]));
        assert(precedes(keys, a[k], a[w]));
        assert(false);
    }
}

/// Whatever satisfies `is_stable_order` is the stable order.
pub proof fn lemma_is_the_stable_order(keys: Seq<int>, order: Seq<int>)
    requires
        is_stable_order(keys, order),
    ensures
        order == stable_order(keys),
{
    lemma_stable_order_unique(keys, order, stable_order(keys));
}

/// Entering the last position into a stable order of the keys before it, behind
/// every position whose key is not larger and ahead of the rest, gives a stable
/// order of all the keys.
pub proof fn lemma_enter_last(keys: Seq<int>, before: Seq<int>, at: int)
    requires
        keys.len() >= 1,
        is_stable_order(keys.drop_last(), before),
        0 <= at <= before.len(),
        forall|q: int| 0 <= q < at ==> keys[#[trigger] before[q]] <= keys.last(),
        at < before.len() ==> keys[before[at]] > keys.last(),
    ensures
        is_stable_order(keys, before.insert(at, keys.len() - 1)),
{
    let last = keys.len() - 1;
    let after = before.insert(at, last);
    let head = keys.drop_last();
    assert forall|p: int, q: int| 0 <= p < q < after.len() implies precedes(
        keys,
        #[trigger] after[p],
        #[trigger] after[q],
    ) by {
        if q < at {
            assert(precedes(head, before[p], before[q]));
        } else if q == at {
            assert(after[p] == before[p]);
        } else if p < at {
            assert(precedes(head, before[p], before[q - 1]));
        } else if p == at {
            if at < q - 1 {
                assert(precedes(head, before[at], before[q - 1]));
            }
            assert(after[q] == before[q - 1]);
        } else {
            assert(precedes(head, before[p - 1], before[q - 1]));
        }
    }
    assert forall|q: int| 0 <= q < after.len() implies 0 <= #[trigger] after[q] < keys.len() by {
        if q < at {
            assert(after[q] == before[q]);
        } else if q > at {
            assert(after[q] == before[q - 1]);
        }
    }
}

/// The place of a new key `k` in a stable order: behind the positions, from
/// `from` on, whose keys are not larger.
proof fn lemma_find_place(keys: Seq<int>, order: Seq<int>, k: int, from: int) -> (at: int)
    requires
        0 <= from <= order.len(),
        forall|q: int| 0 <= q < from ==> keys[#[trigger] order[q]] <= k,
    ensures
        from <= at <= order.len(),
        forall|q: int| 0 <= q < at ==> keys[#[trigger] order[q]] <= k,
        at < order.len() ==> keys[order[at]] > k,
    decreases order.len() - from,
{
    if from == order.len() || keys[order[from]] > k {
        from
    } else {
        lemma_find_place(keys, order, k, from + 1)
    }
}

/// Every sequence of keys has its stable order.
pub proof fn lemma_stable_order_exists(keys: Seq<int>)
    ensures
        is_stable_order(keys, stable_order(keys)),
    decreases keys.len(),
{
    if keys.len() == 0 {
        assert(is_stable_order(keys, Seq::<int>::empty()));
    } else {
        let head = keys.drop_last();
        lemma_stable_order_exists(head);
        let before = stable_order(head);
        assert forall|q: int| 0 <= q < before.len() implies head[#[trigger] before[q]]
            == keys[before[q]] by {}
        let at = lemma_find_place(keys, before, keys.last(), 0);
        lemma_enter_last(keys, before, at);
    }
}

/// Computes the stable ascending order of `keys` by insertion: each position
/// in turn goes behind every position entered so far whose key is not larger.
pub fn sort_positions(keys: &Vec<i64>) -> (order: Vec<usize>)
    ensures
        order.len() == keys.len(),
        forall|q: int| 0 <= q < order.len() ==> #[trigger] order[q] < keys.len(),
        is_stable_order(key_ints(keys@), position_ints(order@)),
        position_ints(order@) == stable_order(key_ints(keys@)),
{
    let n: usize = keys.len();
    let mut order: Vec<usize> = Vec::new();
    let mut i: usize = 0;
    while i < n
        invariant
            n == keys.len(),
            i <= n,
            order.len() == i,
            is_stable_order(key_ints(keys@).take(i as int), position_ints(order@)),
            forall|q: int| 0 <= q < order.len() ==> #[trigger] order[q] < i,
        decreases n - i,
    {
        let key: i64 = keys[i];
        let mut at: usize = 0;
        while at < order.len() && keys[order[at]] <= key
            invariant
                n == keys.len(),
                i < n,
                key == keys[i as int],
                at <= order.len(),
                order.len() == i,
                is_stable_order(key_ints(keys@).take(i as int), position_ints(order@)),
                forall|q: int| 0 <= q < order.len() ==> #[trigger] order[q] < i,
                forall|q: int| 0 <= q < at ==> keys[#[trigger] order[q] as int] <= key,
            decreases order.len() - at,
        {
            at = at + 1;
        }
        let ghost before = position_ints(order@);
        proof {
            if at < order.len() {
                assert(0 <= before[at as int] < i);
            }
        }
        order.insert(at, i);
        proof {
            let upto = key_ints(keys@).take(i + 1);
            assert(upto.drop_last() =~= key_ints(keys@).take(i as int));
            assert forall|q: int| 0 <= q < at implies upto[#[trigger] before[q]] <= upto.last() by {
                assert(before[q] == order@[q]);
                assert(0 <= before[q] < i);
            }
            lemma_enter_last(upto, before, at as int);
            assert(position_ints(order@) =~= before.insert(at as int, i as int));
            assert forall|q: int| 0 <= q < order.len() implies #[trigger] order[q] < i + 1 by {
                assert(0 <= position_ints(order@)[q] < upto.len());
            }
        }
        i = i + 1;
    }
    proof {
        assert(key_ints(keys@).take(n as int) =~= key_ints(keys@));
        lemma_is_the_stable_order(key_ints(keys@), position_ints(order@));
        assert forall|q: int| 0 <= q < order.len() implies #[trigger] order[q] < keys.len() by {
            assert(0 <= position_ints(order@)[q] < keys.len());
        }
    }
    order
}

} // verus!
