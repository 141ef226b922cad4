//! Stable ordering of items by an integer key.
//!
//! A stable sort by key puts the items in the order of their key and keeps
//! items with equal keys in their original order; equivalently, it orders the
//! positions by (key, position). `stable_order` computes that order as a
//! permutation of the positions.
use vstd::prelude::*;

use crate::text::{lemma_lex_less_total, lemma_lex_less_transitive, lex_less, str_less};

verus! {

/// Position `a` comes before position `b`: a smaller key, or an equal key and
/// an earlier position.
pub open spec fn precedes(keys: Seq<u128>, a: int, b: int) -> bool {
    keys[a] < keys[b] || (keys[a] == keys[b] && a < b)
}

/// Position `k` occurs in `order`.
pub open spec fn appears(order: Seq<usize>, k: int) -> bool {
    exists|p: int| 0 <= p < order.len() && #[trigger] order[p] == k
}

/// `order` lists every position of `keys` once, ordered by (key, position).
pub open spec fn is_stable_order(keys: Seq<u128>, order: Seq<usize>) -> bool {
    &&& order.len() == keys.len()
    &&& forall|p: int| 0 <= p < order.len() ==> (#[trigger] order[p]) < keys.len()
    &&& forall|p: int, q: int|
        0 <= p < q < order.len() ==> precedes(keys, #[trigger] order[p] as int, #[trigger] order[q] as int)
    &&& forall|k: int| 0 <= k < keys.len() ==> #[trigger] appears(order, k)
}

/// The positions of `keys` in stable order.
pub fn stable_order(keys: &Vec<u128>) -> (order: Vec<usize>)
    ensures
        is_stable_order(keys@, order@),
{
    let mut order: Vec<usize> = Vec::new();
    let mut i: usize = 0;
    while i < keys.len()
        invariant
            i <= keys@.len(),
            order@.len() == i,
            forall|p: int| 0 <= p < order@.len() ==> (#[trigger] order@[p]) < i,
            forall|p: int, q: int|
                0 <= p < q < order@.len() ==> precedes(
                    keys@,
                    #[trigger] order@[p] as int,
                    #[trigger] order@[q] as int,
                ),
            forall|k: int| 0 <= k < i ==> #[trigger] appears(order@, k),
        decreases keys@.len() - i,
    {
        let ki = keys[i];
        let mut pos: usize = 0;
        while pos < order.len() && keys[order[pos]] <= ki
            invariant
                pos <= order@.len(),
                i < keys@.len(),
                ki == keys@[i as int],
                forall|p: int| 0 <= p < order@.len() ==> (#[trigger] order@[p]) < i,
                forall|p: int| 0 <= p < pos ==> keys@[(#[trigger] order@[p]) as int] <= ki,
            decreases order@.len() - pos,
        {
            pos = pos + 1;
        }
        let ghost before = order@;
        order.insert(pos, i);
        proof {
            let after = order@;
            assert(after == before.insert(pos as int, i));
            assert forall|p: int| 0 <= p < after.len() implies (#[trigger] after[p]) < i + 1 by {
                if p < pos {
                    assert(after[p] == before[p]);
                } else if p > pos {
                    assert(after[p] == before[p - 1]);
                }
            }
            assert forall|p: int, q: int| 0 <= p < q < after.len() implies precedes(
                keys@,
                #[trigger] after[p] as int,
                #[trigger] after[q] as int,
            ) by {
                if q < pos {
                    assert(after[p] == before[p] && after[q] == before[q]);
                } else if q == pos {
                    assert(after[p] == before[p]);
                    assert(keys@[before[p] as int] <= ki);
                } else if p == pos {
                    assert(after[q] == before[q - 1]);
                    assert(keys@[before[pos as int] as int] > ki);
                    if q - 1 > pos {
                        assert(precedes(keys@, before[pos as int] as int, before[q - 1] as int));
                    }
                } else if p < pos {
                    assert(after[p] == before[p] && after[q] == before[q - 1]);
                } else {
                    assert(after[p] == before[p - 1] && after[q] == before[q - 1]);
                }
            }
            assert forall|k: int| 0 <= k < i + 1 implies #[trigger] appears(after, k) by {
                if k == i {
                    assert(after[pos as int] == i);
                } else {
                    assert(appears(before, k));
                    let p0 = choose|p: int| 0 <= p < before.len() && #[trigger] before[p] == k;
                    if p0 < pos {
                        assert(after[p0] == k);
                    } else {
                        assert(after[p0 + 1] == k);
                    }
                }
            }
        }
        i = i + 1;
    }
    order
}

/// Position `a` comes before position `b` when ordering by text from the
/// largest down: a larger text, or the same text and an earlier position.
pub open spec fn precedes_desc(keys: Seq<Seq<char>>, a: int, b: int) -> bool {
    lex_less(keys[b], keys[a]) || (keys[a] == keys[b] && a < b)
}

/// `order` lists every position of `keys` once, from the largest text down,
/// equal texts in their original order.
pub open spec fn is_desc_order(keys: Seq<Seq<char>>, order: Seq<usize>) -> bool {
    &&& order.len() == keys.len()
    &&& forall|p: int| 0 <= p < order.len() ==> (#[trigger] order[p]) < keys.len()
    &&& forall|p: int, q: int|
        0 <= p < q < order.len() ==> precedes_desc(
            keys,
            #[trigger] order[p] as int,
            #[trigger] order[q] as int,
        )
    &&& forall|k: int| 0 <= k < keys.len() ==> #[trigger] appears(order, k)
}

/// The views of some strings.
pub open spec fn texts(v: Seq<String>) -> Seq<Seq<char>> {
    Seq::new(v.len(), |i: int| v[i]@)
}

/// The positions of `keys` from the largest text down, equal texts in their
/// original order (a stable sort, descending).
pub fn order_by_text_desc(keys: &Vec<String>) -> (order: Vec<usize>)
    ensures
        is_desc_order(texts(keys@), order@),
{
    let ghost ks = texts(keys@);
    let mut order: Vec<usize> = Vec::new();
    let mut i: usize = 0;
    while i < keys.len()
        invariant
            ks == texts(keys@),
            i <= keys@.len(),
            order@.len() == i,
            forall|p: int| 0 <= p < order@.len() ==> (#[trigger] order@[p]) < i,
            forall|p: int, q: int|
                0 <= p < q < order@.len() ==> precedes_desc(
                    ks,
                    #[trigger] order@[p] as int,
                    #[trigger] order@[q] as int,
                ),
            forall|k: int| 0 <= k < i ==> #[trigger] appears(order@, k),
        decreases keys@.len() - i,
    {
        let mut pos: usize = 0;
        while pos < order.len() && !str_less(keys[order[pos]].as_str(), keys[i].as_str())
            invariant
                ks == texts(keys@),
                pos <= order@.len(),
                i < keys@.len(),
                forall|p: int| 0 <= p < order@.len() ==> (#[trigger] order@[p]) < i,
                forall|p: int|
                    0 <= p < pos ==> !lex_less(ks[(#[trigger] order@[p]) as int], ks[i as int]),
            decreases order@.len() - pos,
        {
            pos = pos + 1;
        }
        let ghost before = order@;
        order.insert(pos, i);
        proof {
            let after = order@;
            assert(after == before.insert(pos as int, i));
            assert forall|p: int| 0 <= p < after.len() implies (#[trigger] after[p]) < i + 1 by {
                if p < pos {
                    assert(after[p] == before[p]);
                } else if p > pos {
                    assert(after[p] == before[p - 1]);
                }
            }
            assert forall|p: int, q: int| 0 <= p < q < after.len() implies precedes_desc(
                ks,
                #[trigger] after[p] as int,
                #[trigger] after[q] as int,
            ) by {
                if q < pos {
                    assert(after[p] == before[p] && after[q] == before[q]);
                } else if q == pos {
                    assert(after[p] == before[p]);
                    let a = before[p] as int;
                    assert(!lex_less(ks[a], ks[i as int]));
                    lemma_lex_less_total(ks[a], ks[i as int]);
                } else if p == pos {
                    assert(after[q] == before[q - 1]);
                    let first = before[pos as int] as int;
                    let other = before[q - 1] as int;
                    assert(lex_less(ks[first], ks[i as int]));
                    if q - 1 > pos {
                        assert(precedes_desc(ks, first, other));
                        if lex_less(ks[other], ks[first]) {
                            lemma_lex_less_transitive(ks[other], ks[first], ks[i as int]);
                        }
                    }
                } else if p < pos {
                    assert(after[p] == before[p] && after[q] == before[q - 1]);
                } else {
                    assert(after[p] == before[p - 1] && after[q] == before[q - 1]);
                }
            }
            assert forall|k: int| 0 <= k < i + 1 implies #[trigger] appears(after, k) by {
                if k == i {
                    assert(after[pos as int] == i);
                } else {
                    assert(appears(before, k));
                    let p0 = choose|p: int| 0 <= p < before.len() && #[trigger] before[p] == k;
                    if p0 < pos {
                        assert(after[p0] == k);
                    } else {
                        assert(after[p0 + 1] == k);
                    }
                }
            }
        }
        i = i + 1;
    }
    order
}

} // verus!
