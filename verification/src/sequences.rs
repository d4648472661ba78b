//! What holds of the items that are picked from a sequence.

use vstd::prelude::*;

verus! {

/// An item is among those picked exactly where the pick of some item of the
/// sequence gives it.
pub proof fn lemma_filter_map_membership<A, B>(items: Seq<A>, pick: spec_fn(A) -> Option<B>, b: B)
    ensures
        items.filter_map(pick).contains(b) <==> exists|i: int|
            0 <= i < items.len() && pick(#[trigger] items[i]) == Some(b),
    decreases items.len(),
{
    let found = exists|i: int| 0 <= i < items.len() && pick(#[trigger] items[i]) == Some(b);
    if items.len() == 0 {
        assert(!items.filter_map(pick).contains(b));
    } else {
        let before = items.drop_last();
        let last = items.last();
        lemma_filter_map_membership(before, pick, b);
        let picked_before = before.filter_map(pick);
        let found_before = exists|i: int|
            0 <= i < before.len() && pick(#[trigger] before[i]) == Some(b);
        assert(found <==> found_before || pick(last) == Some(b)) by {
            if found {
                let i = choose|i: int|
                    0 <= i < items.len() && pick(#[trigger] items[i]) == Some(b);
                if i < before.len() {
                    assert(before[i] == items[i]);
                }
            }
            if found_before {
                let i = choose|i: int|
                    0 <= i < before.len() && pick(#[trigger] before[i]) == Some(b);
                assert(items[i] == before[i]);
            }
            if pick(last) == Some(b) {
                assert(items[items.len() - 1] == last);
            }
        }
        match pick(last) {
            Some(picked) => {
                let all = picked_before + seq![picked];
                assert(items.filter_map(pick) == all);
                assert(all.contains(b) <==> picked_before.contains(b) || picked == b) by {
                    if picked_before.contains(b) {
                        let k = choose|k: int|
                            0 <= k < picked_before.len() && picked_before[k] == b;
                        assert(all[k] == b);
                    }
                    if picked == b {
                        assert(all[all.len() - 1] == b);
                    }
                }
            },
            None => {},
        }
    }
}

/// What is picked from one sequence after another is what is picked from the
/// first, then what is picked from the second.
pub proof fn lemma_filter_map_concat<A, B>(a: Seq<A>, b: Seq<A>, pick: spec_fn(A) -> Option<B>)
    ensures
        (a + b).filter_map(pick) == a.filter_map(pick) + b.filter_map(pick),
    decreases b.len(),
{
    if b.len() == 0 {
        assert(a + b == a);
        assert(a.filter_map(pick) + b.filter_map(pick) == a.filter_map(pick));
    } else {
        assert((a + b).drop_last() == a + b.drop_last());
        lemma_filter_map_concat(a, b.drop_last(), pick);
    }
}

} // verus!
