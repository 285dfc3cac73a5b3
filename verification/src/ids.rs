//! Ids in a history: no operation of the store brings an id in twice, as long
//! as each new entry comes with an id that the history does not hold.

use vstd::prelude::*;
use crate::history::{
    added, cleared, deleted, has_id, index_of, lemma_index_of, reordered, toggled,
};
use crate::item::ItemView;

verus! {

/// No two entries of `h` have the same id.
pub open spec fn unique_ids(h: Seq<ItemView>) -> bool {
    forall|i: int, j: int| 0 <= i < j < h.len() ==> (#[trigger] h[i]).id != (#[trigger] h[j]).id
}

/// Every entry of `part` is an entry of `whole`, and they stand in `part` in
/// the order in which they stand in `whole`.
pub open spec fn keeps_order(part: Seq<ItemView>, whole: Seq<ItemView>, at: Seq<int>) -> bool {
    &&& at.len() == part.len()
    &&& forall|i: int|
        0 <= i < part.len() ==> 0 <= #[trigger] at[i] < whole.len() && whole[at[i]] == part[i]
    &&& forall|i: int, j: int| 0 <= i < j < part.len() ==> #[trigger] at[i] < #[trigger] at[j]
}

/// A part of a history that keeps its order has unique ids where the
/// history has.
pub proof fn lemma_part_unique(part: Seq<ItemView>, whole: Seq<ItemView>, at: Seq<int>)
    requires
        unique_ids(whole),
        keeps_order(part, whole, at),
    ensures
        unique_ids(part),
{
    assert forall|i: int, j: int| 0 <= i < j < part.len() implies (#[trigger] part[i]).id
        != (#[trigger] part[j]).id by {
        assert(at[i] < at[j]);
        assert(whole[at[i]] == part[i]);
        assert(whole[at[j]] == part[j]);
    }
}

/// An entry with an id that the history does not hold keeps the ids unique
/// when it is offered.
pub proof fn lemma_added_unique(h: Seq<ItemView>, entry: ItemView)
    requires
        unique_ids(h),
        !has_id(h, entry.id),
    ensures
        unique_ids(added(h, entry)),
{
    let longer = h.insert(0, entry);
    assert forall|i: int, j: int| 0 <= i < j < longer.len() implies (#[trigger] longer[i]).id
        != (#[trigger] longer[j]).id by {
        assert(longer[j] == h[j - 1]);
        if i == 0 {
            assert(longer[i] == entry);
        } else {
            assert(longer[i] == h[i - 1]);
        }
    }
    let r = added(h, entry);
    assert forall|i: int, j: int| 0 <= i < j < r.len() implies (#[trigger] r[i]).id
        != (#[trigger] r[j]).id by {
        if r != h {
            assert(r[i] == longer[i]);
            assert(r[j] == longer[j]);
        }
    }
}

/// Deleting an entry keeps the ids unique, and with unique ids no entry
/// with the deleted id is left.
pub proof fn lemma_deleted_unique(h: Seq<ItemView>, id: Seq<char>)
    requires
        unique_ids(h),
    ensures
        unique_ids(deleted(h, id)),
        !has_id(deleted(h, id), id),
{
    lemma_index_of(h, id);
    let r = deleted(h, id);
    match index_of(h, id) {
        Some(k) => {
            assert forall|i: int, j: int| 0 <= i < j < r.len() implies (#[trigger] r[i]).id
                != (#[trigger] r[j]).id by {
                let a = if i < k { i } else { i + 1 };
                let b = if j < k { j } else { j + 1 };
                assert(r[i] == h[a]);
                assert(r[j] == h[b]);
            }
            assert forall|i: int| 0 <= i < r.len() implies (#[trigger] r[i]).id != id by {
                let a = if i < k { i } else { i + 1 };
                assert(r[i] == h[a]);
                if a < k {
                    assert(h[a].id != h[k].id);
                } else {
                    assert(h[k].id != h[a].id);
                }
            }
        },
        None => {},
    }
}

/// Flipping a pin keeps the ids unique.
pub proof fn lemma_toggled_unique(h: Seq<ItemView>, id: Seq<char>)
    requires
        unique_ids(h),
    ensures
        unique_ids(toggled(h, id)),
{
    lemma_index_of(h, id);
    let r = toggled(h, id);
    assert forall|i: int, j: int| 0 <= i < j < r.len() implies (#[trigger] r[i]).id
        != (#[trigger] r[j]).id by {
        assert(r[i].id == h[i].id);
        assert(r[j].id == h[j].id);
    }
}

/// Moving an entry keeps the ids unique.
pub proof fn lemma_reordered_unique(h: Seq<ItemView>, active: Seq<char>, over: Seq<char>)
    requires
        unique_ids(h),
    ensures
        unique_ids(reordered(h, active, over)),
{
    lemma_index_of(h, active);
    lemma_index_of(h, over);
    match (index_of(h, active), index_of(h, over)) {
        (Some(from), Some(to)) => {
            let without = h.remove(from);
            let r = without.insert(to, h[from]);
            assert(r == reordered(h, active, over));
            assert forall|i: int, j: int| 0 <= i < j < r.len() implies (#[trigger] r[i]).id
                != (#[trigger] r[j]).id by {
                let a = source_of(from, to, i);
                let b = source_of(from, to, j);
                assert(r[i] == h[a]);
                assert(r[j] == h[b]);
                assert(a != b);
                if a < b {
                    assert(h[a].id != h[b].id);
                } else {
                    assert(h[b].id != h[a].id);
                }
            }
        },
        _ => {},
    }
}

/// Where the entry at position `i` stood before the entry at `from` was
/// moved to `to`.
pub open spec fn source_of(from: int, to: int, i: int) -> int {
    if i == to {
        from
    } else {
        let k = if i < to {
            i
        } else {
            i - 1
        };
        if k < from {
            k
        } else {
            k + 1
        }
    }
}

/// The positions in `h` of the entries that clearing keeps.
pub open spec fn pinned_positions(h: Seq<ItemView>) -> Seq<int>
    decreases h.len(),
{
    if h.len() == 0 {
        Seq::<int>::empty()
    } else if h.last().is_pinned {
        pinned_positions(h.drop_last()).push(h.len() - 1)
    } else {
        pinned_positions(h.drop_last())
    }
}

/// What clearing keeps are entries of the history, in their order.
pub proof fn lemma_cleared_keeps_order(h: Seq<ItemView>)
    ensures
        keeps_order(cleared(h), h, pinned_positions(h)),
    decreases h.len(),
{
    reveal(Seq::filter);
    if h.len() > 0 {
        let front = h.drop_last();
        lemma_cleared_keeps_order(front);
        let part = cleared(front);
        let at = pinned_positions(front);
        assert forall|i: int| 0 <= i < part.len() implies h[#[trigger] at[i]] == part[i] by {
            assert(front[at[i]] == part[i]);
        }
        if h.last().is_pinned {
            assert(cleared(h) == part.push(h.last()));
        } else {
            assert(cleared(h) == part);
        }
    }
}

/// Clearing keeps the ids unique.
pub proof fn lemma_cleared_unique(h: Seq<ItemView>)
    requires
        unique_ids(h),
    ensures
        unique_ids(cleared(h)),
{
    lemma_cleared_keeps_order(h);
    lemma_part_unique(cleared(h), h, pinned_positions(h));
}

} // verus!
