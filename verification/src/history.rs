//! The history as a mathematical sequence, most recent entry first, and what
//! each operation of the store makes of it.

use vstd::prelude::*;
use crate::item::{same_content, ItemView};

verus! {

/// The most entries a history keeps.
pub const CAPACITY: usize = 100;

/// `i` is the position of the first entry of `h` whose id is `id`.
pub open spec fn is_first_match(h: Seq<ItemView>, id: Seq<char>, i: int) -> bool {
    &&& 0 <= i < h.len()
    &&& h[i].id == id
    &&& forall|j: int| 0 <= j < i ==> (#[trigger] h[j]).id != id
}

/// Some entry of `h` has the id `id`.
pub open spec fn has_id(h: Seq<ItemView>, id: Seq<char>) -> bool {
    exists|i: int| 0 <= i < h.len() && (#[trigger] h[i]).id == id
}

/// The position of the first entry of `h` whose id is `id`, if there is one.
pub open spec fn index_of(h: Seq<ItemView>, id: Seq<char>) -> Option<int> {
    if exists|i: int| is_first_match(h, id, i) {
        Some(choose|i: int| is_first_match(h, id, i))
    } else {
        None
    }
}

/// `s`, cut to [`CAPACITY`] entries from the end.
pub open spec fn capped(s: Seq<ItemView>) -> Seq<ItemView> {
    if s.len() > CAPACITY {
        s.subrange(0, CAPACITY as int)
    } else {
        s
    }
}

/// The history after `entry` was offered to it: unchanged where the head
/// already records the same content, else `entry` in front of the others, cut
/// to [`CAPACITY`] entries from the end.
pub open spec fn added(h: Seq<ItemView>, entry: ItemView) -> Seq<ItemView> {
    if h.len() > 0 && same_content(h[0], entry) {
        h
    } else {
        capped(h.insert(0, entry))
    }
}

/// The history without the first entry whose id is `id`.
pub open spec fn deleted(h: Seq<ItemView>, id: Seq<char>) -> Seq<ItemView> {
    match index_of(h, id) {
        Some(i) => h.remove(i),
        None => h,
    }
}

/// The pinned entries of the history, in their order.
pub open spec fn cleared(h: Seq<ItemView>) -> Seq<ItemView> {
    h.filter(|entry: ItemView| entry.is_pinned)
}

/// `entry` with its pin flipped.
pub open spec fn flipped(entry: ItemView) -> ItemView {
    ItemView { is_pinned: !entry.is_pinned, ..entry }
}

/// The history with the pin of the first entry whose id is `id` flipped.
pub open spec fn toggled(h: Seq<ItemView>, id: Seq<char>) -> Seq<ItemView> {
    match index_of(h, id) {
        Some(i) => h.update(i, flipped(h[i])),
        None => h,
    }
}

/// The history after the entry `active` was taken out and put back at the
/// position that the entry `over` had before: a move of one entry. Unchanged
/// unless both ids are found.
pub open spec fn reordered(h: Seq<ItemView>, active: Seq<char>, over: Seq<char>) -> Seq<ItemView> {
    match (index_of(h, active), index_of(h, over)) {
        (Some(from), Some(to)) => h.remove(from).insert(to, h[from]),
        _ => h,
    }
}

/// The history after each entry of `entries` was offered to it in turn.
pub open spec fn added_all(h: Seq<ItemView>, entries: Seq<ItemView>) -> Seq<ItemView>
    decreases entries.len(),
{
    if entries.len() == 0 {
        h
    } else {
        added(added_all(h, entries.drop_last()), entries.last())
    }
}

/// The position of the first match is the only one: whoever finds a first
/// match has found what [`index_of`] names.
pub proof fn lemma_first_match_is_index(h: Seq<ItemView>, id: Seq<char>, i: int)
    requires
        is_first_match(h, id, i),
    ensures
        index_of(h, id) == Some(i),
{
    let k = choose|k: int| is_first_match(h, id, k);
    assert(is_first_match(h, id, k));
    if k < i {
        assert(h[k].id != id);
    } else if i < k {
        assert(h[i].id != id);
    }
}

/// [`index_of`] finds an entry exactly where one with that id exists, and
/// then it is the first such.
pub proof fn lemma_index_of(h: Seq<ItemView>, id: Seq<char>)
    ensures
        index_of(h, id) is None <==> !has_id(h, id),
        index_of(h, id) matches Some(i) ==> is_first_match(h, id, i),
{
    if has_id(h, id) {
        let w = choose|i: int| 0 <= i < h.len() && (#[trigger] h[i]).id == id;
        lemma_first_exists(h, id, w);
    }
    if index_of(h, id) is Some {
        let k = choose|k: int| is_first_match(h, id, k);
        assert(is_first_match(h, id, k));
        assert(h[k].id == id);
    }
}

proof fn lemma_first_exists(h: Seq<ItemView>, id: Seq<char>, w: int)
    requires
        0 <= w < h.len(),
        h[w].id == id,
    ensures
        exists|i: int| is_first_match(h, id, i),
    decreases w,
{
    if forall|j: int| 0 <= j < w ==> (#[trigger] h[j]).id != id {
        assert(is_first_match(h, id, w));
    } else {
        let j = choose|j: int| 0 <= j < w && (#[trigger] h[j]).id == id;
        lemma_first_exists(h, id, j);
    }
}

/// After an entry was offered the history is not empty, its head records
/// the entry's content, it has grown by one entry at most, and it is within
/// [`CAPACITY`] if it was before.
pub proof fn lemma_added_len(h: Seq<ItemView>, entry: ItemView)
    ensures
        h.len() <= CAPACITY ==> added(h, entry).len() <= CAPACITY,
        added(h, entry).len() <= h.len() + 1,
        added(h, entry).len() > 0,
        same_content(added(h, entry)[0], entry),
{
}

/// Offering the same content again changes nothing: after an entry was
/// offered, one with the same kind and content is dropped.
pub proof fn lemma_add_again(h: Seq<ItemView>, first: ItemView, second: ItemView)
    requires
        same_content(first, second),
    ensures
        added(added(h, first), second) == added(h, first),
{
    lemma_added_len(h, first);
}

/// However often the same content is offered in a row, the history is as
/// after the first time; an empty history then holds exactly that one entry.
pub proof fn lemma_repeats_add_once(h: Seq<ItemView>, entries: Seq<ItemView>)
    requires
        entries.len() > 0,
        forall|i: int| 0 <= i < entries.len() ==> same_content(entries[0], #[trigger] entries[i]),
    ensures
        added_all(h, entries) == added(h, entries[0]),
        h.len() == 0 ==> added_all(h, entries) == seq![entries[0]],
    decreases entries.len(),
{
    if entries.len() == 1 {
        assert(entries.drop_last().len() == 0);
        assert(added_all(h, entries.drop_last()) == h);
    } else {
        let front = entries.drop_last();
        assert(front[0] == entries[0]);
        assert forall|i: int| 0 <= i < front.len() implies same_content(
            front[0],
            #[trigger] front[i],
        ) by {
            assert(front[i] == entries[i]);
        }
        lemma_repeats_add_once(h, front);
        lemma_add_again(h, entries[0], entries.last());
    }
    if h.len() == 0 {
        assert(added(h, entries[0]) =~= seq![entries[0]]);
    }
}

/// Entries of which each differs in content from the one offered before it,
/// and the first from the head of the history, are all taken in: the history
/// then holds them newest first, in front of what it held, cut to
/// [`CAPACITY`] entries.
pub proof fn lemma_distinct_adds(h: Seq<ItemView>, entries: Seq<ItemView>)
    requires
        forall|i: int| 0 < i < entries.len() ==> !same_content(entries[i - 1], #[trigger] entries[i]),
        h.len() > 0 && entries.len() > 0 ==> !same_content(h[0], entries[0]),
        h.len() <= CAPACITY,
    ensures
        added_all(h, entries) == capped(entries.reverse() + h),
    decreases entries.len(),
{
    if entries.len() == 0 {
        assert(entries.reverse() + h =~= h);
    } else {
        let front = entries.drop_last();
        let last = entries.last();
        assert forall|i: int| 0 < i < front.len() implies !same_content(
            front[i - 1],
            #[trigger] front[i],
        ) by {
            assert(front[i] == entries[i]);
            assert(front[i - 1] == entries[i - 1]);
        }
        if front.len() > 0 {
            assert(front[0] == entries[0]);
        }
        lemma_distinct_adds(h, front);
        let whole = front.reverse() + h;
        let mid = capped(whole);
        assert(added_all(h, front) == mid);
        if mid.len() > 0 {
            assert(mid[0] == whole[0]);
            if front.len() > 0 {
                assert(whole[0] == front.reverse()[0]);
                assert(front.reverse()[0] == entries[entries.len() - 2]);
            } else {
                assert(whole[0] == h[0]);
            }
            assert(!same_content(mid[0], last));
        }
        assert(added(mid, last) == capped(mid.insert(0, last)));
        lemma_capped_insert(whole, last);
        lemma_reverse_last(entries, h);
    }
}

proof fn lemma_capped_insert(s: Seq<ItemView>, entry: ItemView)
    ensures
        capped(capped(s).insert(0, entry)) == capped(s.insert(0, entry)),
{
    assert(capped(capped(s).insert(0, entry)) =~= capped(s.insert(0, entry)));
}

proof fn lemma_reverse_last(entries: Seq<ItemView>, h: Seq<ItemView>)
    requires
        entries.len() > 0,
    ensures
        entries.reverse() + h == (entries.drop_last().reverse() + h).insert(0, entries.last()),
{
    assert(entries.reverse() + h =~= (entries.drop_last().reverse() + h).insert(
        0,
        entries.last(),
    ));
}

/// Flipping a pin twice gives the history back as it was, whether or not an
/// entry has the id.
pub proof fn lemma_toggle_twice(h: Seq<ItemView>, id: Seq<char>)
    ensures
        toggled(toggled(h, id), id) == h,
        !has_id(h, id) ==> toggled(h, id) == h,
{
    lemma_index_of(h, id);
    match index_of(h, id) {
        Some(i) => {
            let once = toggled(h, id);
            assert(once == h.update(i, flipped(h[i])));
            assert forall|j: int| 0 <= j < i implies (#[trigger] once[j]).id != id by {
                assert(once[j] == h[j]);
            }
            assert(is_first_match(once, id, i));
            lemma_first_match_is_index(once, id, i);
            assert(flipped(once[i]) == h[i]);
            assert(once.update(i, flipped(once[i])) =~= h);
        },
        None => {},
    }
}

/// Reordering moves one entry and swaps none: the entry `active` comes to
/// stand where `over` stood, and without it the history is as it was
/// without it before.
pub proof fn lemma_reordered_is_a_move(h: Seq<ItemView>, active: Seq<char>, over: Seq<char>)
    requires
        has_id(h, active),
        has_id(h, over),
    ensures
        index_of(h, active) is Some,
        index_of(h, over) is Some,
        reordered(h, active, over).len() == h.len(),
        reordered(h, active, over)[index_of(h, over)->0] == h[index_of(h, active)->0],
        reordered(h, active, over).remove(index_of(h, over)->0) == h.remove(
            index_of(h, active)->0,
        ),
{
    lemma_index_of(h, active);
    lemma_index_of(h, over);
    let from = index_of(h, active)->0;
    let to = index_of(h, over)->0;
    assert(h.remove(from).insert(to, h[from]).remove(to) =~= h.remove(from));
}

/// Clearing leaves pinned entries only, and no more than there were.
pub proof fn lemma_cleared_is_pinned(h: Seq<ItemView>)
    ensures
        forall|i: int| 0 <= i < cleared(h).len() ==> (#[trigger] cleared(h)[i]).is_pinned,
        cleared(h).len() <= h.len(),
{
    let pinned = |entry: ItemView| entry.is_pinned;
    h.lemma_filter_len(pinned);
    assert forall|i: int| 0 <= i < cleared(h).len() implies (#[trigger] cleared(h)[i]).is_pinned by {
        h.lemma_filter_pred(pinned, i);
    }
}

} // verus!
