//! The store: the history and the settings, and the operations on them.

use vstd::prelude::*;
use crate::history::{
    added, cleared, deleted, has_id, index_of, is_first_match, lemma_first_match_is_index,
    lemma_index_of, reordered, toggled, CAPACITY,
};
use crate::ids::{
    lemma_added_unique, lemma_cleared_unique, lemma_deleted_unique, lemma_reordered_unique,
    lemma_toggled_unique, unique_ids,
};
use crate::item::{views, ClipboardItem, ItemView};
use crate::settings::{is_setting_key, updated, SettingValue, Settings, SettingsView};

verus! {

/// The whole document: what is kept in memory and written to disk.
#[derive(Debug, PartialEq, Eq)]
pub struct Database {
    /// Most recent first, unless the user reordered it.
    pub history: Vec<ClipboardItem>,
    pub settings: Settings,
}

/// The mathematical value of a [`Database`].
pub struct DatabaseView {
    pub history: Seq<ItemView>,
    pub settings: SettingsView,
}

impl View for Database {
    type V = DatabaseView;

    open spec fn view(&self) -> DatabaseView {
        DatabaseView { history: views(self.history@), settings: self.settings@ }
    }
}

impl Default for Database {
    /// The empty document: no history, default settings.
    fn default() -> (db: Self)
        ensures
            db@.history == Seq::<ItemView>::empty(),
            db@.settings == Settings::default_view(),
    {
        let db = Database { history: Vec::new(), settings: Settings::default() };
        assert(db@.history =~= Seq::<ItemView>::empty());
        db
    }
}

/// The position of the first entry of `history` whose id is `id`.
pub fn position_of(history: &Vec<ClipboardItem>, id: &str) -> (found: Option<usize>)
    ensures
        match found {
            Some(i) => index_of(views(history@), id@) == Some(i as int),
            None => index_of(views(history@), id@) is None,
        },
{
    let wanted = id.to_owned();
    let mut i: usize = 0;
    while i < history.len()
        invariant
            i <= history.len(),
            wanted@ == id@,
            forall|j: int| 0 <= j < i ==> (#[trigger] views(history@)[j]).id != id@,
        decreases history.len() - i,
    {
        if history[i].id == wanted {
            proof {
                assert(views(history@)[i as int].id == id@);
                assert(is_first_match(views(history@), id@, i as int));
                lemma_first_match_is_index(views(history@), id@, i as int);
            }
            return Some(i);
        }
        i += 1;
    }
    proof {
        lemma_index_of(views(history@), id@);
    }
    None
}

/// What a filter keeps of a sequence, told from its first entry on.
proof fn lemma_filter_front(s: Seq<ItemView>, keep: spec_fn(ItemView) -> bool)
    ensures
        s.len() == 0 ==> s.filter(keep) == s,
        s.len() > 0 && keep(s[0]) ==> s.filter(keep) == seq![s[0]] + s.skip(1).filter(keep),
        s.len() > 0 && !keep(s[0]) ==> s.filter(keep) == s.skip(1).filter(keep),
{
    reveal_with_fuel(Seq::filter, 2);
    if s.len() > 0 {
        let head = seq![s[0]];
        assert(head + s.skip(1) =~= s);
        Seq::filter_distributes_over_add(head, s.skip(1), keep);
        assert(head.drop_last() =~= Seq::<ItemView>::empty());
        assert(head.filter(keep) =~= if keep(s[0]) {
            head
        } else {
            Seq::<ItemView>::empty()
        });
        assert(Seq::<ItemView>::empty() + s.skip(1).filter(keep) =~= s.skip(1).filter(keep));
    } else {
        assert(s.filter(keep) =~= s);
    }
}

/// A history in the middle of clearing: the first `i` entries are done and
/// stay, of the rest the pinned ones will.
spec fn done_and_rest(now: Seq<ItemView>, i: int) -> Seq<ItemView> {
    now.subrange(0, i) + cleared(now.subrange(i, now.len() as int))
}

/// One step of clearing: a pinned entry at `i` joins those that are done,
/// any other is removed, and what will be kept is the same after as before.
proof fn lemma_clear_step(now: Seq<ItemView>, i: int)
    requires
        0 <= i < now.len(),
    ensures
        now[i].is_pinned ==> done_and_rest(now, i + 1) == done_and_rest(now, i),
        !now[i].is_pinned ==> done_and_rest(now.remove(i), i) == done_and_rest(now, i),
{
    let pinned = |entry: ItemView| entry.is_pinned;
    let tail = now.subrange(i, now.len() as int);
    let rest = now.subrange(i + 1, now.len() as int);
    lemma_filter_front(tail, pinned);
    assert(tail.skip(1) =~= rest);
    assert(tail[0] == now[i]);
    if now[i].is_pinned {
        assert(cleared(tail) == seq![now[i]] + cleared(rest));
        assert(now.subrange(0, i) + (seq![now[i]] + cleared(rest)) =~= now.subrange(0, i + 1)
            + cleared(rest));
    } else {
        let less = now.remove(i);
        assert(cleared(tail) == cleared(rest));
        assert(less.subrange(0, i) =~= now.subrange(0, i));
        assert(less.subrange(i, less.len() as int) =~= rest);
    }
}

/// The end of clearing: with every entry done, the history is what is kept.
proof fn lemma_clear_done(now: Seq<ItemView>)
    ensures
        done_and_rest(now, now.len() as int) == now,
{
    let rest = now.subrange(now.len() as int, now.len() as int);
    assert(rest =~= Seq::<ItemView>::empty());
    lemma_filter_front(rest, |entry: ItemView| entry.is_pinned);
    assert(now.subrange(0, now.len() as int) + rest =~= now);
}

/// The store that the watcher and the command handlers share.
#[derive(Debug, PartialEq, Eq)]
pub struct DbState {
    pub db: Database,
}

impl View for DbState {
    type V = DatabaseView;

    open spec fn view(&self) -> DatabaseView {
        self.db@
    }
}

impl DbState {
    /// The store at start-up: the document that was loaded, or the empty one
    /// where none could be.
    pub fn new(loaded: Option<Database>) -> (state: Self)
        ensures
            match loaded {
                Some(db) => state@ == db@,
                None => state@.history == Seq::<ItemView>::empty() && state@.settings
                    == Settings::default_view(),
            },
            loaded is None ==> state.wf(),
    {
        match loaded {
            Some(db) => DbState { db },
            None => DbState { db: Database::default() },
        }
    }

    /// The history holds no more than [`CAPACITY`] entries.
    pub open spec fn within_capacity(&self) -> bool {
        self@.history.len() <= CAPACITY
    }

    /// No two entries of the history have the same id.
    pub open spec fn has_unique_ids(&self) -> bool {
        unique_ids(self@.history)
    }

    /// The store is as every operation leaves it, where it was so before
    /// and new entries come with new ids: within capacity, with unique ids.
    pub open spec fn wf(&self) -> bool {
        self.within_capacity() && self.has_unique_ids()
    }

    /// A copy of the history, in its order.
    pub fn get_history(&self) -> (history: Vec<ClipboardItem>)
        ensures
            views(history@) == self@.history,
    {
        let mut copy: Vec<ClipboardItem> = Vec::new();
        let mut i: usize = 0;
        while i < self.db.history.len()
            invariant
                i <= self.db.history.len(),
                views(copy@) == views(self.db.history@).subrange(0, i as int),
            decreases self.db.history.len() - i,
        {
            let item = self.db.history[i].clone();
            copy.push(item);
            assert(views(copy@) =~= views(self.db.history@).subrange(0, i as int).push(
                views(self.db.history@)[i as int],
            ));
            assert(views(copy@) =~= views(self.db.history@).subrange(0, i + 1));
            i += 1;
        }
        assert(views(self.db.history@).subrange(0, i as int) =~= views(self.db.history@));
        copy
    }

    /// Offers `item` to the history: dropped where the head already records
    /// the same content, else put in front, after which the history is cut to
    /// [`CAPACITY`] entries.
    pub fn add_item(&mut self, item: ClipboardItem)
        ensures
            final(self)@.history == added(old(self)@.history, item@),
            final(self)@.settings == old(self)@.settings,
            old(self).within_capacity() ==> final(self).within_capacity(),
            old(self).has_unique_ids() && !has_id(old(self)@.history, item@.id)
                ==> final(self).has_unique_ids(),
    {
        proof {
            if old(self).has_unique_ids() && !has_id(old(self)@.history, item@.id) {
                lemma_added_unique(old(self)@.history, item@);
            }
        }
        if self.db.history.len() > 0 {
            if self.db.history[0].same_content(&item) {
                return ;
            }
        }
        self.db.history.insert(0, item);
        assert(views(self.db.history@) =~= old(self)@.history.insert(0, item@));
        if self.db.history.len() > CAPACITY {
            self.db.history.truncate(CAPACITY);
            assert(views(self.db.history@) =~= old(self)@.history.insert(0, item@).subrange(
                0,
                CAPACITY as int,
            ));
        }
    }

    /// Removes the first entry whose id is `id`; nothing where there is none.
    pub fn delete_item(&mut self, id: &str)
        ensures
            final(self)@.history == deleted(old(self)@.history, id@),
            final(self)@.settings == old(self)@.settings,
            old(self).wf() ==> final(self).wf(),
    {
        proof {
            if old(self).has_unique_ids() {
                lemma_deleted_unique(old(self)@.history, id@);
            }
        }
        if let Some(index) = position_of(&self.db.history, id) {
            proof {
                lemma_index_of(old(self)@.history, id@);
            }
            self.db.history.remove(index);
            assert(views(self.db.history@) =~= old(self)@.history.remove(index as int));
        }
    }

    /// Keeps the pinned entries, in their order, and removes all others.
    pub fn clear_all(&mut self)
        ensures
            final(self)@.history == cleared(old(self)@.history),
            final(self)@.settings == old(self)@.settings,
            old(self).wf() ==> final(self).wf(),
    {
        proof {
            if old(self).has_unique_ids() {
                lemma_cleared_unique(old(self)@.history);
            }
        }
        let ghost before = old(self)@.history;
        let mut i: usize = 0;
        proof {
            assert(before.subrange(0, 0) + cleared(before.subrange(0, before.len() as int))
                =~= cleared(before)) by {
                assert(before.subrange(0, before.len() as int) =~= before);
            }
        }
        while i < self.db.history.len()
            invariant
                i <= self.db.history.len(),
                self.db.settings == old(self).db.settings,
                self@.history.len() <= before.len(),
                cleared(before) == done_and_rest(self@.history, i as int),
            decreases self.db.history.len() - i,
        {
            proof {
                lemma_clear_step(self@.history, i as int);
            }
            if self.db.history[i].is_pinned {
                i += 1;
            } else {
                let ghost now = self@.history;
                self.db.history.remove(i);
                assert(self@.history =~= now.remove(i as int));
            }
        }
        proof {
            lemma_clear_done(self@.history);
        }
    }

    /// Flips the pin of the first entry whose id is `id`; nothing where there
    /// is none.
    pub fn toggle_pin(&mut self, id: &str)
        ensures
            final(self)@.history == toggled(old(self)@.history, id@),
            final(self)@.settings == old(self)@.settings,
            old(self).wf() ==> final(self).wf(),
    {
        proof {
            lemma_index_of(old(self)@.history, id@);
            if old(self).has_unique_ids() {
                lemma_toggled_unique(old(self)@.history, id@);
            }
        }
        if let Some(index) = position_of(&self.db.history, id) {
            let pinned = self.db.history[index].is_pinned;
            self.db.history[index].is_pinned = !pinned;
            assert(views(self.db.history@) =~= old(self)@.history.update(
                index as int,
                crate::history::flipped(old(self)@.history[index as int]),
            ));
        }
    }

    /// A copy of the settings.
    pub fn get_settings(&self) -> (settings: Settings)
        ensures
            settings@ == self@.settings,
    {
        self.db.settings.clone()
    }

    /// Offers `value` under `key` to the settings. A key that names no
    /// setting, and a value that is not of the setting's type, change nothing
    /// and are not reported.
    pub fn update_setting(&mut self, key: String, value: SettingValue)
        ensures
            final(self)@.settings == updated(old(self)@.settings, key@, value@),
            !is_setting_key(key@) ==> final(self)@.settings == old(self)@.settings,
            final(self)@.history == old(self)@.history,
            old(self).wf() ==> final(self).wf(),
    {
        self.db.settings.update(key.as_str(), value);
    }

    /// Moves the entry `active_id` to the position that the entry `over_id`
    /// has; nothing unless both are found.
    pub fn reorder_items(&mut self, active_id: &str, over_id: &str)
        ensures
            final(self)@.history == reordered(old(self)@.history, active_id@, over_id@),
            final(self)@.settings == old(self)@.settings,
            old(self).wf() ==> final(self).wf(),
    {
        proof {
            if old(self).has_unique_ids() {
                lemma_reordered_unique(old(self)@.history, active_id@, over_id@);
            }
        }
        let from = position_of(&self.db.history, active_id);
        let to = position_of(&self.db.history, over_id);
        if let Some(from) = from {
            if let Some(to) = to {
                proof {
                    lemma_index_of(old(self)@.history, active_id@);
                    lemma_index_of(old(self)@.history, over_id@);
                }
                let item = self.db.history.remove(from);
                self.db.history.insert(to, item);
                assert(views(self.db.history@) =~= old(self)@.history.remove(from as int).insert(
                    to as int,
                    old(self)@.history[from as int],
                ));
            }
        }
    }
}

} // verus!
