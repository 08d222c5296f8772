//! The window registry of the window subsystem.
//!
//! Every managed window occupies a slot; a lookup table finds the slot of
//! a window by its id, and a bitmap marks the windows that want a redraw
//! every time the event loop is about to sleep. Releasing a window swaps
//! the last window into its slot.

use crate::bitmap::{
    bitmap_get, bitmap_lowest_one, bitmap_new, bitmap_next_one, bitmap_ones, bitmap_set,
    bitmap_shrink_to,
};
use crate::mux::{lemma_marks_after_evict, ready_after_evict};
use crate::vecs::{vec_capacity, vec_shrink_to_fit};
use indexed_bitmap::IndexedBitmap;
use std::collections::HashMap;
use vstd::prelude::*;

verus! {

broadcast use vstd::std_specs::hash::group_hash_axioms;

/// Registry of managed windows; `T` is what a slot holds besides the id.
pub struct WindowTable<T> {
    ids: Vec<u64>,
    entries: Vec<T>,
    lookup: HashMap<u64, usize>,
    refreshing: IndexedBitmap,
}

impl<T> WindowTable<T> {
    /// The window id in each slot.
    pub closed spec fn ids(&self) -> Seq<u64> {
        self.ids@
    }

    /// What each slot holds.
    pub closed spec fn entries(&self) -> Seq<T> {
        self.entries@
    }

    /// The slot of each window id.
    pub closed spec fn slot_of(&self) -> Map<u64, usize> {
        self.lookup@
    }

    /// The slots of refreshing windows.
    pub closed spec fn refreshing(&self) -> Set<usize> {
        bitmap_ones(self.refreshing)
    }

    /// Ids and entries line up; the lookup table maps exactly the ids in
    /// the slots to their slots, so no id occurs twice; refreshing marks
    /// lie inside the slots.
    pub closed spec fn wf(&self) -> bool {
        &&& self.ids@.len() == self.entries@.len()
        &&& self.ids@.len() < usize::MAX - 256
        &&& self.refreshing().finite()
        &&& forall|k: usize| #[trigger] self.refreshing().contains(k) ==> k < self.ids@.len()
        &&& forall|w: u64| #[trigger]
            self.lookup@.contains_key(w) ==> self.lookup@[w] < self.ids@.len() && self.ids@[self.lookup@[w] as int] == w
        &&& forall|s: int|
            0 <= s < self.ids@.len() ==> #[trigger] self.lookup@.contains_key(self.ids@[s])
                && self.lookup@[self.ids@[s]] == s
    }

    /// Ids and entries line up slot by slot; every managed window is found
    /// in its own slot, so no id is managed twice; the lookup holds only
    /// managed windows; refreshing marks lie inside the slots.
    pub proof fn lemma_ids_found(&self)
        requires
            self.wf(),
        ensures
            self.ids().len() == self.entries().len(),
            self.ids().len() < usize::MAX - 256,
            forall|w: u64| #[trigger]
                self.slot_of().contains_key(w) ==> self.slot_of()[w] < self.ids().len()
                    && self.ids()[self.slot_of()[w] as int] == w,
            self.refreshing().finite(),
            forall|k: usize| #[trigger] self.refreshing().contains(k) ==> k < self.ids().len(),
            forall|s: int|
                0 <= s < self.ids().len() ==> #[trigger] self.slot_of().contains_key(self.ids()[s])
                    && self.slot_of()[self.ids()[s]] == s,
            forall|s1: int, s2: int|
                0 <= s1 < self.ids().len() && 0 <= s2 < self.ids().len() && s1 != s2
                    ==> #[trigger] self.ids()[s1] != #[trigger] self.ids()[s2],
    {
        assert forall|s1: int, s2: int|
            0 <= s1 < self.ids().len() && 0 <= s2 < self.ids().len() && s1 != s2 implies #[trigger] self.ids()[s1]
            != #[trigger] self.ids()[s2] by {
            assert(self.lookup@.contains_key(self.ids@[s1]));
            assert(self.lookup@.contains_key(self.ids@[s2]));
        }
    }

    /// An empty registry.
    pub fn new() -> (t: Self)
        ensures
            t.wf(),
            t.ids() == Seq::<u64>::empty(),
            t.entries() == Seq::<T>::empty(),
            t.slot_of() == Map::<u64, usize>::empty(),
            t.refreshing() == Set::<usize>::empty(),
    {
        let t = WindowTable {
            ids: Vec::new(),
            entries: Vec::new(),
            lookup: HashMap::new(),
            refreshing: bitmap_new(),
        };
        proof {
            assert(t.lookup@ =~= Map::<u64, usize>::empty());
        }
        t
    }

    /// Number of managed windows.
    pub fn len(&self) -> (n: usize)
        ensures
            n == self.ids().len(),
    {
        self.ids.len()
    }

    /// Whether a window with id `win_id` is managed.
    pub fn contains(&self, win_id: u64) -> (r: bool)
        requires
            self.wf(),
        ensures
            r == self.slot_of().contains_key(win_id),
    {
        self.lookup.contains_key(&win_id)
    }

    /// The slot of the window with id `win_id`, if it is managed.
    pub fn find(&self, win_id: u64) -> (r: Option<usize>)
        requires
            self.wf(),
        ensures
            r == (if self.slot_of().contains_key(win_id) {
                Some(self.slot_of()[win_id])
            } else {
                None
            }),
    {
        match self.lookup.get(&win_id) {
            Some(s) => Some(*s),
            None => None,
        }
    }

    /// What slot `slot` holds.
    pub fn entry(&self, slot: usize) -> (r: &T)
        requires
            slot < self.entries().len(),
        ensures
            *r == self.entries()[slot as int],
    {
        &self.entries[slot]
    }

    /// What slot `slot` holds, for changing it in place.
    pub fn entry_mut(&mut self, slot: usize) -> (r: &mut T)
        requires
            old(self).wf(),
            slot < old(self).entries().len(),
        ensures
            *r == old(self).entries()[slot as int],
            final(self).entries() == old(self).entries().update(slot as int, *final(r)),
            final(self).ids() == old(self).ids(),
            final(self).slot_of() == old(self).slot_of(),
            final(self).refreshing() == old(self).refreshing(),
            final(self).wf(),
    {
        &mut self.entries[slot]
    }

    /// Adds a window with id `win_id` in a new last slot.
    pub fn allocate(&mut self, win_id: u64, entry: T) -> (slot: usize)
        requires
            old(self).wf(),
            !old(self).slot_of().contains_key(win_id),
            old(self).ids().len() < usize::MAX - 257,
        ensures
            final(self).wf(),
            slot == old(self).ids().len(),
            final(self).ids() == old(self).ids().push(win_id),
            final(self).entries() == old(self).entries().push(entry),
            final(self).slot_of() == old(self).slot_of().insert(win_id, slot),
            final(self).refreshing() == old(self).refreshing(),
    {
        let slot = self.ids.len();
        self.ids.push(win_id);
        self.entries.push(entry);
        self.lookup.insert(win_id, slot);
        proof {
            assert forall|s: int|
                0 <= s < self.ids@.len() implies #[trigger] self.lookup@.contains_key(self.ids@[s])
                && self.lookup@[self.ids@[s]] == s by {
                if s < slot {
                    assert(old(self).lookup@.contains_key(old(self).ids@[s]));
                }
            }
            assert forall|w: u64| #[trigger]
                self.lookup@.contains_key(w) implies self.lookup@[w] < self.ids@.len()
                && self.ids@[self.lookup@[w] as int] == w by {
                if w != win_id {
                    assert(old(self).lookup@.contains_key(w));
                }
            }
            assert forall|k: usize| #[trigger] self.refreshing().contains(k) implies k
                < self.ids@.len() by {
                assert(old(self).refreshing().contains(k));
            }
        }
        slot
    }

    /// Forgets the window in `slot` and returns what the slot held; the
    /// last window, if it is another one, moves into `slot` with its id
    /// and its refreshing mark.
    pub fn evict(&mut self, slot: usize) -> (evicted: T)
        requires
            old(self).wf(),
            slot < old(self).ids().len(),
        ensures
            final(self).wf(),
            evicted == old(self).entries()[slot as int],
            final(self).ids() == old(self).ids().update(slot as int, old(self).ids().last()).drop_last(),
            final(self).entries() == old(self).entries().update(
                slot as int,
                old(self).entries().last(),
            ).drop_last(),
            final(self).slot_of() == (if slot + 1 < old(self).ids().len() {
                old(self).slot_of().remove(old(self).ids()[slot as int]).insert(
                    old(self).ids().last(),
                    slot,
                )
            } else {
                old(self).slot_of().remove(old(self).ids()[slot as int])
            }),
            !final(self).slot_of().contains_key(old(self).ids()[slot as int]),
            final(self).refreshing() == ready_after_evict(
                old(self).refreshing(),
                old(self).ids().len(),
                slot,
            ),
            slot + 1 < old(self).ids().len() ==> (final(self).refreshing().contains(slot)
                <==> old(self).refreshing().contains((old(self).ids().len() - 1) as usize)),
            forall|w: u64|
                old(self).slot_of().contains_key(w) && w != old(self).ids()[slot as int]
                    ==> #[trigger] final(self).slot_of().contains_key(w) && (final(self).refreshing().contains(
                    final(self).slot_of()[w],
                ) <==> old(self).refreshing().contains(old(self).slot_of()[w])),
            forall|k: usize| k + 1 >= old(self).ids().len() ==> !#[trigger] final(self).refreshing().contains(k),
    {
        let ghost old_refreshing = self.refreshing();
        let ghost old_ids = self.ids@;
        let ghost old_lookup = self.lookup@;
        let ghost len = self.ids@.len();
        let evicted_id = self.ids[slot];
        self.lookup.remove(&evicted_id);
        bitmap_set(&mut self.refreshing, slot, false);
        let last = self.ids.len() - 1;
        if slot < last {
            let win_id = self.ids[last];
            let last_refreshing = bitmap_get(&self.refreshing, last);
            self.lookup.remove(&win_id);
            bitmap_set(&mut self.refreshing, last, false);
            bitmap_set(&mut self.refreshing, slot, last_refreshing);
            self.lookup.insert(win_id, slot);
        }
        self.ids.swap_remove(slot);
        let evicted = self.entries.swap_remove(slot);
        let len_now = self.entries.len();
        let cap = vec_capacity(&self.entries);
        if len_now < cap - len_now {
            vec_shrink_to_fit(&mut self.entries);
            let cap = vec_capacity(&self.entries);
            if cap <= usize::MAX - 127 {
                bitmap_shrink_to(&mut self.refreshing, cap);
            }
        }
        proof {
            assert(self.refreshing() =~= ready_after_evict(old_refreshing, len, slot));
            if slot + 1 < len {
                assert(self.lookup@ =~= old_lookup.remove(old_ids[slot as int]).insert(
                    old_ids.last(),
                    slot,
                ));
            } else {
                assert(self.lookup@ =~= old_lookup.remove(old_ids[slot as int]));
            }
            assert forall|w: u64| #[trigger]
                self.lookup@.contains_key(w) implies self.lookup@[w] < self.ids@.len()
                && self.ids@[self.lookup@[w] as int] == w by {
                if slot + 1 < len && w == old_ids.last() {
                } else {
                    assert(old_lookup.contains_key(w));
                    let s = old_lookup[w];
                    if s == len - 1 {
                        assert(old_ids[s as int] == old_ids.last());
                    }
                }
            }
            assert forall|s: int|
                0 <= s < self.ids@.len() implies #[trigger] self.lookup@.contains_key(self.ids@[s])
                && self.lookup@[self.ids@[s]] == s by {
                if s == slot {
                    assert(old_lookup.contains_key(old_ids[len - 1]));
                } else {
                    assert(old_lookup.contains_key(old_ids[s]));
                    assert(old_lookup[old_ids[slot as int]] == slot);
                    assert(old_lookup[old_ids[len - 1]] == len - 1);
                }
            }
        }
        proof {
            let after = self.refreshing();
            assert(slot + 1 < len ==> (after.contains(slot) <==> old_refreshing.contains(
                (len - 1) as usize,
            ))) by {
                lemma_marks_after_evict(old_refreshing, len, slot);
            }
            assert(forall|k: usize| k + 1 >= len ==> !#[trigger] after.contains(k)) by {
                lemma_marks_after_evict(old_refreshing, len, slot);
            }
            assert forall|w: u64|
                old_lookup.contains_key(w) && w != old_ids[slot as int]
                    implies #[trigger] self.lookup@.contains_key(w) && (after.contains(self.lookup@[w])
                <==> old_refreshing.contains(old_lookup[w])) by {
                lemma_marks_after_evict(old_refreshing, len, slot);
                let s = old_lookup[w];
                if s == len - 1 {
                    assert(w == old_ids.last());
                } else {
                    assert(s != slot);
                }
            }
        }
        evicted
    }

    /// Marks or unmarks the window in `slot` as refreshing.
    pub fn set_refreshing(&mut self, slot: usize, enable: bool)
        requires
            old(self).wf(),
            slot < old(self).ids().len(),
        ensures
            final(self).wf(),
            final(self).ids() == old(self).ids(),
            final(self).entries() == old(self).entries(),
            final(self).slot_of() == old(self).slot_of(),
            final(self).refreshing() == (if enable {
                old(self).refreshing().insert(slot)
            } else {
                old(self).refreshing().remove(slot)
            }),
    {
        bitmap_set(&mut self.refreshing, slot, enable);
        proof {
            assert forall|k: usize| #[trigger] self.refreshing().contains(k) implies k
                < self.ids@.len() by {
                if k != slot {
                    assert(old(self).refreshing().contains(k));
                }
            }
        }
    }

    /// Whether the window in `slot` is refreshing.
    pub fn is_refreshing(&self, slot: usize) -> (r: bool)
        ensures
            r == self.refreshing().contains(slot),
    {
        bitmap_get(&self.refreshing, slot)
    }

    /// The slots of the refreshing windows, in increasing order: the
    /// windows a redraw is requested for.
    pub fn refreshing_slots(&self) -> (r: Vec<usize>)
        requires
            self.wf(),
        ensures
            forall|i: int, j: int| 0 <= i < j < r@.len() ==> r@[i] < r@[j],
            forall|k: usize| self.refreshing().contains(k) <==> r@.contains(k),
    {
        let mut out: Vec<usize> = Vec::new();
        let mut cur = bitmap_lowest_one(&self.refreshing);
        let ghost len = self.ids@.len() as int;
        loop
            invariant
                self.wf(),
                len == self.ids@.len(),
                forall|i: int| 0 <= i < out@.len() ==> self.refreshing().contains(#[trigger] out@[i]),
                forall|i: int, j: int| 0 <= i < j < out@.len() ==> out@[i] < out@[j],
                match cur {
                    Some(c) => {
                        &&& self.refreshing().contains(c)
                        &&& forall|i: int| 0 <= i < out@.len() ==> #[trigger] out@[i] < c
                        &&& forall|k: usize|
                            k < c && #[trigger] self.refreshing().contains(k) ==> out@.contains(k)
                    },
                    None => forall|k: usize| #[trigger]
                        self.refreshing().contains(k) ==> out@.contains(k),
                },
            ensures
                forall|i: int, j: int| 0 <= i < j < out@.len() ==> out@[i] < out@[j],
                forall|k: usize| self.refreshing().contains(k) <==> out@.contains(k),
            decreases
                match cur {
                    Some(c) => len - c,
                    None => 0,
                },
        {
            match cur {
                None => {
                    proof {
                        assert forall|k: usize| out@.contains(k) implies self.refreshing().contains(
                            k,
                        ) by {
                            let i = choose|i: int| 0 <= i < out@.len() && out@[i] == k;
                        }
                    }
                    break ;
                },
                Some(c) => {
                    let ghost before = out@;
                    out.push(c);
                    let next = bitmap_next_one(&self.refreshing, c);
                    proof {
                        assert(before.push(c) == out@);
                        match next {
                            Some(d) => {
                                assert forall|k: usize|
                                    k < d && #[trigger] self.refreshing().contains(k) implies out@.contains(
                                    k,
                                ) by {
                                    if k < c {
                                        assert(before.contains(k));
                                        let i = choose|i: int| 0 <= i < before.len() && before[i] == k;
                                        assert(out@[i] == k);
                                    } else {
                                        assert(k == c);
                                        assert(out@[out@.len() - 1] == c);
                                    }
                                }
                            },
                            None => {
                                assert forall|k: usize| #[trigger]
                                    self.refreshing().contains(k) implies out@.contains(k) by {
                                    if k < c {
                                        assert(before.contains(k));
                                        let i = choose|i: int| 0 <= i < before.len() && before[i] == k;
                                        assert(out@[i] == k);
                                    } else if k == c {
                                        assert(out@[out@.len() - 1] == c);
                                    }
                                }
                            },
                        }
                    }
                    cur = next;
                },
            }
        }
        out
    }
}

/// Dropping one window keeps every other managed window findable by its
/// id, in a slot that still holds what its old slot held.
pub proof fn lemma_evict_keeps_other_windows<T>(
    ids: Seq<u64>,
    entries: Seq<T>,
    lookup: Map<u64, usize>,
    slot: usize,
    w: u64,
)
    requires
        ids.len() == entries.len(),
        slot < ids.len(),
        forall|v: u64| #[trigger]
            lookup.contains_key(v) ==> lookup[v] < ids.len() && ids[lookup[v] as int] == v,
        forall|s: int|
            #![trigger ids[s]]
            0 <= s < ids.len() ==> lookup.contains_key(ids[s]) && lookup[ids[s]] == s,
        lookup.contains_key(w),
        w != ids[slot as int],
    ensures
        ({
            let new_ids = ids.update(slot as int, ids.last()).drop_last();
            let new_entries = entries.update(slot as int, entries.last()).drop_last();
            let new_lookup = if slot + 1 < ids.len() {
                lookup.remove(ids[slot as int]).insert(ids.last(), slot)
            } else {
                lookup.remove(ids[slot as int])
            };
            &&& new_lookup.contains_key(w)
            &&& new_lookup[w] < new_ids.len()
            &&& new_ids[new_lookup[w] as int] == w
            &&& new_entries[new_lookup[w] as int] == entries[lookup[w] as int]
        }),
{
    let s = lookup[w];
    assert(ids[s as int] == w);
    let last = ids.len() - 1;
    assert(lookup.contains_key(ids[last]) && lookup[ids[last]] == last);
    assert(lookup.contains_key(ids[slot as int]) && lookup[ids[slot as int]] == slot);
    if s == last {
        assert(w == ids.last());
    } else {
        assert(s != slot);
    }
}

} // verus!
