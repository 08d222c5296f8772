//! The level-triggered readiness multiplexer.
//!
//! Each registration watches one readiness source. A registration whose
//! source has signalled readiness has its bit set. Polling takes the
//! lowest set bit, asks the source whether it is still ready, clears the
//! bit and moves on if not, and otherwise leaves the bit set and reports
//! that registration: a source that stays ready is reported again on the
//! next poll. Unregistering swaps the last registration into the freed
//! slot.

use crate::bitmap::{
    bitmap_get, bitmap_lowest_one, bitmap_new, bitmap_ones, bitmap_set, bitmap_shrink_to,
};
use crate::vecs::{vec_capacity, vec_shrink_to_fit};
use indexed_bitmap::IndexedBitmap;
use vstd::prelude::*;

verus! {

/// A source of readiness: `ready` tells whether the source can make
/// progress now.
pub trait ReadyWait {
    fn ready(&self) -> bool;
}

/// The registry of a readiness multiplexer; `R` is one registration.
pub struct ReadyTable<R> {
    ready: IndexedBitmap,
    regs: Vec<R>,
}

/// The slots marked ready in `ready` once the slot `id` has been removed by
/// moving the last of `len` slots into it.
pub open spec fn ready_after_evict(ready: Set<usize>, len: nat, id: usize) -> Set<usize> {
    Set::new(
        |k: usize|
            k + 1 < len && (if k == id {
                ready.contains((len - 1) as usize)
            } else {
                ready.contains(k)
            }),
    )
}

impl<R: ReadyWait> ReadyTable<R> {
    /// The slots whose source has signalled readiness.
    pub closed spec fn marked(&self) -> Set<usize> {
        bitmap_ones(self.ready)
    }

    /// The registrations, by slot.
    pub closed spec fn regs(&self) -> Seq<R> {
        self.regs@
    }

    /// Marks lie inside the registrations.
    pub closed spec fn wf(&self) -> bool {
        &&& self.marked().finite()
        &&& forall|k: usize| #[trigger] self.marked().contains(k) ==> k < self.regs@.len()
        &&& self.regs@.len() < usize::MAX - 256
    }

    /// Every mark lies inside the registrations, which stay clear of the
    /// top of `usize`.
    pub proof fn lemma_marks_in_regs(&self)
        requires
            self.wf(),
        ensures
            self.marked().finite(),
            forall|k: usize| #[trigger] self.marked().contains(k) ==> k < self.regs().len(),
            self.regs().len() < usize::MAX - 256,
    {
    }

    /// An empty multiplexer.
    pub fn new() -> (t: Self)
        ensures
            t.wf(),
            t.marked() == Set::<usize>::empty(),
            t.regs() == Seq::<R>::empty(),
    {
        ReadyTable { ready: bitmap_new(), regs: Vec::new() }
    }

    /// Number of registrations.
    pub fn len(&self) -> (n: usize)
        ensures
            n == self.regs().len(),
    {
        self.regs.len()
    }

    /// The registration in `slot`.
    pub fn entry(&self, slot: usize) -> (r: &R)
        requires
            slot < self.regs().len(),
        ensures
            *r == self.regs()[slot as int],
    {
        &self.regs[slot]
    }

    /// Whether `slot` is marked ready.
    pub fn is_marked(&self, slot: usize) -> (r: bool)
        ensures
            r == self.marked().contains(slot),
    {
        bitmap_get(&self.ready, slot)
    }

    /// Adds a registration in a new last slot and returns it. `ready` is
    /// what its source answered when asked whether it is ready right now:
    /// a ready source is marked at once, and the caller then wakes the
    /// waiting poll.
    pub fn register(&mut self, reg: R, ready: bool) -> (slot: usize)
        requires
            old(self).wf(),
            old(self).regs().len() < usize::MAX - 257,
        ensures
            final(self).wf(),
            slot == old(self).regs().len(),
            final(self).regs() == old(self).regs().push(reg),
            final(self).marked() == (if ready {
                old(self).marked().insert(slot)
            } else {
                old(self).marked()
            }),
    {
        let slot = self.regs.len();
        self.regs.push(reg);
        if ready {
            bitmap_set(&mut self.ready, slot, true);
        }
        slot
    }

    /// Marks `slot` ready, as its source signals. The caller wakes the
    /// waiting poll.
    pub fn notify(&mut self, slot: usize)
        requires
            old(self).wf(),
            slot < old(self).regs().len(),
        ensures
            final(self).wf(),
            final(self).marked() == old(self).marked().insert(slot),
            final(self).regs() == old(self).regs(),
    {
        bitmap_set(&mut self.ready, slot, true);
    }

    /// Removes the registration in `slot` and returns it; the last
    /// registration, if it is another one, moves into `slot` with its mark.
    pub fn evict(&mut self, slot: usize) -> (evicted: R)
        requires
            old(self).wf(),
            slot < old(self).regs().len(),
        ensures
            final(self).wf(),
            evicted == old(self).regs()[slot as int],
            final(self).regs() == old(self).regs().update(slot as int, old(self).regs().last()).drop_last(),
            final(self).marked() == ready_after_evict(old(self).marked(), old(self).regs().len(), slot),
            slot + 1 < old(self).regs().len() ==> (final(self).marked().contains(slot)
                <==> old(self).marked().contains((old(self).regs().len() - 1) as usize)),
            forall|k: usize|
                k != slot && k + 1 < old(self).regs().len() ==> (#[trigger] final(self).marked().contains(k)
                    <==> old(self).marked().contains(k)),
            forall|k: usize| k + 1 >= old(self).regs().len() ==> !#[trigger] final(self).marked().contains(k),
    {
        proof {
            lemma_marks_after_evict(self.marked(), self.regs@.len(), slot);
        }
        let ghost old_marked = self.marked();
        let ghost len = self.regs@.len();
        let last = self.regs.len() - 1;
        if slot < last {
            let last_ready = bitmap_get(&self.ready, last);
            bitmap_set(&mut self.ready, slot, last_ready);
        }
        bitmap_set(&mut self.ready, last, false);
        let evicted = self.regs.swap_remove(slot);
        let cap = vec_capacity(&self.regs);
        if cap / 2 >= self.regs.len() {
            vec_shrink_to_fit(&mut self.regs);
            let cap = vec_capacity(&self.regs);
            if cap <= usize::MAX - 127 {
                bitmap_shrink_to(&mut self.ready, cap);
            }
        }
        proof {
            assert(self.marked() =~= ready_after_evict(old_marked, len, slot));
        }
        evicted
    }

    /// The lowest marked slot, `None` when nothing is marked.
    pub fn lowest_marked(&self) -> (r: Option<usize>)
        requires
            self.wf(),
        ensures
            r == lowest_in(self.marked()),
    {
        let r = bitmap_lowest_one(&self.ready);
        proof {
            lemma_lowest_in(self.marked());
            match r {
                Some(i) => {
                    let l = lowest_in(self.marked());
                    if l != Some(i) {
                        let j = l->0;
                        assert(self.marked().contains(j));
                    }
                },
                None => {},
            }
        }
        r
    }

    /// One step of a poll on the lowest marked `slot`, whose source
    /// answered `still_ready` when asked whether it is still ready: a ready
    /// source keeps its mark and its slot is reported, so that it is
    /// reported again on the next poll as long as it stays ready; a source
    /// no longer ready loses its mark and the poll goes on.
    pub fn poll_step(&mut self, slot: usize, still_ready: bool) -> (r: Option<usize>)
        requires
            old(self).wf(),
            old(self).marked().contains(slot),
            forall|k: usize| k < slot ==> !old(self).marked().contains(k),
        ensures
            final(self).wf(),
            final(self).regs() == old(self).regs(),
            still_ready ==> r == Some(slot) && final(self).marked() == old(self).marked(),
            !still_ready ==> r is None && final(self).marked() == old(self).marked().remove(slot),
    {
        if still_ready {
            Some(slot)
        } else {
            bitmap_set(&mut self.ready, slot, false);
            None
        }
    }

    /// Asks the marked sources, lowest first, whether they are still ready
    /// (each step is `poll_step` with the answer), and returns the first
    /// that is; the marks of those that are not are cleared, and the slot
    /// found keeps its mark. `None` when no marked source is ready, and then
    /// no mark is left.
    pub fn poll(&mut self) -> (r: Option<usize>)
        requires
            old(self).wf(),
        ensures
            final(self).wf(),
            final(self).regs() == old(self).regs(),
            match r {
                Some(slot) => {
                    &&& old(self).marked().contains(slot)
                    &&& final(self).marked() == old(self).marked().filter(|k: usize| k >= slot)
                },
                None => final(self).marked() == Set::<usize>::empty(),
            },
    {
        let ghost old_marked = self.marked();
        let ghost mut cut: nat = 0;
        proof {
            assert(old_marked.filter(|k: usize| k >= cut) =~= old_marked);
        }
        loop
            invariant
                self.wf(),
                self.regs@ == old(self).regs@,
                old_marked == old(self).marked(),
                old_marked.finite(),
                self.marked() == old_marked.filter(|k: usize| k >= cut),
                forall|k: usize| #[trigger] self.marked().contains(k) ==> k >= cut,
            decreases self.marked().len(),
        {
            match self.lowest_marked() {
                None => {
                    proof {
                        lemma_lowest_in(self.marked());
                    }
                    return None;
                },
                Some(slot) => {
                    let ghost before = self.marked();
                    proof {
                        lemma_lowest_in(before);
                    }
                    let still_ready = self.regs[slot].ready();
                    match self.poll_step(slot, still_ready) {
                        Some(found) => {
                            proof {
                                assert(old_marked.contains(slot));
                                assert(old_marked.filter(|k: usize| k >= cut) =~= old_marked.filter(
                                    |k: usize| k >= slot,
                                ));
                            }
                            return Some(found);
                        },
                        None => {
                            proof {
                                assert(self.marked() =~= old_marked.filter(|k: usize| k >= slot + 1));
                                cut = (slot + 1) as nat;
                            }
                        },
                    }
                },
            }
        }
    }
}

/// Removing slot `id` of `len` slots moves the mark of the last slot, and
/// nothing else, into `id`: the moved registration keeps its own mark, the
/// removed one's mark is gone, every other slot keeps its mark, and no mark
/// is left at or past the new end.
pub proof fn lemma_marks_after_evict(ready: Set<usize>, len: nat, id: usize)
    requires
        id < len,
    ensures
        id + 1 < len ==> (ready_after_evict(ready, len, id).contains(id) <==> ready.contains(
            (len - 1) as usize,
        )),
        forall|k: usize|
            k != id && k + 1 < len ==> (#[trigger] ready_after_evict(ready, len, id).contains(k)
                <==> ready.contains(k)),
        forall|k: usize| k + 1 >= len ==> !#[trigger] ready_after_evict(ready, len, id).contains(k),
{
}

/// The lowest element of `s`, `None` when `s` is empty.
pub open spec fn lowest_in(s: Set<usize>) -> Option<usize> {
    if exists|i: usize| s.contains(i) && forall|k: usize| k < i ==> !s.contains(k) {
        Some(choose|i: usize| s.contains(i) && forall|k: usize| k < i ==> !s.contains(k))
    } else {
        None
    }
}

/// A set of slots has a lowest element exactly when it is not empty.
pub proof fn lemma_lowest_in(s: Set<usize>)
    ensures
        match lowest_in(s) {
            Some(i) => s.contains(i) && forall|k: usize| k < i ==> !s.contains(k),
            None => s == Set::<usize>::empty(),
        },
{
    if !(s =~= Set::<usize>::empty()) {
        let x = choose|x: usize| s.contains(x);
        lemma_least_below(s, x);
    }
}

proof fn lemma_least_below(s: Set<usize>, x: usize)
    requires
        s.contains(x),
    ensures
        exists|i: usize| s.contains(i) && forall|k: usize| k < i ==> !s.contains(k),
    decreases x,
{
    if exists|k: usize| k < x && s.contains(k) {
        let k = choose|k: usize| k < x && s.contains(k);
        lemma_least_below(s, k);
    } else {
        assert(forall|k: usize| k < x ==> !s.contains(k));
    }
}

/// Level trigger: a poll that reports a slot leaves the marks as they were
/// at that step, so the next poll starts from the same slot and reports it
/// again as long as its source stays ready; a slot whose source says it is
/// no longer ready is never reported by that step.
pub proof fn lemma_level_trigger(marked: Set<usize>, slot: usize)
    requires
        marked.contains(slot),
        forall|k: usize| k < slot ==> !marked.contains(k),
    ensures
        lowest_in(marked) == Some(slot),
        !marked.remove(slot).contains(slot),
{
    lemma_lowest_in(marked);
}

} // verus!
