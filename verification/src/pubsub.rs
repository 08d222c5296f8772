//! The subscriber registry behind a publisher.
//!
//! Every subscription occupies a slot. A slot whose bit is one in the
//! bitmap holds a live subscription; the other slots hold nothing or a
//! subscription whose ledge has been dropped and that waits for the next
//! compaction. A new subscription takes the lowest free slot. Dropping a
//! ledge only clears its bit, because a publication in progress walks the
//! slots by index; once no publication runs, compaction moves the live
//! subscriptions down into the holes so that they fill a prefix.

use crate::bitmap::{
    bitmap_get, bitmap_highest_one, bitmap_lowest_one, bitmap_lowest_zero, bitmap_new,
    bitmap_next_one, bitmap_ones, bitmap_set, bitmap_shrink_to,
};
use crate::ranges::{below, first_in, lemma_first_in, lemma_prefix_set, lemma_walk, walk};
use crate::vecs::{vec_capacity, vec_shrink_to_fit};
use indexed_bitmap::IndexedBitmap;
use vstd::prelude::*;

verus! {

/// Where the subscription that started in slot `k` stands after the moves
/// `(from, to)` have been applied in order.
pub open spec fn destination(moves: Seq<(usize, usize)>, k: usize) -> usize
    decreases moves.len(),
{
    if moves.len() == 0 {
        k
    } else {
        let c = destination(moves.drop_last(), k);
        if c == moves.last().0 {
            moves.last().1
        } else {
            c
        }
    }
}

/// The live slots after the first `m` of the moves, starting from `live`.
pub open spec fn live_before(live: Set<usize>, moves: Seq<(usize, usize)>, m: int) -> Set<usize> {
    live.map(|k: usize| destination(moves.take(m), k))
}

/// Move `m` of a compaction takes the highest live slot at that point and
/// puts it into the lowest free slot at that point.
pub open spec fn compact_step(live: Set<usize>, moves: Seq<(usize, usize)>, m: int) -> bool {
    let cur = live_before(live, moves, m);
    &&& cur.contains(moves[m].0)
    &&& forall|k: usize| #[trigger] cur.contains(k) ==> k <= moves[m].0
    &&& !cur.contains(moves[m].1)
    &&& forall|k: usize| k < moves[m].1 ==> #[trigger] cur.contains(k)
}

/// Subscriber registry of one publisher; `T` is what a slot holds.
pub struct SubscriberTable<T> {
    bitmap: IndexedBitmap,
    regs: Vec<Option<T>>,
}

impl<T> SubscriberTable<T> {
    /// The slots that hold a live subscription.
    pub closed spec fn live(&self) -> Set<usize> {
        bitmap_ones(self.bitmap)
    }

    /// Every slot, live or not.
    pub closed spec fn slots(&self) -> Seq<Option<T>> {
        self.regs@
    }

    /// Live slots lie inside the slot vector and hold a subscription.
    pub closed spec fn wf(&self) -> bool {
        &&& self.live().finite()
        &&& forall|k: usize| #[trigger]
            self.live().contains(k) ==> k < self.regs@.len() && self.regs@[k as int] is Some
        &&& self.regs@.len() < usize::MAX - 256
    }

    /// An empty registry.
    pub fn new() -> (t: Self)
        ensures
            t.wf(),
            t.live() == Set::<usize>::empty(),
            t.slots() == Seq::<Option<T>>::empty(),
    {
        SubscriberTable { bitmap: bitmap_new(), regs: Vec::new() }
    }

    /// Number of slots, live or not.
    pub fn num_slots(&self) -> (n: usize)
        ensures
            n == self.slots().len(),
    {
        self.regs.len()
    }

    /// Whether any subscription is live.
    pub fn has_subscriber(&self) -> (r: bool)
        requires
            self.wf(),
        ensures
            r == !self.live().is_empty(),
    {
        match bitmap_lowest_one(&self.bitmap) {
            Some(_) => true,
            None => false,
        }
    }

    /// Whether `slot` holds a live subscription.
    pub fn is_live(&self, slot: usize) -> (r: bool)
        ensures
            r == self.live().contains(slot),
    {
        bitmap_get(&self.bitmap, slot)
    }

    /// What `slot` holds, live or not; `None` past the last slot.
    pub fn entry(&self, slot: usize) -> (r: Option<&T>)
        ensures
            slot < self.slots().len() ==> r == match self.slots()[slot as int] {
                Some(e) => Some(&e),
                None => None::<&T>,
            },
            slot >= self.slots().len() ==> r is None,
    {
        if slot < self.regs.len() {
            self.regs[slot].as_ref()
        } else {
            None
        }
    }

    /// Registers a subscription in the lowest free slot and returns that slot.
    pub fn register(&mut self, entry: T) -> (slot: usize)
        requires
            old(self).wf(),
            old(self).slots().len() < usize::MAX - 257,
        ensures
            final(self).wf(),
            !old(self).live().contains(slot),
            forall|i: usize| i < slot ==> old(self).live().contains(i),
            final(self).live() == old(self).live().insert(slot),
            slot <= old(self).slots().len(),
            final(self).slots() == (if slot < old(self).slots().len() {
                old(self).slots().update(slot as int, Some(entry))
            } else {
                old(self).slots().push(Some(entry))
            }),
    {
        let slot = bitmap_lowest_zero(&self.bitmap);
        proof {
            // Every slot below the lowest free one is live, so it lies
            // inside the slot vector.
            if slot > self.regs@.len() {
                let k = self.regs@.len() as usize;
                assert(self.live().contains(k));
            }
        }
        bitmap_set(&mut self.bitmap, slot, true);
        if slot < self.regs.len() {
            self.regs.set(slot, Some(entry));
        } else {
            self.regs.push(Some(entry));
        }
        slot
    }

    /// Marks the subscription in `slot` as gone; nothing changes when it
    /// is not live. The slot keeps its contents until the next compaction.
    pub fn release(&mut self, slot: usize)
        requires
            old(self).wf(),
        ensures
            final(self).wf(),
            final(self).live() == old(self).live().remove(slot),
            final(self).slots() == old(self).slots(),
    {
        if slot < self.regs.len() {
            bitmap_set(&mut self.bitmap, slot, false);
        } else {
            proof {
                assert(self.live() =~= self.live().remove(slot));
            }
        }
    }

    /// Every live slot lies inside the slot vector and holds a
    /// subscription; the registry stays clear of the top of `usize`.
    pub proof fn lemma_live_in_slots(&self)
        requires
            self.wf(),
        ensures
            self.live().finite(),
            forall|k: usize| #[trigger]
                self.live().contains(k) ==> k < self.slots().len() && self.slots()[k as int] is Some,
            self.slots().len() < usize::MAX - 256,
    {
    }

    /// The lowest and highest live slots, the span a publication walks;
    /// `None` when nothing is live.
    pub fn publish_span(&self) -> (r: Option<(usize, usize)>)
        requires
            self.wf(),
        ensures
            match r {
                Some((lo, hi)) => {
                    &&& self.live().contains(lo)
                    &&& self.live().contains(hi)
                    &&& forall|k: usize| #[trigger] self.live().contains(k) ==> lo <= k <= hi
                },
                None => self.live().is_empty(),
            },
    {
        let lo = bitmap_lowest_one(&self.bitmap);
        let hi = bitmap_highest_one(&self.bitmap);
        match (lo, hi) {
            (Some(lo), Some(hi)) => {
                proof {
                    assert forall|k: usize| #[trigger] self.live().contains(k) implies lo <= k <= hi by {
                    }
                }
                Some((lo, hi))
            },
            _ => {
                proof {
                    assert(self.live() =~= Set::<usize>::empty());
                }
                None
            },
        }
    }

    /// The next slot a publication at cursor `i` delivers to: the lowest
    /// live slot from `i` up to `hi`, or `None` when there is none.
    pub fn next_target(&self, i: usize, hi: usize) -> (r: Option<usize>)
        requires
            self.wf(),
        ensures
            match r {
                Some(j) => {
                    &&& i <= j <= hi
                    &&& self.live().contains(j)
                    &&& forall|k: usize| i <= k < j ==> !self.live().contains(k)
                },
                None => forall|k: usize| i <= k <= hi ==> !self.live().contains(k),
            },
            r == first_in(self.live(), i as int, hi as int),
    {
        proof {
            lemma_first_in(self.live(), i as int, hi as int);
        }
        if i > hi {
            return None;
        }
        if bitmap_get(&self.bitmap, i) {
            return Some(i);
        }
        if i == usize::MAX {
            return None;
        }
        match bitmap_next_one(&self.bitmap, i) {
            Some(j) => if j <= hi {
                Some(j)
            } else {
                None
            },
            None => None,
        }
    }

    /// Moves the live subscriptions down into the holes left by released
    /// ones, then drops the slots past the last live one.
    ///
    /// Returns the moves `(from, to)` in the order they were made, so that
    /// whoever tracks a subscription by its slot can follow it. Afterwards
    /// the live slots are exactly `0 .. n` for the `n` live subscriptions,
    /// and the subscription that was live in slot `k` stands in
    /// `destination(moves, k)`.
    pub fn compact(&mut self) -> (moves: Vec<(usize, usize)>)
        requires
            old(self).wf(),
        ensures
            final(self).wf(),
            final(self).live() == below(old(self).live().len()),
            final(self).slots().len() == old(self).live().len(),
            forall|k: usize| #[trigger]
                old(self).live().contains(k) ==> destination(moves@, k) < old(self).live().len()
                    && final(self).slots()[destination(moves@, k) as int] == old(
                    self,
                ).slots()[k as int],
            forall|k1: usize, k2: usize|
                old(self).live().contains(k1) && old(self).live().contains(k2) && k1 != k2
                    ==> destination(moves@, k1) != destination(moves@, k2),
            forall|m: int|
                0 <= m < moves@.len() ==> #[trigger] moves@[m].1 < moves@[m].0,
            forall|m: int| 0 <= m < moves@.len() ==> #[trigger] compact_step(old(self).live(), moves@, m),
    {
        let ghost orig_live = self.live();
        let ghost orig_regs = self.regs@;
        let ghost mut bound: int = self.regs@.len() as int;
        let mut moves: Vec<(usize, usize)> = Vec::new();
        proof {
            assert forall|k: usize| orig_live.contains(k) implies destination(moves@, k) == k by {
            }
            assert(self.live() =~= orig_live.map(|k: usize| destination(moves@, k)));
        }
        loop
            invariant
                self.wf(),
                self.regs@.len() == orig_regs.len(),
                orig_live.finite(),
                self.live().len() == orig_live.len(),
                forall|k: usize| #[trigger] self.live().contains(k) ==> k < bound,
                bound <= orig_regs.len(),
                self.live() == orig_live.map(|k: usize| destination(moves@, k)),
                forall|k: usize| #[trigger]
                    orig_live.contains(k) ==> self.regs@[destination(moves@, k) as int]
                        == orig_regs[k as int],
                forall|k1: usize, k2: usize|
                    orig_live.contains(k1) && orig_live.contains(k2) && k1 != k2
                        ==> destination(moves@, k1) != destination(moves@, k2),
                forall|m: int| 0 <= m < moves@.len() ==> #[trigger] moves@[m].1 < moves@[m].0,
                forall|m: int| 0 <= m < moves@.len() ==> #[trigger] compact_step(orig_live, moves@, m),
            ensures
                self.live() == below(orig_live.len()),
            decreases bound,
        {
            let i = bitmap_lowest_zero(&self.bitmap);
            let j = match bitmap_highest_one(&self.bitmap) {
                Some(j) => j,
                None => 0,
            };
            if i >= j {
                proof {
                    if self.live().is_empty() {
                        lemma_prefix_set(self.live(), 0);
                    } else {
                        assert(self.live().contains(j));
                        lemma_prefix_set(self.live(), i as nat);
                    }
                }
                break ;
            }
            // `j` is live, `i` is a hole below it.
            let ghost pre_live = self.live();
            let ghost pre_regs = self.regs@;
            let ghost pre_moves = moves@;
            self.regs.push(None);
            let mid = self.regs.swap_remove(j);
            self.regs.set(i, mid);
            bitmap_set(&mut self.bitmap, i, true);
            bitmap_set(&mut self.bitmap, j, false);
            moves.push((j, i));
            proof {
                assert(moves@.drop_last() =~= pre_moves);
                assert forall|m: int| 0 <= m < moves@.len() implies #[trigger] compact_step(
                    orig_live,
                    moves@,
                    m,
                ) by {
                    if m < pre_moves.len() {
                        assert(moves@.take(m) =~= pre_moves.take(m));
                        assert(moves@[m] == pre_moves[m]);
                        assert(compact_step(orig_live, pre_moves, m));
                    } else {
                        assert(moves@.take(m) =~= pre_moves);
                        assert(live_before(orig_live, moves@, m) =~= pre_live);
                        assert(moves@[m] == (j, i));
                    }
                }
                assert forall|k: usize| #[trigger]
                    orig_live.contains(k) implies self.regs@[destination(moves@, k) as int]
                    == orig_regs[k as int] by {
                    let c = destination(pre_moves, k);
                    assert(pre_live.contains(c));
                    if c == j {
                    } else {
                        assert(c != i);
                    }
                }
                assert forall|k1: usize, k2: usize|
                    orig_live.contains(k1) && orig_live.contains(k2) && k1 != k2 implies destination(
                    moves@,
                    k1,
                ) != destination(moves@, k2) by {
                    let c1 = destination(pre_moves, k1);
                    let c2 = destination(pre_moves, k2);
                    assert(pre_live.contains(c1));
                    assert(pre_live.contains(c2));
                }
                assert forall|x: usize|
                    #[trigger] self.live().contains(x) <==> orig_live.map(
                        |k: usize| destination(moves@, k),
                    ).contains(x) by {
                    if self.live().contains(x) {
                        if x == i {
                            let k = choose|k: usize|
                                orig_live.contains(k) && destination(pre_moves, k) == j;
                            assert(destination(moves@, k) == i);
                        } else {
                            assert(pre_live.contains(x));
                            let k = choose|k: usize|
                                orig_live.contains(k) && destination(pre_moves, k) == x;
                            assert(destination(moves@, k) == x);
                        }
                    }
                    if orig_live.map(|k: usize| destination(moves@, k)).contains(x) {
                        let k = choose|k: usize| orig_live.contains(k) && destination(moves@, k) == x;
                        assert(pre_live.contains(destination(pre_moves, k)));
                    }
                }
                assert(self.live() =~= orig_live.map(|k: usize| destination(moves@, k)));
                assert forall|k: usize| #[trigger] self.live().contains(k) implies k < j by {
                    if k != i {
                        assert(pre_live.contains(k));
                    }
                }
                bound = j as int;
            }
        }
        let ghost n = orig_live.len();
        let ghost loop_regs = self.regs@;
        proof {
            assert forall|k: usize| #[trigger] orig_live.contains(k) implies destination(moves@, k)
                < n && loop_regs[destination(moves@, k) as int] == orig_regs[k as int] by {
                assert(orig_live.map(|k: usize| destination(moves@, k)).contains(
                    destination(moves@, k),
                ));
            }
        }
        let size = match bitmap_highest_one(&self.bitmap) {
            Some(h) => {
                proof {
                    if h + 1 < n {
                        assert(self.live().contains((h + 1) as usize));
                    }
                }
                h + 1
            },
            None => {
                proof {
                    if n > 0 {
                        assert(self.live().contains(0));
                    }
                }
                0
            },
        };
        proof {
            if n > 0 {
                assert(self.live().contains((n - 1) as usize));
            }
        }
        if size < self.regs.len() {
            self.regs.truncate(size);
            let cap = vec_capacity(&self.regs);
            if cap / 2 >= self.regs.len() {
                vec_shrink_to_fit(&mut self.regs);
                let cap = vec_capacity(&self.regs);
                if cap <= usize::MAX - 127 {
                    bitmap_shrink_to(&mut self.bitmap, cap);
                }
            }
        }
        proof {
            assert forall|k: usize| #[trigger] orig_live.contains(k) implies self.regs@[destination(
                moves@,
                k,
            ) as int] == loop_regs[destination(moves@, k) as int] by {}
        }
        moves
    }
}

/// A publication delivers its event to every live subscription exactly
/// once, in slot order: starting from the lowest live slot and stepping with
/// `next_target` from just past each delivery, it visits `walk(live, lo, hi)`,
/// which lists each live slot once, in increasing order, and nothing else.
pub proof fn lemma_publication_delivers_to_all(live: Set<usize>, lo: usize, hi: usize)
    requires
        live.contains(lo),
        live.contains(hi),
        forall|k: usize| #[trigger] live.contains(k) ==> lo <= k <= hi,
    ensures
        forall|a: int, b: int|
            0 <= a < b < walk(live, lo as int, hi as int).len() ==> walk(live, lo as int, hi as int)[a]
                < walk(live, lo as int, hi as int)[b],
        forall|k: usize| live.contains(k) <==> #[trigger] walk(live, lo as int, hi as int).contains(k),
{
    lemma_walk(live, lo as int, hi as int);
    assert forall|k: usize| live.contains(k) <==> #[trigger] walk(live, lo as int, hi as int).contains(k) by {
        if live.contains(k) {
            assert(lo <= k <= hi);
        }
    }
}

/// A released subscription gets no event from a publication: no step of a
/// publication delivers to a slot once it has been released.
pub proof fn lemma_released_slot_not_delivered(live: Set<usize>, slot: usize, i: usize, hi: usize)
    ensures
        first_in(live.remove(slot), i as int, hi as int) != Some(slot),
        !walk(live.remove(slot), i as int, hi as int).contains(slot),
{
    lemma_first_in(live.remove(slot), i as int, hi as int);
    lemma_walk(live.remove(slot), i as int, hi as int);
}

/// Releasing the only live subscription leaves the publisher without a
/// subscriber, and releasing one that is not live changes nothing.
pub proof fn lemma_release_last_subscriber(live: Set<usize>, slot: usize)
    ensures
        (forall|k: usize| live.contains(k) ==> k == slot) ==> live.remove(slot).is_empty(),
        !live.contains(slot) ==> live.remove(slot) == live,
{
    if forall|k: usize| live.contains(k) ==> k == slot {
        assert(live.remove(slot) =~= Set::<usize>::empty());
    }
    if !live.contains(slot) {
        assert(live.remove(slot) =~= live);
    }
}

} // verus!
