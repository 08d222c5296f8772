//! The keyed multiplexer behind `Mux::poll`.
//!
//! Each slot carries the poll key of one multiplexed future or stream. A
//! waker sends the current slot of its registration, or `usize::MAX` once
//! the registration is gone; polling hands out the key of the first live
//! slot woken. The key handed out is pending until the slot acknowledges
//! it, and the next poll may only start once no live slot is pending.
//! Removing a slot swaps the last slot into it, and the pending mark
//! follows the registration it belongs to.

use vstd::prelude::*;

verus! {

/// The registration whose key was handed out last.
#[derive(PartialEq, Eq, Debug, Clone, Copy, Structural)]
pub enum Pending {
    /// Nothing handed out, or acknowledged since.
    Idle,
    /// Handed out to the registration now in this slot, not acknowledged.
    Slot(usize),
    /// Handed out to a registration removed since.
    Gone,
}

/// Where the pending mark stands once `slot` has been removed from
/// `len` slots by moving the last one into it.
pub open spec fn pending_after_evict(p: Pending, slot: usize, len: nat) -> Pending {
    match p {
        Pending::Slot(q) => if q == slot {
            Pending::Gone
        } else if q == len - 1 {
            Pending::Slot(slot)
        } else {
            Pending::Slot(q)
        },
        other => other,
    }
}

/// The keyed multiplexer state; `K` is the poll key.
pub struct KeyedMux<K> {
    keys: Vec<K>,
    pending: Pending,
}

impl<K> KeyedMux<K> {
    /// The poll key of each slot.
    pub closed spec fn keys(&self) -> Seq<K> {
        self.keys@
    }

    pub closed spec fn spec_pending(&self) -> Pending {
        self.pending
    }

    /// A pending slot is a slot.
    pub closed spec fn wf(&self) -> bool {
        self.pending matches Pending::Slot(q) ==> q < self.keys@.len()
    }

    /// A key handed out and not acknowledged belongs to a slot.
    pub proof fn lemma_pending_in_slots(&self)
        requires
            self.wf(),
        ensures
            self.spec_pending() matches Pending::Slot(q) ==> q < self.keys().len(),
    {
    }

    /// A multiplexer without slots.
    pub fn new() -> (m: Self)
        ensures
            m.wf(),
            m.keys() == Seq::<K>::empty(),
            m.spec_pending() == Pending::Idle,
    {
        KeyedMux { keys: Vec::new(), pending: Pending::Idle }
    }

    /// Number of slots.
    pub fn len(&self) -> (n: usize)
        ensures
            n == self.keys().len(),
    {
        self.keys.len()
    }

    /// The poll key of `slot`.
    pub fn key(&self, slot: usize) -> (k: &K)
        requires
            slot < self.keys().len(),
        ensures
            *k == self.keys()[slot as int],
    {
        &self.keys[slot]
    }

    /// Adds a slot for `key` at the end and returns it. The slot count
    /// stays below `usize::MAX`, the mark of a removed registration.
    pub fn allocate(&mut self, key: K) -> (slot: usize)
        requires
            old(self).wf(),
            old(self).keys().len() + 1 < usize::MAX,
        ensures
            final(self).wf(),
            slot == old(self).keys().len(),
            final(self).keys() == old(self).keys().push(key),
            final(self).spec_pending() == old(self).spec_pending(),
    {
        let slot = self.keys.len();
        self.keys.push(key);
        slot
    }

    /// Removes `slot` and returns its key; the last slot, if it is another
    /// one, moves into `slot`.
    pub fn evict(&mut self, slot: usize) -> (key: K)
        requires
            old(self).wf(),
            slot < old(self).keys().len(),
        ensures
            final(self).wf(),
            key == old(self).keys()[slot as int],
            final(self).keys() == old(self).keys().update(slot as int, old(self).keys().last()).drop_last(),
            final(self).spec_pending() == pending_after_evict(
                old(self).spec_pending(),
                slot,
                old(self).keys().len(),
            ),
    {
        let last = self.keys.len() - 1;
        let pending = match self.pending {
            Pending::Slot(q) => if q == slot {
                Pending::Gone
            } else if q == last {
                Pending::Slot(slot)
            } else {
                Pending::Slot(q)
            },
            Pending::Idle => Pending::Idle,
            Pending::Gone => Pending::Gone,
        };
        self.pending = pending;
        self.keys.swap_remove(slot)
    }

    /// Whether a live slot holds a key not acknowledged yet; starting a
    /// poll then is a misuse.
    pub fn is_unacknowledged(&self) -> (r: bool)
        ensures
            r == self.spec_pending() is Slot,
    {
        match self.pending {
            Pending::Slot(_) => true,
            _ => false,
        }
    }

    /// Starts a poll, forgetting a pending registration that is gone.
    pub fn begin_poll(&mut self)
        requires
            old(self).wf(),
            !(old(self).spec_pending() is Slot),
        ensures
            final(self).wf(),
            final(self).keys() == old(self).keys(),
            final(self).spec_pending() == Pending::Idle,
    {
        self.pending = Pending::Idle;
    }

    /// Handles one wake, carrying the current slot of the woken
    /// registration or `usize::MAX` when it is gone: a live slot becomes
    /// pending and is returned, a gone one is skipped.
    pub fn wake(&mut self, id: usize) -> (r: Option<usize>)
        requires
            old(self).wf(),
            id == usize::MAX || id < old(self).keys().len(),
        ensures
            final(self).wf(),
            final(self).keys() == old(self).keys(),
            id == usize::MAX ==> r is None && final(self).spec_pending() == old(self).spec_pending(),
            id != usize::MAX ==> r == Some(id) && final(self).spec_pending() == Pending::Slot(id),
    {
        if id == usize::MAX {
            None
        } else {
            self.pending = Pending::Slot(id);
            Some(id)
        }
    }

    /// Whether `slot` holds the key handed out last, so that it may be
    /// acknowledged; acknowledging another slot is a misuse.
    pub fn can_acknowledge(&self, slot: usize) -> (r: bool)
        ensures
            r == (self.spec_pending() == Pending::Slot(slot)),
    {
        match self.pending {
            Pending::Slot(q) => q == slot,
            _ => false,
        }
    }

    /// Acknowledges the key handed out to `slot`.
    pub fn acknowledge(&mut self, slot: usize)
        requires
            old(self).wf(),
            old(self).spec_pending() == Pending::Slot(slot),
        ensures
            final(self).wf(),
            final(self).keys() == old(self).keys(),
            final(self).spec_pending() == Pending::Idle,
    {
        self.pending = Pending::Idle;
    }
}

/// Removing one registration keeps the pending mark on another: if the key
/// handed out last belongs to a registration other than the one removed,
/// that registration stays pending under its slot after the move, which
/// still holds its key.
pub proof fn lemma_pending_follows_registration<K>(keys: Seq<K>, q: usize, slot: usize)
    requires
        slot < keys.len(),
        q < keys.len(),
        q != slot,
    ensures
        pending_after_evict(Pending::Slot(q), slot, keys.len()) matches Pending::Slot(r) && r
            < keys.len() - 1 && keys.update(slot as int, keys.last()).drop_last()[r as int]
            == keys[q as int],
{
}

/// Removing the pending registration leaves nothing to acknowledge: the
/// next poll may start.
pub proof fn lemma_removed_pending_is_gone<K>(keys: Seq<K>, slot: usize)
    requires
        slot < keys.len(),
    ensures
        !(pending_after_evict(Pending::Slot(slot), slot, keys.len()) is Slot),
{
}

} // verus!
