//! Module-owned heap regions, addressed by index.
//!
//! Across the boundary a region is named by a bare numeric address, and
//! reconstructing an owning container from a bare address is exactly the
//! kind of step no proof can see through.  So the module's heap is explicit:
//! a table of slots, one region per slot, with the slot index playing the
//! role of the address.  A slot is `Some(region)` while the region is live —
//! owned by whoever holds a tagged value or packed pair naming its address —
//! and `None` once the region has been reclaimed.  The three ownership
//! states of a heap payload are thereby checkable: in flight (slot live),
//! and reclaimed or decoded (slot empty).  Reclaiming a slot twice is a
//! precondition violation, never a silent double free.

use vstd::prelude::*;

verus! {

/// A store of regions of `T` elements.  Its view is the sequence of slots,
/// each `Some` sequence of elements while live, `None` once reclaimed.
pub struct Table<T> {
    slots: Vec<Option<Vec<T>>>,
}

impl<T> View for Table<T> {
    type V = Seq<Option<Seq<T>>>;

    closed spec fn view(&self) -> Seq<Option<Seq<T>>> {
        Seq::new(
            self.slots@.len(),
            |i: int|
                match self.slots@[i] {
                    Some(region) => Some(region@),
                    None => None,
                },
        )
    }
}

impl<T> Table<T> {
    /// An empty table: no region has been allocated yet.
    pub fn new() -> (t: Table<T>)
        ensures
            t@ == Seq::<Option<Seq<T>>>::empty(),
    {
        let t = Table { slots: Vec::new() };
        proof {
            assert(t@ =~= Seq::<Option<Seq<T>>>::empty());
        }
        t
    }

    /// Number of slots ever allocated, live or reclaimed.
    pub fn len(&self) -> (n: usize)
        ensures
            n == self@.len(),
    {
        self.slots.len()
    }

    /// Moves a region into table-owned storage and returns its address.
    /// This is the point where the region's origin owner gives it up: from
    /// here on the region is reclaimed only through its address.
    pub fn vec_onto_box(&mut self, region: Vec<T>) -> (addr: u64)
        requires
            old(self)@.len() < crate::payload::FIELD_LIMIT,
        ensures
            addr == old(self)@.len(),
            addr < crate::payload::FIELD_LIMIT,
            final(self)@ == old(self)@.push(Some(region@)),
    {
        let addr = self.slots.len() as u64;
        self.slots.push(Some(region));
        proof {
            assert(self@ =~= old(self)@.push(Some(region@)));
        }
        addr
    }

    /// Whether `addr` names a live (not yet reclaimed) region.
    pub fn is_live(&self, addr: u64) -> (r: bool)
        ensures
            r == (addr < self@.len() && self@[addr as int] is Some),
    {
        if addr < self.slots.len() as u64 {
            self.slots[addr as usize].is_some()
        } else {
            false
        }
    }

    /// Reclaims the region at `addr`, returning ownership of its elements to
    /// the caller and leaving the slot empty.  The region must be live: a
    /// second reclaim of the same address violates this precondition.
    pub fn take(&mut self, addr: u64) -> (region: Vec<T>)
        requires
            addr < old(self)@.len(),
            old(self)@[addr as int] is Some,
        ensures
            region@ == old(self)@[addr as int]->Some_0,
            final(self)@ == old(self)@.update(addr as int, None),
    {
        let n = self.slots.len();
        assert(addr < n);
        let mut slot: Option<Vec<T>> = None;
        core::mem::swap(&mut slot, &mut self.slots[addr as usize]);
        proof {
            assert(self@ =~= old(self)@.update(addr as int, None));
        }
        slot.unwrap()
    }

    /// Overwrites one element of a live region: the host's direct write into
    /// module memory it was given the address of.
    pub fn write(&mut self, addr: u64, i: usize, x: T)
        requires
            addr < old(self)@.len(),
            old(self)@[addr as int] is Some,
            i < old(self)@[addr as int]->Some_0.len(),
        ensures
            final(self)@ == old(self)@.update(
                addr as int,
                Some(old(self)@[addr as int]->Some_0.update(i as int, x)),
            ),
    {
        let mut region = self.take(addr);
        region.set(i, x);
        self.restore(addr, region);
        proof {
            assert(self@ =~= old(self)@.update(
                addr as int,
                Some(old(self)@[addr as int]->Some_0.update(i as int, x)),
            ));
        }
    }

    /// Puts a region back into an empty slot; used only to re-own a slot
    /// during an in-place update.
    fn restore(&mut self, addr: u64, region: Vec<T>)
        requires
            addr < old(self)@.len(),
            old(self)@[addr as int] is None,
        ensures
            final(self)@ == old(self)@.update(addr as int, Some(region@)),
    {
        let n = self.slots.len();
        assert(addr < n);
        self.slots.set(addr as usize, Some(region));
        proof {
            assert(self@ =~= old(self)@.update(addr as int, Some(region@)));
        }
    }
}

/// A store of text regions.  Same discipline as [`Table`], holding owned text
/// rather than element vectors; its view is the sequence of slots, each the
/// text's characters while live.
pub struct TextTable {
    slots: Vec<Option<String>>,
}

impl View for TextTable {
    type V = Seq<Option<Seq<char>>>;

    closed spec fn view(&self) -> Seq<Option<Seq<char>>> {
        Seq::new(
            self.slots@.len(),
            |i: int|
                match self.slots@[i] {
                    Some(text) => Some(text@),
                    None => None,
                },
        )
    }
}

impl TextTable {
    /// An empty text table.
    pub fn new() -> (t: TextTable)
        ensures
            t@ == Seq::<Option<Seq<char>>>::empty(),
    {
        let t = TextTable { slots: Vec::new() };
        proof {
            assert(t@ =~= Seq::<Option<Seq<char>>>::empty());
        }
        t
    }

    /// Number of slots ever allocated, live or reclaimed.
    pub fn len(&self) -> (n: usize)
        ensures
            n == self@.len(),
    {
        self.slots.len()
    }

    /// Moves a text into table-owned storage and returns its address,
    /// detaching it from its origin owner.
    pub fn store(&mut self, text: String) -> (addr: u64)
        requires
            old(self)@.len() < crate::payload::FIELD_LIMIT,
        ensures
            addr == old(self)@.len(),
            addr < crate::payload::FIELD_LIMIT,
            final(self)@ == old(self)@.push(Some(text@)),
    {
        let addr = self.slots.len() as u64;
        self.slots.push(Some(text));
        proof {
            assert(self@ =~= old(self)@.push(Some(text@)));
        }
        addr
    }

    /// Whether `addr` names a live text region.
    pub fn is_live(&self, addr: u64) -> (r: bool)
        ensures
            r == (addr < self@.len() && self@[addr as int] is Some),
    {
        if addr < self.slots.len() as u64 {
            self.slots[addr as usize].is_some()
        } else {
            false
        }
    }

    /// Reclaims the text at `addr`, returning ownership to the caller and
    /// leaving the slot empty.  The region must be live: a second reclaim of
    /// the same address violates this precondition.
    pub fn take(&mut self, addr: u64) -> (text: String)
        requires
            addr < old(self)@.len(),
            old(self)@[addr as int] is Some,
        ensures
            text@ == old(self)@[addr as int]->Some_0,
            final(self)@ == old(self)@.update(addr as int, None),
    {
        let n = self.slots.len();
        assert(addr < n);
        let mut slot: Option<String> = None;
        core::mem::swap(&mut slot, &mut self.slots[addr as usize]);
        proof {
            assert(self@ =~= old(self)@.update(addr as int, None));
        }
        slot.unwrap()
    }
}

} // verus!
