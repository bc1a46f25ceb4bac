//! The module-owned heap the host and module share, and the codec for heap
//! payloads (byte buffers and text).
//!
//! Encoding a buffer or text moves its contents into the arena — the origin
//! owner gives the memory up, and the packed payload is from then on the only
//! name for it ("in flight").  Decoding or freeing reclaims the region
//! exactly once; a second reclaim of the same address is a precondition
//! violation.  Decode recovers the contents from the region itself (the
//! allocation's own stored length is canonical, not the packed count field),
//! so decode is defined only for arena-produced addresses.

use vstd::prelude::*;
use vstd::utf8::encode_utf8;
use crate::payload::FIELD_LIMIT;
use crate::payload::hi32;
use crate::payload::lo32;
use crate::payload::count_of_len;
use crate::payload::pack_pair;
use crate::payload::pack_buffer_payload;
use crate::payload::unpack_pair;
use crate::payload::lemma_pack_pair_inverts;
use crate::table::Table;
use crate::table::TextTable;
use crate::value::JSNIKind;
use crate::value::JSNIValue;

verus! {

/// The module's heap: byte regions, text regions and tagged-value arrays,
/// each addressed within its own table.  The host writes results into
/// regions it obtained through [`alloc_bytes`] and [`alloc_jsni_value`].
pub struct Arena {
    pub bytes: Table<u8>,
    pub texts: TextTable,
    pub values: Table<JSNIValue>,
}

impl Arena {
    /// A fresh arena with no allocations.
    pub fn new() -> (a: Arena)
        ensures
            a.bytes@ == Seq::<Option<Seq<u8>>>::empty(),
            a.texts@ == Seq::<Option<Seq<char>>>::empty(),
            a.values@ == Seq::<Option<Seq<JSNIValue>>>::empty(),
    {
        Arena { bytes: Table::new(), texts: TextTable::new(), values: Table::new() }
    }
}

/// Allocates a zero-initialized byte region of `size` elements for the host
/// to write into.  Returns a packed address pair: high 32 bits the owning
/// region's handle, low 32 bits the address of the first element — in this
/// arena the two coincide in the region's address.  The region is not
/// reclaimed automatically: it leaks unless decoded or freed exactly once.
pub fn alloc_bytes(arena: &mut Arena, size: usize) -> (r: u64)
    requires
        old(arena).bytes@.len() < FIELD_LIMIT,
    ensures
        hi32(r) == old(arena).bytes@.len(),
        lo32(r) == old(arena).bytes@.len(),
        final(arena).bytes@ == old(arena).bytes@.push(
            Some(Seq::new(size as nat, |i: int| 0u8)),
        ),
        final(arena).texts@ == old(arena).texts@,
        final(arena).values@ == old(arena).values@,
{
    let mut region: Vec<u8> = Vec::new();
    let mut i: usize = 0;
    while i < size
        invariant
            i <= size,
            region@.len() == i,
            forall|j: int| 0 <= j < i ==> region@[j] == 0u8,
        decreases size - i,
    {
        region.push(0);
        i += 1;
    }
    proof {
        assert(region@ =~= Seq::new(size as nat, |i: int| 0u8));
    }
    let addr = arena.bytes.vec_onto_box(region);
    proof {
        lemma_pack_pair_inverts(addr, addr);
    }
    (addr << 32u64) | addr
}

/// Allocates an array of `size` null tagged values for the host to write
/// result values into.  Returns the same packed address pair convention as
/// [`alloc_bytes`].  Like every allocation here, it must be reclaimed exactly once
/// (by the result-reclamation path of the bridge) or it leaks.
pub fn alloc_jsni_value(arena: &mut Arena, size: usize) -> (r: u64)
    requires
        old(arena).values@.len() < FIELD_LIMIT,
    ensures
        hi32(r) == old(arena).values@.len(),
        lo32(r) == old(arena).values@.len(),
        final(arena).values@ == old(arena).values@.push(
            Some(Seq::new(size as nat, |i: int| (JSNIValue { kind: JSNIKind::Null, value: 0 }))),
        ),
        final(arena).bytes@ == old(arena).bytes@,
        final(arena).texts@ == old(arena).texts@,
{
    let mut region: Vec<JSNIValue> = Vec::new();
    let mut i: usize = 0;
    while i < size
        invariant
            i <= size,
            region@.len() == i,
            forall|j: int|
                0 <= j < i ==> region@[j] == (JSNIValue { kind: JSNIKind::Null, value: 0 }),
        decreases size - i,
    {
        region.push(JSNIValue::null());
        i += 1;
    }
    proof {
        assert(region@ =~= Seq::new(
            size as nat,
            |i: int| (JSNIValue { kind: JSNIKind::Null, value: 0 }),
        ));
    }
    let addr = arena.values.vec_onto_box(region);
    proof {
        lemma_pack_pair_inverts(addr, addr);
    }
    (addr << 32u64) | addr
}

impl JSNIValue {
    /// Encodes a byte buffer: the bytes move into the arena (the origin
    /// container gives them up, intact), and the payload packs their count —
    /// truncated to 32 bits — with their arena address.
    pub fn from_vec(arena: &mut Arena, v: Vec<u8>) -> (r: JSNIValue)
        requires
            old(arena).bytes@.len() < FIELD_LIMIT,
        ensures
            r.kind == JSNIKind::VecU8,
            r.value == pack_pair(count_of_len(v@.len() as u64), old(arena).bytes@.len() as u64),
            hi32(r.value) == count_of_len(v@.len() as u64),
            lo32(r.value) == old(arena).bytes@.len(),
            final(arena).bytes@ == old(arena).bytes@.push(Some(v@)),
            final(arena).texts@ == old(arena).texts@,
            final(arena).values@ == old(arena).values@,
    {
        let len = v.len() as u64;
        let addr = arena.bytes.vec_onto_box(v);
        JSNIValue { kind: JSNIKind::VecU8, value: pack_buffer_payload(len, addr) }
    }

    /// Encodes text: the text moves into the arena, and the payload packs its
    /// UTF-8 byte count — truncated to 32 bits — with its arena address.
    pub fn from_string(arena: &mut Arena, v: String) -> (r: JSNIValue)
        requires
            old(arena).texts@.len() < FIELD_LIMIT,
            encode_utf8(v@).len() <= usize::MAX,  // a machine limit: the text is in memory
        ensures
            r.kind == JSNIKind::String,
            r.value == pack_pair(
                count_of_len(encode_utf8(v@).len() as u64),
                old(arena).texts@.len() as u64,
            ),
            hi32(r.value) == count_of_len(encode_utf8(v@).len() as u64),
            lo32(r.value) == old(arena).texts@.len(),
            final(arena).texts@ == old(arena).texts@.push(Some(v@)),
            final(arena).bytes@ == old(arena).bytes@,
            final(arena).values@ == old(arena).values@,
    {
        let len = v.as_str().len() as u64;
        let addr = arena.texts.store(v);
        JSNIValue { kind: JSNIKind::String, value: pack_buffer_payload(len, addr) }
    }

    /// Decodes a byte buffer: reclaims the region this value's payload
    /// addresses and returns ownership of its bytes.  The value must be
    /// buffer-tagged and its region still live — decoding a value twice, or
    /// one whose region was freed, violates the precondition.
    pub fn to_vec(&self, arena: &mut Arena) -> (v: Vec<u8>)
        requires
            self.kind == JSNIKind::VecU8,
            lo32(self.value) < old(arena).bytes@.len(),
            old(arena).bytes@[lo32(self.value) as int] is Some,
        ensures
            v@ == old(arena).bytes@[lo32(self.value) as int]->Some_0,
            final(arena).bytes@ == old(arena).bytes@.update(lo32(self.value) as int, None),
            final(arena).texts@ == old(arena).texts@,
            final(arena).values@ == old(arena).values@,
    {
        let (_count, addr) = unpack_pair(self.value);
        arena.bytes.take(addr)
    }

    /// Decodes text: reclaims the region this value's payload addresses and
    /// returns ownership of the text.  Same single-reclaim discipline as
    /// [`JSNIValue::to_vec`].
    pub fn to_string(&self, arena: &mut Arena) -> (v: String)
        requires
            self.kind == JSNIKind::String,
            lo32(self.value) < old(arena).texts@.len(),
            old(arena).texts@[lo32(self.value) as int] is Some,
        ensures
            v@ == old(arena).texts@[lo32(self.value) as int]->Some_0,
            final(arena).texts@ == old(arena).texts@.update(lo32(self.value) as int, None),
            final(arena).bytes@ == old(arena).bytes@,
            final(arena).values@ == old(arena).values@,
    {
        let (_count, addr) = unpack_pair(self.value);
        arena.texts.take(addr)
    }

    /// Checked buffer decode: the runtime safety net.  Returns `None` —
    /// touching nothing — when the value is not buffer-tagged (a broken
    /// encode/decode pairing upstream) or its region is no longer live
    /// (already reclaimed); otherwise reclaims and returns the bytes exactly
    /// as [`JSNIValue::to_vec`] does.
    pub fn try_to_vec(&self, arena: &mut Arena) -> (r: Option<Vec<u8>>)
        ensures
            ({
                let addr = lo32(self.value) as int;
                let live = self.kind == JSNIKind::VecU8
                    && addr < old(arena).bytes@.len()
                    && old(arena).bytes@[addr] is Some;
                &&& (live ==> r is Some
                    && (r->Some_0)@ == old(arena).bytes@[addr]->Some_0
                    && final(arena).bytes@ == old(arena).bytes@.update(addr, None))
                &&& (!live ==> r is None && final(arena).bytes@ == old(arena).bytes@)
                &&& final(arena).texts@ == old(arena).texts@
                &&& final(arena).values@ == old(arena).values@
            }),
    {
        if self.kind == JSNIKind::VecU8 {
            let (_count, addr) = unpack_pair(self.value);
            if arena.bytes.is_live(addr) {
                Some(arena.bytes.take(addr))
            } else {
                None
            }
        } else {
            None
        }
    }

    /// Checked text decode: `None` — touching nothing — when the value is not
    /// text-tagged or its region is no longer live; otherwise reclaims and
    /// returns the text exactly as [`JSNIValue::to_string`] does.
    pub fn try_to_string(&self, arena: &mut Arena) -> (r: Option<String>)
        ensures
            ({
                let addr = lo32(self.value) as int;
                let live = self.kind == JSNIKind::String
                    && addr < old(arena).texts@.len()
                    && old(arena).texts@[addr] is Some;
                &&& (live ==> r is Some
                    && (r->Some_0)@ == old(arena).texts@[addr]->Some_0
                    && final(arena).texts@ == old(arena).texts@.update(addr, None))
                &&& (!live ==> r is None && final(arena).texts@ == old(arena).texts@)
                &&& final(arena).bytes@ == old(arena).bytes@
                &&& final(arena).values@ == old(arena).values@
            }),
    {
        if self.kind == JSNIKind::String {
            let (_count, addr) = unpack_pair(self.value);
            if arena.texts.is_live(addr) {
                Some(arena.texts.take(addr))
            } else {
                None
            }
        } else {
            None
        }
    }
}

/// Single-reclaim law: once a region has been reclaimed, the same address no
/// longer names a live region, so the reclaim preconditions of
/// [`JSNIValue::to_vec`] and [`crate::table::Table::take`] cannot hold of it
/// again.
pub proof fn lemma_single_reclaim<T>(slots: Seq<Option<Seq<T>>>, addr: int)
    requires
        0 <= addr < slots.len(),
    ensures
        !(slots.update(addr, None)[addr] is Some),
{
}

} // verus!
