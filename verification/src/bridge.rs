//! The call bridge: one host call at a time.
//!
//! A call encodes the function name as a text tagged value, hands the host
//! the name and argument addresses, and suspends until the host answers with
//! a single numeric handle.  Dispatch and suspension are the host's side of
//! the boundary; what this module verifies is everything the module does
//! around them.  On resume the bridge reclaims every argument's heap payload
//! exactly once, then interprets the handle: a negative value is the
//! sentinel for "no results" (host errors and legitimate empty answers are
//! collapsed into it), a non-negative value is the arena address of a
//! host-populated array of tagged values, whose contents the bridge reclaims
//! and returns in write order.

use vstd::prelude::*;
use crate::payload::lo32;
use crate::value::JSNIKind;
use crate::value::JSNIValue;
use crate::arena::Arena;

verus! {

/// Every buffer argument names a live byte region and every text argument a
/// live text region: the state of an argument list after encoding, before
/// reclamation.
pub open spec fn arg_regions_live(
    arena_bytes: Seq<Option<Seq<u8>>>,
    arena_texts: Seq<Option<Seq<char>>>,
    args: Seq<JSNIValue>,
) -> bool {
    &&& forall|i: int|
        0 <= i < args.len() && (#[trigger] args[i]).kind == JSNIKind::VecU8 ==> lo32(args[i].value)
            < arena_bytes.len() && arena_bytes[lo32(args[i].value) as int] is Some
    &&& forall|i: int|
        0 <= i < args.len() && (#[trigger] args[i]).kind == JSNIKind::String ==> lo32(args[i].value)
            < arena_texts.len() && arena_texts[lo32(args[i].value) as int] is Some
}

/// No two buffer arguments, and no two text arguments, share an address:
/// each region is owned by exactly one in-flight value, so reclaiming the
/// list frees each region once.
pub open spec fn arg_addrs_distinct(args: Seq<JSNIValue>) -> bool {
    &&& forall|i: int, j: int|
        0 <= i < j < args.len() && (#[trigger] args[i]).kind == JSNIKind::VecU8 && (
        #[trigger] args[j]).kind == JSNIKind::VecU8 ==> lo32(args[i].value) != lo32(args[j].value)
    &&& forall|i: int, j: int|
        0 <= i < j < args.len() && (#[trigger] args[i]).kind == JSNIKind::String && (
        #[trigger] args[j]).kind == JSNIKind::String ==> lo32(args[i].value) != lo32(args[j].value)
}

/// The byte table after the first `upto` arguments have been reclaimed:
/// every region addressed by a buffer argument among them is gone, all other
/// slots are untouched.
pub open spec fn buffers_freed(
    arena_bytes: Seq<Option<Seq<u8>>>,
    args: Seq<JSNIValue>,
    upto: int,
) -> Seq<Option<Seq<u8>>> {
    Seq::new(
        arena_bytes.len(),
        |a: int|
            if exists|i: int|
                0 <= i < upto && (#[trigger] args[i]).kind == JSNIKind::VecU8 && lo32(args[i].value)
                    == a {
                None
            } else {
                arena_bytes[a]
            },
    )
}

/// The text table after the first `upto` arguments have been reclaimed.
pub open spec fn texts_freed(
    arena_texts: Seq<Option<Seq<char>>>,
    args: Seq<JSNIValue>,
    upto: int,
) -> Seq<Option<Seq<char>>> {
    Seq::new(
        arena_texts.len(),
        |a: int|
            if exists|i: int|
                0 <= i < upto && (#[trigger] args[i]).kind == JSNIKind::String && lo32(
                    args[i].value,
                ) == a {
                None
            } else {
                arena_texts[a]
            },
    )
}

/// Orchestrates calls into the host scripting environment.  The bridge
/// itself is stateless; the call state lives in the arena and in the
/// in-flight argument values.  One call at a time: the protocol has no call
/// identifiers, so concurrent calls through one bridge are not defined.
pub struct JavaScriptNativeInterface {}

impl JavaScriptNativeInterface {
    /// A bridge ready to issue calls.
    pub fn new() -> JavaScriptNativeInterface {
        JavaScriptNativeInterface {  }
    }

    /// Reclaims the heap payload of every argument exactly once: buffer and
    /// text arguments give their arena region back, scalar and null
    /// arguments need no release.  Arguments are never reused after
    /// dispatch, so the regions must all still be live and pairwise
    /// distinct — reclaiming a list that repeats an address would free it
    /// twice, which the precondition rules out.
    pub fn free_args(&self, arena: &mut Arena, args: Vec<JSNIValue>)
        requires
            arg_regions_live(old(arena).bytes@, old(arena).texts@, args@),
            arg_addrs_distinct(args@),
        ensures
            final(arena).bytes@ == buffers_freed(old(arena).bytes@, args@, args@.len() as int),
            final(arena).texts@ == texts_freed(old(arena).texts@, args@, args@.len() as int),
            final(arena).values@ == old(arena).values@,
    {
        let ghost old_bytes = arena.bytes@;
        let ghost old_texts = arena.texts@;
        let n = args.len();
        let mut k: usize = 0;
        while k < n
            invariant
                n == args@.len(),
                k <= n,
                arg_regions_live(old_bytes, old_texts, args@),
                arg_addrs_distinct(args@),
                arena.bytes@ == buffers_freed(old_bytes, args@, k as int),
                arena.texts@ == texts_freed(old_texts, args@, k as int),
                arena.values@ == old(arena).values@,
            decreases n - k,
        {
            let arg = args[k];
            if arg.kind == JSNIKind::VecU8 {
                let (_count, addr) = crate::payload::unpack_pair(arg.value);
                proof {
                    assert(arena.bytes@[addr as int] == old_bytes[addr as int]);
                }
                let _region = arena.bytes.take(addr);
                proof {
                    assert(arena.bytes@ =~= buffers_freed(old_bytes, args@, k + 1));
                    assert(arena.texts@ =~= texts_freed(old_texts, args@, k + 1));
                }
            } else if arg.kind == JSNIKind::String {
                let (_count, addr) = crate::payload::unpack_pair(arg.value);
                proof {
                    assert(arena.texts@[addr as int] == old_texts[addr as int]);
                }
                let _text = arena.texts.take(addr);
                proof {
                    assert(arena.texts@ =~= texts_freed(old_texts, args@, k + 1));
                    assert(arena.bytes@ =~= buffers_freed(old_bytes, args@, k + 1));
                }
            } else {
                proof {
                    assert(arena.bytes@ =~= buffers_freed(old_bytes, args@, k + 1));
                    assert(arena.texts@ =~= texts_freed(old_texts, args@, k + 1));
                }
            }
            k += 1;
        }
    }

    /// Everything the module does when the host's response arrives: reclaims
    /// every argument's heap payload exactly once, then interprets the
    /// response handle.  A negative handle is the sentinel — no results, be
    /// it a host error or a legitimately empty answer — and yields the empty
    /// list.  A non-negative handle is the arena address of the
    /// host-populated result array, whose values are returned in the order
    /// the host wrote them, the module taking ownership of the region.
    pub fn complete_call(&self, arena: &mut Arena, response: i64, args: Vec<JSNIValue>) -> (results:
        Vec<JSNIValue>)
        requires
            arg_regions_live(old(arena).bytes@, old(arena).texts@, args@),
            arg_addrs_distinct(args@),
            response >= 0 ==> response < old(arena).values@.len() && old(arena).values@[response as int] is Some,
        ensures
            final(arena).bytes@ == buffers_freed(old(arena).bytes@, args@, args@.len() as int),
            final(arena).texts@ == texts_freed(old(arena).texts@, args@, args@.len() as int),
            response < 0 ==> results@ == Seq::<JSNIValue>::empty()
                && final(arena).values@ == old(arena).values@,
            response >= 0 ==> results@ == old(arena).values@[response as int]->Some_0
                && final(arena).values@ == old(arena).values@.update(response as int, None),
    {
        self.free_args(arena, args);
        if response < 0 {
            Vec::new()
        } else {
            arena.values.take(response as u64)
        }
    }
}

} // verus!
