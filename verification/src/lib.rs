//! Typed-value marshaling for a sandboxed module that calls named functions
//! in a host scripting environment.
//!
//! Values cross the module/host boundary as fixed-size tagged records: a
//! [`value::JSNIKind`] discriminant plus a 64-bit payload.  Scalars are
//! widened into the payload; byte buffers and text move their contents into a
//! module-owned [`arena::Arena`], and the payload packs the element count
//! together with the arena address of the data.  Ownership of heap payloads
//! is explicit: an encoded buffer is *in flight* until it is reclaimed (freed
//! or decoded) exactly once.
//!
//! The host is given addresses obtained from the arena allocators and writes
//! results directly into arena regions; the bridge in [`bridge`] interprets
//! the host's numeric response and reclaims argument and result memory.

use vstd::prelude::*;

pub mod payload;
pub mod table;
pub mod value;
pub mod arena;
pub mod bridge;

verus! {

} // verus!
