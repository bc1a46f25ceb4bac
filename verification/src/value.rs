//! Tagged values: the fixed-size records that cross the module/host boundary.
//!
//! A [`JSNIValue`] is a kind discriminant plus a 64-bit payload.  The payload
//! has no meaning without its kind: scalars live in the payload itself,
//! widened to 64 bits (floating-point kinds as their IEEE-754 bit pattern in
//! the low 32 or 64 bits, little-endian byte order being the wire
//! convention); buffer and text payloads pack a count and an arena address as
//! laid out in [`crate::payload`]; the null kind's payload is zero.

use vstd::prelude::*;
use vstd::utf8::is_scalar;
use vstd::utf8::char_is_scalar;
use vstd::utf8::char_u32_cast;

verus! {

/// How the 64-bit payload of a tagged value must be interpreted.  A closed
/// set: the wire format defines exactly these fifteen kinds.
#[derive(Clone, Copy, Debug, PartialEq, Eq, Structural)]
pub enum JSNIKind {
    I8,
    I16,
    I32,
    I64,
    U8,
    U16,
    U32,
    U64,
    F32,
    F64,
    Bool,
    Char,
    String,
    VecU8,
    Null,
}

/// A tagged value: kind discriminant plus 64-bit payload.  Never interpret
/// the payload without checking the kind first.
#[derive(Clone, Copy, Debug, PartialEq, Eq, Structural)]
pub struct JSNIValue {
    pub kind: JSNIKind,
    pub value: u64,
}

impl JSNIValue {
    /// The "no value" record: null kind, zero payload.  Distinct from a
    /// zero-length buffer.
    pub fn null() -> (r: JSNIValue)
        ensures
            r == (JSNIValue { kind: JSNIKind::Null, value: 0 }),
    {
        JSNIValue { kind: JSNIKind::Null, value: 0 }
    }

    /// Encodes a signed 8-bit integer: sign-extended into the payload.
    pub fn from_i8(v: i8) -> (r: JSNIValue)
        ensures
            r.kind == JSNIKind::I8,
            r.value == v as u64,
    {
        JSNIValue { kind: JSNIKind::I8, value: #[verifier::truncate] (v as u64) }
    }

    /// Encodes a signed 16-bit integer: sign-extended into the payload.
    pub fn from_i16(v: i16) -> (r: JSNIValue)
        ensures
            r.kind == JSNIKind::I16,
            r.value == v as u64,
    {
        JSNIValue { kind: JSNIKind::I16, value: #[verifier::truncate] (v as u64) }
    }

    /// Encodes a signed 32-bit integer: sign-extended into the payload.
    pub fn from_i32(v: i32) -> (r: JSNIValue)
        ensures
            r.kind == JSNIKind::I32,
            r.value == v as u64,
    {
        JSNIValue { kind: JSNIKind::I32, value: #[verifier::truncate] (v as u64) }
    }

    /// Encodes a signed 64-bit integer: the payload is its two's-complement
    /// bit pattern.
    pub fn from_i64(v: i64) -> (r: JSNIValue)
        ensures
            r.kind == JSNIKind::I64,
            r.value == v as u64,
    {
        JSNIValue { kind: JSNIKind::I64, value: #[verifier::truncate] (v as u64) }
    }

    /// Encodes an unsigned 8-bit integer: zero-extended into the payload.
    pub fn from_u8(v: u8) -> (r: JSNIValue)
        ensures
            r.kind == JSNIKind::U8,
            r.value == v as u64,
    {
        JSNIValue { kind: JSNIKind::U8, value: v as u64 }
    }

    /// Encodes an unsigned 16-bit integer: zero-extended into the payload.
    pub fn from_u16(v: u16) -> (r: JSNIValue)
        ensures
            r.kind == JSNIKind::U16,
            r.value == v as u64,
    {
        JSNIValue { kind: JSNIKind::U16, value: v as u64 }
    }

    /// Encodes an unsigned 32-bit integer: zero-extended into the payload.
    pub fn from_u32(v: u32) -> (r: JSNIValue)
        ensures
            r.kind == JSNIKind::U32,
            r.value == v as u64,
    {
        JSNIValue { kind: JSNIKind::U32, value: v as u64 }
    }

    /// Encodes an unsigned 64-bit integer: the payload holds it unchanged.
    pub fn from_u64(v: u64) -> (r: JSNIValue)
        ensures
            r.kind == JSNIKind::U64,
            r.value == v,
    {
        JSNIValue { kind: JSNIKind::U64, value: v }
    }

    /// Encodes a boolean: payload 1 for true, 0 for false.
    pub fn from_bool(v: bool) -> (r: JSNIValue)
        ensures
            r.kind == JSNIKind::Bool,
            r.value == (if v { 1u64 } else { 0u64 }),
    {
        JSNIValue { kind: JSNIKind::Bool, value: if v { 1 } else { 0 } }
    }

    /// Encodes a character: the payload holds its Unicode code point.
    pub fn from_char(v: char) -> (r: JSNIValue)
        ensures
            r.kind == JSNIKind::Char,
            r.value == v as u64,
    {
        JSNIValue { kind: JSNIKind::Char, value: v as u64 }
    }

    /// Encodes a 32-bit float given as its IEEE-754 bit pattern (the
    /// little-endian bytes of the float reassembled into an integer): the
    /// pattern fills the low 32 bits of the payload.
    pub fn from_f32_bits(bits: u32) -> (r: JSNIValue)
        ensures
            r.kind == JSNIKind::F32,
            r.value == bits as u64,
    {
        JSNIValue { kind: JSNIKind::F32, value: bits as u64 }
    }

    /// Encodes a 64-bit float given as its IEEE-754 bit pattern: the pattern
    /// is the payload.
    pub fn from_f64_bits(bits: u64) -> (r: JSNIValue)
        ensures
            r.kind == JSNIKind::F64,
            r.value == bits,
    {
        JSNIValue { kind: JSNIKind::F64, value: bits }
    }

    /// Decodes a signed 8-bit integer from the low payload byte.
    pub fn as_i8(&self) -> (r: i8)
        requires
            self.kind == JSNIKind::I8,
        ensures
            r == self.value as i8,
    {
        #[verifier::truncate] (self.value as i8)
    }

    /// Decodes a signed 16-bit integer from the low payload bytes.
    pub fn as_i16(&self) -> (r: i16)
        requires
            self.kind == JSNIKind::I16,
        ensures
            r == self.value as i16,
    {
        #[verifier::truncate] (self.value as i16)
    }

    /// Decodes a signed 32-bit integer from the low payload bytes.
    pub fn as_i32(&self) -> (r: i32)
        requires
            self.kind == JSNIKind::I32,
        ensures
            r == self.value as i32,
    {
        #[verifier::truncate] (self.value as i32)
    }

    /// Decodes a signed 64-bit integer from the payload's bit pattern.
    pub fn as_i64(&self) -> (r: i64)
        requires
            self.kind == JSNIKind::I64,
        ensures
            r == self.value as i64,
    {
        #[verifier::truncate] (self.value as i64)
    }

    /// Decodes an unsigned 8-bit integer from the low payload byte.
    pub fn as_u8(&self) -> (r: u8)
        requires
            self.kind == JSNIKind::U8,
        ensures
            r == self.value as u8,
    {
        #[verifier::truncate] (self.value as u8)
    }

    /// Decodes an unsigned 16-bit integer from the low payload bytes.
    pub fn as_u16(&self) -> (r: u16)
        requires
            self.kind == JSNIKind::U16,
        ensures
            r == self.value as u16,
    {
        #[verifier::truncate] (self.value as u16)
    }

    /// Decodes an unsigned 32-bit integer from the low payload bytes.
    pub fn as_u32(&self) -> (r: u32)
        requires
            self.kind == JSNIKind::U32,
        ensures
            r == self.value as u32,
    {
        #[verifier::truncate] (self.value as u32)
    }

    /// Decodes an unsigned 64-bit integer: the payload unchanged.
    pub fn as_u64(&self) -> (r: u64)
        requires
            self.kind == JSNIKind::U64,
        ensures
            r == self.value,
    {
        self.value
    }

    /// Decodes a boolean: any non-zero payload is true.
    pub fn as_bool(&self) -> (r: bool)
        requires
            self.kind == JSNIKind::Bool,
        ensures
            r == (self.value != 0),
    {
        self.value != 0
    }

    /// Decodes a character from the low 32 payload bits; `None` when those
    /// bits are not a Unicode scalar value (a payload this module's encoder
    /// never produces, but a host could).
    pub fn as_char(&self) -> (r: Option<char>)
        requires
            self.kind == JSNIKind::Char,
        ensures
            r == (if is_scalar(self.value as u32) {
                Some((self.value as u32) as char)
            } else {
                None::<char>
            }),
    {
        let code: u32 = #[verifier::truncate] (self.value as u32);
        char_from_code(code)
    }

    /// Decodes the IEEE-754 bit pattern of a 32-bit float from the low 32
    /// payload bits.
    pub fn as_f32_bits(&self) -> (r: u32)
        requires
            self.kind == JSNIKind::F32,
        ensures
            r == self.value as u32,
    {
        #[verifier::truncate] (self.value as u32)
    }

    /// Decodes the IEEE-754 bit pattern of a 64-bit float: the payload
    /// unchanged.
    pub fn as_f64_bits(&self) -> (r: u64)
        requires
            self.kind == JSNIKind::F64,
        ensures
            r == self.value,
    {
        self.value
    }
}

/// Relies on core::char::from_u32: returns `Some` exactly when the code point
/// is a Unicode scalar value (not a surrogate, not above the maximum), and
/// then the character with that code point.
#[verifier::external_body]
fn char_from_code(code: u32) -> (r: Option<char>)
    ensures
        r == (if is_scalar(code) {
            Some(code as char)
        } else {
            None::<char>
        }),
{
    char::from_u32(code)
}

/// Round-trip law, signed 8-bit: a tagged value encoding `v` decodes back to
/// `v` bit for bit.
pub proof fn lemma_round_trip_i8(v: i8, t: JSNIValue)
    requires
        t.kind == JSNIKind::I8,
        t.value == v as u64,
    ensures
        t.value as i8 == v,
{
    assert((v as u64) as i8 == v) by (bit_vector);
}

/// Round-trip law, signed 16-bit.
pub proof fn lemma_round_trip_i16(v: i16, t: JSNIValue)
    requires
        t.kind == JSNIKind::I16,
        t.value == v as u64,
    ensures
        t.value as i16 == v,
{
    assert((v as u64) as i16 == v) by (bit_vector);
}

/// Round-trip law, signed 32-bit.
pub proof fn lemma_round_trip_i32(v: i32, t: JSNIValue)
    requires
        t.kind == JSNIKind::I32,
        t.value == v as u64,
    ensures
        t.value as i32 == v,
{
    assert((v as u64) as i32 == v) by (bit_vector);
}

/// Round-trip law, signed 64-bit.
pub proof fn lemma_round_trip_i64(v: i64, t: JSNIValue)
    requires
        t.kind == JSNIKind::I64,
        t.value == v as u64,
    ensures
        t.value as i64 == v,
{
    assert((v as u64) as i64 == v) by (bit_vector);
}

/// Round-trip law, unsigned 8-bit.
pub proof fn lemma_round_trip_u8(v: u8, t: JSNIValue)
    requires
        t.kind == JSNIKind::U8,
        t.value == v as u64,
    ensures
        t.value as u8 == v,
{
    assert((v as u64) as u8 == v) by (bit_vector);
}

/// Round-trip law, unsigned 16-bit.
pub proof fn lemma_round_trip_u16(v: u16, t: JSNIValue)
    requires
        t.kind == JSNIKind::U16,
        t.value == v as u64,
    ensures
        t.value as u16 == v,
{
    assert((v as u64) as u16 == v) by (bit_vector);
}

/// Round-trip law, unsigned 32-bit.
pub proof fn lemma_round_trip_u32(v: u32, t: JSNIValue)
    requires
        t.kind == JSNIKind::U32,
        t.value == v as u64,
    ensures
        t.value as u32 == v,
{
    assert((v as u64) as u32 == v) by (bit_vector);
}

/// Round-trip law, unsigned 64-bit: immediate, the payload is the value.
pub proof fn lemma_round_trip_u64(v: u64, t: JSNIValue)
    requires
        t.kind == JSNIKind::U64,
        t.value == v,
    ensures
        t.value == v,
{
}

/// Round-trip law, boolean.
pub proof fn lemma_round_trip_bool(v: bool, t: JSNIValue)
    requires
        t.kind == JSNIKind::Bool,
        t.value == (if v { 1u64 } else { 0u64 }),
    ensures
        (t.value != 0) == v,
{
}

/// Round-trip law, character: the encoded code point decodes back to the
/// same character.
pub proof fn lemma_round_trip_char(v: char, t: JSNIValue)
    requires
        t.kind == JSNIKind::Char,
        t.value == v as u64,
    ensures
        is_scalar(t.value as u32),
        (t.value as u32) as char == v,
{
    char_is_scalar(v);
    let u: u32 = v as u32;
    assert(v as u64 == u as u64);
    assert((u as u64) as u32 == u) by (bit_vector);
    char_u32_cast(v, u);
}

/// Round-trip law, 32-bit float bit pattern.
pub proof fn lemma_round_trip_f32(bits: u32, t: JSNIValue)
    requires
        t.kind == JSNIKind::F32,
        t.value == bits as u64,
    ensures
        t.value as u32 == bits,
{
    assert((bits as u64) as u32 == bits) by (bit_vector);
}

/// Round-trip law, 64-bit float bit pattern: immediate, the payload is the
/// pattern.
pub proof fn lemma_round_trip_f64(bits: u64, t: JSNIValue)
    requires
        t.kind == JSNIKind::F64,
        t.value == bits,
    ensures
        t.value == bits,
{
}

} // verus!
