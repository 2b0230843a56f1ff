//! The element kinds a tensor can hold, as one tagged union, and the
//! capability trait every concrete scalar type implements: a dtype tag,
//! a byte layout, and lossy conversion to and from every other kind.
//!
//! Conversion between two kinds goes through an exact or rounded binary64
//! pivot: integers widen to 64 bits, floats widen exactly, and the target
//! kind narrows from there. A conversion to an integer kind that cannot
//! represent the pivot value (NaN, out of range) yields 0; conversions
//! between integer kinds truncate as the primitive `as` cast does.

use vstd::prelude::*;

use crate::bytes_le::{le_seq, le_val, pow256, lemma_le_seq_len, lemma_le_roundtrip, push_le,
    read_le};
use crate::dtype::{width_spec, DType};
use crate::fbits::{F16, BF16, F32, F64, F64_ONE_BITS, f64_mag_spec, f64_of_i64, f64_of_u64,
    i64_of_f64, f64_of_f32, f32_of_f64, f64_of_f16_spec, f16_of_f64_spec, f64_of_bf16_spec,
    bf16_of_f64_spec, f64_from_i64, f64_from_u64, i64_from_f64, f32_from_f64, f64_from_f32,
    f16_widen, f16_narrow, bf16_widen, bf16_narrow};

verus! {

/// One scalar value of any supported kind.
#[derive(Clone, Copy, PartialEq, Eq, Structural, Debug)]
pub enum Elem {
    I8(i8),
    I16(i16),
    I32(i32),
    I64(i64),
    U8(u8),
    U32(u32),
    U64(u64),
    F16(F16),
    BF16(BF16),
    F32(F32),
    F64(F64),
    Bool(bool),
}

/// The dtype under which a value of this kind is stored.
pub open spec fn kind_dtype(e: Elem) -> DType {
    match e {
        Elem::I8(_) => DType::I8,
        Elem::I16(_) => DType::I16,
        Elem::I32(_) => DType::I32,
        Elem::I64(_) => DType::I64,
        Elem::U8(_) => DType::U8,
        Elem::U32(_) => DType::U32,
        Elem::U64(_) => DType::U64,
        Elem::F16(_) => DType::F16,
        Elem::BF16(_) => DType::BF16,
        Elem::F32(_) => DType::F32,
        Elem::F64(_) => DType::F64,
        Elem::Bool(_) => DType::Bool,
    }
}

/// The little-endian byte layout of one value.
pub open spec fn enc_elem(e: Elem) -> Seq<u8> {
    match e {
        Elem::I8(x) => le_seq(x as u8 as u64, 1),
        Elem::I16(x) => le_seq(x as u16 as u64, 2),
        Elem::I32(x) => le_seq(x as u32 as u64, 4),
        Elem::I64(x) => le_seq(x as u64, 8),
        Elem::U8(x) => le_seq(x as u64, 1),
        Elem::U32(x) => le_seq(x as u64, 4),
        Elem::U64(x) => le_seq(x, 8),
        Elem::F16(v) => le_seq(v.0 as u64, 2),
        Elem::BF16(v) => le_seq(v.0 as u64, 2),
        Elem::F32(v) => le_seq(v.0 as u64, 4),
        Elem::F64(v) => le_seq(v.0, 8),
        Elem::Bool(b) => le_seq(if b { 1u64 } else { 0u64 }, 1),
    }
}

/// The value stored by bytes `s` under dtype `d`. A quantized buffer stores
/// its codes as signed 8-bit integers.
pub open spec fn decode_elem(d: DType, s: Seq<u8>) -> Elem {
    let v = le_val(s) as u64;
    match d {
        DType::I8 => Elem::I8(v as u8 as i8),
        DType::I16 => Elem::I16(v as u16 as i16),
        DType::I32 => Elem::I32(v as u32 as i32),
        DType::I64 => Elem::I64(v as i64),
        DType::U8 => Elem::U8(v as u8),
        DType::U32 => Elem::U32(v as u32),
        DType::U64 => Elem::U64(v),
        DType::F16 => Elem::F16(F16(v as u16)),
        DType::BF16 => Elem::BF16(BF16(v as u16)),
        DType::F32 => Elem::F32(F32(v as u32)),
        DType::F64 => Elem::F64(F64(v)),
        DType::Bool => Elem::Bool(v != 0),
        DType::QFloat(_) => Elem::I8(v as u8 as i8),
    }
}

pub proof fn lemma_enc_elem_len(e: Elem)
    ensures
        enc_elem(e).len() == width_spec(kind_dtype(e)),
{
    match e {
        Elem::I8(x) => lemma_le_seq_len(x as u8 as u64, 1),
        Elem::I16(x) => lemma_le_seq_len(x as u16 as u64, 2),
        Elem::I32(x) => lemma_le_seq_len(x as u32 as u64, 4),
        Elem::I64(x) => lemma_le_seq_len(x as u64, 8),
        Elem::U8(x) => lemma_le_seq_len(x as u64, 1),
        Elem::U32(x) => lemma_le_seq_len(x as u64, 4),
        Elem::U64(x) => lemma_le_seq_len(x, 8),
        Elem::F16(v) => lemma_le_seq_len(v.0 as u64, 2),
        Elem::BF16(v) => lemma_le_seq_len(v.0 as u64, 2),
        Elem::F32(v) => lemma_le_seq_len(v.0 as u64, 4),
        Elem::F64(v) => lemma_le_seq_len(v.0, 8),
        Elem::Bool(b) => lemma_le_seq_len(if b { 1u64 } else { 0u64 }, 1),
    }
}

pub proof fn lemma_pow256_values()
    ensures
        pow256(1) == 0x100,
        pow256(2) == 0x1_0000,
        pow256(4) == 0x1_0000_0000,
        pow256(8) == 0x1_0000_0000_0000_0000,
{
    assert(pow256(1) == 256 * pow256(0));
    assert(pow256(2) == 256 * pow256(1));
    assert(pow256(3) == 256 * pow256(2));
    assert(pow256(4) == 256 * pow256(3));
    assert(pow256(5) == 256 * pow256(4));
    assert(pow256(6) == 256 * pow256(5));
    assert(pow256(7) == 256 * pow256(6));
    assert(pow256(8) == 256 * pow256(7));
}

/// Decoding a value's own layout under its own dtype gives the value back.
pub proof fn lemma_elem_roundtrip(e: Elem)
    ensures
        decode_elem(kind_dtype(e), enc_elem(e)) == e,
{
    lemma_pow256_values();
    match e {
        Elem::I8(x) => {
            lemma_le_roundtrip(x as u8 as u64, 1);
            assert(x as u8 as u64 as u8 as i8 == x) by (bit_vector);
        },
        Elem::I16(x) => {
            lemma_le_roundtrip(x as u16 as u64, 2);
            assert(x as u16 as u64 as u16 as i16 == x) by (bit_vector);
        },
        Elem::I32(x) => {
            lemma_le_roundtrip(x as u32 as u64, 4);
            assert(x as u32 as u64 as u32 as i32 == x) by (bit_vector);
        },
        Elem::I64(x) => {
            lemma_le_roundtrip(x as u64, 8);
            assert(x as u64 as i64 == x) by (bit_vector);
        },
        Elem::U8(x) => {
            lemma_le_roundtrip(x as u64, 1);
            assert(x as u64 as u8 == x) by (bit_vector);
        },
        Elem::U32(x) => {
            lemma_le_roundtrip(x as u64, 4);
            assert(x as u64 as u32 == x) by (bit_vector);
        },
        Elem::U64(x) => {
            lemma_le_roundtrip(x, 8);
        },
        Elem::F16(v) => {
            lemma_le_roundtrip(v.0 as u64, 2);
            let x = v.0;
            assert(x as u64 as u16 == x) by (bit_vector);
        },
        Elem::BF16(v) => {
            lemma_le_roundtrip(v.0 as u64, 2);
            let x = v.0;
            assert(x as u64 as u16 == x) by (bit_vector);
        },
        Elem::F32(v) => {
            lemma_le_roundtrip(v.0 as u64, 4);
            let x = v.0;
            assert(x as u64 as u32 == x) by (bit_vector);
        },
        Elem::F64(v) => {
            lemma_le_roundtrip(v.0, 8);
        },
        Elem::Bool(b) => {
            lemma_le_roundtrip(if b { 1u64 } else { 0u64 }, 1);
        },
    }
}

/// Appends the byte layout of `e` to `out`.
pub fn push_elem(out: &mut Vec<u8>, e: &Elem)
    ensures
        final(out)@ == old(out)@ + enc_elem(*e),
{
    match e {
        Elem::I8(x) => push_le(out, *x as u8 as u64, 1),
        Elem::I16(x) => push_le(out, *x as u16 as u64, 2),
        Elem::I32(x) => push_le(out, *x as u32 as u64, 4),
        Elem::I64(x) => push_le(out, *x as u64, 8),
        Elem::U8(x) => push_le(out, *x as u64, 1),
        Elem::U32(x) => push_le(out, *x as u64, 4),
        Elem::U64(x) => push_le(out, *x, 8),
        Elem::F16(v) => push_le(out, v.0 as u64, 2),
        Elem::BF16(v) => push_le(out, v.0 as u64, 2),
        Elem::F32(v) => push_le(out, v.0 as u64, 4),
        Elem::F64(v) => push_le(out, v.0, 8),
        Elem::Bool(b) => push_le(out, if *b { 1u64 } else { 0u64 }, 1),
    }
}

/// Reads the value of kind `d` stored at byte offset `start`.
pub fn read_elem(bytes: &Vec<u8>, start: usize, d: DType) -> (e: Elem)
    requires
        start + width_spec(d) <= bytes.len(),
    ensures
        e == decode_elem(d, bytes@.subrange(start as int, start + width_spec(d))),
{
    let w = d.size();
    let v = read_le(bytes, start, w);
    proof {
        lemma_pow256_values();
        crate::bytes_le::lemma_le_val_bound(bytes@.subrange(start as int, start + w));
    }
    match d {
        DType::I8 => Elem::I8(v as u8 as i8),
        DType::I16 => Elem::I16(v as u16 as i16),
        DType::I32 => Elem::I32(v as u32 as i32),
        DType::I64 => Elem::I64(v as i64),
        DType::U8 => Elem::U8(v as u8),
        DType::U32 => Elem::U32(v as u32),
        DType::U64 => Elem::U64(v),
        DType::F16 => Elem::F16(F16(v as u16)),
        DType::BF16 => Elem::BF16(BF16(v as u16)),
        DType::F32 => Elem::F32(F32(v as u32)),
        DType::F64 => Elem::F64(F64(v)),
        DType::Bool => Elem::Bool(v != 0),
        DType::QFloat(_) => Elem::I8(v as u8 as i8),
    }
}

// --- conversion through the binary64 pivot -----------------------------------

/// `o`, or 0 where the pivot value had no integer form.
pub open spec fn opt_i64(o: Option<i64>) -> i64 {
    match o {
        Some(v) => v,
        None => 0,
    }
}

/// The value of `e` as a 64-bit signed integer: integers widen or wrap,
/// a boolean is 0 or 1, floats truncate toward zero through binary64.
pub open spec fn elem_as_i64_spec(e: Elem) -> i64 {
    match e {
        Elem::I8(x) => x as i64,
        Elem::I16(x) => x as i64,
        Elem::I32(x) => x as i64,
        Elem::I64(x) => x,
        Elem::U8(x) => x as i64,
        Elem::U32(x) => x as i64,
        Elem::U64(x) => x as i64,
        Elem::F16(v) => opt_i64(i64_of_f64(f64_of_f16_spec(v.0))),
        Elem::BF16(v) => opt_i64(i64_of_f64(f64_of_bf16_spec(v.0))),
        Elem::F32(v) => opt_i64(i64_of_f64(f64_of_f32(v.0))),
        Elem::F64(v) => opt_i64(i64_of_f64(v.0)),
        Elem::Bool(b) => if b { 1 } else { 0 },
    }
}

/// The value of `e` as a binary64 bit pattern: floats widen (exactly but for
/// binary64 itself), integers round to the nearest binary64 value.
pub open spec fn elem_f64b_spec(e: Elem) -> u64 {
    match e {
        Elem::I8(x) => f64_of_i64(x as i64),
        Elem::I16(x) => f64_of_i64(x as i64),
        Elem::I32(x) => f64_of_i64(x as i64),
        Elem::I64(x) => f64_of_i64(x),
        Elem::U8(x) => f64_of_i64(x as i64),
        Elem::U32(x) => f64_of_i64(x as i64),
        Elem::U64(x) => f64_of_u64(x),
        Elem::F16(v) => f64_of_f16_spec(v.0),
        Elem::BF16(v) => f64_of_bf16_spec(v.0),
        Elem::F32(v) => f64_of_f32(v.0),
        Elem::F64(v) => v.0,
        Elem::Bool(b) => if b { F64_ONE_BITS } else { 0 },
    }
}

/// Whether `e` converts to `true`: nonzero, where NaN counts as nonzero.
pub open spec fn elem_nonzero_spec(e: Elem) -> bool {
    match e {
        Elem::I8(x) => x != 0,
        Elem::I16(x) => x != 0,
        Elem::I32(x) => x != 0,
        Elem::I64(x) => x != 0,
        Elem::U8(x) => x != 0,
        Elem::U32(x) => x != 0,
        Elem::U64(x) => x != 0,
        Elem::F16(v) => f64_mag_spec(f64_of_f16_spec(v.0)) != 0,
        Elem::BF16(v) => f64_mag_spec(f64_of_bf16_spec(v.0)) != 0,
        Elem::F32(v) => f64_mag_spec(f64_of_f32(v.0)) != 0,
        Elem::F64(v) => f64_mag_spec(v.0) != 0,
        Elem::Bool(b) => b,
    }
}

pub fn elem_as_i64(e: &Elem) -> (r: i64)
    ensures
        r == elem_as_i64_spec(*e),
{
    match e {
        Elem::I8(x) => *x as i64,
        Elem::I16(x) => *x as i64,
        Elem::I32(x) => *x as i64,
        Elem::I64(x) => *x,
        Elem::U8(x) => *x as i64,
        Elem::U32(x) => *x as i64,
        Elem::U64(x) => *x as i64,
        Elem::F16(v) => unwrap_or_zero(i64_from_f64(f16_widen(v.0))),
        Elem::BF16(v) => unwrap_or_zero(i64_from_f64(bf16_widen(v.0))),
        Elem::F32(v) => unwrap_or_zero(i64_from_f64(f64_from_f32(v.0))),
        Elem::F64(v) => unwrap_or_zero(i64_from_f64(v.0)),
        Elem::Bool(b) => if *b { 1 } else { 0 },
    }
}

fn unwrap_or_zero(o: Option<i64>) -> (r: i64)
    ensures
        r == opt_i64(o),
{
    match o {
        Some(v) => v,
        None => 0,
    }
}

pub fn elem_f64b(e: &Elem) -> (r: u64)
    ensures
        r == elem_f64b_spec(*e),
{
    match e {
        Elem::I8(x) => f64_from_i64(*x as i64),
        Elem::I16(x) => f64_from_i64(*x as i64),
        Elem::I32(x) => f64_from_i64(*x as i64),
        Elem::I64(x) => f64_from_i64(*x),
        Elem::U8(x) => f64_from_i64(*x as i64),
        Elem::U32(x) => f64_from_i64(*x as i64),
        Elem::U64(x) => f64_from_u64(*x),
        Elem::F16(v) => f16_widen(v.0),
        Elem::BF16(v) => bf16_widen(v.0),
        Elem::F32(v) => f64_from_f32(v.0),
        Elem::F64(v) => v.0,
        Elem::Bool(b) => if *b { F64_ONE_BITS } else { 0 },
    }
}

pub fn elem_nonzero(e: &Elem) -> (r: bool)
    ensures
        r == elem_nonzero_spec(*e),
{
    match e {
        Elem::I8(x) => *x != 0,
        Elem::I16(x) => *x != 0,
        Elem::I32(x) => *x != 0,
        Elem::I64(x) => *x != 0,
        Elem::U8(x) => *x != 0,
        Elem::U32(x) => *x != 0,
        Elem::U64(x) => *x != 0,
        Elem::F16(v) => f16_widen(v.0) & 0x7FFF_FFFF_FFFF_FFFF != 0,
        Elem::BF16(v) => bf16_widen(v.0) & 0x7FFF_FFFF_FFFF_FFFF != 0,
        Elem::F32(v) => f64_from_f32(v.0) & 0x7FFF_FFFF_FFFF_FFFF != 0,
        Elem::F64(v) => v.0 & 0x7FFF_FFFF_FFFF_FFFF != 0,
        Elem::Bool(b) => *b,
    }
}

// --- the capability trait -----------------------------------------------------

/// A concrete scalar type usable as a tensor's element: it knows its dtype,
/// wraps itself into an [`Elem`], and converts from any [`Elem`].
pub trait Element: Sized + Copy {
    /// The dtype tag of this type.
    spec fn dtype_spec() -> DType;

    /// This value as a tagged scalar.
    spec fn to_elem_spec(self) -> Elem;

    /// The (lossy) conversion of any tagged scalar to this type.
    spec fn of_elem_spec(e: Elem) -> Self;

    fn dtype() -> (d: DType)
        ensures
            d == Self::dtype_spec(),
    ;

    fn to_elem(self) -> (e: Elem)
        ensures
            e == self.to_elem_spec(),
    ;

    fn of_elem(e: &Elem) -> (r: Self)
        ensures
            r == Self::of_elem_spec(*e),
    ;

    /// The wrapped scalar carries this type's own dtype.
    proof fn lemma_kind(self)
        ensures
            kind_dtype(self.to_elem_spec()) == Self::dtype_spec(),
    ;

    /// Converting a value of this type to itself changes nothing.
    proof fn lemma_identity(self)
        ensures
            Self::of_elem_spec(self.to_elem_spec()) == self,
    ;

    /// No element type is stored under the quantized dtype.
    proof fn lemma_not_quantized()
        ensures
            !(Self::dtype_spec() is QFloat),
    ;

    /// Converting a tagged scalar of this type's own kind to this type and
    /// wrapping it again changes nothing.
    proof fn lemma_of_kind(e: Elem)
        requires
            kind_dtype(e) == Self::dtype_spec(),
        ensures
            Self::of_elem_spec(e).to_elem_spec() == e,
    ;
}

/// Decoding under dtype `d` yields a value of `d`'s own kind (signed 8-bit
/// codes for the quantized dtype).
pub proof fn lemma_decode_kind(d: DType, s: Seq<u8>)
    ensures
        kind_dtype(decode_elem(d, s)) == (match d {
            DType::QFloat(_) => DType::I8,
            _ => d,
        }),
{
}

/// Converts a scalar from one element type to another, as [`Element`]
/// defines it.
pub fn elem_convert<S: Element, T: Element>(v: S) -> (r: T)
    ensures
        r == T::of_elem_spec(v.to_elem_spec()),
{
    T::of_elem(&v.to_elem())
}

impl Element for i8 {
    open spec fn dtype_spec() -> DType { DType::I8 }

    open spec fn to_elem_spec(self) -> Elem { Elem::I8(self) }

    open spec fn of_elem_spec(e: Elem) -> Self { elem_as_i64_spec(e) as i8 }

    fn dtype() -> DType { DType::I8 }

    fn to_elem(self) -> Elem { Elem::I8(self) }

    fn of_elem(e: &Elem) -> Self { elem_as_i64(e) as i8 }

    proof fn lemma_kind(self) {}

    proof fn lemma_identity(self) {
        assert(self as i64 as i8 == self) by (bit_vector);
    }

    proof fn lemma_not_quantized() {}

    proof fn lemma_of_kind(e: Elem) {
        match e {
            Elem::I8(x) => {
                assert(x as i64 as i8 == x) by (bit_vector);
            },
            _ => {},
        }
    }
}

impl Element for i16 {
    open spec fn dtype_spec() -> DType { DType::I16 }

    open spec fn to_elem_spec(self) -> Elem { Elem::I16(self) }

    open spec fn of_elem_spec(e: Elem) -> Self { elem_as_i64_spec(e) as i16 }

    fn dtype() -> DType { DType::I16 }

    fn to_elem(self) -> Elem { Elem::I16(self) }

    fn of_elem(e: &Elem) -> Self { elem_as_i64(e) as i16 }

    proof fn lemma_kind(self) {}

    proof fn lemma_identity(self) {
        assert(self as i64 as i16 == self) by (bit_vector);
    }

    proof fn lemma_not_quantized() {}

    proof fn lemma_of_kind(e: Elem) {
        match e {
            Elem::I16(x) => {
                assert(x as i64 as i16 == x) by (bit_vector);
            },
            _ => {},
        }
    }
}

impl Element for i32 {
    open spec fn dtype_spec() -> DType { DType::I32 }

    open spec fn to_elem_spec(self) -> Elem { Elem::I32(self) }

    open spec fn of_elem_spec(e: Elem) -> Self { elem_as_i64_spec(e) as i32 }

    fn dtype() -> DType { DType::I32 }

    fn to_elem(self) -> Elem { Elem::I32(self) }

    fn of_elem(e: &Elem) -> Self { elem_as_i64(e) as i32 }

    proof fn lemma_kind(self) {}

    proof fn lemma_identity(self) {
        assert(self as i64 as i32 == self) by (bit_vector);
    }

    proof fn lemma_not_quantized() {}

    proof fn lemma_of_kind(e: Elem) {
        match e {
            Elem::I32(x) => {
                assert(x as i64 as i32 == x) by (bit_vector);
            },
            _ => {},
        }
    }
}

impl Element for i64 {
    open spec fn dtype_spec() -> DType { DType::I64 }

    open spec fn to_elem_spec(self) -> Elem { Elem::I64(self) }

    open spec fn of_elem_spec(e: Elem) -> Self { elem_as_i64_spec(e) }

    fn dtype() -> DType { DType::I64 }

    fn to_elem(self) -> Elem { Elem::I64(self) }

    fn of_elem(e: &Elem) -> Self { elem_as_i64(e) }

    proof fn lemma_kind(self) {}

    proof fn lemma_identity(self) {}

    proof fn lemma_not_quantized() {}

    proof fn lemma_of_kind(e: Elem) {}
}

impl Element for u8 {
    open spec fn dtype_spec() -> DType { DType::U8 }

    open spec fn to_elem_spec(self) -> Elem { Elem::U8(self) }

    open spec fn of_elem_spec(e: Elem) -> Self { elem_as_i64_spec(e) as u8 }

    fn dtype() -> DType { DType::U8 }

    fn to_elem(self) -> Elem { Elem::U8(self) }

    fn of_elem(e: &Elem) -> Self { elem_as_i64(e) as u8 }

    proof fn lemma_kind(self) {}

    proof fn lemma_identity(self) {
        assert(self as i64 as u8 == self) by (bit_vector);
    }

    proof fn lemma_not_quantized() {}

    proof fn lemma_of_kind(e: Elem) {
        match e {
            Elem::U8(x) => {
                assert(x as i64 as u8 == x) by (bit_vector);
            },
            _ => {},
        }
    }
}

impl Element for u32 {
    open spec fn dtype_spec() -> DType { DType::U32 }

    open spec fn to_elem_spec(self) -> Elem { Elem::U32(self) }

    open spec fn of_elem_spec(e: Elem) -> Self { elem_as_i64_spec(e) as u32 }

    fn dtype() -> DType { DType::U32 }

    fn to_elem(self) -> Elem { Elem::U32(self) }

    fn of_elem(e: &Elem) -> Self { elem_as_i64(e) as u32 }

    proof fn lemma_kind(self) {}

    proof fn lemma_identity(self) {
        assert(self as i64 as u32 == self) by (bit_vector);
    }

    proof fn lemma_not_quantized() {}

    proof fn lemma_of_kind(e: Elem) {
        match e {
            Elem::U32(x) => {
                assert(x as i64 as u32 == x) by (bit_vector);
            },
            _ => {},
        }
    }
}

impl Element for u64 {
    open spec fn dtype_spec() -> DType { DType::U64 }

    open spec fn to_elem_spec(self) -> Elem { Elem::U64(self) }

    open spec fn of_elem_spec(e: Elem) -> Self { elem_as_i64_spec(e) as u64 }

    fn dtype() -> DType { DType::U64 }

    fn to_elem(self) -> Elem { Elem::U64(self) }

    fn of_elem(e: &Elem) -> Self { elem_as_i64(e) as u64 }

    proof fn lemma_kind(self) {}

    proof fn lemma_identity(self) {
        assert(self as i64 as u64 == self) by (bit_vector);
    }

    proof fn lemma_not_quantized() {}

    proof fn lemma_of_kind(e: Elem) {
        match e {
            Elem::U64(x) => {
                assert(x as i64 as u64 == x) by (bit_vector);
            },
            _ => {},
        }
    }
}

impl Element for bool {
    open spec fn dtype_spec() -> DType { DType::Bool }

    open spec fn to_elem_spec(self) -> Elem { Elem::Bool(self) }

    open spec fn of_elem_spec(e: Elem) -> Self { elem_nonzero_spec(e) }

    fn dtype() -> DType { DType::Bool }

    fn to_elem(self) -> Elem { Elem::Bool(self) }

    fn of_elem(e: &Elem) -> Self { elem_nonzero(e) }

    proof fn lemma_kind(self) {}

    proof fn lemma_identity(self) {}

    proof fn lemma_not_quantized() {}

    proof fn lemma_of_kind(e: Elem) {}
}

impl Element for F16 {
    open spec fn dtype_spec() -> DType { DType::F16 }

    open spec fn to_elem_spec(self) -> Elem { Elem::F16(self) }

    open spec fn of_elem_spec(e: Elem) -> Self {
        match e {
            Elem::F16(v) => v,
            _ => F16(f16_of_f64_spec(elem_f64b_spec(e))),
        }
    }

    fn dtype() -> DType { DType::F16 }

    fn to_elem(self) -> Elem { Elem::F16(self) }

    fn of_elem(e: &Elem) -> Self {
        match e {
            Elem::F16(v) => *v,
            _ => F16(f16_narrow(elem_f64b(e))),
        }
    }

    proof fn lemma_kind(self) {}

    proof fn lemma_identity(self) {}

    proof fn lemma_not_quantized() {}

    proof fn lemma_of_kind(e: Elem) {}
}

impl Element for BF16 {
    open spec fn dtype_spec() -> DType { DType::BF16 }

    open spec fn to_elem_spec(self) -> Elem { Elem::BF16(self) }

    open spec fn of_elem_spec(e: Elem) -> Self {
        match e {
            Elem::BF16(v) => v,
            _ => BF16(bf16_of_f64_spec(elem_f64b_spec(e))),
        }
    }

    fn dtype() -> DType { DType::BF16 }

    fn to_elem(self) -> Elem { Elem::BF16(self) }

    fn of_elem(e: &Elem) -> Self {
        match e {
            Elem::BF16(v) => *v,
            _ => BF16(bf16_narrow(elem_f64b(e))),
        }
    }

    proof fn lemma_kind(self) {}

    proof fn lemma_identity(self) {}

    proof fn lemma_not_quantized() {}

    proof fn lemma_of_kind(e: Elem) {}
}

impl Element for F32 {
    open spec fn dtype_spec() -> DType { DType::F32 }

    open spec fn to_elem_spec(self) -> Elem { Elem::F32(self) }

    open spec fn of_elem_spec(e: Elem) -> Self {
        match e {
            Elem::F32(v) => v,
            _ => F32(f32_of_f64(elem_f64b_spec(e))),
        }
    }

    fn dtype() -> DType { DType::F32 }

    fn to_elem(self) -> Elem { Elem::F32(self) }

    fn of_elem(e: &Elem) -> Self {
        match e {
            Elem::F32(v) => *v,
            _ => F32(f32_from_f64(elem_f64b(e))),
        }
    }

    proof fn lemma_kind(self) {}

    proof fn lemma_identity(self) {}

    proof fn lemma_not_quantized() {}

    proof fn lemma_of_kind(e: Elem) {}
}

impl Element for F64 {
    open spec fn dtype_spec() -> DType { DType::F64 }

    open spec fn to_elem_spec(self) -> Elem { Elem::F64(self) }

    open spec fn of_elem_spec(e: Elem) -> Self { F64(elem_f64b_spec(e)) }

    fn dtype() -> DType { DType::F64 }

    fn to_elem(self) -> Elem { Elem::F64(self) }

    fn of_elem(e: &Elem) -> Self { F64(elem_f64b(e)) }

    proof fn lemma_kind(self) {}

    proof fn lemma_identity(self) {}

    proof fn lemma_not_quantized() {}

    proof fn lemma_of_kind(e: Elem) {}
}

} // verus!
