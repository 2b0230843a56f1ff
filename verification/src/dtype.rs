//! The closed set of element kinds a tensor buffer can hold, and the byte
//! widths of their storage layouts.

use vstd::prelude::*;

verus! {

/// The integer width a quantization scheme stores its codes in.
#[derive(Clone, Copy, PartialEq, Eq, Structural, Debug)]
pub enum QuantizationType {
    /// Codes are 8-bit signed integers.
    QInt8,
}

/// The family of a per-tensor quantization encoding.
#[derive(Clone, Copy, PartialEq, Eq, Structural, Debug)]
pub enum QuantizationScheme {
    /// Affine (asymmetric) encoding: a scale and a zero-point offset.
    PerTensorAffine(QuantizationType),
    /// Symmetric encoding: a scale only.
    PerTensorSymmetric(QuantizationType),
}

/// Tag identifying which concrete kind a buffer's bytes represent.
#[derive(Clone, Copy, PartialEq, Eq, Structural, Debug)]
pub enum DType {
    I8,
    I16,
    I32,
    I64,
    U8,
    U32,
    U64,
    F16,
    BF16,
    F32,
    F64,
    Bool,
    /// Quantized floating point: 1-byte codes, followed by the scheme's
    /// parameters packed at the tail of the buffer.
    QFloat(QuantizationScheme),
}

/// Byte width of one stored element of kind `d`. For `QFloat` this is the
/// width of one quantized code, not counting the packed parameters.
pub open spec fn width_spec(d: DType) -> nat {
    match d {
        DType::I8 => 1,
        DType::I16 => 2,
        DType::I32 => 4,
        DType::I64 => 8,
        DType::U8 => 1,
        DType::U32 => 4,
        DType::U64 => 8,
        DType::F16 => 2,
        DType::BF16 => 2,
        DType::F32 => 4,
        DType::F64 => 8,
        DType::Bool => 1,
        DType::QFloat(_) => 1,
    }
}

/// Number of parameter bytes packed after the quantized codes: the scale is a
/// 4-byte word, and the affine scheme adds a 1-byte offset before it.
pub open spec fn footprint_spec(s: QuantizationScheme) -> nat {
    match s {
        QuantizationScheme::PerTensorAffine(QuantizationType::QInt8) => 5,
        QuantizationScheme::PerTensorSymmetric(QuantizationType::QInt8) => 4,
    }
}

/// Trailing bytes of a buffer of kind `d` that hold packed parameters rather
/// than element values.
pub open spec fn param_len_spec(d: DType) -> nat {
    match d {
        DType::QFloat(s) => footprint_spec(s),
        _ => 0,
    }
}

impl DType {
    /// Byte width of one stored element of this kind.
    pub fn size(&self) -> (w: usize)
        ensures
            w == width_spec(*self),
            1 <= w <= 8,
    {
        match self {
            DType::I8 => 1,
            DType::I16 => 2,
            DType::I32 => 4,
            DType::I64 => 8,
            DType::U8 => 1,
            DType::U32 => 4,
            DType::U64 => 8,
            DType::F16 => 2,
            DType::BF16 => 2,
            DType::F32 => 4,
            DType::F64 => 8,
            DType::Bool => 1,
            DType::QFloat(_) => 1,
        }
    }

    /// Whether this kind is the quantized one.
    pub fn is_quantized(&self) -> (r: bool)
        ensures
            r == (self is QFloat),
    {
        matches!(self, DType::QFloat(_))
    }
}

/// Number of packed parameter bytes trailing the codes of scheme `s`.
pub fn footprint(s: QuantizationScheme) -> (n: usize)
    ensures
        n == footprint_spec(s),
{
    match s {
        QuantizationScheme::PerTensorAffine(QuantizationType::QInt8) => 5,
        QuantizationScheme::PerTensorSymmetric(QuantizationType::QInt8) => 4,
    }
}

} // verus!
