//! Per-tensor quantization: turning binary32 values into 8-bit signed codes
//! and back, under an affine (scale and zero-point) or symmetric (scale
//! only) strategy.

use vstd::prelude::*;

use crate::dtype::{QuantizationScheme, QuantizationType};
use crate::fbits::{F32, f64_of_i64, f64_of_f32, f32_of_f64, f64_div_spec, f64_mul_spec,
    f64_round_spec, i64_of_f64, f64_from_i64, f64_from_f32, f32_from_f64, f64_div, f64_mul,
    f64_round, i64_from_f64};
use crate::element::opt_i64;

verus! {

/// Affine (asymmetric) quantization: `code = clamp(round(x / scale) +
/// offset, -128, 127)`, `value = scale * (code - offset)`.
#[derive(Clone, Copy, PartialEq, Eq, Structural, Debug)]
pub struct AffineQuantization {
    /// The step between two adjacent representable values.
    pub scale: F32,
    /// The code of the real value zero.
    pub offset: i8,
}

/// Symmetric quantization: `code = clamp(round(x / scale), -127, 127)`,
/// `value = scale * code`.
#[derive(Clone, Copy, PartialEq, Eq, Structural, Debug)]
pub struct SymmetricQuantization {
    /// The step between two adjacent representable values.
    pub scale: F32,
}

impl AffineQuantization {
    pub fn init(scale: F32, offset: i8) -> (r: Self)
        ensures
            r == (AffineQuantization { scale, offset }),
    {
        AffineQuantization { scale, offset }
    }
}

impl SymmetricQuantization {
    pub fn init(scale: F32) -> (r: Self)
        ensures
            r == (SymmetricQuantization { scale }),
    {
        SymmetricQuantization { scale }
    }
}

/// A quantization family together with the parameters for one tensor.
#[derive(Clone, Copy, PartialEq, Eq, Structural, Debug)]
pub enum QuantizationStrategy {
    /// Per-tensor affine quantization to 8-bit signed codes.
    PerTensorAffineInt8(AffineQuantization),
    /// Per-tensor symmetric quantization to 8-bit signed codes.
    PerTensorSymmetricInt8(SymmetricQuantization),
}

impl QuantizationStrategy {
    /// The scheme tag of this strategy, without its parameters.
    pub open spec fn scheme_spec(self) -> QuantizationScheme {
        match self {
            QuantizationStrategy::PerTensorAffineInt8(_) => QuantizationScheme::PerTensorAffine(
                QuantizationType::QInt8,
            ),
            QuantizationStrategy::PerTensorSymmetricInt8(
                _,
            ) => QuantizationScheme::PerTensorSymmetric(QuantizationType::QInt8),
        }
    }

    pub fn scheme(&self) -> (s: QuantizationScheme)
        ensures
            s == self.scheme_spec(),
    {
        match self {
            QuantizationStrategy::PerTensorAffineInt8(_) => QuantizationScheme::PerTensorAffine(
                QuantizationType::QInt8,
            ),
            QuantizationStrategy::PerTensorSymmetricInt8(
                _,
            ) => QuantizationScheme::PerTensorSymmetric(QuantizationType::QInt8),
        }
    }

    /// The scale parameter, common to both families.
    pub open spec fn scale_spec(self) -> F32 {
        match self {
            QuantizationStrategy::PerTensorAffineInt8(a) => a.scale,
            QuantizationStrategy::PerTensorSymmetricInt8(s) => s.scale,
        }
    }

    /// The zero-point offset, present only in the affine family.
    pub open spec fn offset_spec(self) -> Option<i8> {
        match self {
            QuantizationStrategy::PerTensorAffineInt8(a) => Some(a.offset),
            QuantizationStrategy::PerTensorSymmetricInt8(_) => None,
        }
    }
}

pub open spec fn clamp_spec(x: int, lo: int, hi: int) -> int {
    if x < lo {
        lo
    } else if x > hi {
        hi
    } else {
        x
    }
}

/// The 8-bit code of the binary32 value `x` under strategy `s`: the value
/// divided by the scale, rounded to the nearest integer (0 when that has no
/// integer form), shifted by the offset in the affine family, and clamped
/// to the code range.
pub open spec fn quantize_code_spec(s: QuantizationStrategy, x: F32) -> i8 {
    let q = opt_i64(
        i64_of_f64(f64_round_spec(f64_div_spec(f64_of_f32(x.0), f64_of_f32(s.scale_spec().0)))),
    );
    match s {
        QuantizationStrategy::PerTensorAffineInt8(a) => clamp_spec(
            q + a.offset as int,
            -128,
            127,
        ) as i8,
        QuantizationStrategy::PerTensorSymmetricInt8(_) => clamp_spec(q as int, -127, 127) as i8,
    }
}

pub fn quantize_code(s: &QuantizationStrategy, x: F32) -> (r: i8)
    ensures
        r == quantize_code_spec(*s, x),
{
    let scale = match s {
        QuantizationStrategy::PerTensorAffineInt8(a) => a.scale,
        QuantizationStrategy::PerTensorSymmetricInt8(m) => m.scale,
    };
    let q_opt = i64_from_f64(f64_round(f64_div(f64_from_f32(x.0), f64_from_f32(scale.0))));
    let q: i64 = match q_opt {
        Some(v) => v,
        None => 0,
    };
    match s {
        QuantizationStrategy::PerTensorAffineInt8(a) => {
            let shifted: i128 = q as i128 + a.offset as i128;
            if shifted < -128 {
                -128
            } else if shifted > 127 {
                127
            } else {
                shifted as i8
            }
        },
        QuantizationStrategy::PerTensorSymmetricInt8(_) => {
            if q < -127 {
                -127
            } else if q > 127 {
                127
            } else {
                q as i8
            }
        },
    }
}

/// The binary32 value a code stands for: the scale times the code, the
/// latter shifted back by the offset in the affine family. The product is
/// formed in binary64 and narrowed.
pub open spec fn dequantize_code_spec(s: QuantizationStrategy, code: i8) -> F32 {
    match s {
        QuantizationStrategy::PerTensorAffineInt8(a) => F32(
            f32_of_f64(
                f64_mul_spec(
                    f64_of_f32(a.scale.0),
                    f64_of_i64((code as i64 - a.offset as i64) as i64),
                ),
            ),
        ),
        QuantizationStrategy::PerTensorSymmetricInt8(m) => F32(
            f32_of_f64(f64_mul_spec(f64_of_f32(m.scale.0), f64_of_i64(code as i64))),
        ),
    }
}

pub fn dequantize_code(s: &QuantizationStrategy, code: i8) -> (r: F32)
    ensures
        r == dequantize_code_spec(*s, code),
{
    match s {
        QuantizationStrategy::PerTensorAffineInt8(a) => {
            let shifted: i64 = code as i64 - a.offset as i64;
            F32(f32_from_f64(f64_mul(f64_from_f32(a.scale.0), f64_from_i64(shifted))))
        },
        QuantizationStrategy::PerTensorSymmetricInt8(m) => {
            F32(f32_from_f64(f64_mul(f64_from_f32(m.scale.0), f64_from_i64(code as i64))))
        },
    }
}

} // verus!
