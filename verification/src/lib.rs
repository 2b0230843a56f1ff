//! Element-agnostic, byte-backed tensor storage: a dtype-tagged raw byte
//! buffer with a shape, conversion between element kinds, per-tensor
//! quantization with parameters packed at the tail of the buffer, and
//! element-wise exact / tolerance comparison helpers.

pub mod bytes_le;
pub mod data;
pub mod dtype;
pub mod element;
pub mod fbits;
pub mod legacy;
pub mod quant;

pub use data::{DataError, QParams, TensorData};
pub use dtype::{DType, QuantizationScheme, QuantizationType};
pub use element::{elem_convert, Elem, Element};
pub use fbits::{BF16, F16, F32, F64};
pub use legacy::{Data, DataSerialize, Shape};
pub use quant::{AffineQuantization, QuantizationStrategy, SymmetricQuantization};
