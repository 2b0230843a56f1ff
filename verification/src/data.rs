//! The central tensor storage structure: a dtype-tagged byte buffer with a
//! shape, and every operation over it.

use vstd::prelude::*;

use crate::bytes_le::{le_seq, le_val, push_le, lemma_le_seq_len, lemma_le_roundtrip};
use crate::dtype::{footprint_spec, param_len_spec, width_spec, DType, QuantizationScheme};
use crate::element::{decode_elem, enc_elem, kind_dtype, lemma_elem_roundtrip, lemma_enc_elem_len,
    push_elem, read_elem, Elem, Element, elem_convert};
use crate::fbits::{F16, BF16, F32, F64, F64_ONE_BITS, F64_TEN_BITS, f64_div_spec, f64_mul_spec,
    f64_sub_spec, f64_sqrt_spec, f64_is_nan_spec, f64_is_inf_spec, f64_is_neg_spec, f64_gt_spec,
    f32_lt_spec, f32_ge_spec, f64_div, f64_mul, f64_sub, f64_sqrt, f64_is_nan, f64_is_inf,
    f64_is_neg, f64_gt, f32_lt, f32_ge};
use crate::element::elem_f64b_spec;
use crate::element::elem_f64b;
use crate::quant::{dequantize_code, dequantize_code_spec, quantize_code, quantize_code_spec,
    AffineQuantization, QuantizationStrategy, SymmetricQuantization};

verus! {

/// What can go wrong when extracting data from a tensor buffer.
#[derive(Clone, Copy, PartialEq, Eq, Structural, Debug)]
pub enum DataError {
    /// The stored bytes cannot be reinterpreted as the requested type.
    CastError,
    /// The requested element type does not match the stored dtype.
    TypeMismatch,
}

/// Quantization parameters read back from a quantized buffer's tail.
#[derive(Clone, Copy, Debug)]
pub struct QParams<E, Q> {
    /// The scale.
    pub scale: E,
    /// The zero-point offset, absent for symmetric schemes.
    pub offset: Option<Q>,
}

/// Data structure for tensors: the element values as raw bytes, the shape,
/// and the dtype tag under which the bytes are read.
#[derive(Clone, PartialEq, Eq, Debug)]
pub struct TensorData {
    /// The values of the tensor (as bytes).
    pub bytes: Vec<u8>,
    /// The shape of the tensor.
    pub shape: Vec<usize>,
    /// The data type of the tensor.
    pub dtype: DType,
}

/// Total element count of a shape: the product of all dimensions; an empty
/// shape holds one scalar.
pub open spec fn numel_of(shape: Seq<usize>) -> nat
    decreases shape.len(),
{
    if shape.len() == 0 {
        1
    } else {
        (numel_of(shape.drop_last()) * shape.last()) as nat
    }
}

/// Every prefix product of the shape fits a machine word, so the element
/// count can be computed left to right without overflow.
pub open spec fn shape_ok(shape: Seq<usize>) -> bool {
    forall|i: int| 0 <= i <= shape.len() ==> #[trigger] numel_of(shape.take(i)) <= usize::MAX
}

/// Flattened little-endian layout of a sequence of values.
pub open spec fn enc_elems(es: Seq<Elem>) -> Seq<u8>
    decreases es.len(),
{
    if es.len() == 0 {
        Seq::empty()
    } else {
        enc_elems(es.drop_last()) + enc_elem(es.last())
    }
}

/// All values of a sequence are stored under dtype `d`.
pub open spec fn all_kind(es: Seq<Elem>, d: DType) -> bool {
    forall|i: int| 0 <= i < es.len() ==> kind_dtype(#[trigger] es[i]) == width_kind(d)
}

/// The dtype whose layout one element of a buffer of dtype `d` has: the
/// quantized dtype stores signed 8-bit codes.
pub open spec fn width_kind(d: DType) -> DType {
    match d {
        DType::QFloat(_) => DType::I8,
        _ => d,
    }
}

pub proof fn lemma_enc_elems_len(es: Seq<Elem>, d: DType)
    requires
        all_kind(es, d),
    ensures
        enc_elems(es).len() == es.len() * width_spec(d),
    decreases es.len(),
{
    if es.len() > 0 {
        lemma_enc_elems_len(es.drop_last(), d);
        lemma_enc_elem_len(es.last());
        assert(width_spec(width_kind(d)) == width_spec(d));
        assert((es.len() - 1) * width_spec(d) + width_spec(d) == es.len() * width_spec(d))
            by (nonlinear_arith);
    } else {
        assert(es.len() * width_spec(d) == 0) by (nonlinear_arith)
            requires es.len() == 0;
    }
}

pub proof fn lemma_enc_elems_index(es: Seq<Elem>, d: DType, i: int)
    requires
        all_kind(es, d),
        0 <= i < es.len(),
    ensures
        enc_elems(es).subrange(i * width_spec(d), i * width_spec(d) + width_spec(d)) == enc_elem(
            es[i],
        ),
    decreases es.len(),
{
    let w = width_spec(d) as int;
    lemma_enc_elems_len(es.drop_last(), d);
    lemma_enc_elem_len(es.last());
    if i == es.len() - 1 {
        assert(enc_elems(es).subrange(i * w, i * w + w) =~= enc_elem(es[i]));
    } else {
        lemma_enc_elems_index(es.drop_last(), d, i);
        assert(i * w + w <= (es.len() - 1) * w) by (nonlinear_arith)
            requires 0 <= i, i + 1 <= es.len() - 1, w >= 1;
        assert(enc_elems(es).subrange(i * w, i * w + w) =~= enc_elems(es.drop_last()).subrange(
            i * w,
            i * w + w,
        ));
    }
}

/// Computes the element count of a shape.
pub fn numel(shape: &Vec<usize>) -> (n: usize)
    requires
        shape_ok(shape@),
    ensures
        n == numel_of(shape@),
{
    let mut acc: usize = 1;
    let mut i: usize = 0;
    proof {
        assert(shape@.take(0) =~= Seq::<usize>::empty());
    }
    while i < shape.len()
        invariant
            shape_ok(shape@),
            i <= shape.len(),
            acc == numel_of(shape@.take(i as int)),
        decreases shape.len() - i,
    {
        proof {
            assert(shape@.take(i + 1).drop_last() =~= shape@.take(i as int));
            assert(numel_of(shape@.take(i + 1)) == numel_of(shape@.take(i as int)) * shape@[i as int]);
            assert(numel_of(shape@.take(i + 1)) <= usize::MAX);
        }
        acc = acc * shape[i];
        i += 1;
    }
    proof {
        assert(shape@.take(shape@.len() as int) =~= shape@);
    }
    acc
}

/// Relies on std's Vec::capacity, which is at least the length.
#[verifier::external_body]
fn vec_capacity<T>(v: &Vec<T>) -> (c: usize)
    ensures
        c >= v@.len(),
{
    v.capacity()
}

impl TensorData {
    /// The buffer is laid out as its dtype demands: one fixed-width window
    /// per element, and for the quantized dtype the packed parameters at
    /// the tail.
    pub open spec fn wf(self) -> bool {
        &&& shape_ok(self.shape@)
        &&& self.bytes@.len() == numel_of(self.shape@) * width_spec(self.dtype) + param_len_spec(
            self.dtype,
        )
    }

    /// The stored values: each fixed-width window of the value region,
    /// decoded under the dtype. For the quantized dtype these are the raw
    /// codes as signed 8-bit integers, not dequantized values.
    pub open spec fn elems(self) -> Seq<Elem> {
        let w = width_spec(self.dtype) as int;
        Seq::new(
            numel_of(self.shape@),
            |i: int| decode_elem(self.dtype, self.bytes@.subrange(i * w, i * w + w)),
        )
    }

    /// The stored values, each converted to the element type `E`.
    pub open spec fn typed<E: Element>(self) -> Seq<E> {
        self.elems().map_values(|e: Elem| E::of_elem_spec(e))
    }

    /// Creates a new tensor data structure from typed values and a shape.
    /// The values are truncated to the element count of the shape; fewer
    /// values than that is a contract violation.
    pub fn new<E: Element>(values: Vec<E>, shape: Vec<usize>) -> (r: TensorData)
        requires
            shape_ok(shape@),
            numel_of(shape@) <= values@.len(),
            numel_of(shape@) * width_spec(E::dtype_spec()) <= usize::MAX,
        ensures
            r.wf(),
            r.dtype == E::dtype_spec(),
            r.shape@ == shape@,
            r.elems() == values@.take(numel_of(shape@) as int).map_values(
                |v: E| v.to_elem_spec(),
            ),
    {
        let n = numel(&shape);
        let d = E::dtype();
        let w = d.size();
        proof {
            E::lemma_not_quantized();
        }
        let cap_elems = vec_capacity(&values);
        let cap_bytes = if cap_elems <= usize::MAX / w {
            cap_elems * w
        } else {
            n * w
        };
        let mut bytes: Vec<u8> = Vec::with_capacity(cap_bytes);
        let ghost target = values@.take(n as int).map_values(|v: E| v.to_elem_spec());
        let mut i: usize = 0;
        proof {
            assert(target.take(0) =~= Seq::<Elem>::empty());
        }
        while i < n
            invariant
                i <= n,
                n == numel_of(shape@),
                n <= values@.len(),
                target == values@.take(n as int).map_values(|v: E| v.to_elem_spec()),
                bytes@ == enc_elems(target.take(i as int)),
            decreases n - i,
        {
            let e = values[i].to_elem();
            push_elem(&mut bytes, &e);
            proof {
                assert(target.take(i + 1).drop_last() =~= target.take(i as int));
                assert(target.take(i + 1).last() == values@[i as int].to_elem_spec());
            }
            i += 1;
        }
        proof {
            assert(target.take(n as int) =~= target);
        }
        let r = TensorData { bytes, shape, dtype: d };
        proof {
            assert forall|j: int| 0 <= j < target.len() implies kind_dtype(#[trigger] target[j])
                == width_kind(d) by {
                values@[j].lemma_kind();
            }
            lemma_enc_elems_len(target, d);
            assert forall|j: int| 0 <= j < n implies r.elems()[j] == target[j] by {
                lemma_enc_elems_index(target, d, j);
                lemma_elem_roundtrip(target[j]);
                values@[j].lemma_kind();
            }
            assert(r.elems() =~= target);
        }
        r
    }

    /// Total number of elements held.
    pub fn num_elements(&self) -> (n: usize)
        requires
            self.wf(),
        ensures
            n == numel_of(self.shape@),
    {
        numel(&self.shape)
    }

    /// The raw bytes of the buffer, parameters included.
    pub fn as_bytes(&self) -> (r: &[u8])
        ensures
            r@ == self.bytes@,
    {
        self.bytes.as_slice()
    }

    /// The stored values, each converted to the element type `E`,
    /// whatever the stored dtype. Quantized buffers yield their raw codes.
    pub fn iter<E: Element>(&self) -> (r: Vec<E>)
        requires
            self.wf(),
        ensures
            r@ == self.typed::<E>(),
    {
        let n = numel(&self.shape);
        let w = self.dtype.size();
        let bl = self.bytes.len();
        let mut out: Vec<E> = Vec::new();
        let mut i: usize = 0;
        while i < n
            invariant
                i <= n,
                n == numel_of(self.shape@),
                w == width_spec(self.dtype),
                bl == self.bytes@.len(),
                self.wf(),
                out@ == self.typed::<E>().take(i as int),
            decreases n - i,
        {
            proof {
                assert((i + 1) * w <= n * w && i * w == (i as int) * (w as int)) by (nonlinear_arith)
                    requires i < n, w >= 1;
                assert(n * w <= bl);
            }
            let e = read_elem(&self.bytes, i * w, self.dtype);
            out.push(E::of_elem(&e));
            proof {
                assert(out@ =~= self.typed::<E>().take(i + 1));
            }
            i += 1;
        }
        proof {
            assert(self.typed::<E>().take(n as int) =~= self.typed::<E>());
        }
        out
    }

    /// The stored values as a vector of `E`, which must be the stored
    /// dtype exactly.
    pub fn to_vec<E: Element>(&self) -> (r: Result<Vec<E>, DataError>)
        requires
            self.wf(),
        ensures
            match r {
                Ok(v) => E::dtype_spec() == self.dtype && v@ == self.typed::<E>(),
                Err(e) => e == DataError::TypeMismatch && E::dtype_spec() != self.dtype,
            },
    {
        if E::dtype() == self.dtype {
            Ok(self.iter::<E>())
        } else {
            Err(DataError::TypeMismatch)
        }
    }

    /// As [`Self::to_vec`], consuming the buffer.
    pub fn into_vec<E: Element>(self) -> (r: Result<Vec<E>, DataError>)
        requires
            self.wf(),
        ensures
            match r {
                Ok(v) => E::dtype_spec() == self.dtype && v@ == self.typed::<E>(),
                Err(e) => e == DataError::TypeMismatch && E::dtype_spec() != self.dtype,
            },
    {
        self.to_vec::<E>()
    }

    /// The stored values decoded as `E`, which must be the stored dtype
    /// exactly.
    pub fn as_slice<E: Element>(&self) -> (r: Result<Vec<E>, DataError>)
        requires
            self.wf(),
        ensures
            match r {
                Ok(v) => E::dtype_spec() == self.dtype && v@ == self.typed::<E>(),
                Err(e) => e == DataError::TypeMismatch && E::dtype_spec() != self.dtype,
            },
    {
        self.to_vec::<E>()
    }

    /// Populates the data with the given value.
    pub fn full<E: Element>(shape: Vec<usize>, fill_value: E) -> (r: TensorData)
        requires
            shape_ok(shape@),
            numel_of(shape@) * width_spec(E::dtype_spec()) <= usize::MAX,
        ensures
            r.wf(),
            r.dtype == E::dtype_spec(),
            r.shape@ == shape@,
            r.elems() == Seq::new(numel_of(shape@), |i: int| fill_value.to_elem_spec()),
    {
        let n = numel(&shape);
        let mut values: Vec<E> = Vec::new();
        let mut i: usize = 0;
        while i < n
            invariant
                i <= n,
                values@.len() == i,
                forall|j: int| 0 <= j < i ==> values@[j] == fill_value,
            decreases n - i,
        {
            values.push(fill_value);
            i += 1;
        }
        let r = TensorData::new(values, shape);
        proof {
            assert(r.elems() =~= Seq::new(numel_of(shape@), |i: int| fill_value.to_elem_spec()));
        }
        r
    }

    /// Populates the data with zeros (the conversion of the integer 0 into
    /// `E`).
    pub fn zeros<E: Element>(shape: Vec<usize>) -> (r: TensorData)
        requires
            shape_ok(shape@),
            numel_of(shape@) * width_spec(E::dtype_spec()) <= usize::MAX,
        ensures
            r.wf(),
            r.dtype == E::dtype_spec(),
            r.shape@ == shape@,
            r.elems() == Seq::new(
                numel_of(shape@),
                |i: int| E::of_elem_spec(Elem::I64(0)).to_elem_spec(),
            ),
    {
        Self::full(shape, elem_convert::<i64, E>(0))
    }

    /// Populates the data with ones (the conversion of the integer 1 into
    /// `E`).
    pub fn ones<E: Element>(shape: Vec<usize>) -> (r: TensorData)
        requires
            shape_ok(shape@),
            numel_of(shape@) * width_spec(E::dtype_spec()) <= usize::MAX,
        ensures
            r.wf(),
            r.dtype == E::dtype_spec(),
            r.shape@ == shape@,
            r.elems() == Seq::new(
                numel_of(shape@),
                |i: int| E::of_elem_spec(Elem::I64(1)).to_elem_spec(),
            ),
    {
        Self::full(shape, elem_convert::<i64, E>(1))
    }

    /// Converts the data to a different element type. A matching target
    /// dtype is a no-op; otherwise every stored value is converted and
    /// re-encoded under the new dtype.
    pub fn convert<E: Element>(self) -> (r: TensorData)
        requires
            self.wf(),
            numel_of(self.shape@) * width_spec(E::dtype_spec()) <= usize::MAX,
        ensures
            r.wf(),
            r.shape@ == self.shape@,
            r.dtype == E::dtype_spec(),
            E::dtype_spec() == self.dtype ==> r == self,
            r.elems() == self.elems().map_values(|e: Elem| E::of_elem_spec(e).to_elem_spec()),
    {
        if E::dtype() == self.dtype {
            proof {
                E::lemma_not_quantized();
                assert forall|j: int| 0 <= j < self.elems().len() implies E::of_elem_spec(
                    #[trigger] self.elems()[j],
                ).to_elem_spec() == self.elems()[j] by {
                    let w = width_spec(self.dtype) as int;
                    crate::element::lemma_decode_kind(
                        self.dtype,
                        self.bytes@.subrange(j * w, j * w + w),
                    );
                    E::lemma_of_kind(self.elems()[j]);
                }
                assert(self.elems() =~= self.elems().map_values(
                    |e: Elem| E::of_elem_spec(e).to_elem_spec(),
                ));
            }
            self
        } else {
            let values: Vec<E> = self.iter::<E>();
            let r = TensorData::new(values, self.shape);
            proof {
                assert(r.elems() =~= self.elems().map_values(
                    |e: Elem| E::of_elem_spec(e).to_elem_spec(),
                ));
            }
            r
        }
    }
}

/// The scale packed at the very tail of a quantized buffer: its last four
/// bytes, read little-endian as binary32 bits.
pub open spec fn scale_of(d: TensorData) -> F32 {
    F32(le_val(d.bytes@.subrange(d.bytes@.len() - 4, d.bytes@.len() as int)) as u32)
}

/// The zero-point offset packed immediately before the scale of an
/// affine-quantized buffer.
pub open spec fn offset_of(d: TensorData) -> i8 {
    le_val(d.bytes@.subrange(d.bytes@.len() - 5, d.bytes@.len() - 4)) as u8 as i8
}

/// The strategy a quantized buffer was built with: its scheme tag together
/// with the parameters packed at its tail.
pub open spec fn q_strategy_of(d: TensorData) -> QuantizationStrategy {
    match d.dtype {
        DType::QFloat(
            QuantizationScheme::PerTensorAffine(_),
        ) => QuantizationStrategy::PerTensorAffineInt8(
            AffineQuantization { scale: scale_of(d), offset: offset_of(d) },
        ),
        _ => QuantizationStrategy::PerTensorSymmetricInt8(
            SymmetricQuantization { scale: scale_of(d) },
        ),
    }
}

/// The code held by one stored value of a quantized buffer.
pub open spec fn elem_code(e: Elem) -> i8 {
    match e {
        Elem::I8(x) => x,
        _ => 0,
    }
}

impl TensorData {
    /// Creates a new quantized tensor data structure: the codes' bytes,
    /// followed by the strategy's parameters packed at the tail so that
    /// the last bytes are always the scale, the offset (if any) right
    /// before it.
    pub fn quantized(values: Vec<i8>, shape: Vec<usize>, strategy: QuantizationStrategy) -> (r:
        TensorData)
        requires
            shape_ok(shape@),
            numel_of(shape@) <= values@.len(),
            numel_of(shape@) + footprint_spec(strategy.scheme_spec()) <= usize::MAX,
        ensures
            r.wf(),
            r.dtype == DType::QFloat(strategy.scheme_spec()),
            r.shape@ == shape@,
            r.elems() == values@.take(numel_of(shape@) as int).map_values(|c: i8| Elem::I8(c)),
            q_strategy_of(r) == strategy,
    {
        let n = numel(&shape);
        let ghost codes = values@.take(n as int).map_values(|c: i8| Elem::I8(c));
        let mut bytes: Vec<u8> = Vec::new();
        let mut i: usize = 0;
        proof {
            assert(codes.take(0) =~= Seq::<Elem>::empty());
        }
        while i < n
            invariant
                i <= n,
                n == numel_of(shape@),
                n <= values@.len(),
                codes == values@.take(n as int).map_values(|c: i8| Elem::I8(c)),
                bytes@ == enc_elems(codes.take(i as int)),
            decreases n - i,
        {
            let e = Elem::I8(values[i]);
            push_elem(&mut bytes, &e);
            proof {
                assert(codes.take(i + 1).drop_last() =~= codes.take(i as int));
                assert(codes.take(i + 1).last() == Elem::I8(values@[i as int]));
            }
            i += 1;
        }
        proof {
            assert(codes.take(n as int) =~= codes);
            assert forall|j: int| 0 <= j < codes.len() implies kind_dtype(#[trigger] codes[j])
                == DType::I8 by {}
            lemma_enc_elems_len(codes, DType::I8);
        }
        let ghost value_bytes = bytes@;
        let d = DType::QFloat(strategy.scheme());
        match &strategy {
            QuantizationStrategy::PerTensorAffineInt8(a) => {
                push_le(&mut bytes, a.offset as u8 as u64, 1);
                push_le(&mut bytes, a.scale.0 as u64, 4);
            },
            QuantizationStrategy::PerTensorSymmetricInt8(m) => {
                push_le(&mut bytes, m.scale.0 as u64, 4);
            },
        }
        proof {
            lemma_le_seq_len(0, 0);
        }
        let r = TensorData { bytes, shape, dtype: d };
        proof {
            let len = r.bytes@.len() as int;
            crate::element::lemma_pow256_values();
            match strategy {
                QuantizationStrategy::PerTensorAffineInt8(a) => {
                    lemma_le_seq_len(a.offset as u8 as u64, 1);
                    lemma_le_seq_len(a.scale.0 as u64, 4);
                    assert(r.bytes@ == value_bytes + le_seq(a.offset as u8 as u64, 1) + le_seq(
                        a.scale.0 as u64,
                        4,
                    ));
                    assert(r.bytes@.subrange(len - 4, len) =~= le_seq(a.scale.0 as u64, 4));
                    assert(r.bytes@.subrange(len - 5, len - 4) =~= le_seq(
                        a.offset as u8 as u64,
                        1,
                    ));
                    lemma_le_roundtrip(a.scale.0 as u64, 4);
                    lemma_le_roundtrip(a.offset as u8 as u64, 1);
                    let sc = a.scale.0;
                    let off = a.offset;
                    assert(sc as u64 as u32 == sc) by (bit_vector);
                    assert(off as u8 as u64 as u8 as i8 == off) by (bit_vector);
                },
                QuantizationStrategy::PerTensorSymmetricInt8(m) => {
                    lemma_le_seq_len(m.scale.0 as u64, 4);
                    assert(r.bytes@ == value_bytes + le_seq(m.scale.0 as u64, 4));
                    assert(r.bytes@.subrange(len - 4, len) =~= le_seq(m.scale.0 as u64, 4));
                    lemma_le_roundtrip(m.scale.0 as u64, 4);
                    let sc = m.scale.0;
                    assert(sc as u64 as u32 == sc) by (bit_vector);
                },
            }
            assert forall|j: int| 0 <= j < n implies r.elems()[j] == codes[j] by {
                lemma_enc_elems_index(codes, DType::I8, j);
                assert(r.bytes@.subrange(j, j + 1) =~= value_bytes.subrange(j, j + 1));
                assert(value_bytes.subrange(j, j + 1) == enc_elem(codes[j]));
                lemma_elem_roundtrip(codes[j]);
                assert(decode_elem(r.dtype, enc_elem(codes[j])) == decode_elem(
                    DType::I8,
                    enc_elem(codes[j]),
                ));
            }
            assert(r.elems() =~= codes);
        }
        r
    }

    /// Reads the quantization parameters packed at the tail of a quantized
    /// buffer: the last bytes as the scale of type `E`, and for the affine
    /// scheme the bytes right before it as the offset of type `Q`. Returns
    /// `None` for non-quantized data.
    pub fn get_q_params<E: Element, Q: Element>(&self) -> (r: Option<QParams<E, Q>>)
        requires
            self.wf(),
            match self.dtype {
                DType::QFloat(s) => width_spec(E::dtype_spec()) + (if s is PerTensorAffine {
                    width_spec(Q::dtype_spec())
                } else {
                    0
                }) <= self.bytes@.len(),
                _ => true,
            },
        ensures
            (self.dtype is QFloat) <==> (r is Some),
            match (self.dtype, r) {
                (DType::QFloat(s), Some(qp)) => {
                    let len = self.bytes@.len() as int;
                    let we = width_spec(E::dtype_spec()) as int;
                    let wq = width_spec(Q::dtype_spec()) as int;
                    &&& qp.scale == E::of_elem_spec(
                        decode_elem(E::dtype_spec(), self.bytes@.subrange(len - we, len)),
                    )
                    &&& qp.offset == (if s is PerTensorAffine {
                        Some(
                            Q::of_elem_spec(
                                decode_elem(
                                    Q::dtype_spec(),
                                    self.bytes@.subrange(len - we - wq, len - we),
                                ),
                            ),
                        )
                    } else {
                        None::<Q>
                    })
                },
                (_, None) => true,
                _ => false,
            },
    {
        match self.dtype {
            DType::QFloat(scheme) => {
                let we = E::dtype().size();
                let e_elem = read_elem(&self.bytes, self.bytes.len() - we, E::dtype());
                let scale = E::of_elem(&e_elem);
                let offset = match scheme {
                    QuantizationScheme::PerTensorAffine(_) => {
                        let wq = Q::dtype().size();
                        let q_elem = read_elem(
                            &self.bytes,
                            self.bytes.len() - we - wq,
                            Q::dtype(),
                        );
                        Some(Q::of_elem(&q_elem))
                    },
                    QuantizationScheme::PerTensorSymmetric(_) => None,
                };
                Some(QParams { scale, offset })
            },
            _ => None,
        }
    }

    /// Dequantizes the data according to its quantization scheme: every
    /// code becomes the binary32 value it stands for, under dtype `F32`.
    /// Fails with `TypeMismatch` on non-quantized data.
    pub fn dequantize(self) -> (r: Result<TensorData, DataError>)
        requires
            self.wf(),
            numel_of(self.shape@) * 4 <= usize::MAX,
        ensures
            match r {
                Ok(t) => {
                    &&& self.dtype is QFloat
                    &&& t.wf()
                    &&& t.dtype == DType::F32
                    &&& t.shape@ == self.shape@
                    &&& t.elems() == self.elems().map_values(
                        |e: Elem| Elem::F32(dequantize_code_spec(q_strategy_of(self), elem_code(e))),
                    )
                },
                Err(e) => e == DataError::TypeMismatch && !(self.dtype is QFloat),
            },
    {
        match self.dtype {
            DType::QFloat(scheme) => {
                let qp = match self.get_q_params::<F32, i8>() {
                    Some(qp) => qp,
                    None => vstd::pervasive::unreached(),
                };
                let strategy = match scheme {
                    QuantizationScheme::PerTensorAffine(_) => {
                        let off = match qp.offset {
                            Some(o) => o,
                            None => 0,
                        };
                        QuantizationStrategy::PerTensorAffineInt8(
                            AffineQuantization::init(qp.scale, off),
                        )
                    },
                    QuantizationScheme::PerTensorSymmetric(_) => {
                        QuantizationStrategy::PerTensorSymmetricInt8(
                            SymmetricQuantization::init(qp.scale),
                        )
                    },
                };
                proof {
                    lemma_q_params_match_strategy(self);
                    assert(strategy == q_strategy_of(self));
                }
                let ghost target = self.elems().map_values(
                    |e: Elem| Elem::F32(dequantize_code_spec(q_strategy_of(self), elem_code(e))),
                );
                let n = numel(&self.shape);
                let mut values: Vec<F32> = Vec::new();
                let mut i: usize = 0;
                while i < n
                    invariant
                        i <= n,
                        n == numel_of(self.shape@),
                        self.wf(),
                        self.dtype is QFloat,
                        strategy == q_strategy_of(self),
                        n <= self.bytes@.len(),
                        target == self.elems().map_values(
                            |e: Elem| Elem::F32(
                                dequantize_code_spec(q_strategy_of(self), elem_code(e)),
                            ),
                        ),
                        values@.len() == i,
                        forall|j: int| 0 <= j < i ==> Elem::F32(#[trigger] values@[j])
                            == target[j],
                    decreases n - i,
                {
                    let e = read_elem(&self.bytes, i, self.dtype);
                    let c = match e {
                        Elem::I8(x) => x,
                        _ => 0,
                    };
                    proof {
                        assert(self.elems()[i as int] == decode_elem(
                            self.dtype,
                            self.bytes@.subrange(i as int, i + 1),
                        ));
                        assert(c == elem_code(self.elems()[i as int]));
                    }
                    values.push(dequantize_code(&strategy, c));
                    i += 1;
                }
                let t = TensorData::new(values, self.shape);
                proof {
                    assert(t.elems() =~= target);
                }
                Ok(t)
            },
            _ => Err(DataError::TypeMismatch),
        }
    }

    /// Applies the quantization strategy to binary32 data: quantizes every
    /// value to its code and rebuilds the buffer with the parameters
    /// packed at the tail.
    pub fn with_quantization(self, quantization: QuantizationStrategy) -> (r: TensorData)
        requires
            self.wf(),
            self.dtype == DType::F32,
            numel_of(self.shape@) + footprint_spec(quantization.scheme_spec()) <= usize::MAX,
        ensures
            r.wf(),
            r.dtype == DType::QFloat(quantization.scheme_spec()),
            r.shape@ == self.shape@,
            r.elems() == self.typed::<F32>().map_values(
                |x: F32| Elem::I8(quantize_code_spec(quantization, x)),
            ),
            q_strategy_of(r) == quantization,
    {
        let floats: Vec<F32> = self.iter::<F32>();
        let n = floats.len();
        let mut codes: Vec<i8> = Vec::new();
        let mut i: usize = 0;
        while i < n
            invariant
                i <= n,
                n == self.typed::<F32>().len(),
                floats@ == self.typed::<F32>(),
                codes@.len() == i,
                forall|j: int| 0 <= j < i ==> #[trigger] codes@[j] == quantize_code_spec(
                    quantization,
                    floats@[j],
                ),
            decreases n - i,
        {
            codes.push(quantize_code(&quantization, floats[i]));
            i += 1;
        }
        let r = TensorData::quantized(codes, self.shape, quantization);
        proof {
            assert(r.elems() =~= self.typed::<F32>().map_values(
                |x: F32| Elem::I8(quantize_code_spec(quantization, x)),
            ));
        }
        r
    }
}

/// The value of `e` converted to the element kind of dtype `d`; under the
/// quantized dtype values compare as their raw signed 8-bit codes.
pub open spec fn convert_elem_kind_spec(d: DType, e: Elem) -> Elem {
    match d {
        DType::I8 => Elem::I8(<i8 as Element>::of_elem_spec(e)),
        DType::I16 => Elem::I16(<i16 as Element>::of_elem_spec(e)),
        DType::I32 => Elem::I32(<i32 as Element>::of_elem_spec(e)),
        DType::I64 => Elem::I64(<i64 as Element>::of_elem_spec(e)),
        DType::U8 => Elem::U8(<u8 as Element>::of_elem_spec(e)),
        DType::U32 => Elem::U32(<u32 as Element>::of_elem_spec(e)),
        DType::U64 => Elem::U64(<u64 as Element>::of_elem_spec(e)),
        DType::F16 => Elem::F16(<F16 as Element>::of_elem_spec(e)),
        DType::BF16 => Elem::BF16(<BF16 as Element>::of_elem_spec(e)),
        DType::F32 => Elem::F32(<F32 as Element>::of_elem_spec(e)),
        DType::F64 => Elem::F64(<F64 as Element>::of_elem_spec(e)),
        DType::Bool => Elem::Bool(<bool as Element>::of_elem_spec(e)),
        DType::QFloat(_) => Elem::I8(<i8 as Element>::of_elem_spec(e)),
    }
}

pub fn convert_elem_kind(d: DType, e: &Elem) -> (r: Elem)
    ensures
        r == convert_elem_kind_spec(d, *e),
{
    match d {
        DType::I8 => Elem::I8(i8::of_elem(e)),
        DType::I16 => Elem::I16(i16::of_elem(e)),
        DType::I32 => Elem::I32(i32::of_elem(e)),
        DType::I64 => Elem::I64(i64::of_elem(e)),
        DType::U8 => Elem::U8(u8::of_elem(e)),
        DType::U32 => Elem::U32(u32::of_elem(e)),
        DType::U64 => Elem::U64(u64::of_elem(e)),
        DType::F16 => Elem::F16(F16::of_elem(e)),
        DType::BF16 => Elem::BF16(BF16::of_elem(e)),
        DType::F32 => Elem::F32(F32::of_elem(e)),
        DType::F64 => Elem::F64(F64::of_elem(e)),
        DType::Bool => Elem::Bool(bool::of_elem(e)),
        DType::QFloat(_) => Elem::I8(i8::of_elem(e)),
    }
}

/// Element-wise exact equality, as `assert_eq` decides it: matching dtypes
/// where demanded, matching shapes, and every pair of values equal once
/// both are converted to the left buffer's own kind. Floating-point values
/// compare by their bit patterns (so two NaNs with one payload are equal
/// and the two zeros differ), quantized buffers by their raw codes under
/// an identical scheme.
pub open spec fn eq_holds(a: TensorData, b: TensorData, strict: bool) -> bool {
    &&& (strict ==> a.dtype == b.dtype)
    &&& ((a.dtype is QFloat || b.dtype is QFloat) ==> a.dtype == b.dtype)
    &&& a.shape@ == b.shape@
    &&& (forall|i: int| 0 <= i < a.elems().len() ==> convert_elem_kind_spec(
        a.dtype,
        #[trigger] a.elems()[i],
    ) == convert_elem_kind_spec(a.dtype, b.elems()[i]))
}

/// One element-wise approximate comparison in binary64: two NaNs are
/// equal, two like-signed infinities are equal, and otherwise the rooted
/// squared difference must not exceed the tolerance (nor be NaN).
pub open spec fn approx_pair_spec(a: u64, b: u64, tol: u64) -> bool {
    let both_nan = f64_is_nan_spec(a) && f64_is_nan_spec(b);
    let both_inf = f64_is_inf_spec(a) && f64_is_inf_spec(b) && (f64_is_neg_spec(a)
        == f64_is_neg_spec(b));
    if both_nan || both_inf {
        true
    } else {
        let err = f64_sqrt_spec(f64_mul_spec(f64_sub_spec(a, b), f64_sub_spec(a, b)));
        !f64_gt_spec(err, tol) && !f64_is_nan_spec(err)
    }
}

pub fn approx_pair(a: u64, b: u64, tol: u64) -> (r: bool)
    ensures
        r == approx_pair_spec(a, b, tol),
{
    let both_nan = f64_is_nan(a) && f64_is_nan(b);
    let both_inf = f64_is_inf(a) && f64_is_inf(b) && (f64_is_neg(a) == f64_is_neg(b));
    if both_nan || both_inf {
        true
    } else {
        let d = f64_sub(a, b);
        let err = f64_sqrt(f64_mul(d, d));
        !f64_gt(err, tol) && !f64_is_nan(err)
    }
}

/// Element-wise approximate equality of two buffers: matching shapes, and
/// every pair of values, taken to binary64, approximately equal under the
/// tolerance bits `tol`.
pub open spec fn approx_holds(a: TensorData, b: TensorData, tol: u64) -> bool {
    &&& a.shape@ == b.shape@
    &&& (forall|i: int| 0 <= i < a.elems().len() ==> approx_pair_spec(
        elem_f64b_spec(#[trigger] a.elems()[i]),
        elem_f64b_spec(b.elems()[i]),
        tol,
    ))
}

/// The tolerance that a decimal precision stands for: `0.1^p`, computed in
/// binary64 by repeated multiplication.
pub open spec fn tolerance_spec(p: nat) -> u64
    decreases p,
{
    if p == 0 {
        F64_ONE_BITS
    } else {
        f64_mul_spec(tolerance_spec((p - 1) as nat), f64_div_spec(F64_ONE_BITS, F64_TEN_BITS))
    }
}

impl TensorData {
    /// Element-wise exact comparison, under the stored dtype. With
    /// `strict` the dtypes must match; quantized data compares only
    /// against quantized data of the identical scheme, by raw codes.
    pub fn assert_eq(&self, other: &TensorData, strict: bool) -> (r: bool)
        requires
            self.wf(),
            other.wf(),
        ensures
            r == eq_holds(*self, *other, strict),
    {
        if strict && !(self.dtype == other.dtype) {
            return false;
        }
        if (self.dtype.is_quantized() || other.dtype.is_quantized()) && !(self.dtype
            == other.dtype) {
            return false;
        }
        if !vec_usize_eq(&self.shape, &other.shape) {
            return false;
        }
        let n = self.num_elements();
        let w = self.dtype.size();
        let wo = other.dtype.size();
        let bl = self.bytes.len();
        let blo = other.bytes.len();
        let mut ok = true;
        let mut i: usize = 0;
        while i < n
            invariant
                i <= n,
                n == numel_of(self.shape@),
                n == numel_of(other.shape@),
                w == width_spec(self.dtype),
                wo == width_spec(other.dtype),
                bl == self.bytes@.len(),
                blo == other.bytes@.len(),
                self.wf(),
                other.wf(),
                ok == (forall|j: int| 0 <= j < i ==> convert_elem_kind_spec(
                    self.dtype,
                    #[trigger] self.elems()[j],
                ) == convert_elem_kind_spec(self.dtype, other.elems()[j])),
            decreases n - i,
        {
            proof {
                assert((i + 1) * w <= n * w && i * w == (i as int) * (w as int)) by (nonlinear_arith)
                    requires i < n, w >= 1;
                assert((i + 1) * wo <= n * wo && i * wo == (i as int) * (wo as int))
                    by (nonlinear_arith)
                    requires i < n, wo >= 1;
            }
            let a = read_elem(&self.bytes, i * w, self.dtype);
            let b = read_elem(&other.bytes, i * wo, other.dtype);
            proof {
                assert(self.elems()[i as int] == a);
                assert(other.elems()[i as int] == b);
            }
            let ca = convert_elem_kind(self.dtype, &a);
            let cb = convert_elem_kind(self.dtype, &b);
            if !(ca == cb) {
                ok = false;
            }
            i += 1;
        }
        ok
    }

    /// Element-wise approximate comparison in binary64, under the
    /// tolerance held as binary64 bits.
    pub fn assert_approx_eq_diff(&self, other: &TensorData, tolerance: F64) -> (r: bool)
        requires
            self.wf(),
            other.wf(),
        ensures
            r == approx_holds(*self, *other, tolerance.0),
    {
        if !vec_usize_eq(&self.shape, &other.shape) {
            return false;
        }
        let n = self.num_elements();
        let w = self.dtype.size();
        let wo = other.dtype.size();
        let bl = self.bytes.len();
        let blo = other.bytes.len();
        let mut ok = true;
        let mut i: usize = 0;
        while i < n
            invariant
                i <= n,
                n == numel_of(self.shape@),
                n == numel_of(other.shape@),
                w == width_spec(self.dtype),
                wo == width_spec(other.dtype),
                bl == self.bytes@.len(),
                blo == other.bytes@.len(),
                self.wf(),
                other.wf(),
                ok == (forall|j: int| 0 <= j < i ==> approx_pair_spec(
                    elem_f64b_spec(#[trigger] self.elems()[j]),
                    elem_f64b_spec(other.elems()[j]),
                    tolerance.0,
                )),
            decreases n - i,
        {
            proof {
                assert((i + 1) * w <= n * w && i * w == (i as int) * (w as int)) by (nonlinear_arith)
                    requires i < n, w >= 1;
                assert((i + 1) * wo <= n * wo && i * wo == (i as int) * (wo as int))
                    by (nonlinear_arith)
                    requires i < n, wo >= 1;
            }
            let a = read_elem(&self.bytes, i * w, self.dtype);
            let b = read_elem(&other.bytes, i * wo, other.dtype);
            proof {
                assert(self.elems()[i as int] == a);
                assert(other.elems()[i as int] == b);
            }
            if !approx_pair(elem_f64b(&a), elem_f64b(&b), tolerance.0) {
                ok = false;
            }
            i += 1;
        }
        ok
    }

    /// Element-wise approximate comparison under the tolerance `0.1^precision`.
    pub fn assert_approx_eq(&self, other: &TensorData, precision: usize) -> (r: bool)
        requires
            self.wf(),
            other.wf(),
        ensures
            r == approx_holds(*self, *other, tolerance_spec(precision as nat)),
    {
        self.assert_approx_eq_diff(other, F64(tolerance_bits(precision)))
    }

    /// Whether every element, compared in binary32, lies in the half-open
    /// range from `start` (inclusive) to `end` (exclusive). An element
    /// below the start or at or above the end is rejected; comparisons
    /// against NaN reject nothing.
    pub fn assert_within_range<E: Element>(&self, start: E, end: E) -> (r: bool)
        requires
            self.wf(),
        ensures
            r == {
                let s = <F32 as Element>::of_elem_spec(start.to_elem_spec());
                let e = <F32 as Element>::of_elem_spec(end.to_elem_spec());
                forall|i: int| 0 <= i < self.elems().len() ==> {
                    let x = <F32 as Element>::of_elem_spec(#[trigger] self.elems()[i]);
                    !(f32_lt_spec(x.0, s.0) || f32_ge_spec(x.0, e.0))
                }
            },
    {
        let s: F32 = elem_convert::<E, F32>(start);
        let e: F32 = elem_convert::<E, F32>(end);
        let xs: Vec<F32> = self.iter::<F32>();
        let mut ok = true;
        let mut i: usize = 0;
        let n = xs.len();
        while i < n
            invariant
                i <= n,
                n == self.typed::<F32>().len(),
                xs@ == self.typed::<F32>(),
                s == <F32 as Element>::of_elem_spec(start.to_elem_spec()),
                e == <F32 as Element>::of_elem_spec(end.to_elem_spec()),
                ok == (forall|j: int| 0 <= j < i ==> {
                    let x = <F32 as Element>::of_elem_spec(#[trigger] self.elems()[j]);
                    !(f32_lt_spec(x.0, s.0) || f32_ge_spec(x.0, e.0))
                }),
                self.wf(),
            decreases n - i,
        {
            let x = xs[i];
            if f32_lt(x.0, s.0) || f32_ge(x.0, e.0) {
                ok = false;
            }
            i += 1;
        }
        ok
    }
}

/// Computes the tolerance bits `0.1^p` by repeated binary64
/// multiplication.
pub fn tolerance_bits(p: usize) -> (r: u64)
    ensures
        r == tolerance_spec(p as nat),
{
    let tenth = f64_div(F64_ONE_BITS, F64_TEN_BITS);
    let mut tol: u64 = F64_ONE_BITS;
    let mut i: usize = 0;
    while i < p
        invariant
            i <= p,
            tenth == f64_div_spec(F64_ONE_BITS, F64_TEN_BITS),
            tol == tolerance_spec(i as nat),
        decreases p - i,
    {
        tol = f64_mul(tol, tenth);
        i += 1;
    }
    tol
}

/// Compares two shapes for equality.
pub fn vec_usize_eq(a: &Vec<usize>, b: &Vec<usize>) -> (r: bool)
    ensures
        r == (a@ == b@),
{
    if a.len() != b.len() {
        proof {
            assert(a@.len() != b@.len());
        }
        return false;
    }
    let mut i: usize = 0;
    let n = a.len();
    while i < n
        invariant
            i <= n,
            n == a@.len(),
            n == b@.len(),
            forall|j: int| 0 <= j < i ==> a@[j] == b@[j],
        decreases n - i,
    {
        if a[i] != b[i] {
            return false;
        }
        i += 1;
    }
    proof {
        assert(a@ =~= b@);
    }
    true
}

/// The parameters packed at the tail of a well-formed quantized buffer are
/// the ones its strategy carries: decoding the scale (and, for the affine
/// family, the offset right before it) from the tail gives exactly the
/// parameters of `q_strategy_of`. Together with the contracts of
/// `quantized` and `get_q_params` this says that packing quantization
/// parameters and unpacking them returns the same parameters.
pub proof fn lemma_q_params_match_strategy(d: TensorData)
    requires
        d.wf(),
        d.dtype is QFloat,
    ensures
        ({
            let len = d.bytes@.len() as int;
            &&& <F32 as Element>::of_elem_spec(
                decode_elem(DType::F32, d.bytes@.subrange(len - 4, len)),
            ) == q_strategy_of(d).scale_spec()
            &&& (q_strategy_of(d) is PerTensorAffineInt8 ==> q_strategy_of(d).offset_spec()
                == Some(
                <i8 as Element>::of_elem_spec(
                    decode_elem(DType::I8, d.bytes@.subrange(len - 5, len - 4)),
                ),
            ))
        }),
{
    let len = d.bytes@.len() as int;
    let s4 = d.bytes@.subrange(len - 4, len);
    crate::bytes_le::lemma_le_val_bound(s4);
    crate::element::lemma_pow256_values();
    assert(s4.len() == 4);
    assert(le_val(s4) < 0x1_0000_0000);
    if q_strategy_of(d) is PerTensorAffineInt8 {
        let s1 = d.bytes@.subrange(len - 5, len - 4);
        crate::bytes_le::lemma_le_val_bound(s1);
        assert(s1.len() == 1);
        assert(le_val(s1) < 0x100);
        let x = le_val(s1) as u64;
        assert(x as u8 as i8 as i64 as i8 == x as u8 as i8) by (bit_vector);
    }
}

/// Extraction inverts construction: a buffer whose stored values are
/// exactly `values`, each wrapped under its own dtype, yields `values`
/// again when read back as `E`. Together with the contracts of `new`,
/// `into_vec` and `iter` this says that `new(values, shape)` followed by
/// `into_vec` or by `iter` returns the truncated `values` unchanged.
pub proof fn lemma_store_extract_roundtrip<E: Element>(d: TensorData, values: Seq<E>)
    requires
        d.elems() == values.map_values(|v: E| v.to_elem_spec()),
    ensures
        d.typed::<E>() == values,
{
    assert forall|i: int| 0 <= i < values.len() implies d.typed::<E>()[i] == values[i] by {
        values[i].lemma_identity();
    }
    assert(d.typed::<E>() =~= values);
}

/// For every non-quantized buffer the element count equals the byte length
/// divided by the dtype's width.
pub proof fn lemma_numel_bytes(d: TensorData)
    requires
        d.wf(),
        !(d.dtype is QFloat),
    ensures
        numel_of(d.shape@) == d.bytes@.len() as int / width_spec(d.dtype) as int,
{
    let n = numel_of(d.shape@);
    let w = width_spec(d.dtype);
    assert(d.bytes@.len() == n * w);
    assert(w >= 1);
    assert((n * w) as int / w as int == n) by (nonlinear_arith)
        requires w >= 1;
}

/// Conversion is idempotent: converting the stored values to `E` a second
/// time maps every value to itself, so a second `convert` to the same
/// element type returns its input unchanged.
pub proof fn lemma_convert_idempotent<E: Element>(es: Seq<Elem>)
    ensures
        es.map_values(|e: Elem| E::of_elem_spec(e).to_elem_spec()).map_values(
            |e: Elem| E::of_elem_spec(e).to_elem_spec(),
        ) == es.map_values(|e: Elem| E::of_elem_spec(e).to_elem_spec()),
{
    let once = es.map_values(|e: Elem| E::of_elem_spec(e).to_elem_spec());
    let twice = once.map_values(|e: Elem| E::of_elem_spec(e).to_elem_spec());
    assert forall|i: int| 0 <= i < once.len() implies twice[i] == once[i] by {
        E::of_elem_spec(es[i]).lemma_identity();
    }
    assert(twice =~= once);
}

} // verus!
