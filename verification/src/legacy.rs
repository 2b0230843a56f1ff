//! The deprecated strongly-typed predecessor of [`crate::data::TensorData`],
//! kept for migration: a typed value vector with a shape, and its
//! serializable form, both convertible into the byte-backed structure.

use vstd::prelude::*;

use crate::data::{approx_pair_spec, approx_pair, numel, numel_of, shape_ok,
    tolerance_bits, tolerance_spec, vec_usize_eq, TensorData};
use crate::element::{elem_convert, elem_f64b, elem_f64b_spec, Elem, Element};
use crate::dtype::width_spec;
use crate::fbits::{f32_ge, f32_ge_spec, f32_lt, f32_lt_spec, F32, F64};

verus! {

/// The shape of a tensor: its dimensions in order.
#[derive(Clone, PartialEq, Eq, Debug)]
pub struct Shape {
    /// The sizes of each dimension.
    pub dims: Vec<usize>,
}

impl Shape {
    pub fn new(dims: Vec<usize>) -> (r: Shape)
        ensures
            r.dims == dims,
    {
        Shape { dims }
    }

    /// Total element count: the product of all dimensions.
    pub fn num_elements(&self) -> (n: usize)
        requires
            shape_ok(self.dims@),
        ensures
            n == numel_of(self.dims@),
    {
        numel(&self.dims)
    }
}

/// Deprecated data structure for tensors: the values as a typed vector.
#[derive(Clone, PartialEq, Eq, Debug)]
pub struct Data<E, const D: usize> {
    /// The values of the tensor.
    pub value: Vec<E>,
    /// The shape of the tensor.
    pub shape: Shape,
}

/// Deprecated data structure for serializing and deserializing tensor data.
#[derive(Clone, PartialEq, Eq, Debug)]
pub struct DataSerialize<E> {
    /// The values of the tensor.
    pub value: Vec<E>,
    /// The shape of the tensor.
    pub shape: Vec<usize>,
}

impl<E: Element, const D: usize> Data<E, D> {
    pub fn new(value: Vec<E>, shape: Shape) -> (r: Data<E, D>)
        ensures
            r.value == value,
            r.shape == shape,
    {
        Data { value, shape }
    }

    /// Converts the data to a different element type.
    pub fn convert<EOther: Element>(self) -> (r: Data<EOther, D>)
        ensures
            r.shape == self.shape,
            r.value@ == self.value@.map_values(
                |v: E| EOther::of_elem_spec(v.to_elem_spec()),
            ),
    {
        let n = self.value.len();
        let mut out: Vec<EOther> = Vec::new();
        let mut i: usize = 0;
        while i < n
            invariant
                i <= n,
                n == self.value@.len(),
                out@ == self.value@.take(i as int).map_values(
                    |v: E| EOther::of_elem_spec(v.to_elem_spec()),
                ),
            decreases n - i,
        {
            out.push(elem_convert::<E, EOther>(self.value[i]));
            proof {
                assert(out@ =~= self.value@.take(i + 1).map_values(
                    |v: E| EOther::of_elem_spec(v.to_elem_spec()),
                ));
            }
            i += 1;
        }
        proof {
            assert(self.value@.take(n as int) =~= self.value@);
        }
        Data { value: out, shape: self.shape }
    }

    /// Populates the data with zeros (the conversion of the integer 0).
    pub fn zeros(shape: Shape) -> (r: Data<E, D>)
        requires
            shape_ok(shape.dims@),
        ensures
            r.shape == shape,
            r.value@ == Seq::new(numel_of(shape.dims@), |i: int| E::of_elem_spec(Elem::I64(0))),
    {
        Self::full(shape, elem_convert::<i64, E>(0))
    }

    /// Populates the data with ones (the conversion of the integer 1).
    pub fn ones(shape: Shape) -> (r: Data<E, D>)
        requires
            shape_ok(shape.dims@),
        ensures
            r.shape == shape,
            r.value@ == Seq::new(numel_of(shape.dims@), |i: int| E::of_elem_spec(Elem::I64(1))),
    {
        Self::full(shape, elem_convert::<i64, E>(1))
    }

    /// Populates the data with the given value.
    pub fn full(shape: Shape, fill_value: E) -> (r: Data<E, D>)
        requires
            shape_ok(shape.dims@),
        ensures
            r.shape == shape,
            r.value@ == Seq::new(numel_of(shape.dims@), |i: int| fill_value),
    {
        let n = shape.num_elements();
        let mut value: Vec<E> = Vec::new();
        let mut i: usize = 0;
        while i < n
            invariant
                i <= n,
                value@.len() == i,
                forall|j: int| 0 <= j < i ==> value@[j] == fill_value,
            decreases n - i,
        {
            value.push(fill_value);
            i += 1;
        }
        proof {
            assert(value@ =~= Seq::new(numel_of(shape.dims@), |i: int| fill_value));
        }
        Data { value, shape }
    }

    /// Serializes the data.
    pub fn serialize(&self) -> (r: DataSerialize<E>)
        ensures
            r.value@ == self.value@,
            r.shape@ == self.shape.dims@,
    {
        let n = self.value.len();
        let mut value: Vec<E> = Vec::new();
        let mut i: usize = 0;
        while i < n
            invariant
                i <= n,
                n == self.value@.len(),
                value@ == self.value@.take(i as int),
            decreases n - i,
        {
            value.push(self.value[i]);
            proof {
                assert(value@ =~= self.value@.take(i + 1));
            }
            i += 1;
        }
        let mut shape: Vec<usize> = Vec::new();
        let m = self.shape.dims.len();
        let mut j: usize = 0;
        while j < m
            invariant
                j <= m,
                m == self.shape.dims@.len(),
                shape@ == self.shape.dims@.take(j as int),
            decreases m - j,
        {
            shape.push(self.shape.dims[j]);
            proof {
                assert(shape@ =~= self.shape.dims@.take(j + 1));
            }
            j += 1;
        }
        proof {
            assert(self.value@.take(n as int) =~= self.value@);
            assert(self.shape.dims@.take(m as int) =~= self.shape.dims@);
        }
        DataSerialize { value, shape }
    }

    /// Element-wise approximate comparison under the tolerance
    /// `0.1^precision`; see [`Self::assert_approx_eq_diff`].
    pub fn assert_approx_eq(&self, other: &Data<E, D>, precision: usize) -> (r: bool)
        ensures
            r == data_approx_holds(
                self.value@.map_values(|v: E| v.to_elem_spec()),
                other.value@.map_values(|v: E| v.to_elem_spec()),
                self.shape.dims@ == other.shape.dims@,
                tolerance_spec(precision as nat),
            ),
    {
        self.assert_approx_eq_diff(other, F64(tolerance_bits(precision)))
    }

    /// Element-wise approximate comparison in binary64 under a tolerance
    /// held as binary64 bits: shapes must match and every pair of values
    /// must be approximately equal (two NaNs and two like-signed
    /// infinities count as equal).
    pub fn assert_approx_eq_diff(&self, other: &Data<E, D>, tolerance: F64) -> (r: bool)
        ensures
            r == data_approx_holds(
                self.value@.map_values(|v: E| v.to_elem_spec()),
                other.value@.map_values(|v: E| v.to_elem_spec()),
                self.shape.dims@ == other.shape.dims@,
                tolerance.0,
            ),
    {
        let mut ok = vec_usize_eq(&self.shape.dims, &other.shape.dims);
        let n = if self.value.len() < other.value.len() {
            self.value.len()
        } else {
            other.value.len()
        };
        let mut i: usize = 0;
        let ghost a = self.value@.map_values(|v: E| v.to_elem_spec());
        let ghost b = other.value@.map_values(|v: E| v.to_elem_spec());
        while i < n
            invariant
                i <= n,
                n == vstd::math::min(a.len() as int, b.len() as int),
                a == self.value@.map_values(|v: E| v.to_elem_spec()),
                b == other.value@.map_values(|v: E| v.to_elem_spec()),
                ok == ((self.shape.dims@ == other.shape.dims@) && (forall|j: int|
                    0 <= j < i ==> approx_pair_spec(
                        elem_f64b_spec(#[trigger] a[j]),
                        elem_f64b_spec(b[j]),
                        tolerance.0,
                    ))),
            decreases n - i,
        {
            let ea = self.value[i].to_elem();
            let eb = other.value[i].to_elem();
            proof {
                assert(a[i as int] == ea);
                assert(b[i as int] == eb);
            }
            if !approx_pair(elem_f64b(&ea), elem_f64b(&eb), tolerance.0) {
                ok = false;
            }
            i += 1;
        }
        ok
    }

    /// Whether every value, compared in binary32, lies in the half-open
    /// range from `start` (inclusive) to `end` (exclusive).
    pub fn assert_within_range<EOther: Element>(&self, start: EOther, end: EOther) -> (r: bool)
        ensures
            r == {
                let s = <F32 as Element>::of_elem_spec(start.to_elem_spec());
                let e = <F32 as Element>::of_elem_spec(end.to_elem_spec());
                forall|i: int| 0 <= i < self.value@.len() ==> {
                    let x = <F32 as Element>::of_elem_spec(
                        (#[trigger] self.value@[i]).to_elem_spec(),
                    );
                    !(f32_lt_spec(x.0, s.0) || f32_ge_spec(x.0, e.0))
                }
            },
    {
        let s: F32 = elem_convert::<EOther, F32>(start);
        let e: F32 = elem_convert::<EOther, F32>(end);
        let n = self.value.len();
        let mut ok = true;
        let mut i: usize = 0;
        while i < n
            invariant
                i <= n,
                n == self.value@.len(),
                s == <F32 as Element>::of_elem_spec(start.to_elem_spec()),
                e == <F32 as Element>::of_elem_spec(end.to_elem_spec()),
                ok == (forall|j: int| 0 <= j < i ==> {
                    let x = <F32 as Element>::of_elem_spec(
                        (#[trigger] self.value@[j]).to_elem_spec(),
                    );
                    !(f32_lt_spec(x.0, s.0) || f32_ge_spec(x.0, e.0))
                }),
            decreases n - i,
        {
            let x: F32 = elem_convert::<E, F32>(self.value[i]);
            if f32_lt(x.0, s.0) || f32_ge(x.0, e.0) {
                ok = false;
            }
            i += 1;
        }
        ok
    }
}

/// Approximate equality of two legacy value sequences: the shapes matched,
/// and every pair up to the shorter length is approximately equal in
/// binary64.
pub open spec fn data_approx_holds(a: Seq<Elem>, b: Seq<Elem>, shapes_eq: bool, tol: u64) -> bool {
    &&& shapes_eq
    &&& (forall|j: int| 0 <= j < vstd::math::min(a.len() as int, b.len() as int)
        ==> approx_pair_spec(elem_f64b_spec(#[trigger] a[j]), elem_f64b_spec(b[j]), tol))
}

impl<E: Element> DataSerialize<E> {
    pub fn new(value: Vec<E>, shape: Vec<usize>) -> (r: DataSerialize<E>)
        ensures
            r.value == value,
            r.shape == shape,
    {
        DataSerialize { value, shape }
    }

    /// Converts the data to a different element type. A conversion to the
    /// very same element type maps every value to itself.
    pub fn convert<EOther: Element>(self) -> (r: DataSerialize<EOther>)
        ensures
            r.shape == self.shape,
            r.value@ == self.value@.map_values(
                |v: E| EOther::of_elem_spec(v.to_elem_spec()),
            ),
    {
        let n = self.value.len();
        let mut out: Vec<EOther> = Vec::new();
        let mut i: usize = 0;
        while i < n
            invariant
                i <= n,
                n == self.value@.len(),
                out@ == self.value@.take(i as int).map_values(
                    |v: E| EOther::of_elem_spec(v.to_elem_spec()),
                ),
            decreases n - i,
        {
            out.push(elem_convert::<E, EOther>(self.value[i]));
            proof {
                assert(out@ =~= self.value@.take(i + 1).map_values(
                    |v: E| EOther::of_elem_spec(v.to_elem_spec()),
                ));
            }
            i += 1;
        }
        proof {
            assert(self.value@.take(n as int) =~= self.value@);
        }
        DataSerialize { value: out, shape: self.shape }
    }

    /// Converts the data to the new [`TensorData`] format.
    pub fn into_tensor_data(self) -> (r: TensorData)
        requires
            shape_ok(self.shape@),
            numel_of(self.shape@) <= self.value@.len(),
            numel_of(self.shape@) * width_spec(E::dtype_spec()) <= usize::MAX,
        ensures
            r.wf(),
            r.dtype == E::dtype_spec(),
            r.shape@ == self.shape@,
            r.elems() == self.value@.take(numel_of(self.shape@) as int).map_values(
                |v: E| v.to_elem_spec(),
            ),
    {
        TensorData::new(self.value, self.shape)
    }
}

} // verus!
