use rand::rngs::StdRng;
use rand::{Rng, SeedableRng};
use tensor_data::{
    elem_convert, AffineQuantization, DType, DataError, Element, QuantizationScheme,
    QuantizationStrategy, QuantizationType, SymmetricQuantization, TensorData, F16, F32, F64,
};

fn f32v(values: &[f32]) -> Vec<F32> {
    values.iter().map(|x| F32(x.to_bits())).collect()
}

fn f64v(values: &[f64]) -> Vec<F64> {
    values.iter().map(|x| F64(x.to_bits())).collect()
}

fn random_f32(n: usize) -> Vec<F32> {
    let mut rng = StdRng::from_entropy();
    (0..n).map(|_| F32(rng.gen::<f32>().to_bits())).collect()
}

#[test]
fn into_vec_should_yield_same_value_as_iter() {
    let data = TensorData::new(random_f32(3 * 5 * 6), vec![3, 5, 6]);

    let expected = data.iter::<F32>();
    let actual = data.into_vec::<F32>().unwrap();

    assert_eq!(expected, actual);
}

#[test]
fn into_vec_should_assert_wrong_dtype() {
    let data = TensorData::new(random_f32(3 * 5 * 6), vec![3, 5, 6]);

    assert!(matches!(data.into_vec::<i32>(), Err(DataError::TypeMismatch)));
}

#[test]
fn should_have_right_num_elements() {
    let num_elements = 3 * 5 * 6;
    let data = TensorData::new(random_f32(num_elements), vec![3, 5, 6]);

    assert_eq!(num_elements, data.num_elements());
    assert_eq!(num_elements, data.bytes.len() / 4); // f32 stored as u8s
    assert_eq!(num_elements, data.as_slice::<F32>().unwrap().len());
}

#[test]
fn should_have_right_shape() {
    let data = TensorData::new(f64v(&[3.0, 5.0, 6.0]), vec![1, 3]);
    assert_eq!(data.shape, vec![1, 3]);

    let data = TensorData::new(f64v(&[4.0, 5.0, 8.0, 3.0, 5.0, 6.0]), vec![2, 3]);
    assert_eq!(data.shape, vec![2, 3]);

    let data = TensorData::new(f64v(&[3.0, 5.0, 6.0]), vec![3]);
    assert_eq!(data.shape, vec![3]);
}

#[test]
fn should_assert_appox_eq_limit() {
    let data1 = TensorData::new(f64v(&[3.0, 5.0, 6.0]), vec![1, 3]);
    let data2 = TensorData::new(f64v(&[3.01, 5.0, 6.0]), vec![1, 3]);

    assert!(data1.assert_approx_eq(&data2, 2));
}

#[test]
fn should_assert_appox_eq_above_limit() {
    let data1 = TensorData::new(f64v(&[3.0, 5.0, 6.0]), vec![1, 3]);
    let data2 = TensorData::new(f64v(&[3.011, 5.0, 6.0]), vec![1, 3]);

    assert!(!data1.assert_approx_eq(&data2, 2));
}

#[test]
fn should_assert_appox_eq_check_shape() {
    let data1 = TensorData::new(f64v(&[3.0, 5.0, 6.0, 7.0]), vec![1, 4]);
    let data2 = TensorData::new(f64v(&[3.0, 5.0, 6.0]), vec![1, 3]);

    assert!(!data1.assert_approx_eq(&data2, 2));
}

#[test]
fn should_convert_bytes_correctly() {
    let mut vector: Vec<F32> = Vec::with_capacity(5);
    vector.push(F32(2.0f32.to_bits()));
    vector.push(F32(3.0f32.to_bits()));
    let data1 = TensorData::new(vector, vec![2]);

    let factor = 4; // f32 stored as u8s
    assert_eq!(data1.bytes.len(), 2 * factor);
    assert_eq!(data1.bytes.capacity(), 5 * factor);
}

#[test]
fn should_convert_bytes_correctly_inplace() {
    fn test_precision<E: Element>() {
        let data = TensorData::new((0..32).collect::<Vec<i32>>(), vec![32]);
        for (i, val) in data
            .clone()
            .convert::<E>()
            .into_vec::<E>()
            .unwrap()
            .into_iter()
            .enumerate()
        {
            assert_eq!(i as u32, elem_convert::<E, u32>(val));
        }
    }
    test_precision::<F32>();
    test_precision::<F16>();
    test_precision::<i64>();
    test_precision::<i32>();
}

#[test]
fn should_pack_unpack_quantization_parameters_symmetric() {
    let scale = F32(0.03937008f32.to_bits());
    // Quantized [[0.0, 1.0, 2.0], [3.0, 4.0, 5.0]]
    let data = TensorData::quantized(
        vec![0i8, 25, 51, 76, 102, 127],
        vec![2, 3],
        QuantizationStrategy::PerTensorSymmetricInt8(SymmetricQuantization::init(scale)),
    );

    let qparams = data.get_q_params::<F32, i8>().unwrap();

    assert_eq!(qparams.scale, scale);
    assert_eq!(qparams.offset, None);
}

#[test]
fn should_pack_unpack_quantization_parameters_affine() {
    let scale = F32(0.019607844f32.to_bits());
    let offset = -128;
    // Quantized [[0.0, 1.0, 2.0], [3.0, 4.0, 5.0]]
    let data = TensorData::quantized(
        vec![-128i8, -77, -26, 25, 76, 127],
        vec![2, 3],
        QuantizationStrategy::PerTensorAffineInt8(AffineQuantization::init(scale, offset)),
    );
    let qparams = data.get_q_params::<F32, i8>().unwrap();

    assert_eq!(qparams.scale, scale);
    assert_eq!(qparams.offset, Some(offset));
}

#[test]
fn should_not_return_q_params() {
    let data = TensorData::new(f64v(&[3.0, 5.0, 6.0, 7.0]), vec![1, 4]);
    assert!(data.get_q_params::<F32, i8>().is_none());
}

#[test]
fn should_not_dequantize() {
    let data = TensorData::new(f64v(&[3.0, 5.0, 6.0, 7.0]), vec![1, 4]);
    assert!(matches!(data.dequantize(), Err(DataError::TypeMismatch)));
}

#[test]
fn should_support_dequantize() {
    // Quantized [[0.0, 1.0, 2.0], [3.0, 4.0, 5.0]]
    let data = TensorData::quantized(
        vec![-128i8, -77, -26, 25, 76, 127],
        vec![2, 3],
        QuantizationStrategy::PerTensorAffineInt8(AffineQuantization::init(
            F32(0.019607844f32.to_bits()),
            -128,
        )),
    );

    let output = data.dequantize().unwrap();

    let expected = TensorData::new(f64v(&[0.0, 1.0, 2.0, 3.0, 4.0, 5.0]), vec![2, 3]);
    assert!(output.assert_approx_eq(&expected, 4));
}

#[test]
fn quantize_affine_should_yield_expected_codes() {
    let data = TensorData::new(f32v(&[0.0, 1.0, 2.0, 3.0, 4.0, 5.0]), vec![2, 3]);
    let quantized = data.with_quantization(QuantizationStrategy::PerTensorAffineInt8(
        AffineQuantization::init(F32(0.019607844f32.to_bits()), -128),
    ));

    assert_eq!(quantized.dtype, DType::QFloat(QuantizationScheme::PerTensorAffine(
        QuantizationType::QInt8,
    )));
    assert_eq!(quantized.iter::<i8>(), vec![-128, -77, -26, 25, 76, 127]);
}

#[test]
fn quantize_dequantize_round_trip_within_tolerance() {
    let original = TensorData::new(f32v(&[0.0, 1.0, 2.0, 3.0, 4.0, 5.0]), vec![2, 3]);
    let quantized = original.clone().with_quantization(
        QuantizationStrategy::PerTensorAffineInt8(AffineQuantization::init(
            F32(0.019607844f32.to_bits()),
            -128,
        )),
    );

    let restored = quantized.dequantize().unwrap();

    assert!(restored.assert_approx_eq_diff(&original, F64(1.0e-4f64.to_bits())));
}

#[test]
fn quantize_symmetric_should_yield_expected_codes() {
    let data = TensorData::new(f32v(&[0.0, 1.0, 2.0, 3.0, 4.0, 5.0]), vec![2, 3]);
    let quantized = data.with_quantization(QuantizationStrategy::PerTensorSymmetricInt8(
        SymmetricQuantization::init(F32(0.03937008f32.to_bits())),
    ));

    assert_eq!(quantized.iter::<i8>(), vec![0, 25, 51, 76, 102, 127]);
}

#[test]
fn within_range_accepts_start_rejects_end() {
    let data = TensorData::new(f32v(&[0.0, 1.0, 1.99]), vec![3]);
    assert!(data.assert_within_range(F32(0.0f32.to_bits()), F32(2.0f32.to_bits())));

    let with_end = TensorData::new(f32v(&[0.0, 2.0]), vec![2]);
    assert!(!with_end.assert_within_range(F32(0.0f32.to_bits()), F32(2.0f32.to_bits())));

    let below_start = TensorData::new(f32v(&[-0.5, 1.0]), vec![2]);
    assert!(!below_start.assert_within_range(F32(0.0f32.to_bits()), F32(2.0f32.to_bits())));
}

#[test]
fn approx_eq_diff_treats_nan_and_infinities() {
    let nan1 = TensorData::new(f64v(&[f64::NAN]), vec![1]);
    let nan2 = TensorData::new(f64v(&[f64::NAN]), vec![1]);
    assert!(nan1.assert_approx_eq_diff(&nan2, F64(1.0e-8f64.to_bits())));

    let inf1 = TensorData::new(f64v(&[f64::INFINITY]), vec![1]);
    let inf2 = TensorData::new(f64v(&[f64::INFINITY]), vec![1]);
    assert!(inf1.assert_approx_eq_diff(&inf2, F64(1.0e-8f64.to_bits())));

    let neg_inf = TensorData::new(f64v(&[f64::NEG_INFINITY]), vec![1]);
    assert!(!inf1.assert_approx_eq_diff(&neg_inf, F64(1.0e-8f64.to_bits())));

    let number = TensorData::new(f64v(&[1.0]), vec![1]);
    assert!(!nan1.assert_approx_eq_diff(&number, F64(1.0e-8f64.to_bits())));
}

#[test]
fn assert_eq_dispatches_on_dtype_and_strictness() {
    let ints = TensorData::new(vec![1i32, 2, 3], vec![3]);
    let longs = TensorData::new(vec![1i64, 2, 3], vec![3]);

    // strict: dtypes differ
    assert!(!ints.assert_eq(&longs, true));
    // non-strict: compared in the left dtype after conversion
    assert!(ints.assert_eq(&longs, false));

    let other = TensorData::new(vec![1i32, 2, 4], vec![3]);
    assert!(!ints.assert_eq(&other, false));
}

#[test]
fn assert_eq_compares_quantized_codes_and_schemes() {
    let affine = QuantizationStrategy::PerTensorAffineInt8(AffineQuantization::init(
        F32(0.019607844f32.to_bits()),
        -128,
    ));
    let symmetric = QuantizationStrategy::PerTensorSymmetricInt8(SymmetricQuantization::init(
        F32(0.019607844f32.to_bits()),
    ));

    let a = TensorData::quantized(vec![1i8, 2, 3], vec![3], affine);
    let b = TensorData::quantized(vec![1i8, 2, 3], vec![3], affine);
    let c = TensorData::quantized(vec![1i8, 2, 3], vec![3], symmetric);
    let plain = TensorData::new(vec![1i8, 2, 3], vec![3]);

    assert!(a.assert_eq(&b, false));
    assert!(!a.assert_eq(&c, false));
    assert!(!a.assert_eq(&plain, false));
}

#[test]
fn constructors_fill_expected_values() {
    let zeros = TensorData::zeros::<i32>(vec![2, 2]);
    assert_eq!(zeros.into_vec::<i32>().unwrap(), vec![0, 0, 0, 0]);

    let ones = TensorData::ones::<F32>(vec![3]);
    assert_eq!(ones.into_vec::<F32>().unwrap(), f32v(&[1.0, 1.0, 1.0]));

    let full = TensorData::full(vec![2], 7i64);
    assert_eq!(full.into_vec::<i64>().unwrap(), vec![7, 7]);
}

#[test]
fn new_truncates_overlong_input() {
    let data = TensorData::new(vec![1i32, 2, 3, 4, 5], vec![3]);
    assert_eq!(data.into_vec::<i32>().unwrap(), vec![1, 2, 3]);
}

#[test]
fn convert_should_be_idempotent() {
    let data = TensorData::new(vec![1i32, -2, 3], vec![3]);
    let once = data.clone().convert::<F64>();
    let twice = data.convert::<F64>().convert::<F64>();

    assert_eq!(once.dtype, DType::F64);
    assert_eq!(once, twice);
}

#[test]
fn convert_covers_every_stored_kind() {
    // one element of each dtype, converted to i64 and back-checked
    assert_eq!(TensorData::new(vec![5i8], vec![1]).iter::<i64>(), vec![5]);
    assert_eq!(TensorData::new(vec![5i16], vec![1]).iter::<i64>(), vec![5]);
    assert_eq!(TensorData::new(vec![5u8], vec![1]).iter::<i64>(), vec![5]);
    assert_eq!(TensorData::new(vec![5u32], vec![1]).iter::<i64>(), vec![5]);
    assert_eq!(TensorData::new(vec![5u64], vec![1]).iter::<i64>(), vec![5]);
    assert_eq!(TensorData::new(vec![true, false], vec![2]).iter::<i64>(), vec![1, 0]);
    assert_eq!(TensorData::new(f32v(&[5.0]), vec![1]).iter::<i64>(), vec![5]);
    assert_eq!(TensorData::new(f64v(&[5.0]), vec![1]).iter::<i64>(), vec![5]);
    let bf = TensorData::new(vec![7i32], vec![1]).convert::<tensor_data::BF16>();
    assert_eq!(bf.iter::<i64>(), vec![7]);
    let h = TensorData::new(vec![7i32], vec![1]).convert::<F16>();
    assert_eq!(h.iter::<u32>(), vec![7]);
    assert_eq!(
        TensorData::new(f32v(&[0.0, 1.5]), vec![2]).iter::<bool>(),
        vec![false, true]
    );
}

#[test]
fn as_bytes_exposes_little_endian_layout() {
    let data = TensorData::new(vec![0x01020304u32], vec![1]);
    assert_eq!(data.as_bytes(), &[0x04, 0x03, 0x02, 0x01]);
}

#[test]
fn empty_shape_is_a_scalar() {
    let data = TensorData::new(vec![42i32], vec![]);
    assert_eq!(data.num_elements(), 1);
    assert_eq!(data.bytes.len(), 4);
    assert_eq!(data.into_vec::<i32>().unwrap(), vec![42]);
}

#[test]
fn zero_sized_dimension_holds_no_elements() {
    let data = TensorData::new(Vec::<i32>::new(), vec![0, 3]);
    assert_eq!(data.num_elements(), 0);
    assert_eq!(data.bytes.len(), 0);
    assert_eq!(data.into_vec::<i32>().unwrap(), Vec::<i32>::new());
}
