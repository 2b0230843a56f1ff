use tensor_data::{Data, DataSerialize, Shape, F32, F64};

fn f32v(values: &[f32]) -> Vec<F32> {
    values.iter().map(|x| F32(x.to_bits())).collect()
}

#[test]
fn data_convert_maps_every_value() {
    let data: Data<i32, 1> = Data::new(vec![1, 2, 3], Shape::new(vec![3]));
    let converted: Data<F32, 1> = data.convert::<F32>();
    assert_eq!(converted.value, f32v(&[1.0, 2.0, 3.0]));
    assert_eq!(converted.shape.dims, vec![3]);
}

#[test]
fn data_serialize_and_into_tensor_data() {
    let data: Data<i32, 2> = Data::new(vec![1, 2, 3, 4], Shape::new(vec![2, 2]));
    let serialized: DataSerialize<i32> = data.serialize();
    assert_eq!(serialized.value, vec![1, 2, 3, 4]);
    assert_eq!(serialized.shape, vec![2, 2]);

    let tensor = serialized.into_tensor_data();
    assert_eq!(tensor.shape, vec![2, 2]);
    assert_eq!(tensor.into_vec::<i32>().unwrap(), vec![1, 2, 3, 4]);
}

#[test]
fn data_serialize_convert_same_type_is_identity() {
    let s = DataSerialize::new(vec![4i64, 5, 6], vec![3]);
    let t: DataSerialize<i64> = s.convert::<i64>();
    assert_eq!(t.value, vec![4, 5, 6]);
    assert_eq!(t.shape, vec![3]);
}

#[test]
fn data_constructors_fill_expected_values() {
    let zeros: Data<F32, 1> = Data::zeros(Shape::new(vec![2]));
    assert_eq!(zeros.value, f32v(&[0.0, 0.0]));

    let ones: Data<i32, 1> = Data::ones(Shape::new(vec![3]));
    assert_eq!(ones.value, vec![1, 1, 1]);

    let full: Data<i64, 1> = Data::full(Shape::new(vec![2]), 9);
    assert_eq!(full.value, vec![9, 9]);
}

#[test]
fn data_assert_approx_eq_mirrors_tensor_semantics() {
    let a: Data<F64, 2> = Data::new(
        vec![F64(3.0f64.to_bits()), F64(5.0f64.to_bits())],
        Shape::new(vec![1, 2]),
    );
    let b: Data<F64, 2> = Data::new(
        vec![F64(3.01f64.to_bits()), F64(5.0f64.to_bits())],
        Shape::new(vec![1, 2]),
    );
    assert!(a.assert_approx_eq(&b, 2));
    let c: Data<F64, 2> = Data::new(
        vec![F64(3.011f64.to_bits()), F64(5.0f64.to_bits())],
        Shape::new(vec![1, 2]),
    );
    assert!(!a.assert_approx_eq(&c, 2));
}

#[test]
fn data_assert_within_range_is_half_open() {
    let data: Data<F32, 1> = Data::new(f32v(&[0.0, 1.0]), Shape::new(vec![2]));
    assert!(data.assert_within_range(F32(0.0f32.to_bits()), F32(2.0f32.to_bits())));

    let edge: Data<F32, 1> = Data::new(f32v(&[2.0]), Shape::new(vec![1]));
    assert!(!edge.assert_within_range(F32(0.0f32.to_bits()), F32(2.0f32.to_bits())));
}
