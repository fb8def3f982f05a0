use aerocore::math_core::matrix::Mat3x3;
use aerocore::math_core::precision::FloatPrecision;
use aerocore::math_core::tensor::SymmetricTensor3;
use aerocore::math_core::vector::Vec3;

type M3 = Mat3x3<f64>;
type V3 = Vec3<f64>;
type ST = SymmetricTensor3<f64>;

#[test]
fn test_identity() {
    let i = M3::identity();
    assert!((i.determinant() - 1.0).abs() < f64::EPSILON);
    assert!((i.trace() - 3.0).abs() < f64::EPSILON);
}

#[test]
fn test_mat3x3_inverse() {
    let m = M3::new(1.0, 2.0, 3.0, 0.0, 1.0, 4.0, 5.0, 6.0, 0.0);
    let inv = m.inverse(f64::EPSILON).expect("Matrix should be invertible");
    let product = m * inv;
    let identity = M3::identity();
    for i in 0..9 {
        assert!(
            (product.data[i] - identity.data[i]).abs() < 1e-10,
            "Element {} differs: {} vs {}",
            i,
            product.data[i],
            identity.data[i]
        );
    }
}

#[test]
fn test_singular_matrix_no_inverse() {
    let m = M3::new(1.0, 2.0, 3.0, 2.0, 4.0, 6.0, 0.0, 0.0, 0.0);
    assert!(m.inverse(f64::EPSILON).is_none());
}

#[test]
fn test_mul_vec() {
    let m = M3::identity();
    let v = V3::new(1.0, 2.0, 3.0);
    let result = m.mul_vec(&v);
    assert!((result.x - 1.0).abs() < f64::EPSILON);
    assert!((result.y - 2.0).abs() < f64::EPSILON);
    assert!((result.z - 3.0).abs() < f64::EPSILON);
}

#[test]
fn test_transpose() {
    let m = M3::new(1.0, 2.0, 3.0, 4.0, 5.0, 6.0, 7.0, 8.0, 9.0);
    let t = m.transpose();
    assert!((t.at(0, 1) - 4.0).abs() < f64::EPSILON);
    assert!((t.at(1, 0) - 2.0).abs() < f64::EPSILON);
}

#[test]
fn test_determinant() {
    let m = M3::new(6.0, 1.0, 1.0, 4.0, -2.0, 5.0, 2.0, 8.0, 7.0);
    assert!((m.determinant() - (-306.0)).abs() < 1e-10);
}

fn generic_add<T: FloatPrecision>(a: T, b: T) -> T {
    a + b
}

#[test]
fn test_generic_usage() {
    let result_f64 = generic_add(1.0_f64, 2.0_f64);
    assert!((result_f64 - 3.0).abs() < f64::EPSILON);

    let result_f32 = generic_add(1.0_f32, 2.0_f32);
    assert!((result_f32 - 3.0).abs() < f32::EPSILON);
}

#[test]
fn test_trace() {
    let t = ST::new(1.0, 2.0, 3.0, 0.0, 0.0, 0.0);
    assert!((t.trace() - 6.0).abs() < f64::EPSILON);
}

#[test]
fn test_isotropic() {
    let t = ST::isotropic(5.0);
    assert!((t.trace() - 15.0).abs() < f64::EPSILON);
    assert!((t.xy - 0.0).abs() < f64::EPSILON);
}

#[test]
fn test_deviatoric_trace_zero() {
    let t = ST::new(10.0, 20.0, 30.0, 1.0, 2.0, 3.0);
    let dev = t.deviatoric();
    assert!(dev.trace().abs() < 1e-12);
}

#[test]
fn test_von_mises_isotropic_is_zero() {
    let t = ST::isotropic(100.0);
    assert!(t.von_mises().abs() < 1e-10);
}

#[test]
fn test_roundtrip_mat3x3() {
    let t = ST::new(1.0, 2.0, 3.0, 4.0, 5.0, 6.0);
    let m = t.to_mat3x3();
    let t2 = ST::from_mat3x3_symmetric(&m);
    assert!((t2.xx - t.xx).abs() < f64::EPSILON);
    assert!((t2.xy - t.xy).abs() < f64::EPSILON);
    assert!((t2.yz - t.yz).abs() < f64::EPSILON);
}

#[test]
fn test_memory_savings() {
    assert_eq!(std::mem::size_of::<ST>(), 6 * std::mem::size_of::<f64>());
}

#[test]
fn test_vec3_dot_product() {
    let a = V3::new(1.0, 2.0, 3.0);
    let b = V3::new(4.0, 5.0, 6.0);
    assert!((a.dot(&b) - 32.0).abs() < f64::EPSILON);
}

#[test]
fn test_vec3_cross_product() {
    let a = V3::unit_x();
    let b = V3::unit_y();
    let c = a.cross(&b);
    assert!((c.x - 0.0).abs() < f64::EPSILON);
    assert!((c.y - 0.0).abs() < f64::EPSILON);
    assert!((c.z - 1.0).abs() < f64::EPSILON);
}

#[test]
fn test_vec3_normalize() {
    let v = V3::new(3.0, 4.0, 0.0);
    let n = v.normalized(f64::EPSILON);
    assert!((n.magnitude() - 1.0).abs() < 1e-14);
    assert!((n.x - 0.6).abs() < 1e-14);
    assert!((n.y - 0.8).abs() < 1e-14);
}

#[test]
fn test_vec3_magnitude() {
    let v = V3::new(1.0, 2.0, 2.0);
    assert!((v.magnitude() - 3.0).abs() < 1e-14);
}

#[test]
fn test_vec3_arithmetic() {
    let a = V3::new(1.0, 2.0, 3.0);
    let b = V3::new(4.0, 5.0, 6.0);

    let sum = a + b;
    assert!((sum.x - 5.0).abs() < f64::EPSILON);

    let diff = b - a;
    assert!((diff.x - 3.0).abs() < f64::EPSILON);

    let scaled = a * 2.0;
    assert!((scaled.x - 2.0).abs() < f64::EPSILON);
}

#[test]
fn test_vec3_lerp() {
    let a = V3::new(0.0, 0.0, 0.0);
    let b = V3::new(10.0, 20.0, 30.0);
    let mid = a.lerp(&b, 0.5);
    assert!((mid.x - 5.0).abs() < f64::EPSILON);
    assert!((mid.y - 10.0).abs() < f64::EPSILON);
}

#[test]
fn test_vec3_zero_normalize() {
    let v = V3::zero();
    let n = v.normalized(f64::EPSILON);
    assert!((n.magnitude() - 0.0).abs() < f64::EPSILON);
}

// ── exact-scalar checks of the stated formulas ──────────────────────────────

#[test]
fn integer_determinant_is_cofactor_expansion() {
    let m = Mat3x3::<i64>::new(6, 1, 1, 4, -2, 5, 2, 8, 7);
    assert_eq!(m.determinant(), -306);
    assert_eq!(Mat3x3::<i64>::identity().trace(), 3);
}

#[test]
fn integer_cross_and_dot() {
    let a = Vec3::<i64>::new(1, 2, 3);
    let b = Vec3::<i64>::new(4, 5, 6);
    assert_eq!(a.dot(&b), 32);
    let c = a.cross(&b);
    assert_eq!((c.x, c.y, c.z), (-3, 6, -3));
    assert_eq!(a.magnitude_squared(), 14);
    let l = a.lerp(&b, 2);
    assert_eq!((l.x, l.y, l.z), (7, 8, 9));
    let s = a.scale(-2);
    assert_eq!((s.x, s.y, s.z), (-2, -4, -6));
    let n = -a;
    assert_eq!((n.x, n.y, n.z), (-1, -2, -3));
}

#[test]
fn integer_matrix_product_and_sum() {
    let a = Mat3x3::<i64>::new(1, 2, 3, 4, 5, 6, 7, 8, 9);
    let b = Mat3x3::<i64>::new(9, 8, 7, 6, 5, 4, 3, 2, 1);
    let p = a * b;
    assert_eq!(p.data, [30, 24, 18, 84, 69, 54, 138, 114, 90]);
    let s = a + b;
    assert_eq!(s.data, [10; 9]);
    let v = a.mul_vec(&Vec3::new(1, 0, -1));
    assert_eq!((v.x, v.y, v.z), (-2, -2, -2));
    assert_eq!(a.scale(2).data, [2, 4, 6, 8, 10, 12, 14, 16, 18]);
    assert_eq!(a.transpose().transpose(), a);
}

#[test]
fn matrix_at_mut_writes_one_entry() {
    let mut m = Mat3x3::<i64>::zero();
    *m.at_mut(1, 2) = 7;
    assert_eq!(m.data, [0, 0, 0, 0, 0, 7, 0, 0, 0]);
    assert_eq!(m.at(1, 2), 7);
}

#[test]
fn integer_tensor_operations() {
    let t = SymmetricTensor3::<i64>::new(1, 2, 3, 4, 5, 6);
    assert_eq!(t.double_contraction(&t), 1 + 4 + 9 + 2 * (16 + 25 + 36));
    let m = t.to_mat3x3();
    assert_eq!(m.data, [1, 4, 5, 4, 2, 6, 5, 6, 3]);
    assert_eq!(m.transpose(), m);
    let s = t.scale(3);
    assert_eq!((s.xx, s.yz), (3, 18));
    assert_eq!(SymmetricTensor3::<i64>::default(), SymmetricTensor3::new(0, 0, 0, 0, 0, 0));
}

#[test]
fn float_min_max_abs_components() {
    let v = V3::new(-3.0, 2.0, 1.0);
    assert_eq!(v.max_component(), 2.0);
    assert_eq!(v.min_component(), -3.0);
    let a = v.abs();
    assert_eq!((a.x, a.y, a.z), (3.0, 2.0, 1.0));
    assert!((M3::identity().frobenius_norm() - 3.0_f64.sqrt()).abs() < 1e-14);
}

#[test]
fn inverse_from_follows_the_threshold() {
    let m = M3::new(1.0, 2.0, 3.0, 0.0, 1.0, 4.0, 5.0, 6.0, 0.0);
    // det = 1: below a threshold of 2 the matrix counts as singular
    assert!(m.inverse_from(1.0, 2.0).is_none());
    let inv = m.inverse_from(1.0, 1e-12).expect("above the threshold");
    assert_eq!(inv.data, m.inverse(f64::EPSILON).unwrap().data);
    assert_eq!(inv.data, [-24.0, 18.0, 5.0, 20.0, -15.0, -4.0, -5.0, 4.0, 1.0]);
}

#[test]
fn frobenius_norm_squared_sums_squares() {
    let m = M3::new(1.0, 2.0, 2.0, 0.0, 0.0, 0.0, 0.0, 0.0, 0.0);
    assert_eq!(m.frobenius_norm_squared(), 9.0);
    assert_eq!(m.frobenius_norm(), 3.0);
}

#[test]
fn von_mises_squared_of_uniaxial_stress() {
    let t = ST::new(3.0, 0.0, 0.0, 0.0, 0.0, 0.0);
    assert_eq!(t.von_mises_squared(), 9.0);
    assert_eq!(t.von_mises(), 3.0);
}

#[test]
fn normalize_with_follows_the_threshold() {
    let v = V3::new(3.0, 0.0, 4.0);
    let u = v.normalize_with(5.0, 1e-12);
    assert_eq!((u.x, u.y, u.z), (0.6, 0.0, 0.8));
    let z = v.normalize_with(5.0, 6.0);
    assert_eq!((z.x, z.y, z.z), (0.0, 0.0, 0.0));
    let n = v.normalized(f64::EPSILON);
    assert_eq!((n.x, n.y, n.z), (0.6, 0.0, 0.8));
}

#[test]
fn identity_is_neutral_for_finite_entries() {
    let a = M3::new(1.5, -2.0, 3.0, 0.25, 7.0, -1.0, 4.0, 0.0, 9.5);
    assert_eq!((a * M3::identity()).data, a.data);
    assert_eq!((M3::identity() * a).data, a.data);
}

#[test]
fn double_contraction_is_symmetric() {
    let a = ST::new(1.0, 2.0, 3.0, 4.0, 5.0, 6.0);
    let b = ST::new(-2.0, 0.5, 1.0, 3.0, -1.0, 2.0);
    assert_eq!(a.double_contraction(&a), 168.0);
    assert_eq!(a.double_contraction(&b), b.double_contraction(&a));
}

#[test]
fn matrix_times_inverse_is_identity() {
    let m = M3::new(2.0, 0.0, 1.0, 1.0, 1.0, 0.0, 0.0, 3.0, 1.0);
    let inv = m.inverse(f64::EPSILON).expect("det is 5");
    let left = m * inv;
    let right = inv * m;
    let id = M3::identity();
    for k in 0..9 {
        assert!((left.data[k] - id.data[k]).abs() < 1e-12);
        assert!((right.data[k] - id.data[k]).abs() < 1e-12);
    }
}

#[test]
fn deviatoric_part_is_idempotent() {
    let t = ST::new(3.0, 6.0, 9.0, 1.0, 2.0, 3.0);
    let d = t.deviatoric();
    let dd = d.deviatoric();
    assert!((dd.xx - d.xx).abs() < 1e-12);
    assert!((dd.yy - d.yy).abs() < 1e-12);
    assert!((dd.zz - d.zz).abs() < 1e-12);
    assert_eq!((dd.xy, dd.xz, dd.yz), (d.xy, d.xz, d.yz));
}

#[test]
fn von_mises_ignores_added_pressure() {
    let t = ST::new(3.0, 0.0, 0.0, 1.0, 0.0, 0.0);
    let shifted = ST::new(3.0 + 4.0, 4.0, 4.0, 1.0, 0.0, 0.0);
    assert!((t.von_mises_squared() - shifted.von_mises_squared()).abs() < 1e-9);
}

#[test]
fn symmetric_part_ignores_transposition() {
    let m = M3::new(1.0, 2.0, 3.0, 4.0, 5.0, 6.0, 7.0, 8.0, 9.0);
    let a = ST::from_mat3x3_symmetric(&m);
    let b = ST::from_mat3x3_symmetric(&m.transpose());
    assert_eq!(a, b);
}

#[test]
fn singular_inverse_decision_uses_the_magnitude() {
    // det = -2: a negative determinant above the threshold in magnitude
    let m = M3::new(0.0, 1.0, 0.0, 1.0, 0.0, 0.0, 0.0, 0.0, 2.0);
    assert!(m.determinant() < 0.0);
    let inv = m.inverse(f64::EPSILON).expect("|det| = 2");
    assert_eq!(inv.data, [0.0, 1.0, 0.0, 1.0, 0.0, 0.0, 0.0, 0.0, 0.5]);
    assert!(m.inverse(2.5).is_none());
}

#[test]
fn components_follow_the_order() {
    let v = V3::new(-3.0, 7.0, 2.0);
    assert_eq!(v.max_component(), 7.0);
    assert_eq!(v.min_component(), -3.0);
    let a = v.abs();
    assert_eq!((a.x, a.y, a.z), (3.0, 7.0, 2.0));
}
