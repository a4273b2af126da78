//! Exact tests on the crate's own integer scalar: the wrapping ring on
//! `i64` makes every expected value computable by hand.

use satellite_simulator::algebra::{vec_add, vec_dot, vec_min, vec_scale, vec_sub, DenseMatrix};
use satellite_simulator::math::Math;
use satellite_simulator::scalar::Scalar;
use satellite_simulator::schedule::{ModeId, ModeSchedule};
use satellite_simulator::state::StateVector;
use satellite_simulator::states::{PositionVelocityCovarianceStateLvlh, PositionVelocityStateEci};

#[test]
fn integer_scalar_ring_operations() {
    assert_eq!(Scalar::add(3i64, 4i64), 7);
    assert_eq!(Scalar::sub(3i64, 10i64), -7);
    assert_eq!(Scalar::mul(6i64, -7i64), -42);
    assert_eq!(Scalar::add(i64::MAX, 1), i64::MIN);
    assert_eq!(Scalar::sub(i64::MIN, 1), i64::MAX);
    assert_eq!(<i64 as Scalar>::zero(), 0);
    assert_eq!(<i64 as Scalar>::one(), 1);
    assert_eq!(<i64 as Scalar>::from_usize(42), 42);
    assert!(Scalar::lt(1i64, 2i64));
    assert!(!Scalar::lt(2i64, 2i64));
    assert!(Scalar::le(2i64, 2i64));
}

#[test]
fn integer_scalar_division_is_total() {
    assert_eq!(Scalar::div(7i64, 2i64), 3);
    assert_eq!(Scalar::div(-7i64, 2i64), -3);
    assert_eq!(Scalar::div(7i64, -2i64), -3);
    assert_eq!(Scalar::div(-7i64, -2i64), 3);
    assert_eq!(Scalar::div(5i64, 0i64), 0);
    assert_eq!(Scalar::div(i64::MIN, -1i64), 0);
}

#[test]
fn vector_operations_are_elementwise() {
    let a: Vec<i64> = vec![1, -2, 3];
    let b: Vec<i64> = vec![10, 20, 30];
    assert_eq!(vec_add(&a, &b), vec![11, 18, 33]);
    assert_eq!(vec_sub(&b, &a), vec![9, 22, 27]);
    assert_eq!(vec_scale(&a, 5), vec![5, -10, 15]);
    assert_eq!(vec_dot(&a, &b), 1 * 10 - 2 * 20 + 3 * 30);
    assert_eq!(vec_min(&vec![4i64, -1, 7, -1, 9]), -1);
}

#[test]
fn matrix_products_and_minima() {
    let a = DenseMatrix::new(2, 3, vec![1i64, 2, 3, 4, 5, 6]);
    let x: Vec<i64> = vec![1, 0, -1];
    assert_eq!(a.matvec(&x), vec![1 - 3, 4 - 6]);
    let y: Vec<i64> = vec![1, 1];
    assert_eq!(a.vecmat(&y), vec![5, 7, 9]);

    let t = a.transpose();
    assert_eq!(t.rows, 3);
    assert_eq!(t.cols, 2);
    assert_eq!(t.data, vec![1, 4, 2, 5, 3, 6]);

    let b = DenseMatrix::new(3, 2, vec![7i64, 8, 9, 10, 11, 12]);
    let p = a.mat_mul(&b);
    assert_eq!(p.rows, 2);
    assert_eq!(p.cols, 2);
    assert_eq!(p.data, vec![58, 64, 139, 154]);

    let s = a.mat_add(&a);
    assert_eq!(s.data, vec![2, 4, 6, 8, 10, 12]);
    let d = s.mat_sub(&a);
    assert_eq!(d.data, a.data);

    let o = DenseMatrix::outer(&vec![1i64, 2], &vec![3i64, 4, 5]);
    assert_eq!(o.data, vec![3, 4, 5, 6, 8, 10]);

    let m = DenseMatrix::new(2, 2, vec![5i64, -3, 2, 9]);
    assert_eq!(m.min_entry(), -3);
    assert_eq!(m.row_min(1), 2);
}

#[test]
fn cross_product_and_normalisation() {
    let a: Vec<i64> = vec![1, 2, 3];
    let b: Vec<i64> = vec![4, 5, 6];
    assert_eq!(Math::cross_product(&a, &b), vec![-3, 6, -3]);

    // Division by the squared length, truncating on integers.
    let v: Vec<i64> = vec![2, 0, 0];
    assert_eq!(Math::normalize(&v), vec![0, 0, 0]);
    let w: Vec<i64> = vec![1, 0, 0];
    assert_eq!(Math::normalize(&w), vec![1, 0, 0]);
}

#[test]
fn integer_state_round_trip_and_covariance_packing() {
    let st = PositionVelocityStateEci::form_from_array(vec![1i64, 2, 3, 4, 5, 6]);
    assert_eq!(st.get_vector(), &vec![1i64, 2, 3, 4, 5, 6]);

    // A symmetric covariance survives packing and unpacking unchanged.
    let mut data: Vec<i64> = vec![0; 36];
    for i in 0..6 {
        for j in 0..6 {
            data[i * 6 + j] = (i * j + i + j) as i64;
        }
    }
    let p = DenseMatrix::new(6, 6, data.clone());
    let packed = PositionVelocityCovarianceStateLvlh::form_from_list(
        [1i64, 2, 3, 4, 5, 6],
        [7, 8, 9, 10, 11, 12],
        p,
    );
    assert_eq!(packed.get_vector().len(), 33);
    assert_eq!(packed.get_mu_x().get_vector(), &vec![1i64, 2, 3, 4, 5, 6]);
    assert_eq!(packed.get_est_x().get_vector(), &vec![7i64, 8, 9, 10, 11, 12]);
    let unpacked = packed.get_covariance_matrix();
    assert_eq!(unpacked.data, data);
}

#[test]
fn mode_schedule_totality_on_its_window() {
    let schedule = ModeSchedule::new(3, 7, &vec![
        ModeId::new(0),
        ModeId::new(1),
        ModeId::new(2),
        ModeId::new(3),
    ]);
    for t in 3..7 {
        assert_eq!(schedule.get(t), Some(ModeId::new(t - 3)));
    }
    assert_eq!(schedule.get(2), None);
    assert_eq!(schedule.get(7), None);
}
