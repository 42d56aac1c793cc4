use vec_matrix::IntoVecMatrix;
use vec_matrix::Matrix;
use vec_matrix::VecMatrix;

#[test]
fn from_vec_equals_from_slice_test() {
    let v: Vec<i64> = vec![9, -8, 7, -6, 5, -4];
    let m1 = VecMatrix::from_vec::<()>(v, 3);
    let m2 = VecMatrix::<i64>::from_slice(&[9, -8, 7, -6, 5, -4], 3);
    assert_eq!(m1, m2);
}

#[test]
fn sub_self_is_zero_test() {
    let m1: VecMatrix<i64> = [3, -4, 5, -6].into_vec_matrix(2);
    let m2: VecMatrix<i64> = [3, -4, 5, -6].into_vec_matrix(2);
    assert_eq!(m1.sub_matrix(m2), [0, 0, 0, 0].into_vec_matrix(2));
}

#[test]
fn scalar_add_sub_round_trip_test() {
    let m: VecMatrix<i64> = [5, -6, 7, -8].into_vec_matrix(2);
    let back = m.add_scalar(9).sub_scalar(9);
    assert_eq!(back, [5, -6, 7, -8].into_vec_matrix(2));
}

#[test]
fn scalar_mul_one_is_identity_test() {
    let m: VecMatrix<i64> = [2, -3, 4, -5].into_vec_matrix(2);
    assert_eq!(m.mul_scalar(1), [2, -3, 4, -5].into_vec_matrix(2));
}

#[test]
fn scalar_mul_zero_is_all_zero_test() {
    let m: VecMatrix<i64> = [2, -3, 4, -5].into_vec_matrix(2);
    assert_eq!(m.mul_scalar(0), [0, 0, 0, 0].into_vec_matrix(2));
}

#[test]
fn scalar_mul_div_round_trip_test() {
    let m: VecMatrix<i64> = [-3, 5, -7, 9].into_vec_matrix(2);
    let back = m.mul_scalar(4).div_scalar(4);
    assert_eq!(back, [-3, 5, -7, 9].into_vec_matrix(2));
}

#[test]
fn div_truncates_toward_zero_test() {
    let m: VecMatrix<i64> = [-7, 7, -8, 8].into_vec_matrix(2);
    assert_eq!(m.div_scalar(2), [-3, 3, -4, 4].into_vec_matrix(2));
}

#[test]
fn rem_keeps_dividend_sign_test() {
    let m: VecMatrix<i64> = [-7, 7, -8, 8].into_vec_matrix(2);
    assert_eq!(m.rem_scalar(3), [-1, 1, -2, 2].into_vec_matrix(2));
}

#[test]
fn mul_matrix_is_elementwise_test() {
    let m1: VecMatrix<i64> = [1, 2, 3, 4].into_vec_matrix(2);
    let m2: VecMatrix<i64> = [5, 6, 7, 8].into_vec_matrix(2);
    assert_eq!(m1.mul_matrix(m2), [5, 12, 21, 32].into_vec_matrix(2));
}

#[test]
fn add_matrix_truncates_to_shorter_test() {
    let m1: VecMatrix<i64> = [1, 2, 3, 4].into_vec_matrix(2);
    let m2: VecMatrix<i64> = [10, 20].into_vec_matrix(2);
    let sum = m1.add_matrix(m2);
    assert_eq!(sum.len(), 2);
    assert_eq!(sum.row_len(), 2);
    assert_eq!(sum.into_inner(), vec![11, 22]);
}

#[test]
fn sub_assign_matches_sub_test() {
    let mut lhs: VecMatrix<i64> = [9, 8, 7, 6].into_vec_matrix(2);
    let rhs1: VecMatrix<i64> = [1, 2, 3, 4].into_vec_matrix(2);
    lhs.sub_assign_matrix(rhs1);
    let fresh: VecMatrix<i64> = [9, 8, 7, 6].into_vec_matrix(2);
    let rhs2: VecMatrix<i64> = [1, 2, 3, 4].into_vec_matrix(2);
    assert_eq!(lhs, fresh.sub_matrix(rhs2));
}

#[test]
fn mul_assign_matches_mul_test() {
    let mut lhs: VecMatrix<i64> = [9, 8, 7, 6].into_vec_matrix(2);
    let rhs1: VecMatrix<i64> = [1, 2, 3, 4].into_vec_matrix(2);
    lhs.mul_assign_matrix(rhs1);
    let fresh: VecMatrix<i64> = [9, 8, 7, 6].into_vec_matrix(2);
    let rhs2: VecMatrix<i64> = [1, 2, 3, 4].into_vec_matrix(2);
    assert_eq!(lhs, fresh.mul_matrix(rhs2));
}

#[test]
fn add_assign_scalar_matches_add_scalar_test() {
    let mut lhs: VecMatrix<i64> = [9, -8, 7, -6].into_vec_matrix(2);
    lhs.add_assign_scalar(5);
    let fresh: VecMatrix<i64> = [9, -8, 7, -6].into_vec_matrix(2);
    assert_eq!(lhs, fresh.add_scalar(5));
}

#[test]
fn shape_queries_test() {
    let m: VecMatrix<i64> = [1, 2, 3, 4, 5, 6].into_vec_matrix(2);
    assert_eq!(m.row_len(), 2);
    assert_eq!(m.column_len(), 3);
}

#[test]
fn column_len_truncates_test() {
    let m: VecMatrix<i64> = [1, 2, 3, 4, 5].into_vec_matrix(2);
    assert_eq!(m.column_len(), 2);
}

#[test]
fn get_uses_row_major_mapping_test() {
    let m: VecMatrix<i64> = [10, 20, 30, 40, 50, 60].into_vec_matrix(2);
    // row_len is 2, so column_len is 3 and (i, j) maps to 3 * i + j.
    assert_eq!(*m.get(0, 0), 10);
    assert_eq!(*m.get(0, 2), 30);
    assert_eq!(*m.get(1, 0), 40);
    assert_eq!(*m.get(1, 2), 60);
}

#[test]
fn set_writes_one_cell_test() {
    let mut m: VecMatrix<i64> = [10, 20, 30, 40, 50, 60].into_vec_matrix(2);
    m.set(1, 1, -5);
    assert_eq!(m.into_inner(), vec![10, 20, 30, 40, -5, 60]);
}

#[test]
fn swap_exchanges_two_cells_test() {
    let mut m: VecMatrix<i64> = [1, 2, 3, 4].into_vec_matrix(2);
    m.swap((0, 1), (1, 0));
    assert_eq!(m.into_inner(), vec![1, 3, 2, 4]);
}

#[test]
fn into_inner_returns_elements_in_order_test() {
    let m: VecMatrix<i64> = [4, 3, 2, 1].into_vec_matrix(2);
    assert_eq!(m.len(), 4);
    assert_eq!(m.into_inner(), vec![4, 3, 2, 1]);
}
