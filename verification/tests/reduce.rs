use ddm_core::reduce::transpose;

#[test]
fn transposes_a_rectangular_table() {
    let m: Vec<Vec<i32>> = vec![vec![1, 2, 3], vec![4, 5, 6]];
    let t = transpose(&m);
    assert_eq!(t, vec![vec![1, 4], vec![2, 5], vec![3, 6]]);
}

#[test]
fn transpose_twice_is_identity() {
    let m: Vec<Vec<i32>> = vec![vec![1, 2, 3, 4], vec![5, 6, 7, 8], vec![9, 10, 11, 12]];
    let back = transpose(&transpose(&m));
    assert_eq!(back, m);
}

#[test]
fn transposes_intensity_tables() {
    // A lag-major radial average: rows are lags, columns are radial bins.
    let radial: Vec<Vec<f32>> = vec![vec![0.0, 1.5], vec![2.25, -3.0]];
    let by_bin = transpose(&radial);
    assert_eq!(by_bin, vec![vec![0.0, 2.25], vec![1.5, -3.0]]);
    assert_eq!(transpose(&by_bin), radial);
}

#[test]
fn single_row_becomes_single_column() {
    let m: Vec<Vec<u8>> = vec![vec![7, 8, 9]];
    let t = transpose(&m);
    assert_eq!(t, vec![vec![7], vec![8], vec![9]]);
}
