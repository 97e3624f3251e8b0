use basics::primitives::{analyze_slice, reverse, safe_get, sum, transpose, Matrix};

#[test]
fn reverse_tuple_of_tuples() {
    let t = ((1u8, 2u16, 2u32), (4u64, -1i8), -2i16);
    assert_eq!(reverse(t), (-2i16, (4u64, -1i8), (1u8, 2u16, 2u32)));
}

#[test]
fn sum_of_ten_and_twenty() {
    assert_eq!(sum(10, 20), 30);
    assert_eq!(sum(i32::MAX, i32::MIN), -1);
}

#[test]
fn transpose_swaps_off_diagonal() {
    let m = Matrix(1.1f32, 1.2, 2.1, 2.2);
    assert_eq!(transpose(m), Matrix(1.1f32, 2.1, 1.2, 2.2));
}

#[test]
fn transpose_twice_is_identity() {
    let m = Matrix(1.1f32, 1.2, 2.1, 2.2);
    assert_eq!(transpose(transpose(m)), m);
}

#[test]
fn analyze_slices() {
    let xs: [i32; 5] = [1, 2, 3, 4, 5];
    assert_eq!(analyze_slice(&xs), (1, 5, 5));
    let ys: [i32; 50] = [10; 50];
    assert_eq!(analyze_slice(&ys[1..4]), (10, 10, 3));
    assert_eq!(analyze_slice(&[7]), (7, 7, 1));
}

#[test]
fn safe_indexing() {
    let xs: [i32; 5] = [1, 2, 3, 4, 5];
    for i in 0..xs.len() {
        assert_eq!(safe_get(&xs, i), Some(xs[i]));
    }
    assert_eq!(safe_get(&xs, 5), None);
    assert_eq!(safe_get(&[], 0), None);
}
