use linalg::matrix4x4::Matrix4x4;
use linalg::vector2::Vector2;

fn cells<T: Copy>(m: &Matrix4x4<T>) -> Vec<T> {
    let mut out = Vec::new();
    for row in 0..4 {
        for column in 0..4 {
            out.push(m.get(row, column));
        }
    }
    out
}

fn approx(a: f32, b: f32, epsilon: f32) -> bool {
    (a - b).abs() <= epsilon
}

fn counting() -> Matrix4x4<f32> {
    Matrix4x4::new(
        1.0, 2.0, 3.0, 4.0,
        5.0, 6.0, 7.0, 8.0,
        9.0, 10.0, 11.0, 12.0,
        13.0, 14.0, 15.0, 16.0)
}

fn counting_down() -> Matrix4x4<f32> {
    Matrix4x4::new(
        16.0, 15.0, 14.0, 13.0,
        12.0, 11.0, 10.0, 9.0,
        8.0, 7.0, 6.0, 5.0,
        4.0, 3.0, 2.0, 1.0)
}

#[test]
fn test_orthographic_projection_construction() {
    let orthographic_projection = Matrix4x4::<f32>::orthographic(0.0, 1024.0, 768.0, 0.0, -1.0, 1.0);

    assert!(approx(orthographic_projection[[0, 0]], 0.002, 0.0001));
    assert_eq!(orthographic_projection[[0, 1]], 0.0);
    assert_eq!(orthographic_projection[[0, 2]], 0.0);
    assert_eq!(orthographic_projection[[0, 3]], -1.0);

    assert_eq!(orthographic_projection[[1, 0]], 0.0);
    assert!(approx(orthographic_projection[[1, 1]], -0.003, 0.0004));
    assert_eq!(orthographic_projection[[1, 2]], 0.0);
    assert_eq!(orthographic_projection[[1, 3]], 1.0);

    assert_eq!(orthographic_projection[[2, 0]], 0.0);
    assert_eq!(orthographic_projection[[2, 1]], 0.0);
    assert_eq!(orthographic_projection[[2, 2]], 1.0);
    assert_eq!(orthographic_projection[[2, 3]], 0.0);

    assert_eq!(orthographic_projection[[3, 0]], 0.0);
    assert_eq!(orthographic_projection[[3, 1]], 0.0);
    assert_eq!(orthographic_projection[[3, 2]], 0.0);
    assert_eq!(orthographic_projection[[3, 3]], 1.0);
}

#[test]
fn test_matrix_mul() {
    let matrix_a = Matrix4x4::new(
        1.0, 2.0, 3.0, 4.0,
        5.0, 6.0, 7.0, 8.0,
        9.0, 10.0, 11.0, 12.0,
        13.0, 14.0, 15.0, 16.0);

    let matrix_b = Matrix4x4::new(
        16.0, 15.0, 14.0, 13.0,
        12.0, 11.0, 10.0, 9.0,
        8.0, 7.0, 6.0, 5.0,
        4.0, 3.0, 2.0, 1.0);

    let multiplication_result = matrix_a.mul(matrix_b);

    assert_eq!(multiplication_result[[0, 0]], 80.0);
}

#[test]
fn test_indexing() {
    let matrix_a = Matrix4x4::new(
        1.0, 2.0, 3.0, 4.0,
        5.0, 6.0, 7.0, 8.0,
        9.0, 10.0, 11.0, 12.0,
        13.0, 14.0, 15.0, 16.0);

    let m00 = matrix_a[[0, 0]];
    let m10 = matrix_a[[1, 0]];
    let m20 = matrix_a[[2, 0]];
    let m30 = matrix_a[[3, 0]];

    let m01 = matrix_a[[0, 1]];
    let m11 = matrix_a[[1, 1]];
    let m21 = matrix_a[[2, 1]];
    let m31 = matrix_a[[3, 1]];

    let m02 = matrix_a[[0, 2]];
    let m12 = matrix_a[[1, 2]];
    let m22 = matrix_a[[2, 2]];
    let m32 = matrix_a[[3, 2]];

    let m03 = matrix_a[[0, 3]];
    let m13 = matrix_a[[1, 3]];
    let m23 = matrix_a[[2, 3]];
    let m33 = matrix_a[[3, 3]];

    assert_eq!(m00, 1.0);
    assert_eq!(m10, 5.0);
    assert_eq!(m20, 9.0);
    assert_eq!(m30, 13.0);

    assert_eq!(m01, 2.0);
    assert_eq!(m11, 6.0);
    assert_eq!(m21, 10.0);
    assert_eq!(m31, 14.0);

    assert_eq!(m02, 3.0);
    assert_eq!(m12, 7.0);
    assert_eq!(m22, 11.0);
    assert_eq!(m32, 15.0);

    assert_eq!(m03, 4.0);
    assert_eq!(m13, 8.0);
    assert_eq!(m23, 12.0);
    assert_eq!(m33, 16.0);
}

#[test]
fn product_of_counting_matrices() {
    let product = counting().mul(counting_down());

    assert_eq!(
        cells(&product),
        vec![
            80.0, 70.0, 60.0, 50.0,
            240.0, 214.0, 188.0, 162.0,
            400.0, 358.0, 316.0, 274.0,
            560.0, 502.0, 444.0, 386.0,
        ]
    );
}

#[test]
fn product_is_not_commutative() {
    let ab = counting().mul(counting_down());
    let ba = counting_down().mul(counting());

    assert_eq!(ba[[0, 0]], 386.0);
    assert_ne!(cells(&ab), cells(&ba));
}

#[test]
fn identity_is_neutral_on_both_sides() {
    let m = Matrix4x4::<f32>::new(
        1.5, -2.0, 3.25, 4.0,
        0.0, 6.0, -7.5, 8.0,
        9.0, 10.0, 11.0, -12.0,
        13.0, 0.125, 15.0, 16.0);

    assert_eq!(cells(&m.mul(Matrix4x4::identity())), cells(&m));
    assert_eq!(cells(&Matrix4x4::identity().mul(m)), cells(&m));
}

#[test]
fn identity_has_ones_on_the_diagonal() {
    let id = Matrix4x4::<f32>::identity();

    assert_eq!(
        cells(&id),
        vec![
            1.0, 0.0, 0.0, 0.0,
            0.0, 1.0, 0.0, 0.0,
            0.0, 0.0, 1.0, 0.0,
            0.0, 0.0, 0.0, 1.0,
        ]
    );
}

#[test]
fn default_is_all_zeros() {
    let zero: Matrix4x4<f32> = Default::default();

    assert_eq!(cells(&zero), vec![0.0; 16]);
    assert_eq!(*zero.first(), 0.0);
}

#[test]
fn construction_round_trip() {
    let m = Matrix4x4::<i64>::new(
        0, 1, 2, 3,
        10, 11, 12, 13,
        20, 21, 22, 23,
        30, 31, 32, 33);

    for row in 0..4usize {
        for column in 0..4usize {
            let expected = (row * 10 + column) as i64;
            assert_eq!(m.get(row, column), expected);
            assert_eq!(m[[row, column]], expected);
            assert_eq!(m.checked_get(row, column), Some(expected));
        }
    }
    assert_eq!(*m.first(), 0);
}

#[test]
fn first_is_top_left_cell() {
    assert_eq!(*counting().first(), 1.0);
}

#[test]
fn out_of_range_cell_is_refused() {
    let m = counting();

    assert_eq!(m.checked_get(4, 0), None);
    assert_eq!(m.checked_get(0, 4), None);
    assert_eq!(m.checked_get(5, 0), None);
    assert_eq!(m.checked_get(3, 3), Some(16.0));
}

#[test]
fn translate_identity_gives_translation() {
    let translated = Matrix4x4::<f32>::identity().translate(Vector2::new(5.0, 7.0));
    let expected = Matrix4x4::<f32>::new(
        1.0, 0.0, 0.0, 5.0,
        0.0, 1.0, 0.0, 7.0,
        0.0, 0.0, 1.0, 0.0,
        0.0, 0.0, 0.0, 1.0);

    assert_eq!(cells(&translated), cells(&expected));
}

#[test]
fn translate_multiplies_on_the_right() {
    let m = counting();
    let translated = m.translate(Vector2::new(2.0, -1.0));

    let t = Matrix4x4::<f32>::new(
        1.0, 0.0, 0.0, 2.0,
        0.0, 1.0, 0.0, -1.0,
        0.0, 0.0, 1.0, 0.0,
        0.0, 0.0, 0.0, 1.0);
    assert_eq!(cells(&translated), cells(&counting().mul(t)));
    assert_eq!(translated[[0, 3]], 1.0 * 2.0 + 2.0 * -1.0 + 4.0);
    assert_eq!(translated[[3, 3]], 13.0 * 2.0 + 14.0 * -1.0 + 16.0);
    assert_eq!(translated[[1, 1]], 6.0);
}

#[test]
fn orthographic_exact_entries() {
    let o = Matrix4x4::<f32>::orthographic(0.0, 1024.0, 768.0, 0.0, -1.0, 1.0);

    assert_eq!(o[[0, 0]], 2.0 / 1024.0);
    assert_eq!(o[[1, 1]], 2.0 / -768.0);
    assert_eq!(o[[0, 3]], -1.0);
    assert_eq!(o[[1, 3]], 1.0);
}

#[test]
fn orthographic_integer_scalars() {
    let o = Matrix4x4::<i32>::orthographic(-2, 2, -1, 1, 0, 2);

    assert_eq!(cells(&o), vec![
        0, 0, 0, 0,
        0, 1, 0, 0,
        0, 0, 1, -1,
        0, 0, 0, 1,
    ]);
}

#[test]
fn orthographic_zero_width_is_not_finite() {
    let o = Matrix4x4::<f32>::orthographic(1.0, 1.0, 0.0, 2.0, 0.0, 1.0);

    assert!(!o[[0, 0]].is_finite());
    assert!(!o[[0, 3]].is_finite());
    assert_eq!(o[[1, 1]], 1.0);
}

#[test]
fn product_is_associative_within_tolerance() {
    let a = Matrix4x4::<f32>::new(
        0.5, -1.25, 2.0, 3.0,
        1.0, 0.75, -0.5, 2.5,
        -3.0, 1.5, 0.25, 1.0,
        2.0, -0.5, 1.75, -1.0);
    let b = counting_down();
    let c = Matrix4x4::<f32>::orthographic(-3.0, 5.0, -2.0, 7.0, 0.1, 100.0);

    let left = a.mul(b).mul(c);
    let right = a.mul(b.mul(c));
    for (x, y) in cells(&left).into_iter().zip(cells(&right)) {
        assert!(approx(x, y, 1e-3 * (1.0 + x.abs())));
    }
}

#[test]
fn product_is_associative_on_integers() {
    let a = Matrix4x4::<i64>::new(1, -2, 3, 0, 4, 5, -6, 7, 0, 1, 1, 2, -3, 2, 0, 1);
    let b = Matrix4x4::<i64>::new(2, 0, 1, 1, -1, 3, 0, 2, 4, 1, -2, 0, 0, 5, 1, -1);
    let c = Matrix4x4::<i64>::new(1, 1, 0, -2, 0, 2, 3, 1, -1, 0, 4, 2, 3, -3, 1, 0);

    assert_eq!(cells(&a.mul(b).mul(c)), cells(&a.mul(b.mul(c))));
}
