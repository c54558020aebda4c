use raytracer::fx::Fx;
use raytracer::math::matrix::Matrix;

const S: f64 = 4294967296.0;

fn fx(v: f64) -> Fx {
    Fx { raw: (v * S).round() as i64 }
}

fn fl(x: Fx) -> f64 {
    x.raw as f64 / S
}

fn m(vals: [f64; 16]) -> Matrix {
    let mut d: [Fx; 16] = [Fx { raw: 0 }; 16];
    let mut i: usize = 0;
    while i < 16 {
        d[i] = fx(vals[i]);
        i += 1;
    }
    Matrix::new_from_vec(d)
}

fn near_m(a: &Matrix, vals: [f64; 16]) {
    for i in 0..16 {
        assert!((fl(a.data[i]) - vals[i]).abs() < 1e-4, "entry {}: {} vs {}", i, fl(a.data[i]), vals[i]);
    }
}

#[test]
fn construct_4x4_matrix() {
    let a = m([1.0, 2.0, 3.0, 4.0, 5.5, 6.5, 7.5, 8.5, 9.0, 10.0, 11.0, 12.0, 13.5, 14.5, 15.5, 16.5]);
    assert!((fl(a.get(0, 0)) - 1.0).abs() < 1e-9);
    assert!((fl(a.get(0, 3)) - 4.0).abs() < 1e-9);
    assert!((fl(a.get(1, 0)) - 5.5).abs() < 1e-9);
    assert!((fl(a.get(1, 2)) - 7.5).abs() < 1e-9);
    assert!((fl(a.get(2, 2)) - 11.0).abs() < 1e-9);
    assert!((fl(a.get(3, 0)) - 13.5).abs() < 1e-9);
    assert!((fl(a.get(3, 2)) - 15.5).abs() < 1e-9);
}

#[test]
fn gets_correctly() {
    let a = m([0.0, 1.0, 2.0, 3.0, 4.0, 5.0, 6.0, 7.0, 8.0, 9.0, 10.0, 11.0, 12.0, 13.0, 14.0, 15.0]);
    for r in 0..4 {
        for c in 0..4 {
            assert!((fl(a.get(r, c)) - (r * 4 + c) as f64).abs() < 1e-9);
        }
    }
}

#[test]
fn multiply_4x4_matrices() {
    let a = m([1.0, 2.0, 3.0, 4.0, 5.0, 6.0, 7.0, 8.0, 9.0, 8.0, 7.0, 6.0, 5.0, 4.0, 3.0, 2.0]);
    let b = m([-2.0, 1.0, 2.0, 3.0, 3.0, 2.0, 1.0, -1.0, 4.0, 3.0, 6.0, 5.0, 1.0, 2.0, 7.0, 8.0]);
    near_m(
        &a.mul_m(&b),
        [
            20.0, 22.0, 50.0, 48.0, 44.0, 54.0, 114.0, 108.0, 40.0, 58.0, 110.0, 102.0, 16.0,
            26.0, 46.0, 42.0,
        ],
    );
}

#[test]
fn transpose_matrix() {
    let a = m([0.0, 9.0, 3.0, 0.0, 9.0, 8.0, 0.0, 8.0, 1.0, 8.0, 5.0, 3.0, 0.0, 0.0, 5.0, 8.0]);
    near_m(
        &a.transpose(),
        [0.0, 9.0, 1.0, 0.0, 9.0, 8.0, 8.0, 0.0, 3.0, 0.0, 5.0, 5.0, 0.0, 8.0, 3.0, 8.0],
    );
}

#[test]
fn transpose_identity_matrix() {
    let a = Matrix::identity();
    near_m(
        &a.transpose(),
        [
            1.0, 0.0, 0.0, 0.0, 0.0, 1.0, 0.0, 0.0, 0.0, 0.0, 1.0, 0.0, 0.0, 0.0, 0.0, 1.0,
        ],
    );
}

#[test]
fn determinant_of_4x4_matrix() {
    let a = m([
        -2.0, -8.0, 3.0, 5.0, -3.0, 1.0, 7.0, 3.0, 1.0, 2.0, -9.0, 6.0, -6.0, 7.0, 7.0, -9.0,
    ]);
    assert!((fl(a.determinant()) - (-4071.0)).abs() < 1e-3);
}

#[test]
fn inverse_matrix() {
    let a = m([
        -5.0, 2.0, 6.0, -8.0, 1.0, -5.0, 1.0, 8.0, 7.0, 7.0, -6.0, -7.0, 1.0, -3.0, 7.0, 4.0,
    ]);
    let b = a.inverse().unwrap();
    near_m(
        &b,
        [
            0.21805, 0.45113, 0.24060, -0.04511, -0.80827, -1.45677, -0.44361, 0.52068,
            -0.07895, -0.22368, -0.05263, 0.19737, -0.52256, -0.81391, -0.30075, 0.30639,
        ],
    );
}

#[test]
fn singular_matrix_has_no_inverse() {
    let a = m([
        -4.0, 2.0, -2.0, -3.0, 9.0, 6.0, 2.0, 6.0, 0.0, -5.0, 1.0, -5.0, 0.0, 0.0, 0.0, 0.0,
    ]);
    assert!(a.inverse().is_none());
}

#[test]
fn multiplying_product_with_inverse() {
    let a = m([3.0, -9.0, 7.0, 3.0, 3.0, -8.0, 2.0, -9.0, -4.0, 4.0, 4.0, 1.0, -6.0, 5.0, -1.0, 1.0]);
    let b = m([8.0, 2.0, 2.0, 2.0, 3.0, -1.0, 7.0, 0.0, 7.0, 0.0, 5.0, 4.0, 6.0, -2.0, 0.0, 5.0]);
    let c = a.mul_m(&b);
    let back = c.mul_m(&b.inverse().unwrap());
    for i in 0..16 {
        assert!((fl(back.data[i]) - fl(a.data[i])).abs() < 1e-4);
    }
}

#[test]
fn write_replaces_one_entry() {
    let mut a = Matrix::identity();
    a.write(1, 3, fx(7.5));
    assert!((fl(a.get(1, 3)) - 7.5).abs() < 1e-9);
    assert!((fl(a.get(0, 0)) - 1.0).abs() < 1e-9);
}

#[test]
fn submatrix_removes_row_and_column() {
    let a = m([0.0, 1.0, 2.0, 3.0, 4.0, 5.0, 6.0, 7.0, 8.0, 9.0, 10.0, 11.0, 12.0, 13.0, 14.0, 15.0]);
    let sub = raytracer::math::matrix::submatrix(&a, 1, 2);
    let expected = [0.0, 1.0, 3.0, 8.0, 9.0, 11.0, 12.0, 13.0, 15.0];
    for q in 0..9 {
        assert!((fl(sub[q]) - expected[q]).abs() < 1e-9);
    }
}
