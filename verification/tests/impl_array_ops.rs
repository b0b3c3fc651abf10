use image_recovery::array_ops::Derivative;
use image_recovery::bundle::RgbMatrices;
use image_recovery::matrix::Matrix;

fn random_byte_matrix(w: usize, h: usize) -> Matrix {
    let data: Vec<u64> = (0..w * h)
        .map(|_| (rand::random::<u8>() as f64).to_bits())
        .collect();
    Matrix::from_vec(data, w, h).unwrap()
}

fn random_byte_bundle(w: usize, h: usize) -> RgbMatrices {
    let a = random_byte_matrix(w, h);
    let b = random_byte_matrix(w, h);
    let c = random_byte_matrix(w, h);
    RgbMatrices::from_channels(&a, &b, &c).unwrap()
}

#[test]
fn dx_transposed_is_correct() {
    let a = random_byte_matrix(32, 32);
    let b = random_byte_matrix(32, 32);

    assert_eq!(
        a.dx().mul(&b).unwrap().sum(),
        a.mul(&b.dx_transposed()).unwrap().sum()
    );
}

#[test]
fn dx_transposed_for_rgbmatrices_is_correct() {
    let a = random_byte_bundle(32, 32);
    let b = random_byte_bundle(32, 32);

    assert_eq!(
        a.dx().mul(&b).unwrap().sum(),
        a.mul(&b.dx_transposed()).unwrap().sum()
    );
}

#[test]
fn dy_transposed_is_correct() {
    let a = random_byte_matrix(32, 32);
    let b = random_byte_matrix(32, 32);

    assert_eq!(
        a.dy().mul(&b).unwrap().sum(),
        a.mul(&b.dy_transposed()).unwrap().sum()
    );
}

#[test]
fn dy_transposed_for_rgbmatrices_is_correct() {
    let a = random_byte_bundle(32, 32);
    let b = random_byte_bundle(32, 32);

    assert_eq!(
        a.dy().mul(&b).unwrap().sum(),
        a.mul(&b.dy_transposed()).unwrap().sum()
    );
}

#[test]
fn squared_is_correct() {
    let a = random_byte_matrix(32, 32);

    assert_eq!(a.squared(), a.mul(&a).unwrap());
}

#[test]
fn squared_is_for_rgbmatrices_correct() {
    let a = random_byte_bundle(32, 32);

    assert_eq!(a.squared(), a.mul(&a).unwrap());
}

#[test]
fn powi_is_correct() {
    let a = random_byte_matrix(32, 32);

    assert_eq!(a.powi(2), a.mul(&a).unwrap());
}

#[test]
fn powi_for_rgbmatrices_is_correct() {
    let a = random_byte_bundle(32, 32);

    assert_eq!(a.powi(2), a.mul(&a).unwrap());
}

#[test]
fn powi_with_negative_exponent_is_the_reciprocal_power() {
    let a = random_byte_matrix(4, 4);

    let r = a.powi(-2);
    for x in 0..4 {
        for y in 0..4 {
            let v = f64::from_bits(a.get(x, y));
            let expected = 1.0 / (v * v);
            assert_eq!(r.get(x, y), expected.to_bits());
        }
    }
}
