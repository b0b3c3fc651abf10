use image_recovery::bundle::RgbMatrices;
use image_recovery::matrix::Matrix;
use image_recovery::Error;

fn random_matrix_in(lo: u8, w: usize, h: usize) -> Matrix {
    let data: Vec<u64> = (0..w * h)
        .map(|_| {
            let v = lo.max(rand::random::<u8>());
            (v as f64).to_bits()
        })
        .collect();
    Matrix::from_vec(data, w, h).unwrap()
}

fn zip_with(f: impl Fn(f64, f64) -> f64, a: &Matrix, b: &Matrix, w: usize, h: usize) -> Matrix {
    let mut data: Vec<u64> = Vec::new();
    for x in 0..w {
        for y in 0..h {
            let v = f(f64::from_bits(a.get(x, y)), f64::from_bits(b.get(x, y)));
            data.push(v.to_bits());
        }
    }
    Matrix::from_vec(data, w, h).unwrap()
}

#[test]
fn mul_is_correct() {
    let a = random_matrix_in(0, 32, 32);
    let b = random_matrix_in(0, 32, 32);
    let c = random_matrix_in(0, 32, 32);
    let ma = RgbMatrices::from_channels(&a, &b, &c).unwrap();
    let mb = RgbMatrices::from_channels(&b, &c, &a).unwrap();

    let x = zip_with(|p, q| p * q, &a, &b, 32, 32);
    let y = zip_with(|p, q| p * q, &b, &c, 32, 32);
    let z = zip_with(|p, q| p * q, &c, &a, 32, 32);

    assert_eq!(
        ma.mul(&mb).unwrap(),
        RgbMatrices::from_channels(&x, &y, &z).unwrap()
    );
}

#[test]
fn div_is_correct() {
    // divisors are kept nonzero so that every expected quotient is an
    // ordinary (or infinite) value with one well-defined encoding
    let a = random_matrix_in(0, 32, 32);
    let b = random_matrix_in(1, 32, 32);
    let c = random_matrix_in(1, 32, 32);
    let ma = RgbMatrices::from_channels(&a, &b, &c).unwrap();
    let mb = RgbMatrices::from_channels(&b, &c, &a).unwrap();

    let x = zip_with(|p, q| p / q, &a, &b, 32, 32);
    let y = zip_with(|p, q| p / q, &b, &c, 32, 32);
    let z = zip_with(|p, q| p / q, &c, &a, 32, 32);

    assert_eq!(
        ma.div(&mb).unwrap(),
        RgbMatrices::from_channels(&x, &y, &z).unwrap()
    );
}

#[test]
fn add_is_correct() {
    let a = random_matrix_in(0, 32, 32);
    let b = random_matrix_in(0, 32, 32);
    let c = random_matrix_in(0, 32, 32);
    let ma = RgbMatrices::from_channels(&a, &b, &c).unwrap();
    let mb = RgbMatrices::from_channels(&b, &c, &a).unwrap();

    let x = zip_with(|p, q| p + q, &a, &b, 32, 32);
    let y = zip_with(|p, q| p + q, &b, &c, 32, 32);
    let z = zip_with(|p, q| p + q, &c, &a, 32, 32);

    assert_eq!(
        ma.add(&mb).unwrap(),
        RgbMatrices::from_channels(&x, &y, &z).unwrap()
    );
}

#[test]
fn sub_is_correct() {
    let a = random_matrix_in(0, 32, 32);
    let b = random_matrix_in(0, 32, 32);
    let c = random_matrix_in(0, 32, 32);
    let ma = RgbMatrices::from_channels(&a, &b, &c).unwrap();
    let mb = RgbMatrices::from_channels(&b, &c, &a).unwrap();

    let x = zip_with(|p, q| p - q, &a, &b, 32, 32);
    let y = zip_with(|p, q| p - q, &b, &c, 32, 32);
    let z = zip_with(|p, q| p - q, &c, &a, 32, 32);

    assert_eq!(
        ma.sub(&mb).unwrap(),
        RgbMatrices::from_channels(&x, &y, &z).unwrap()
    );
}

#[test]
fn binary_ops_reject_mismatched_shapes() {
    let a = random_matrix_in(0, 4, 4);
    let b = random_matrix_in(0, 4, 5);
    assert_eq!(a.add(&b), Err(Error::ShapeMismatch));
    assert_eq!(a.sub(&b), Err(Error::ShapeMismatch));
    assert_eq!(a.mul(&b), Err(Error::ShapeMismatch));
    assert_eq!(a.div(&b), Err(Error::ShapeMismatch));

    let ma = RgbMatrices::from_channels(&a, &a, &a).unwrap();
    let mb = RgbMatrices::from_channels(&b, &b, &b).unwrap();
    assert_eq!(ma.add(&mb), Err(Error::ShapeMismatch));
    assert_eq!(ma.div_matrix(&b), Err(Error::ShapeMismatch));
}

#[test]
fn scale_multiplies_every_element_from_the_left() {
    let a = random_matrix_in(0, 8, 8);
    let s: f64 = 0.3;
    let r = a.scale(s.to_bits());
    for x in 0..8 {
        for y in 0..8 {
            let expected = s * f64::from_bits(a.get(x, y));
            assert_eq!(r.get(x, y), expected.to_bits());
        }
    }
}

#[test]
fn weighted_average_matches_its_formula() {
    let u0 = Matrix::from_vec(vec![(10.0f64).to_bits()], 1, 1).unwrap();
    let v = Matrix::from_vec(vec![(20.0f64).to_bits()], 1, 1).unwrap();
    let tau: f64 = 0.5;
    let lambda: f64 = 3.0;

    let r = u0.weighted_average(&v, tau.to_bits(), lambda.to_bits());

    // (20 + 0.5·3·10) / (1 + 0.5·3) = 35 / 2.5 = 14, exactly
    assert_eq!(r.get(0, 0), (14.0f64).to_bits());
}

#[test]
fn norm_is_the_root_of_the_sum_of_squares() {
    let m = Matrix::from_vec(vec![(3.0f64).to_bits(), (4.0f64).to_bits()], 1, 2).unwrap();
    assert_eq!(m.norm(), (5.0f64).to_bits());
}
