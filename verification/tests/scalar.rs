use image_recovery::matrix::Matrix;
use image_recovery::scalar::{is_nan_bits, lt_bits, max_one_bits};

fn specials() -> Vec<f64> {
    vec![
        0.0,
        -0.0,
        1.0,
        -1.0,
        0.5,
        -0.5,
        255.0,
        1e300,
        -1e300,
        f64::INFINITY,
        f64::NEG_INFINITY,
        f64::NAN,
        f64::MIN_POSITIVE,
        -f64::MIN_POSITIVE,
    ]
}

fn random_reals(n: usize) -> Vec<f64> {
    (0..n)
        .map(|_| (rand::random::<f64>() - 0.5) * 1e6)
        .collect()
}

#[test]
fn lt_bits_agrees_with_the_double_order() {
    let mut values = specials();
    values.extend(random_reals(50));
    for &a in &values {
        for &b in &values {
            assert_eq!(
                lt_bits(a.to_bits(), b.to_bits()),
                a < b,
                "disagreement on {a} < {b}"
            );
        }
    }
}

#[test]
fn is_nan_bits_agrees_with_the_double_nan_test() {
    for v in specials() {
        assert_eq!(is_nan_bits(v.to_bits()), v.is_nan());
    }
}

#[test]
fn max_one_bits_agrees_with_the_double_clamp() {
    let mut values = specials();
    values.extend(random_reals(50));
    for v in values {
        assert_eq!(max_one_bits(v.to_bits()), (1f64).max(v).to_bits());
    }
}

#[test]
fn u8_to_bits_agrees_with_the_widening_cast_for_every_value() {
    for v in 0..=255u8 {
        assert_eq!(image_recovery::scalar::u8_to_bits(v), (v as f64).to_bits());
    }
}

#[test]
fn bits_to_u8_agrees_with_the_saturating_cast() {
    let mut values = specials();
    values.extend(random_reals(50));
    values.extend(vec![0.9, 255.0001, 255.9999, 256.0, -0.0001, 17.5]);
    for v in values {
        assert_eq!(image_recovery::scalar::bits_to_u8(v.to_bits()), v as u8);
    }
}

#[test]
fn matrix_arithmetic_agrees_with_the_hardware_on_arbitrary_reals() {
    let n: usize = 64;
    let av = random_reals(n);
    let bv = random_reals(n);
    let a = Matrix::from_vec(av.iter().map(|v| v.to_bits()).collect(), 8, 8).unwrap();
    let b = Matrix::from_vec(bv.iter().map(|v| v.to_bits()).collect(), 8, 8).unwrap();

    let sum = a.add(&b).unwrap();
    let difference = a.sub(&b).unwrap();
    let product = a.mul(&b).unwrap();
    let quotient = a.div(&b).unwrap();
    let roots = a.squared().sqrt_map();

    for x in 0..8 {
        for y in 0..8 {
            let (p, q) = (av[x * 8 + y], bv[x * 8 + y]);
            assert_eq!(sum.get(x, y), (p + q).to_bits());
            assert_eq!(difference.get(x, y), (p - q).to_bits());
            assert_eq!(product.get(x, y), (p * q).to_bits());
            assert_eq!(quotient.get(x, y), (p / q).to_bits());
            assert_eq!(roots.get(x, y), (p * p).sqrt().to_bits());
        }
    }
}
