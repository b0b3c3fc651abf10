use image_recovery::matrix::Matrix;
use image_recovery::Error;

fn random_byte_matrix(w: usize, h: usize) -> Matrix {
    let data: Vec<u64> = (0..w * h)
        .map(|_| (rand::random::<u8>() as f64).to_bits())
        .collect();
    Matrix::from_vec(data, w, h).unwrap()
}

fn random_axis_len() -> usize {
    2 + (rand::random::<u8>() as usize) % 8
}

#[test]
fn differentiable_array_array_f64_positive_shift_on_axis_returns_error_if_axis_is_out_of_bounds() {
    let m = random_byte_matrix(5, 2);
    for axis in 2..8 {
        assert_eq!(m.positive_shift_on_axis(axis), Err(Error::AxisOutOfBounds));
    }
}

#[test]
fn differentiable_array_array_f64_positive_shift_on_axis_returns_error_if_axis_len_is_not_gt_1() {
    for len in 1..8 {
        let narrow = random_byte_matrix(1, len);
        assert_eq!(narrow.positive_shift_on_axis(0), Err(Error::AxisTooShort));
        let flat = random_byte_matrix(len, 1);
        assert_eq!(flat.positive_shift_on_axis(1), Err(Error::AxisTooShort));
    }
}

#[test]
fn differentiable_array_array_f64_positive_shift_on_axis() {
    for _ in 0..4 {
        let w = random_axis_len();
        let h = random_axis_len();
        let m = random_byte_matrix(w, h);

        let shifted0 = m.positive_shift_on_axis(0).unwrap();
        let shifted1 = m.positive_shift_on_axis(1).unwrap();
        for x in 0..w {
            for y in 0..h {
                assert_eq!(shifted0.get(x, y), m.get((x + w - 1) % w, y));
                assert_eq!(shifted1.get(x, y), m.get(x, (y + h - 1) % h));
            }
        }
    }
}

#[test]
fn differentiable_array_array_f64_positive_gradient_on_axis() {
    for _ in 0..4 {
        let w = random_axis_len();
        let h = random_axis_len();
        let m = random_byte_matrix(w, h);

        for axis in 0..2 {
            let gradient = m.positive_gradient_on_axis(axis).unwrap();
            let shifted = m.positive_shift_on_axis(axis).unwrap();
            for x in 0..w {
                for y in 0..h {
                    let expected =
                        f64::from_bits(m.get(x, y)) - f64::from_bits(shifted.get(x, y));
                    assert_eq!(gradient.get(x, y), expected.to_bits());
                }
            }
        }
    }
}

#[test]
fn differentiable_array_array_f64_negative_shift_on_axis_returns_error_if_axis_is_out_of_bounds() {
    let m = random_byte_matrix(2, 6);
    for axis in 2..8 {
        assert_eq!(m.negative_shift_on_axis(axis), Err(Error::AxisOutOfBounds));
    }
}

#[test]
fn differentiable_array_array_f64_negative_shift_on_axis_returns_error_if_axis_len_is_not_gt_1() {
    for len in 1..8 {
        let narrow = random_byte_matrix(1, len);
        assert_eq!(narrow.negative_shift_on_axis(0), Err(Error::AxisTooShort));
        let flat = random_byte_matrix(len, 1);
        assert_eq!(flat.negative_shift_on_axis(1), Err(Error::AxisTooShort));
    }
}

#[test]
fn differentiable_array_array_f64_negative_shift_on_axis() {
    for _ in 0..4 {
        let w = random_axis_len();
        let h = random_axis_len();
        let m = random_byte_matrix(w, h);

        let shifted0 = m.negative_shift_on_axis(0).unwrap();
        let shifted1 = m.negative_shift_on_axis(1).unwrap();
        for x in 0..w {
            for y in 0..h {
                assert_eq!(shifted0.get(x, y), m.get((x + 1) % w, y));
                assert_eq!(shifted1.get(x, y), m.get(x, (y + 1) % h));
            }
        }
    }
}

#[test]
fn differentiable_array_array_f64_negative_gradient_on_axis() {
    for _ in 0..4 {
        let w = random_axis_len();
        let h = random_axis_len();
        let m = random_byte_matrix(w, h);

        for axis in 0..2 {
            let gradient = m.negative_gradient_on_axis(axis).unwrap();
            let shifted = m.negative_shift_on_axis(axis).unwrap();
            for x in 0..w {
                for y in 0..h {
                    let expected =
                        f64::from_bits(m.get(x, y)) - f64::from_bits(shifted.get(x, y));
                    assert_eq!(gradient.get(x, y), expected.to_bits());
                }
            }
        }
    }
}

#[test]
fn differentiable_array_array_f64_negative_gradient_on_axis_is_dual_operator_of_positive_gradient_on_axis(
) {
    for _ in 0..4 {
        let w = random_axis_len();
        let h = random_axis_len();
        let a = random_byte_matrix(w, h);
        let b = random_byte_matrix(w, h);

        for axis in 0..2 {
            let pos_a = a.positive_gradient_on_axis(axis).unwrap();
            let neg_b = b.negative_gradient_on_axis(axis).unwrap();

            assert_eq!(
                pos_a.mul(&b).unwrap().sum(),
                a.mul(&neg_b).unwrap().sum()
            );
        }
    }
}
