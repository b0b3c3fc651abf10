use image_recovery::bundle::RgbMatrices;
use image_recovery::matrix::Matrix;
use image_recovery::utils::{
    ball_projection, ball_projection_multichannel, len_of_vectors, len_of_vectors_multichannel,
};

fn random_byte_matrix(w: usize, h: usize) -> Matrix {
    let data: Vec<u64> = (0..w * h)
        .map(|_| (rand::random::<u8>() as f64).to_bits())
        .collect();
    Matrix::from_vec(data, w, h).unwrap()
}

fn matrix_of(vals: &[f64], w: usize, h: usize) -> Matrix {
    let data: Vec<u64> = vals.iter().map(|v| v.to_bits()).collect();
    Matrix::from_vec(data, w, h).unwrap()
}

#[test]
fn utils_len_of_vectors_is_correct() {
    let a = random_byte_matrix(32, 32);
    let b = random_byte_matrix(32, 32);

    let test = len_of_vectors(&a, &b);

    for x in 0..32 {
        for y in 0..32 {
            let p = f64::from_bits(a.get(x, y));
            let q = f64::from_bits(b.get(x, y));
            let manual = (p * p + q * q).sqrt();
            assert_eq!(test.get(x, y), manual.to_bits());
        }
    }
}

#[test]
fn utils_ball_projection_is_correct() {
    let a = matrix_of(&[3.0, -0.5, -3.0, -0.5], 2, 2);
    let b = matrix_of(&[4.0, 0.5, 0.0, 0.5], 2, 2);

    let proj_a = matrix_of(&[0.6, -0.5, -1.0, -0.5], 2, 2);
    let proj_b = matrix_of(&[0.8, 0.5, 0.0, 0.5], 2, 2);

    let test_proj = ball_projection(&a, &b);

    assert_eq!(test_proj, (proj_a, proj_b));
}

#[test]
fn utils_tests_len_of_vectors_is_correct() {
    let a = random_byte_matrix(32, 32);
    let b = random_byte_matrix(32, 32);

    let test = len_of_vectors(&a, &b);
    let manual = a
        .squared()
        .add(&b.squared())
        .unwrap()
        .sqrt_map();

    assert_eq!(test, manual);
}

#[test]
fn utils_tests_ball_projection_is_correct() {
    let a = matrix_of(&[3.0, -0.5, -3.0, -0.5], 2, 2);
    let b = matrix_of(&[4.0, 0.5, 0.0, 0.5], 2, 2);

    let (proj_a, proj_b) = ball_projection(&a, &b);

    // per-pixel lengths are 5, sqrt(1/2), 3 and sqrt(1/2): only the two
    // vectors longer than one are rescaled to unit length
    assert_eq!(proj_a, matrix_of(&[0.6, -0.5, -1.0, -0.5], 2, 2));
    assert_eq!(proj_b, matrix_of(&[0.8, 0.5, 0.0, 0.5], 2, 2));
}

#[test]
fn len_of_vectors_multichannel_couples_the_channels() {
    let a = random_byte_matrix(8, 8);
    let b = random_byte_matrix(8, 8);
    let c = random_byte_matrix(8, 8);
    let d = random_byte_matrix(8, 8);
    let e = random_byte_matrix(8, 8);
    let f = random_byte_matrix(8, 8);
    let ma = RgbMatrices::from_channels(&a, &b, &c).unwrap();
    let mb = RgbMatrices::from_channels(&d, &e, &f).unwrap();

    let test = len_of_vectors_multichannel(&ma, &mb);

    for x in 0..8 {
        for y in 0..8 {
            let squares = |m: &Matrix, n: &Matrix| {
                f64::from_bits(m.get(x, y)) * f64::from_bits(m.get(x, y))
                    + f64::from_bits(n.get(x, y)) * f64::from_bits(n.get(x, y))
            };
            let manual = (squares(&a, &d) + squares(&b, &e) + squares(&c, &f)).sqrt();
            assert_eq!(test.get(x, y), manual.to_bits());
        }
    }
}

#[test]
fn ball_projection_multichannel_divides_every_channel_by_one_length() {
    let a = matrix_of(&[3.0, 0.25], 1, 2);
    let flat = matrix_of(&[0.0, 0.25], 1, 2);
    let ma = RgbMatrices::from_channels(&a, &flat, &flat).unwrap();
    let mb = RgbMatrices::from_channels(&matrix_of(&[4.0, 0.25], 1, 2), &flat, &flat).unwrap();

    let (pa, pb) = ball_projection_multichannel(&ma, &mb);

    // first pixel: coupled length 5, so every channel is divided by 5
    assert_eq!(pa.red().get(0, 0), (0.6f64).to_bits());
    assert_eq!(pb.red().get(0, 0), (0.8f64).to_bits());
    assert_eq!(pa.green().get(0, 0), (0.0f64).to_bits());
    // second pixel: coupled length sqrt(6·0.0625) < 1, untouched
    assert_eq!(pa.red().get(0, 1), (0.25f64).to_bits());
    assert_eq!(pb.blue().get(0, 1), (0.25f64).to_bits());
}
