use image_recovery::array_ops::Derivative;
use image_recovery::bundle::RgbMatrices;
use image_recovery::matrix::Matrix;
use image_recovery::solvers::{
    denoise, denoise_multichannel, denoise_multichannel_with_iterations, denoise_with_iterations,
};
use image_recovery::Error;

fn random_byte_matrix(w: usize, h: usize) -> Matrix {
    let data: Vec<u64> = (0..w * h)
        .map(|_| (rand::random::<u8>() as f64).to_bits())
        .collect();
    Matrix::from_vec(data, w, h).unwrap()
}

fn uniform_matrix(value: f64, w: usize, h: usize) -> Matrix {
    Matrix::from_vec(vec![value.to_bits(); w * h], w, h).unwrap()
}

fn checkerboard(phase: usize, w: usize, h: usize) -> Matrix {
    let mut data: Vec<u64> = Vec::new();
    for x in 0..w {
        for y in 0..h {
            let v: f64 = if (x + y + phase) % 2 == 0 { 255.0 } else { 0.0 };
            data.push(v.to_bits());
        }
    }
    Matrix::from_vec(data, w, h).unwrap()
}

#[test]
fn k_star_is_correct() {
    let a = random_byte_matrix(32, 32);
    let b1 = random_byte_matrix(32, 32);
    let b2 = random_byte_matrix(32, 32);

    let k_star = |p: &Matrix, q: &Matrix| p.dx_transposed().add(&q.dy_transposed()).unwrap();

    let manual_dx = a.dx().mul(&b1).unwrap().sum();
    let manual_dy = a.dy().mul(&b2).unwrap().sum();
    let manual = f64::from_bits(manual_dx) + f64::from_bits(manual_dy);

    let test = a.mul(&k_star(&b1, &b2)).unwrap().sum();

    assert_eq!(manual.to_bits(), test);
}

#[test]
fn flat_image_is_returned_unchanged_after_one_iteration() {
    // with tau·lambda = 1 every update on a uniform image is exact, the
    // relative change is exactly zero, and the loop stops at once
    let u0 = uniform_matrix(100.0, 4, 4);

    let (out, iterations) = denoise_with_iterations(
        &u0,
        (1.0f64).to_bits(),
        (1.0f64).to_bits(),
        (0.125f64).to_bits(),
        (0.35f64).to_bits(),
        100,
        (1e-10f64).to_bits(),
    )
    .unwrap();

    assert_eq!(iterations, 1);
    assert_eq!(out, u0);
}

#[test]
fn flat_zero_image_stops_on_nan_ratio_instead_of_exhausting_the_budget() {
    // both norms are zero, the convergence ratio is 0/0 = NaN, and the
    // NaN guard must stop the loop after the first iteration
    let u0 = uniform_matrix(0.0, 4, 4);

    let (out, iterations) = denoise_with_iterations(
        &u0,
        (1.0f64).to_bits(),
        (1.0f64).to_bits(),
        (0.125f64).to_bits(),
        (0.35f64).to_bits(),
        50,
        (1e-10f64).to_bits(),
    )
    .unwrap();

    assert_eq!(iterations, 1);
    assert_eq!(out, u0);
}

#[test]
fn shape_rejection_refuses_single_pixel_axes() {
    let row = random_byte_matrix(1, 8);
    let column = random_byte_matrix(8, 1);
    let lambda = (1.0f64).to_bits();
    let tau = (0.5f64).to_bits();
    let sigma = (0.25f64).to_bits();
    let gamma = (0.35f64).to_bits();
    let threshold = (1e-10f64).to_bits();

    assert_eq!(
        denoise(&row, lambda, tau, sigma, gamma, 10, threshold),
        Err(Error::AxisTooShort)
    );
    assert_eq!(
        denoise(&column, lambda, tau, sigma, gamma, 10, threshold),
        Err(Error::AxisTooShort)
    );

    let bundle = RgbMatrices::from_channels(&row, &row, &row).unwrap();
    assert_eq!(
        denoise_multichannel(&bundle, lambda, tau, sigma, gamma, 10, threshold),
        Err(Error::AxisTooShort)
    );
}

#[test]
fn iteration_cap_forces_exactly_that_many_iterations() {
    // a zero threshold can never be undercut by the nonnegative ratio,
    // so the budget alone ends the loop
    let u0 = checkerboard(0, 4, 4);
    let lambda = (0.02f64).to_bits();
    let tau = (1.0f64 / 2.0f64.sqrt()).to_bits();
    let sigma = (2.0f64.sqrt() / 8.0).to_bits();
    let gamma = (0.007f64).to_bits();
    let threshold = (0.0f64).to_bits();

    for k in [1u32, 2, 7] {
        let (_, iterations) =
            denoise_with_iterations(&u0, lambda, tau, sigma, gamma, k, threshold).unwrap();
        assert_eq!(iterations, k);
    }

    let bundle = RgbMatrices::from_channels(&u0, &checkerboard(1, 4, 4), &u0).unwrap();
    let (_, iterations) =
        denoise_multichannel_with_iterations(&bundle, lambda, tau, sigma, gamma, 5, threshold)
            .unwrap();
    assert_eq!(iterations, 5);
}

#[test]
fn a_zero_iteration_budget_still_runs_one_iteration() {
    let u0 = checkerboard(0, 4, 4);
    let (_, iterations) = denoise_with_iterations(
        &u0,
        (0.02f64).to_bits(),
        (0.7f64).to_bits(),
        (0.17f64).to_bits(),
        (0.007f64).to_bits(),
        0,
        (0.0f64).to_bits(),
    )
    .unwrap();
    assert_eq!(iterations, 1);
}

#[test]
fn channel_coupling_differs_from_denoising_each_channel() {
    // two channels carry opposite-phase edges, the third is flat: the
    // coupled projection shares one per-pixel length across channels and
    // must give a different reconstruction than three independent solves
    let red = checkerboard(0, 8, 8);
    let green = checkerboard(1, 8, 8);
    let blue = uniform_matrix(128.0, 8, 8);
    let bundle = RgbMatrices::from_channels(&red, &green, &blue).unwrap();

    let lambda = (0.0259624705f64).to_bits();
    let tau = (1.0f64 / 2.0f64.sqrt()).to_bits();
    let sigma = (1.0f64 / (8.0 * (1.0f64 / 2.0f64.sqrt()))).to_bits();
    let gamma = (0.35f64 * 0.0259624705f64).to_bits();
    let threshold = (1e-10f64).to_bits();

    let coupled = denoise_multichannel(&bundle, lambda, tau, sigma, gamma, 10, threshold).unwrap();

    let each_red = denoise(&red, lambda, tau, sigma, gamma, 10, threshold).unwrap();
    let each_green = denoise(&green, lambda, tau, sigma, gamma, 10, threshold).unwrap();

    assert_ne!((coupled.red(), coupled.green()), (&each_red, &each_green));
}

#[test]
fn denoising_moves_a_noisy_image_towards_smoothness() {
    // the reconstruction must differ from the input (so the dual update,
    // projection, divergence and averaging all did real work)
    let u0 = checkerboard(0, 8, 8);
    let out = denoise(
        &u0,
        (0.0259624705f64).to_bits(),
        (1.0f64 / 2.0f64.sqrt()).to_bits(),
        (1.0f64 / (8.0 * (1.0f64 / 2.0f64.sqrt()))).to_bits(),
        (0.35f64 * 0.0259624705f64).to_bits(),
        50,
        (1e-10f64).to_bits(),
    )
    .unwrap();

    assert_ne!(out, u0);
    assert_eq!(out.shape(), (8, 8));
}
