//! The accelerated primal-dual denoising solvers.
//!
//! Each solver runs the same loop: a dual ascent step along the image
//! gradient, a pointwise projection of the dual pair onto the unit ball, a
//! primal descent step pulled back towards the noisy input, a step-size
//! acceleration, and an extrapolation of the primal variable.  The dual
//! pair and the extrapolated variable are deliberately warm-started from
//! the input and its own forward differences, not from zero.  The loop
//! stops as soon as the relative change of the primal variable falls below
//! the threshold, is NaN (the image did not change at all), or the
//! iteration budget is spent; the result of a solve is pinned down, bit
//! for bit, by the recursive specifications `run` and `run_multichannel`.

use vstd::prelude::*;

use crate::Error;
use crate::bundle::{
    bv_add, bv_div_matrix, bv_neg_grad, bv_norm, bv_pos_grad, bv_scale, bv_sub, bv_vec_len,
    bv_weighted_average, BundleView, RgbMatrices,
};
use crate::matrix::{
    mv_add, mv_div, mv_max_one, mv_neg_grad, mv_norm, mv_pos_grad, mv_scale, mv_sub, mv_vec_len,
    mv_weighted_average, Matrix, MatrixView,
};
use crate::scalar::{
    add_bits, add_bits_of, div_bits, div_bits_of, f_is_nan, f_lt, is_nan_bits, lt_bits, mul_bits,
    mul_bits_of, F64_ONE, F64_TWO,
};
use crate::utils::{ball_projection, ball_projection_multichannel};

verus! {

/// The relaxation factor of one iteration: `1 / (1 + 2·gamma·tau)`.
pub open spec fn theta_of(gamma: u64, tau: u64) -> u64 {
    div_bits_of(F64_ONE, add_bits_of(F64_ONE, mul_bits_of(mul_bits_of(F64_TWO, gamma), tau)))
}

/// Whether the loop stops on the convergence ratio `c`: a ratio below the
/// threshold, or a NaN ratio (a zero-norm previous iterate, so the image
/// cannot change any further).
pub open spec fn converged(c: u64, threshold: u64) -> bool {
    f_is_nan(c) || f_lt(c, threshold)
}

/// The state carried by the single-channel solver between iterations.
#[verifier::ext_equal]
pub ghost struct SolveState {
    pub current: MatrixView,
    pub current_bar: MatrixView,
    pub dual_a: MatrixView,
    pub dual_b: MatrixView,
    pub tau: u64,
    pub sigma: u64,
}

/// The warm start: both primal copies equal the input, and the dual pair
/// holds the input's own forward differences.
pub open spec fn init_state(u0: MatrixView, tau: u64, sigma: u64) -> SolveState {
    SolveState {
        current: u0,
        current_bar: u0,
        dual_a: mv_pos_grad(u0, 0),
        dual_b: mv_pos_grad(u0, 1),
        tau,
        sigma,
    }
}

/// One full iteration of the single-channel solver, yielding the next
/// state and the convergence ratio of the step.
pub open spec fn step(u0: MatrixView, lambda: u64, gamma: u64, s: SolveState) -> (SolveState, u64) {
    let ga = mv_add(s.dual_a, mv_scale(s.sigma, mv_pos_grad(s.current_bar, 0)));
    let gb = mv_add(s.dual_b, mv_scale(s.sigma, mv_pos_grad(s.current_bar, 1)));
    let mx = mv_max_one(mv_vec_len(ga, gb));
    let da = mv_div(ga, mx);
    let db = mv_div(gb, mx);
    let previous = s.current;
    let divergence = mv_add(mv_neg_grad(da, 0), mv_neg_grad(db, 1));
    let descended = mv_sub(s.current, mv_scale(s.tau, divergence));
    let current = mv_weighted_average(u0, descended, s.tau, lambda);
    let theta = theta_of(gamma, s.tau);
    let current_bar = mv_add(current, mv_scale(theta, mv_sub(current, previous)));
    let c = div_bits_of(mv_norm(mv_sub(current, previous)), mv_norm(previous));
    (
        SolveState {
            current,
            current_bar,
            dual_a: da,
            dual_b: db,
            tau: mul_bits_of(s.tau, theta),
            sigma: div_bits_of(s.sigma, theta),
        },
        c,
    )
}

/// The single-channel solve from state `s` with `fuel` iterations left:
/// the final primal variable and the number of iterations executed.
pub open spec fn run(
    u0: MatrixView,
    lambda: u64,
    gamma: u64,
    threshold: u64,
    s: SolveState,
    fuel: nat,
) -> (MatrixView, nat)
    decreases fuel,
{
    let sc = step(u0, lambda, gamma, s);
    if converged(sc.1, threshold) || fuel <= 1 {
        (sc.0.current, 1)
    } else {
        let rest = run(u0, lambda, gamma, threshold, sc.0, (fuel - 1) as nat);
        (rest.0, rest.1 + 1)
    }
}

/// The iteration budget that a `max_iter` argument buys: the loop always
/// runs at least one iteration.
pub open spec fn fuel_of(max_iter: u32) -> nat {
    if max_iter == 0 {
        1
    } else {
        max_iter as nat
    }
}

/// Iteration budget: a single-channel solve always executes at least one
/// iteration, and never more than its fuel — so a `max_iter` of `k ≥ 1`
/// caps the count at `k`, whatever the convergence ratios do.
pub proof fn lemma_run_iteration_cap(
    u0: MatrixView,
    lambda: u64,
    gamma: u64,
    threshold: u64,
    s: SolveState,
    fuel: nat,
)
    requires
        fuel >= 1,
    ensures
        1 <= run(u0, lambda, gamma, threshold, s, fuel).1 <= fuel,
    decreases fuel,
{
    let sc = step(u0, lambda, gamma, s);
    if !(converged(sc.1, threshold) || fuel <= 1) {
        lemma_run_iteration_cap(u0, lambda, gamma, threshold, sc.0, (fuel - 1) as nat);
    }
}

/// Iteration budget of the multichannel solve, as in
/// `lemma_run_iteration_cap`.
pub proof fn lemma_run_multichannel_iteration_cap(
    u0: BundleView,
    lambda: u64,
    gamma: u64,
    threshold: u64,
    s: SolveStateMc,
    fuel: nat,
)
    requires
        fuel >= 1,
    ensures
        1 <= run_multichannel(u0, lambda, gamma, threshold, s, fuel).1 <= fuel,
    decreases fuel,
{
    let sc = step_multichannel(u0, lambda, gamma, s);
    if !(converged(sc.1, threshold) || fuel <= 1) {
        lemma_run_multichannel_iteration_cap(u0, lambda, gamma, threshold, sc.0, (fuel - 1) as nat);
    }
}

/// Denoises a matrix and also reports how many iterations ran.
///
/// Fails with `AxisTooShort`, before any iteration, exactly when either
/// spatial axis of the input is shorter than two; otherwise the returned
/// matrix and count are exactly those of the `run` specification.
pub fn denoise_with_iterations(
    u0: &Matrix,
    lambda: u64,
    tau: u64,
    sigma: u64,
    gamma: u64,
    max_iter: u32,
    convergence_threshold: u64,
) -> (r: Result<(Matrix, u32), Error>)
    ensures
        r is Err <==> (u0@.width <= 1 || u0@.height <= 1),
        r is Err ==> r->Err_0 == Error::AxisTooShort,
        r is Ok ==> ({
            let out = run(
                u0@,
                lambda,
                gamma,
                convergence_threshold,
                init_state(u0@, tau, sigma),
                fuel_of(max_iter),
            );
            r->Ok_0.0@ == out.0 && r->Ok_0.1 as nat == out.1
        }),
{
    if u0.width() <= 1 || u0.height() <= 1 {
        return Err(Error::AxisTooShort);
    }
    let mut current = u0.dup();
    let mut current_bar = u0.dup();
    let mut dual_a = u0.pos_grad_exact(0);
    let mut dual_b = u0.pos_grad_exact(1);
    let mut tau_v: u64 = tau;
    let mut sigma_v: u64 = sigma;
    let ghost fuel: nat = fuel_of(max_iter);
    let ghost mut s: SolveState = init_state(u0@, tau, sigma);
    let mut iter: u32 = 1;
    loop
        invariant
            u0@.width >= 2,
            u0@.height >= 2,
            current@.same_shape(u0@),
            current_bar@.same_shape(u0@),
            dual_a@.same_shape(u0@),
            dual_b@.same_shape(u0@),
            s == (SolveState {
                current: current@,
                current_bar: current_bar@,
                dual_a: dual_a@,
                dual_b: dual_b@,
                tau: tau_v,
                sigma: sigma_v,
            }),
            fuel == fuel_of(max_iter),
            1 <= iter,
            iter as nat <= fuel,
            run(u0@, lambda, gamma, convergence_threshold, init_state(u0@, tau, sigma), fuel).0
                == run(
                u0@,
                lambda,
                gamma,
                convergence_threshold,
                s,
                (fuel - iter + 1) as nat,
            ).0,
            run(u0@, lambda, gamma, convergence_threshold, init_state(u0@, tau, sigma), fuel).1
                as int == run(
                u0@,
                lambda,
                gamma,
                convergence_threshold,
                s,
                (fuel - iter + 1) as nat,
            ).1 + iter - 1,
        decreases fuel - iter,
    {
        let ghost s0 = s;
        // dual ascent along the forward differences of the extrapolated
        // variable, then projection onto the unit ball
        let ga = dual_a.add_exact(&current_bar.pos_grad_exact(0).scale(sigma_v));
        let gb = dual_b.add_exact(&current_bar.pos_grad_exact(1).scale(sigma_v));
        let proj = ball_projection(&ga, &gb);
        dual_a = proj.0;
        dual_b = proj.1;
        // primal descent against the divergence of the dual pair, pulled
        // back towards the noisy input
        let previous = current.dup();
        let divergence = dual_a.neg_grad_exact(0).add_exact(&dual_b.neg_grad_exact(1));
        let descended = current.sub_exact(&divergence.scale(tau_v));
        current = u0.weighted_average(&descended, tau_v, lambda);
        // step-size acceleration and extrapolation
        let theta = div_bits(F64_ONE, add_bits(F64_ONE, mul_bits(mul_bits(F64_TWO, gamma), tau_v)));
        tau_v = mul_bits(tau_v, theta);
        sigma_v = div_bits(sigma_v, theta);
        current_bar = current.add_exact(&current.sub_exact(&previous).scale(theta));
        // relative change of the primal variable
        let c = div_bits(current.sub_exact(&previous).norm(), previous.norm());
        proof {
            let sc = step(u0@, lambda, gamma, s0);
            assert(sc.0 == (SolveState {
                current: current@,
                current_bar: current_bar@,
                dual_a: dual_a@,
                dual_b: dual_b@,
                tau: tau_v,
                sigma: sigma_v,
            }));
            assert(sc.1 == c);
            s = sc.0;
        }
        if is_nan_bits(c) || lt_bits(c, convergence_threshold) || iter >= max_iter {
            return Ok((current, iter));
        }
        iter += 1;
    }
}

/// Denoises a single-channel matrix by the accelerated primal-dual
/// total-variation solver.
///
/// `lambda` weighs fidelity to the input, `tau` and `sigma` are the
/// initial step sizes, `gamma` the acceleration rate; the loop runs until
/// the relative change of the iterate falls below
/// `convergence_threshold` or `max_iter` iterations have run.  Fails with
/// `AxisTooShort` exactly when either spatial axis of the input is
/// shorter than two.
pub fn denoise(
    u0: &Matrix,
    lambda: u64,
    tau: u64,
    sigma: u64,
    gamma: u64,
    max_iter: u32,
    convergence_threshold: u64,
) -> (r: Result<Matrix, Error>)
    ensures
        r is Err <==> (u0@.width <= 1 || u0@.height <= 1),
        r is Err ==> r->Err_0 == Error::AxisTooShort,
        r is Ok ==> r->Ok_0@ == run(
            u0@,
            lambda,
            gamma,
            convergence_threshold,
            init_state(u0@, tau, sigma),
            fuel_of(max_iter),
        ).0,
{
    match denoise_with_iterations(u0, lambda, tau, sigma, gamma, max_iter, convergence_threshold) {
        Ok(p) => Ok(p.0),
        Err(e) => Err(e),
    }
}

/// The state carried by the multichannel solver between iterations.
#[verifier::ext_equal]
pub ghost struct SolveStateMc {
    pub current: BundleView,
    pub current_bar: BundleView,
    pub dual_a: BundleView,
    pub dual_b: BundleView,
    pub tau: u64,
    pub sigma: u64,
}

/// The multichannel warm start, channel for channel as in `init_state`.
pub open spec fn init_state_multichannel(u0: BundleView, tau: u64, sigma: u64) -> SolveStateMc {
    SolveStateMc {
        current: u0,
        current_bar: u0,
        dual_a: bv_pos_grad(u0, 0),
        dual_b: bv_pos_grad(u0, 1),
        tau,
        sigma,
    }
}

/// One full iteration of the multichannel solver: as `step`, except that
/// the ball projection couples the channels through one shared per-pixel
/// length.
pub open spec fn step_multichannel(u0: BundleView, lambda: u64, gamma: u64, s: SolveStateMc) -> (
    SolveStateMc,
    u64,
) {
    let ga = bv_add(s.dual_a, bv_scale(s.sigma, bv_pos_grad(s.current_bar, 0)));
    let gb = bv_add(s.dual_b, bv_scale(s.sigma, bv_pos_grad(s.current_bar, 1)));
    let mx = mv_max_one(bv_vec_len(ga, gb));
    let da = bv_div_matrix(ga, mx);
    let db = bv_div_matrix(gb, mx);
    let previous = s.current;
    let divergence = bv_add(bv_neg_grad(da, 0), bv_neg_grad(db, 1));
    let descended = bv_sub(s.current, bv_scale(s.tau, divergence));
    let current = bv_weighted_average(u0, descended, s.tau, lambda);
    let theta = theta_of(gamma, s.tau);
    let current_bar = bv_add(current, bv_scale(theta, bv_sub(current, previous)));
    let c = div_bits_of(bv_norm(bv_sub(current, previous)), bv_norm(previous));
    (
        SolveStateMc {
            current,
            current_bar,
            dual_a: da,
            dual_b: db,
            tau: mul_bits_of(s.tau, theta),
            sigma: div_bits_of(s.sigma, theta),
        },
        c,
    )
}

/// The multichannel solve from state `s` with `fuel` iterations left.
pub open spec fn run_multichannel(
    u0: BundleView,
    lambda: u64,
    gamma: u64,
    threshold: u64,
    s: SolveStateMc,
    fuel: nat,
) -> (BundleView, nat)
    decreases fuel,
{
    let sc = step_multichannel(u0, lambda, gamma, s);
    if converged(sc.1, threshold) || fuel <= 1 {
        (sc.0.current, 1)
    } else {
        let rest = run_multichannel(u0, lambda, gamma, threshold, sc.0, (fuel - 1) as nat);
        (rest.0, rest.1 + 1)
    }
}

/// Denoises a bundle with channel-coupled projection and also reports how
/// many iterations ran.
pub fn denoise_multichannel_with_iterations(
    u0: &RgbMatrices,
    lambda: u64,
    tau: u64,
    sigma: u64,
    gamma: u64,
    max_iter: u32,
    convergence_threshold: u64,
) -> (r: Result<(RgbMatrices, u32), Error>)
    ensures
        r is Err <==> (u0@.width() <= 1 || u0@.height() <= 1),
        r is Err ==> r->Err_0 == Error::AxisTooShort,
        r is Ok ==> ({
            let out = run_multichannel(
                u0@,
                lambda,
                gamma,
                convergence_threshold,
                init_state_multichannel(u0@, tau, sigma),
                fuel_of(max_iter),
            );
            r->Ok_0.0@ == out.0 && r->Ok_0.1 as nat == out.1
        }),
{
    let shape = u0.shape();
    if shape.0 <= 1 || shape.1 <= 1 {
        return Err(Error::AxisTooShort);
    }
    let mut current = u0.dup();
    let mut current_bar = u0.dup();
    let mut dual_a = u0.pos_grad_exact(0);
    let mut dual_b = u0.pos_grad_exact(1);
    let mut tau_v: u64 = tau;
    let mut sigma_v: u64 = sigma;
    let ghost fuel: nat = fuel_of(max_iter);
    let ghost mut s: SolveStateMc = init_state_multichannel(u0@, tau, sigma);
    let mut iter: u32 = 1;
    loop
        invariant
            u0@.width() >= 2,
            u0@.height() >= 2,
            current@.same_shape(u0@),
            current_bar@.same_shape(u0@),
            dual_a@.same_shape(u0@),
            dual_b@.same_shape(u0@),
            s == (SolveStateMc {
                current: current@,
                current_bar: current_bar@,
                dual_a: dual_a@,
                dual_b: dual_b@,
                tau: tau_v,
                sigma: sigma_v,
            }),
            fuel == fuel_of(max_iter),
            1 <= iter,
            iter as nat <= fuel,
            run_multichannel(
                u0@,
                lambda,
                gamma,
                convergence_threshold,
                init_state_multichannel(u0@, tau, sigma),
                fuel,
            ).0 == run_multichannel(
                u0@,
                lambda,
                gamma,
                convergence_threshold,
                s,
                (fuel - iter + 1) as nat,
            ).0,
            run_multichannel(
                u0@,
                lambda,
                gamma,
                convergence_threshold,
                init_state_multichannel(u0@, tau, sigma),
                fuel,
            ).1 as int == run_multichannel(
                u0@,
                lambda,
                gamma,
                convergence_threshold,
                s,
                (fuel - iter + 1) as nat,
            ).1 + iter - 1,
        decreases fuel - iter,
    {
        let ghost s0 = s;
        // dual ascent, then the channel-coupled ball projection
        let ga = dual_a.add_exact(&current_bar.pos_grad_exact(0).scale(sigma_v));
        let gb = dual_b.add_exact(&current_bar.pos_grad_exact(1).scale(sigma_v));
        let proj = ball_projection_multichannel(&ga, &gb);
        dual_a = proj.0;
        dual_b = proj.1;
        // primal descent pulled back towards the noisy input
        let previous = current.dup();
        let divergence = dual_a.neg_grad_exact(0).add_exact(&dual_b.neg_grad_exact(1));
        let descended = current.sub_exact(&divergence.scale(tau_v));
        current = u0.weighted_average(&descended, tau_v, lambda);
        // step-size acceleration and extrapolation
        let theta = div_bits(F64_ONE, add_bits(F64_ONE, mul_bits(mul_bits(F64_TWO, gamma), tau_v)));
        tau_v = mul_bits(tau_v, theta);
        sigma_v = div_bits(sigma_v, theta);
        current_bar = current.add_exact(&current.sub_exact(&previous).scale(theta));
        // relative change of the primal variable
        let c = div_bits(current.sub_exact(&previous).norm(), previous.norm());
        proof {
            let sc = step_multichannel(u0@, lambda, gamma, s0);
            assert(sc.0 == (SolveStateMc {
                current: current@,
                current_bar: current_bar@,
                dual_a: dual_a@,
                dual_b: dual_b@,
                tau: tau_v,
                sigma: sigma_v,
            }));
            assert(sc.1 == c);
            s = sc.0;
        }
        if is_nan_bits(c) || lt_bits(c, convergence_threshold) || iter >= max_iter {
            return Ok((current, iter));
        }
        iter += 1;
    }
}

/// Denoises a three-channel bundle by the accelerated primal-dual solver
/// with the ball projection coupled across channels (vector/color total
/// variation), which is a materially different algorithm from denoising
/// each channel on its own.
pub fn denoise_multichannel(
    u0: &RgbMatrices,
    lambda: u64,
    tau: u64,
    sigma: u64,
    gamma: u64,
    max_iter: u32,
    convergence_threshold: u64,
) -> (r: Result<RgbMatrices, Error>)
    ensures
        r is Err <==> (u0@.width() <= 1 || u0@.height() <= 1),
        r is Err ==> r->Err_0 == Error::AxisTooShort,
        r is Ok ==> r->Ok_0@ == run_multichannel(
            u0@,
            lambda,
            gamma,
            convergence_threshold,
            init_state_multichannel(u0@, tau, sigma),
            fuel_of(max_iter),
        ).0,
{
    match denoise_multichannel_with_iterations(
        u0,
        lambda,
        tau,
        sigma,
        gamma,
        max_iter,
        convergence_threshold,
    ) {
        Ok(p) => Ok(p.0),
        Err(e) => Err(e),
    }
}

} // verus!
