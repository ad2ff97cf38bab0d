use faer::Mat;
use faer_entity::RealField;
use faery_operators::try_apply;
use faery_operators::Column;
use faery_operators::LinearOperator;
use faery_operators::PositiveDefinite;
use faery_operators::Symmetric;
use faery_operators::SymmetricPositiveDefinite;

/// A dense `faer` matrix, used both as a column vector and as an operator.
#[derive(Clone, Debug)]
struct Dense(Mat<f64>);

impl Column for Dense {
    type Scalar = f64;

    fn len(&self) -> usize {
        self.0.nrows()
    }

    fn zeros_like(&self) -> Self {
        Dense(Mat::zeros(self.0.nrows(), self.0.ncols()))
    }

    fn duplicate(&self) -> Self {
        Dense(self.0.clone())
    }

    fn difference(&self, other: &Self) -> Self {
        Dense(&self.0 - &other.0)
    }

    fn add_scaled(&self, factor: &f64, dir: &Self) -> Self {
        Dense(&self.0 + faer::scale(*factor) * &dir.0)
    }

    fn sub_scaled(&self, factor: &f64, dir: &Self) -> Self {
        Dense(&self.0 - faer::scale(*factor) * &dir.0)
    }

    fn dot(&self, other: &Self) -> f64 {
        (self.0.transpose() * &other.0).read(0, 0)
    }

    fn divide(num: &f64, den: &f64) -> f64 {
        num.faer_div(*den)
    }

    fn max_norm_within(&self, tol: &f64) -> bool {
        self.0.norm_max() <= *tol
    }
}

impl LinearOperator<Dense> for Dense {
    fn nrows(&self) -> usize {
        self.0.nrows()
    }

    fn ncols(&self) -> usize {
        self.0.ncols()
    }

    fn apply(&self, rhs: &Dense) -> Dense {
        Dense(&self.0 * &rhs.0)
    }
}

impl Symmetric<Dense> for Dense {}

impl PositiveDefinite<Dense> for Dense {}

fn square(entries: &[&[f64]]) -> Dense {
    Dense(Mat::from_fn(entries.len(), entries[0].len(), |i, j| entries[i][j]))
}

fn column(entries: &[f64]) -> Dense {
    Dense(Mat::from_fn(entries.len(), 1, |i, _| entries[i]))
}

fn entries(v: &Dense) -> Vec<f64> {
    (0..v.0.nrows()).map(|i| v.0.read(i, 0)).collect()
}

fn max_abs_gap(a: &Dense, b: &Dense) -> f64 {
    (&a.0 - &b.0).norm_max()
}

#[test]
fn it_does_not_work() {
    let mat = square(&[&[1.0, -3.0], &[-3., 1.]]);
    let b = column(&[1.0, 2.0]);

    let x = mat.clone().conjugate_gradient(b.clone(), 1e-10, 100).solution;

    let image = mat.apply(&x);
    assert_eq!(image.0.nrows(), 2);
    assert_eq!(image.0.ncols(), 1);
    assert!(max_abs_gap(&image, &b) <= 1e-5);
}

#[test]
fn indefinite_system_reports_convergence_after_two_updates() {
    let mat = square(&[&[1.0, -3.0], &[-3.0, 1.0]]);
    let b = column(&[1.0, 2.0]);
    let out = mat.conjugate_gradient(b, 1e-10, 100);
    assert!(out.converged);
    assert_eq!(out.iterations, 2);
    let x = entries(&out.solution);
    assert!((x[0] - (-0.875)).abs() <= 1e-12);
    assert!((x[1] - (-0.625)).abs() <= 1e-12);
}

#[test]
fn spd_system_converges_to_the_solution() {
    let mat = square(&[&[4.0, 1.0], &[1.0, 3.0]]);
    let b = column(&[1.0, 2.0]);
    let tol = 1e-10;
    let out = mat.clone().conjugate_gradient(b.clone(), tol, 100);
    assert!(out.converged);
    assert!(max_abs_gap(&mat.apply(&out.solution), &b) <= tol + 1e-12);
    let x = entries(&out.solution);
    assert!((x[0] - 1.0 / 11.0).abs() <= 1e-12);
    assert!((x[1] - 7.0 / 11.0).abs() <= 1e-12);
}

#[test]
fn zero_right_hand_side_returns_zero_at_once() {
    let mat = square(&[&[4.0, 1.0], &[1.0, 3.0]]);
    let out = mat.conjugate_gradient(column(&[0.0, 0.0]), 1e-10, 100);
    assert!(out.converged);
    assert_eq!(out.iterations, 0);
    assert_eq!(entries(&out.solution), vec![0.0, 0.0]);
}

#[test]
fn right_hand_side_within_tolerance_returns_zero_at_once() {
    let mat = square(&[&[4.0, 1.0], &[1.0, 3.0]]);
    let out = mat.conjugate_gradient(column(&[0.5, -0.25]), 0.5, 100);
    assert!(out.converged);
    assert_eq!(out.iterations, 0);
    assert_eq!(entries(&out.solution), vec![0.0, 0.0]);
}

#[test]
fn zero_iteration_limit_returns_zero_unconverged() {
    let mat = square(&[&[4.0, 1.0], &[1.0, 3.0]]);
    let out = mat.conjugate_gradient(column(&[1.0, 2.0]), 1e-10, 0);
    assert!(!out.converged);
    assert_eq!(out.iterations, 0);
    assert_eq!(entries(&out.solution), vec![0.0, 0.0]);
}

#[test]
fn iteration_limit_returns_the_last_iterate() {
    // r = (1, 2), rtr = 5, A r = (6, 7), denominator = 20, alpha = 1/4.
    let mat = square(&[&[4.0, 1.0], &[1.0, 3.0]]);
    let out = mat.conjugate_gradient(column(&[1.0, 2.0]), 1e-10, 1);
    assert!(!out.converged);
    assert_eq!(out.iterations, 1);
    assert_eq!(entries(&out.solution), vec![0.25, 0.5]);
}

#[test]
fn convergence_at_the_limit_counts_as_converged() {
    // After one update the residual is (-1/2, 1/4).
    let mat = square(&[&[4.0, 1.0], &[1.0, 3.0]]);
    let out = mat.conjugate_gradient(column(&[1.0, 2.0]), 0.5, 1);
    assert!(out.converged);
    assert_eq!(out.iterations, 1);
    assert_eq!(entries(&out.solution), vec![0.25, 0.5]);
}

#[test]
fn identity_is_solved_in_one_update() {
    let mat = square(&[&[1.0, 0.0, 0.0], &[0.0, 1.0, 0.0], &[0.0, 0.0, 1.0]]);
    let out = mat.conjugate_gradient(column(&[3.0, -1.0, 2.0]), 1e-12, 30);
    assert!(out.converged);
    assert_eq!(out.iterations, 1);
    assert_eq!(entries(&out.solution), vec![3.0, -1.0, 2.0]);
}

#[test]
fn small_spd_system_converges_well_before_ten_times_its_size() {
    let n: usize = 5;
    let mat = Dense(Mat::from_fn(n, n, |i, j| {
        if i == j {
            4.0
        } else if i + 1 == j || j + 1 == i {
            -1.0
        } else {
            0.0
        }
    }));
    let b = column(&[1.0, 2.0, 3.0, 4.0, 5.0]);
    let tol = 1e-9;
    let out = mat.clone().conjugate_gradient(b.clone(), tol, 10 * n);
    assert!(out.converged);
    assert!(out.iterations <= n + 1);
    assert_eq!(out.solution.len(), n);
    assert!(max_abs_gap(&mat.apply(&out.solution), &b) <= 1e-8);
}

#[test]
fn solving_twice_gives_identical_results() {
    let mat = square(&[&[5.0, 2.0, 0.0], &[2.0, 6.0, 1.0], &[0.0, 1.0, 7.0]]);
    let b = column(&[1.0, -2.0, 3.5]);
    let first = mat.clone().conjugate_gradient(b.clone(), 1e-12, 50);
    let second = mat.conjugate_gradient(b, 1e-12, 50);
    assert_eq!(first.iterations, second.iterations);
    assert_eq!(first.converged, second.converged);
    let a: Vec<u64> = entries(&first.solution).iter().map(|v| v.to_bits()).collect();
    let b: Vec<u64> = entries(&second.solution).iter().map(|v| v.to_bits()).collect();
    assert_eq!(a, b);
}

#[test]
fn vanishing_denominator_is_not_guarded() {
    // p = r = (1, 1) and A p = (1, -1): the first denominator is zero.
    let mat = square(&[&[1.0, 0.0], &[0.0, -1.0]]);
    let out = mat.conjugate_gradient(column(&[1.0, 1.0]), 1e-10, 3);
    assert!(out.iterations >= 1);
    assert!(out.iterations <= 3);
    assert!(entries(&out.solution).iter().all(|v| !v.is_finite()));
}

#[test]
fn try_apply_refuses_a_wrong_length() {
    let mat = square(&[&[1.0, 2.0, 3.0], &[4.0, 5.0, 6.0]]);
    assert!(try_apply(&mat, &column(&[1.0, 1.0])).is_none());
    assert!(try_apply(&mat, &column(&[1.0, 1.0, 1.0, 1.0])).is_none());
}

#[test]
fn try_apply_applies_a_matching_length() {
    let mat = square(&[&[1.0, 2.0, 3.0], &[4.0, 5.0, 6.0]]);
    let out = try_apply(&mat, &column(&[1.0, 0.0, -1.0])).unwrap();
    assert_eq!(out.len(), 2);
    assert_eq!(entries(&out), vec![-2.0, -2.0]);
}

#[test]
fn adjoint_of_a_symmetric_operator_is_itself() {
    let mat = square(&[&[2.0, 1.0], &[1.0, 2.0]]);
    let adjoint = mat.clone().adjoint();
    assert_eq!(max_abs_gap(&adjoint, &mat), 0.0);
    assert_eq!(adjoint.nrows(), 2);
    assert_eq!(adjoint.ncols(), 2);
}

#[test]
fn try_conjugate_gradient_refuses_mismatched_shapes() {
    let wide = square(&[&[1.0, 2.0, 3.0], &[4.0, 5.0, 6.0]]);
    assert!(wide.try_conjugate_gradient(column(&[1.0, 1.0]), 1e-10, 10).is_none());
    let mat = square(&[&[4.0, 1.0], &[1.0, 3.0]]);
    assert!(mat.try_conjugate_gradient(column(&[1.0, 2.0, 3.0]), 1e-10, 10).is_none());
}

#[test]
fn try_conjugate_gradient_solves_matching_shapes() {
    let mat = square(&[&[4.0, 1.0], &[1.0, 3.0]]);
    let out = mat.try_conjugate_gradient(column(&[1.0, 2.0]), 1e-10, 1).unwrap();
    assert!(!out.converged);
    assert_eq!(out.iterations, 1);
    assert_eq!(entries(&out.solution), vec![0.25, 0.5]);
}
