//! The vector space the solver computes in.

use vstd::prelude::*;

verus! {

/// A column vector over a real field, with the handful of operations that the
/// conjugate gradient recurrence needs.
///
/// Every operation is a function of its arguments alone: the specification
/// functions give each result a name, and the executable methods promise to
/// return exactly that value. Nothing here says what the values are. The
/// default of each specification function fixes nothing, so whatever is
/// proved over this trait holds for every choice of them; an implementation
/// that is itself verified replaces the defaults with its own model.
///
/// The promises are the implementer's to keep: one length per vector, and
/// results that depend on the arguments and on nothing else. Operations on
/// two vectors are only defined for vectors of one length; an implementation
/// may refuse any other call.
pub trait Column: Sized {
    /// The real scalars that inner products, ratios and tolerances live in.
    type Scalar;

    /// Number of entries.
    open spec fn dim(&self) -> nat {
        arbitrary()
    }

    /// The zero vector with `n` entries.
    open spec fn zero(n: nat) -> Self {
        arbitrary()
    }

    /// `self - other`, entry by entry.
    open spec fn minus(&self, other: &Self) -> Self {
        arbitrary()
    }

    /// `self + factor * dir`.
    open spec fn plus_scaled(&self, factor: &Self::Scalar, dir: &Self) -> Self {
        arbitrary()
    }

    /// `self - factor * dir`.
    open spec fn minus_scaled(&self, factor: &Self::Scalar, dir: &Self) -> Self {
        arbitrary()
    }

    /// The inner product of `self` and `other`.
    open spec fn inner(&self, other: &Self) -> Self::Scalar {
        arbitrary()
    }

    /// `num / den`. Nothing is said about a vanishing `den`: whatever the
    /// field returns for it is the quotient.
    open spec fn quotient(num: &Self::Scalar, den: &Self::Scalar) -> Self::Scalar {
        arbitrary()
    }

    /// Whether the largest absolute entry of `self` is at most `tol`.
    open spec fn within(&self, tol: &Self::Scalar) -> bool {
        arbitrary()
    }

    /// The number of entries.
    fn len(&self) -> (n: usize)
        ensures
            n == self.dim(),
    ;

    /// A fresh zero vector of the length of `self`.
    fn zeros_like(&self) -> (out: Self)
        ensures
            out == Self::zero(self.dim()),
            out.dim() == self.dim(),
    ;

    /// A fresh copy of `self`.
    fn duplicate(&self) -> (out: Self)
        ensures
            out == *self,
    ;

    /// `self - other`.
    fn difference(&self, other: &Self) -> (out: Self)
        requires
            self.dim() == other.dim(),
        ensures
            out == self.minus(other),
            out.dim() == self.dim(),
    ;

    /// `self + factor * dir`.
    fn add_scaled(&self, factor: &Self::Scalar, dir: &Self) -> (out: Self)
        requires
            self.dim() == dir.dim(),
        ensures
            out == self.plus_scaled(factor, dir),
            out.dim() == self.dim(),
    ;

    /// `self - factor * dir`.
    fn sub_scaled(&self, factor: &Self::Scalar, dir: &Self) -> (out: Self)
        requires
            self.dim() == dir.dim(),
        ensures
            out == self.minus_scaled(factor, dir),
            out.dim() == self.dim(),
    ;

    /// The inner product of `self` and `other`.
    fn dot(&self, other: &Self) -> (out: Self::Scalar)
        requires
            self.dim() == other.dim(),
        ensures
            out == self.inner(other),
    ;

    /// `num / den`, unguarded.
    fn divide(num: &Self::Scalar, den: &Self::Scalar) -> (out: Self::Scalar)
        ensures
            out == Self::quotient(num, den),
    ;

    /// Whether the largest absolute entry of `self` is at most `tol`.
    fn max_norm_within(&self, tol: &Self::Scalar) -> (ok: bool)
        ensures
            ok == self.within(tol),
    ;
}

} // verus!
