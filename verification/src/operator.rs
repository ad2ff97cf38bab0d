//! The capabilities an operator can offer.

use crate::column::Column;
use vstd::prelude::*;

verus! {

/// A linear map known only by its shape and its action on a vector.
///
/// The shape is fixed, and `apply` is a function of the operator and its
/// argument alone: `image` is the name of what it returns. As in [`Column`],
/// the defaults of the specification functions fix nothing.
pub trait LinearOperator<V: Column>: Sized {
    /// Number of rows: the length of every image.
    open spec fn rows(&self) -> nat {
        arbitrary()
    }

    /// Number of columns: the length that `apply` expects.
    open spec fn cols(&self) -> nat {
        arbitrary()
    }

    /// The image of `x` under the operator.
    open spec fn image(&self, x: &V) -> V {
        arbitrary()
    }

    /// The number of rows.
    fn nrows(&self) -> (n: usize)
        ensures
            n == self.rows(),
    ;

    /// The number of columns.
    fn ncols(&self) -> (n: usize)
        ensures
            n == self.cols(),
    ;

    /// Applies the operator to a vector of `ncols()` entries and returns a
    /// fresh vector of `nrows()` entries. A vector of any other length is
    /// not accepted; `try_apply` tests the length first.
    fn apply(&self, rhs: &V) -> (out: V)
        requires
            rhs.dim() == self.cols(),
        ensures
            out == self.image(rhs),
            out.dim() == self.rows(),
    ;
}

/// An operator equal to its own adjoint: `apply(x)ᵗ y == xᵗ apply(y)` for all
/// `x` and `y`. The property is the implementer's to guarantee.
pub trait Symmetric<V: Column>: LinearOperator<V> {
    /// The adjoint of a symmetric operator is the operator itself.
    fn adjoint(self) -> (out: Self)
        ensures
            out == self,
    {
        self
    }
}

/// An operator whose quadratic form `xᵗ apply(x)` is strictly positive for
/// every nonzero `x`. The property is the implementer's to guarantee.
pub trait PositiveDefinite<V: Column>: LinearOperator<V> {

}

/// Applies `op` to `rhs` when the length of `rhs` is the operator's number
/// of columns, and refuses any other length.
pub fn try_apply<V: Column, A: LinearOperator<V>>(op: &A, rhs: &V) -> (out: Option<V>)
    ensures
        out.is_some() <==> rhs.dim() == op.cols(),
        out matches Some(y) ==> y == op.image(rhs) && y.dim() == op.rows(),
{
    if rhs.len() == op.ncols() {
        Some(op.apply(rhs))
    } else {
        None
    }
}

} // verus!
