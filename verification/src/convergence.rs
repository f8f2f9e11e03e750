//! The convergence checker: compares two prices against an absolute
//! tolerance and reports a verdict.

use vstd::prelude::*;
use crate::contract::MAX_AMOUNT;

verus! {

/// The absolute value of a mathematical integer.
pub open spec fn abs_int(x: int) -> int {
    if x >= 0 {
        x
    } else {
        -x
    }
}

/// Largest price magnitude either pricer can return, in millionths:
/// a discounted amount, so at most `MAX_FACTOR * MAX_AMOUNT / SCALE`.
pub const MAX_PRICE: i64 = 100 * MAX_AMOUNT;

/// The outcome of comparing two prices: their absolute difference and
/// whether it lies strictly below the tolerance.
#[derive(Clone, Copy, Debug, PartialEq, Eq, Structural)]
pub struct ConvergenceVerdict {
    /// `|price_a - price_b|`, in millionths of a currency unit.
    pub difference: i64,
    /// Whether `difference < tolerance`.
    pub converged: bool,
}

/// Compare two prices: the verdict's `difference` is exactly
/// `|price_a - price_b|` and `converged` holds exactly when that difference
/// is strictly below `tolerance`.  Deterministic, no side effects.
pub fn check_convergence(price_a: i64, price_b: i64, tolerance: i64) -> (v: ConvergenceVerdict)
    requires
        -MAX_PRICE <= price_a <= MAX_PRICE,
        -MAX_PRICE <= price_b <= MAX_PRICE,
    ensures
        v.difference == abs_int(price_a - price_b),
        v.converged == (v.difference < tolerance),
{
    let difference: i64 = if price_a >= price_b {
        price_a - price_b
    } else {
        price_b - price_a
    };
    ConvergenceVerdict { difference, converged: difference < tolerance }
}

} // verus!
