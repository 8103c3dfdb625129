//! Convergence criteria.
//!
//! A criterion decides, from the previous iterate `x_pre`, the current one
//! `x_cur` and the residual `f_cur = f(x_cur)`, whether an iterative solver
//! may stop. Values are bit patterns of doubles. Users supply their own by
//! implementing `IsConverged`; `FnResidual` stops on a small residual and
//! `DualCriteria` asks two criteria at once.
use vstd::prelude::*;
use crate::ieee::{abs, abs_spec, is_finite_spec, le_spec, lt, lt_spec};

verus! {

/// Decides whether an iterative root finder has converged.
pub trait IsConverged {
    /// The decision, as a function of its three arguments alone.
    spec fn converged(&self, x_pre: u64, x_cur: u64, f_cur: u64) -> bool;

    fn is_converged(&self, x_pre: u64, x_cur: u64, f_cur: u64) -> (r: bool)
        ensures
            r == self.converged(x_pre, x_cur, f_cur),
    ;
}

/// Converges once the residual is small: `|f(x_cur)| < epsilon_abs`.
///
/// A shallow function meets this far from its root: `f(x) = -1e-7 x + 0.01`
/// has its root at 100000, yet with `epsilon_abs = 1e-3` every `x` in
/// `[90000, 110000]` passes.
pub struct FnResidual {
    epsilon_abs: u64,
}

impl FnResidual {
    /// The tolerance.
    pub closed spec fn epsilon(&self) -> u64 {
        self.epsilon_abs
    }

    /// A residual criterion with tolerance `epsilon_abs`, which must be
    /// finite and not below zero.
    pub fn new(epsilon_abs: u64) -> (r: FnResidual)
        requires
            is_finite_spec(epsilon_abs),
            le_spec(0, epsilon_abs),
        ensures
            r.epsilon() == epsilon_abs,
    {
        FnResidual { epsilon_abs }
    }
}

impl IsConverged for FnResidual {
    open spec fn converged(&self, x_pre: u64, x_cur: u64, f_cur: u64) -> bool {
        lt_spec(abs_spec(f_cur), self.epsilon())
    }

    fn is_converged(&self, x_pre: u64, x_cur: u64, f_cur: u64) -> (r: bool) {
        lt(abs(f_cur), self.epsilon_abs)
    }
}

/// Converges when both wrapped criteria do.
pub struct DualCriteria<'a, C1: IsConverged, C2: IsConverged> {
    c1: &'a C1,
    c2: &'a C2,
}

impl<'a, C1: IsConverged, C2: IsConverged> DualCriteria<'a, C1, C2> {
    /// The first criterion.
    pub closed spec fn first(&self) -> C1 {
        *self.c1
    }

    /// The second criterion.
    pub closed spec fn second(&self) -> C2 {
        *self.c2
    }

    /// The conjunction of `c1` and `c2`.
    pub fn new(c1: &'a C1, c2: &'a C2) -> (r: DualCriteria<'a, C1, C2>)
        ensures
            r.first() == *c1,
            r.second() == *c2,
    {
        DualCriteria { c1, c2 }
    }
}

impl<'a, C1: IsConverged, C2: IsConverged> IsConverged for DualCriteria<'a, C1, C2> {
    open spec fn converged(&self, x_pre: u64, x_cur: u64, f_cur: u64) -> bool {
        self.first().converged(x_pre, x_cur, f_cur) && self.second().converged(x_pre, x_cur, f_cur)
    }

    fn is_converged(&self, x_pre: u64, x_cur: u64, f_cur: u64) -> (r: bool) {
        self.c1.is_converged(x_pre, x_cur, f_cur) && self.c2.is_converged(x_pre, x_cur, f_cur)
    }
}

} // verus!
