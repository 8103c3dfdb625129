//! Function-evaluation capabilities.
//!
//! A root finder asks for what it needs: `RealFnEval` for `f(x)`,
//! `RealDfEval` for the first derivative and `RealD2fEval` for the second.
//! Values are bit patterns of doubles. Each capability names what it computes
//! with a spec function, so an implementation must be pure: the same `x`
//! always gives the same value.
use vstd::prelude::*;

verus! {

/// Evaluates `f: R -> R`.
pub trait RealFnEval {
    /// The value of `f` at `x`.
    spec fn f_spec(&self, x: u64) -> u64;

    fn eval_f(&self, x: u64) -> (r: u64)
        ensures
            r == self.f_spec(x),
    ;
}

/// Evaluates the derivative `f'`.
pub trait RealDfEval {
    /// The value of `f'` at `x`.
    spec fn df_spec(&self, x: u64) -> u64;

    fn eval_df(&self, x: u64) -> (r: u64)
        ensures
            r == self.df_spec(x),
    ;
}

/// Evaluates the second derivative `f''`.
pub trait RealD2fEval {
    /// The value of `f''` at `x`.
    spec fn d2f_spec(&self, x: u64) -> u64;

    fn eval_d2f(&self, x: u64) -> (r: u64)
        ensures
            r == self.d2f_spec(x),
    ;
}

} // verus!
