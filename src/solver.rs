//! Iterative root finding: the error outcomes, the screening of a proposed
//! step and the generic driver that couples a step rule to a convergence
//! criterion under an iteration cap.
use vstd::prelude::*;
use crate::bracket::Bracket;
use crate::convergence::IsConverged;
use crate::ieee::{abs, is_finite, is_finite_spec, is_zero_spec};
use crate::wrap::RealFnEval;

verus! {

/// Why a root finder stopped without a root. Each variant carries the last
/// relevant `x` as the bit pattern of a double.
#[derive(Clone, Copy, Debug, PartialEq, Eq, Structural)]
pub enum RootError {
    /// The derivative vanished at `x_cur`, so the method has no next step.
    ZeroDerivative { x_cur: u64 },
    /// The computed next iterate `x_new` is not finite.
    IteratedToNaN { x_new: u64 },
    /// The iteration cap was reached; `last_x` is where the solver stood.
    IterationLimit { last_x: u64 },
}

/// The outcome of a derivative-based step from `x_cur`, where the
/// derivative there is `df_cur` and the proposed next iterate is `x_new`.
pub open spec fn screened(x_cur: u64, df_cur: u64, x_new: u64) -> Result<u64, RootError> {
    if is_zero_spec(df_cur) {
        Err(RootError::ZeroDerivative { x_cur })
    } else if !is_finite_spec(x_new) {
        Err(RootError::IteratedToNaN { x_new })
    } else {
        Ok(x_new)
    }
}

/// Screens a derivative-based step (Newton-Raphson, Halley): a zero
/// derivative fails first, then a non-finite proposal, else the proposal is
/// the next iterate.
pub fn screen_step(x_cur: u64, df_cur: u64, x_new: u64) -> (r: Result<u64, RootError>)
    ensures
        r == screened(x_cur, df_cur, x_new),
{
    if abs(df_cur) == 0 {
        Err(RootError::ZeroDerivative { x_cur })
    } else if !is_finite(x_new) {
        Err(RootError::IteratedToNaN { x_new })
    } else {
        Ok(x_new)
    }
}

/// The guard of a bracket-preserving hybrid solver: a proposed step is
/// taken only where it succeeded and lands inside the current bracket;
/// otherwise (`None`) the solver bisects instead.
pub fn accept_in_bracket(bracket: &Bracket, proposal: Result<u64, RootError>) -> (r: Option<u64>)
    ensures
        r == (match proposal {
            Ok(x) => if bracket.bounds.contains_spec(x) {
                Some(x)
            } else {
                None
            },
            Err(_) => None,
        }),
{
    match proposal {
        Ok(x) => {
            if bracket.bounds.contains(x) {
                Some(x)
            } else {
                None
            }
        },
        Err(_) => None,
    }
}

/// One step of an iterative method on `f`: from `x_cur`, where `f` takes
/// the value `f_cur`, to the next iterate or an error.
pub trait StepRule<F> {
    /// The step, as a function of its arguments alone.
    spec fn step_spec(&self, f: &F, x_cur: u64, f_cur: u64) -> Result<u64, RootError>;

    fn step(&self, f: &F, x_cur: u64, f_cur: u64) -> (r: Result<u64, RootError>)
        ensures
            r == self.step_spec(f, x_cur, f_cur),
    ;
}

/// What the driver returns with at most `rounds` steps left, standing at
/// `x_pre` where `f` is `f_pre`: a failed step ends it with that error, a
/// converged step with its iterate, and running out of rounds with the
/// iteration limit at the current point.
pub open spec fn run<F: RealFnEval, I: StepRule<F>, C: IsConverged>(
    f: &F,
    iterate: &I,
    finish: &C,
    x_pre: u64,
    f_pre: u64,
    rounds: nat,
) -> Result<u64, RootError>
    decreases rounds,
{
    if rounds == 0 {
        Err(RootError::IterationLimit { last_x: x_pre })
    } else {
        match iterate.step_spec(f, x_pre, f_pre) {
            Err(e) => Err(e),
            Ok(x_cur) => {
                let f_cur = f.f_spec(x_cur);
                if finish.converged(x_pre, x_cur, f_cur) {
                    Ok(x_cur)
                } else {
                    run(f, iterate, finish, x_cur, f_cur, (rounds - 1) as nat)
                }
            },
        }
    }
}

/// Drives the step rule `iterate` from the finite guess `start` for at most
/// `max_iter` steps, testing `finish` after each one with the previous
/// iterate, the new one and `f` at the new one.
pub fn iterative_root_find<F: RealFnEval, I: StepRule<F>, C: IsConverged>(
    f: &F,
    iterate: &I,
    start: u64,
    finish: &C,
    max_iter: usize,
) -> (r: Result<u64, RootError>)
    requires
        is_finite_spec(start),
    ensures
        r == run(f, iterate, finish, start, f.f_spec(start), max_iter as nat),
{
    let mut x_pre = start;
    let mut f_pre = f.eval_f(start);
    let mut i: usize = 0;
    while i < max_iter
        invariant
            i <= max_iter,
            f_pre == f.f_spec(x_pre),
            run(f, iterate, finish, x_pre, f_pre, (max_iter - i) as nat) == run(
                f,
                iterate,
                finish,
                start,
                f.f_spec(start),
                max_iter as nat,
            ),
        decreases max_iter - i,
    {
        let x_cur = match iterate.step(f, x_pre, f_pre) {
            Ok(x) => x,
            Err(e) => {
                return Err(e);
            },
        };
        let f_cur = f.eval_f(x_cur);
        if finish.is_converged(x_pre, x_cur, f_cur) {
            return Ok(x_cur);
        }
        x_pre = x_cur;
        f_pre = f_cur;
        i = i + 1;
    }
    Err(RootError::IterationLimit { last_x: x_pre })
}

/// With no round to run, the driver stops at once with the iteration limit
/// at its starting point.
pub proof fn lemma_no_rounds_no_step<F: RealFnEval, I: StepRule<F>, C: IsConverged>(
    f: &F,
    iterate: &I,
    finish: &C,
    start: u64,
)
    ensures
        run(f, iterate, finish, start, f.f_spec(start), 0) == Err::<u64, RootError>(
            RootError::IterationLimit { last_x: start },
        ),
{
}

/// A step that fails at the starting point ends the run with that very
/// error: the driver neither retries nor perturbs the guess.
pub proof fn lemma_failed_first_step<F: RealFnEval, I: StepRule<F>, C: IsConverged>(
    f: &F,
    iterate: &I,
    finish: &C,
    start: u64,
    rounds: nat,
    e: RootError,
)
    requires
        rounds > 0,
        iterate.step_spec(f, start, f.f_spec(start)) == Err::<u64, RootError>(e),
    ensures
        run(f, iterate, finish, start, f.f_spec(start), rounds) == Err::<u64, RootError>(e),
{
}

/// A derivative-based step rule that meets a vanishing derivative at the
/// starting point fails there with `ZeroDerivative`, whatever it proposed,
/// and the driver returns that error rather than a number.
pub proof fn lemma_vanishing_derivative_fails<F: RealFnEval, I: StepRule<F>, C: IsConverged>(
    f: &F,
    iterate: &I,
    finish: &C,
    start: u64,
    rounds: nat,
    df_start: u64,
    x_new: u64,
)
    requires
        rounds > 0,
        is_zero_spec(df_start),
        iterate.step_spec(f, start, f.f_spec(start)) == screened(start, df_start, x_new),
    ensures
        run(f, iterate, finish, start, f.f_spec(start), rounds) == Err::<u64, RootError>(
            RootError::ZeroDerivative { x_cur: start },
        ),
{
}

/// Two runs on the same inputs end alike: the outcome is a function of the
/// function, step rule, criterion, guess and cap, with no hidden state.
pub proof fn lemma_run_repeatable<F: RealFnEval, I: StepRule<F>, C: IsConverged>(
    f: &F,
    iterate: &I,
    finish: &C,
    start: u64,
    rounds: nat,
    first: Result<u64, RootError>,
    second: Result<u64, RootError>,
)
    requires
        first == run(f, iterate, finish, start, f.f_spec(start), rounds),
        second == run(f, iterate, finish, start, f.f_spec(start), rounds),
    ensures
        first == second,
{
}

} // verus!
