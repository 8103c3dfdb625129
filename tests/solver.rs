use rootfind::bracket::{Bounds, Bracket};
use rootfind::convergence::IsConverged;
use rootfind::solver::{accept_in_bracket, iterative_root_find, screen_step, RootError, StepRule};
use rootfind::wrap::{RealD2fEval, RealDfEval, RealFnEval};

fn bits(x: f64) -> u64 {
    x.to_bits()
}

fn val(x: u64) -> f64 {
    f64::from_bits(x)
}

/// f(x) = (x - 5)(x - 4), f'(x) = 2x - 9, f''(x) = 2.
struct Parabola;

impl RealFnEval for Parabola {
    fn f_spec(&self, x: u64) -> u64 {
        self.eval_f(x)
    }

    fn eval_f(&self, x: u64) -> u64 {
        let x = val(x);
        bits((x - 5.0) * (x - 4.0))
    }
}

impl RealDfEval for Parabola {
    fn df_spec(&self, x: u64) -> u64 {
        self.eval_df(x)
    }

    fn eval_df(&self, x: u64) -> u64 {
        bits(2.0 * val(x) - 9.0)
    }
}

impl RealD2fEval for Parabola {
    fn d2f_spec(&self, x: u64) -> u64 {
        self.eval_d2f(x)
    }

    fn eval_d2f(&self, _x: u64) -> u64 {
        bits(2.0)
    }
}

/// f(x) = 2, f'(x) = 0.
struct Flat;

impl RealFnEval for Flat {
    fn f_spec(&self, x: u64) -> u64 {
        self.eval_f(x)
    }

    fn eval_f(&self, _x: u64) -> u64 {
        bits(2.0)
    }
}

impl RealDfEval for Flat {
    fn df_spec(&self, x: u64) -> u64 {
        self.eval_df(x)
    }

    fn eval_df(&self, _x: u64) -> u64 {
        bits(0.0)
    }
}

/// x_new = x - f(x) / f'(x).
struct Newton;

impl<F: RealFnEval + RealDfEval> StepRule<F> for Newton {
    fn step_spec(&self, f: &F, x_cur: u64, f_cur: u64) -> Result<u64, RootError> {
        self.step(f, x_cur, f_cur)
    }

    fn step(&self, f: &F, x_cur: u64, f_cur: u64) -> Result<u64, RootError> {
        let df = f.eval_df(x_cur);
        let x_new = val(x_cur) - val(f_cur) / val(df);
        screen_step(x_cur, df, bits(x_new))
    }
}

/// x_new = x - 2 f f' / (2 f'^2 - f f'').
struct Halley;

impl<F: RealFnEval + RealDfEval + RealD2fEval> StepRule<F> for Halley {
    fn step_spec(&self, f: &F, x_cur: u64, f_cur: u64) -> Result<u64, RootError> {
        self.step(f, x_cur, f_cur)
    }

    fn step(&self, f: &F, x_cur: u64, f_cur: u64) -> Result<u64, RootError> {
        let (x, fx) = (val(x_cur), val(f_cur));
        let df = f.eval_df(x_cur);
        let d2f = val(f.eval_d2f(x_cur));
        let x_new = x - (2.0 * fx * val(df)) / (2.0 * val(df) * val(df) - fx * d2f);
        screen_step(x_cur, df, bits(x_new))
    }
}

/// Converges when successive iterates are closer than `epsilon_abs`.
struct DeltaX {
    epsilon_abs: f64,
}

impl IsConverged for DeltaX {
    fn converged(&self, x_pre: u64, x_cur: u64, f_cur: u64) -> bool {
        self.is_converged(x_pre, x_cur, f_cur)
    }

    fn is_converged(&self, x_pre: u64, x_cur: u64, _f_cur: u64) -> bool {
        (val(x_pre) - val(x_cur)).abs() < self.epsilon_abs
    }
}

#[test]
fn test_newton_zero_derivative() {
    let conv = DeltaX { epsilon_abs: 1e-9 };
    match iterative_root_find(&Flat, &Newton, bits(5.8), &conv, 100).expect_err("zero derivative not ok") {
        RootError::ZeroDerivative { .. } => {
            return;
        }
        _ => {
            assert!(false, "incorrect error type");
        }
    }
}

#[test]
fn zero_derivative_from_any_start() {
    let conv = DeltaX { epsilon_abs: 1e-9 };
    for &x in [-1e300, -3.0, -0.0, 0.0, 5.8, 1e-310].iter() {
        let r = iterative_root_find(&Flat, &Newton, bits(x), &conv, 1);
        assert_eq!(r, Err(RootError::ZeroDerivative { x_cur: bits(x) }));
    }
}

#[test]
fn newton_factored_parabola() {
    let conv = DeltaX { epsilon_abs: 1e-9 };
    let r = iterative_root_find(&Parabola, &Newton, bits(5.8), &conv, 100).expect("root");
    assert!((val(r) - 5.0).abs() < 1e-9);
    let r = iterative_root_find(&Parabola, &Newton, bits(3.8), &conv, 100).expect("root");
    assert!((val(r) - 4.0).abs() < 1e-9);
}

#[test]
fn halley_factored_parabola() {
    let conv = DeltaX { epsilon_abs: 1e-9 };
    let r = iterative_root_find(&Parabola, &Halley, bits(5.8), &conv, 100).expect("root");
    assert!((val(r) - 5.0).abs() < 1e-9);
}

#[test]
fn newton_repeatable() {
    let conv = DeltaX { epsilon_abs: 1e-12 };
    let first = iterative_root_find(&Parabola, &Newton, bits(5.8), &conv, 100);
    let second = iterative_root_find(&Parabola, &Newton, bits(5.8), &conv, 100);
    assert_eq!(first, second);
    let first = iterative_root_find(&Parabola, &Newton, bits(100.0), &conv, 3);
    let second = iterative_root_find(&Parabola, &Newton, bits(100.0), &conv, 3);
    assert_eq!(first, second);
}

#[test]
fn driver_iteration_limit_carries_last_x() {
    let conv = DeltaX { epsilon_abs: 1e-9 };
    // no step at all: the limit is reported at the guess
    let r = iterative_root_find(&Parabola, &Newton, bits(5.8), &conv, 0);
    assert_eq!(r, Err(RootError::IterationLimit { last_x: bits(5.8) }));

    // one Newton step from 6: x = 6 - 2/3
    let r = iterative_root_find(&Parabola, &Newton, bits(6.0), &conv, 1);
    assert_eq!(r, Err(RootError::IterationLimit { last_x: bits(6.0 - 2.0 / 3.0) }));
}

#[test]
fn screen_step_outcomes() {
    assert_eq!(screen_step(bits(1.0), bits(0.0), bits(f64::INFINITY)), Err(RootError::ZeroDerivative { x_cur: bits(1.0) }));
    assert_eq!(screen_step(bits(1.0), bits(-0.0), bits(3.0)), Err(RootError::ZeroDerivative { x_cur: bits(1.0) }));
    assert_eq!(screen_step(bits(1.0), bits(2.0), bits(f64::NAN)), Err(RootError::IteratedToNaN { x_new: bits(f64::NAN) }));
    assert_eq!(screen_step(bits(1.0), bits(2.0), bits(f64::NEG_INFINITY)), Err(RootError::IteratedToNaN { x_new: bits(f64::NEG_INFINITY) }));
    assert_eq!(screen_step(bits(1.0), bits(2.0), bits(0.5)), Ok(bits(0.5)));
}

#[test]
fn accept_in_bracket_cases() {
    let b = Bounds::new(bits(1.0), bits(2.0));
    let br = Bracket::new(b, bits(-1.0), bits(1.0)).expect("bracket");
    assert_eq!(accept_in_bracket(&br, Ok(bits(1.5))), Some(bits(1.5)));
    assert_eq!(accept_in_bracket(&br, Ok(bits(2.0))), Some(bits(2.0)));
    assert_eq!(accept_in_bracket(&br, Ok(bits(2.5))), None);
    assert_eq!(accept_in_bracket(&br, Ok(bits(f64::NAN))), None);
    assert_eq!(accept_in_bracket(&br, Err(RootError::ZeroDerivative { x_cur: bits(1.5) })), None);
}

#[test]
fn bracket_halving_finds_centered_root() {
    // f(x) = x over [-1e6, 1e6], halved until narrower than 1e-9
    let b = Bounds::new(bits(-1000000.0), bits(1000000.0));
    let mut br = Bracket::new(b, bits(-1000000.0), bits(1000000.0)).expect("bracket");
    let mut found = None;
    for _ in 0..100 {
        let (a, b) = (val(br.bounds.a), val(br.bounds.b));
        let mid = a + (b - a) * 0.5;
        br.narrow(bits(mid), bits(mid));
        if val(br.bounds.b) - val(br.bounds.a) < 1e-9 {
            found = Some(val(br.bounds.a));
            break;
        }
    }
    let root = found.expect("found root");
    assert!(root.abs() < 1e-9, "wanted root x=0");
}
