//! Closed intervals, sign changes and root-holding brackets.
//!
//! A bracket is a closed interval `[a, b]` where the signs of `f(a)` and
//! `f(b)` differ. For a continuous function the interval then holds at least
//! one root. Bracketing solvers shrink such an interval while keeping the
//! sign change between its endpoints.
use vstd::prelude::*;
use crate::ieee::{
    abs_spec, is_finite, is_finite_spec, is_nan, is_nan_spec, is_sign_negative,
    is_sign_negative_spec, le, le_spec, lemma_finite_not_nan,
};

verus! {

/// The sign class of a double, as `f64::signum` reports it: `Negative` for
/// every value with the sign bit set (`-0.0` included), `Positive` for every
/// value with it clear (`+0.0` included), and `Unordered` for NaN.
#[derive(Clone, Copy, Debug, PartialEq, Eq, Structural)]
pub enum Sign {
    Negative,
    Positive,
    Unordered,
}

/// The sign class of the double with bit pattern `bits`.
pub open spec fn sign_of(bits: u64) -> Sign {
    if is_nan_spec(bits) {
        Sign::Unordered
    } else if is_sign_negative_spec(bits) {
        Sign::Negative
    } else {
        Sign::Positive
    }
}

/// Two sign classes differ. NaN differs from everything, itself included,
/// just as `NaN != NaN`.
pub open spec fn changes(lhs: Sign, rhs: Sign) -> bool {
    lhs == Sign::Unordered || rhs == Sign::Unordered || lhs != rhs
}

/// The doubles with patterns `lhs` and `rhs` show a sign change.
pub open spec fn sign_change_spec(lhs: u64, rhs: u64) -> bool {
    changes(sign_of(lhs), sign_of(rhs))
}

impl Sign {
    /// The sign class of the double whose bit pattern is `bits`.
    pub fn from_bits(bits: u64) -> (r: Sign)
        ensures
            r == sign_of(bits),
    {
        if is_nan(bits) {
            Sign::Unordered
        } else if is_sign_negative(bits) {
            Sign::Negative
        } else {
            Sign::Positive
        }
    }
}

/// Whether the doubles with bit patterns `lhs` and `rhs` lie on different
/// sides of zero. The signs are compared one by one rather than through the
/// sign of the product, which underflows to zero for tiny values.
pub fn is_sign_change(lhs: u64, rhs: u64) -> (r: bool)
    ensures
        r == sign_change_spec(lhs, rhs),
{
    let l = Sign::from_bits(lhs);
    let r = Sign::from_bits(rhs);
    match (l, r) {
        (Sign::Unordered, _) => true,
        (_, Sign::Unordered) => true,
        _ => l != r,
    }
}

/// A finite value shows no sign change against itself.
pub proof fn lemma_no_sign_change_with_itself(x: u64)
    requires
        is_finite_spec(x),
    ensures
        !sign_change_spec(x, x),
{
    lemma_finite_not_nan(x);
}

/// The sign-change test does not depend on the order of its arguments.
pub proof fn lemma_sign_change_symmetric(x: u64, y: u64)
    ensures
        sign_change_spec(x, y) == sign_change_spec(y, x),
{
}

/// Sign changes pass through a third value: if `x` and `y` show none, then
/// `x` against `z` is the same test as `y` against `z`.
pub proof fn lemma_same_sign_substitutes(x: u64, y: u64, z: u64)
    requires
        !sign_change_spec(x, y),
    ensures
        sign_change_spec(x, z) == sign_change_spec(y, z),
{
}

/// The closed interval `[a, b]`, its ends given as bit patterns of doubles.
/// Equality compares the patterns, so an end at `-0.0` differs from one at
/// `+0.0`.
#[derive(Clone, Copy, Debug, PartialEq, Eq, Structural)]
pub struct Bounds {
    pub a: u64,
    pub b: u64,
}

impl Bounds {
    /// Both ends are finite and `a <= b`.
    pub open spec fn valid(self) -> bool {
        is_finite_spec(self.a) && is_finite_spec(self.b) && le_spec(self.a, self.b)
    }

    /// `x` lies in `[a, b]`; never true of NaN.
    pub open spec fn contains_spec(self, x: u64) -> bool {
        le_spec(self.a, x) && le_spec(x, self.b)
    }

    /// The interval `[a, b]`; both ends must be finite and in order.
    pub fn new(a: u64, b: u64) -> (r: Bounds)
        requires
            is_finite_spec(a),
            is_finite_spec(b),
            le_spec(a, b),
        ensures
            r.a == a,
            r.b == b,
            r.valid(),
    {
        Bounds { a, b }
    }

    /// Whether both ends are finite and in order: the condition of `new`.
    pub fn is_valid(a: u64, b: u64) -> (r: bool)
        ensures
            r == (Bounds { a, b }).valid(),
    {
        is_finite(a) && is_finite(b) && le(a, b)
    }

    /// Whether `a <= x <= b`.
    pub fn contains(&self, x: u64) -> (r: bool)
        ensures
            r == self.contains_spec(x),
    {
        le(self.a, x) && le(x, self.b)
    }
}

/// Every point of a valid interval is finite.
pub proof fn lemma_contained_is_finite(bounds: Bounds, x: u64)
    requires
        bounds.valid(),
        bounds.contains_spec(x),
    ensures
        is_finite_spec(x),
{
    let a = bounds.a;
    let b = bounds.b;
    let k = x & 0x7fff_ffff_ffff_ffffu64;
    let ka = a & 0x7fff_ffff_ffff_ffffu64;
    let kb = b & 0x7fff_ffff_ffff_ffffu64;
    assert(abs_spec(x) == k && abs_spec(a) == ka && abs_spec(b) == kb);
    // the magnitude of x is at most that of one of the ends
    assert(k <= ka || k <= kb);
    assert((x >> 52u64) & 0x7ffu64 != 0x7ffu64) by (bit_vector)
        requires
            k == x & 0x7fff_ffff_ffff_ffffu64,
            ka == a & 0x7fff_ffff_ffff_ffffu64,
            kb == b & 0x7fff_ffff_ffff_ffffu64,
            k <= ka || k <= kb,
            (a >> 52u64) & 0x7ffu64 != 0x7ffu64,
            (b >> 52u64) & 0x7ffu64 != 0x7ffu64,
    ;
}

/// Which end of an interval a solver step replaced.
#[derive(Clone, Copy, Debug, PartialEq, Eq, Structural)]
pub enum Side {
    Left,
    Right,
}

/// A valid interval together with the values of `f` at its ends, which show
/// a sign change.
#[derive(Clone, Copy, Debug, PartialEq, Eq, Structural)]
pub struct Bracket {
    pub bounds: Bounds,
    pub f_a: u64,
    pub f_b: u64,
}

impl Bracket {
    /// The interval is valid and the end values change sign.
    pub open spec fn valid(self) -> bool {
        self.bounds.valid() && sign_change_spec(self.f_a, self.f_b)
    }

    /// The bracket `bounds` with end values `f_a = f(a)` and `f_b = f(b)`,
    /// or `None` where these show no sign change.
    pub fn new(bounds: Bounds, f_a: u64, f_b: u64) -> (r: Option<Bracket>)
        requires
            bounds.valid(),
        ensures
            r is Some <==> sign_change_spec(f_a, f_b),
            r matches Some(br) ==> br == (Bracket { bounds, f_a, f_b }) && br.valid(),
    {
        if is_sign_change(f_a, f_b) {
            Some(Bracket { bounds, f_a, f_b })
        } else {
            None
        }
    }

    /// Replaces one end by the point `x` of the interval, where `f(x) = f_x`,
    /// so that the sign change is kept: the right end where `f_a` and `f_x`
    /// change sign, the left end otherwise. Returns the side replaced.
    pub fn narrow(&mut self, x: u64, f_x: u64) -> (moved: Side)
        requires
            old(self).valid(),
            old(self).bounds.contains_spec(x),
        ensures
            final(self).valid(),
            old(self).bounds.contains_spec(final(self).bounds.a),
            old(self).bounds.contains_spec(final(self).bounds.b),
            moved == (if sign_change_spec(old(self).f_a, f_x) {
                Side::Right
            } else {
                Side::Left
            }),
            moved == Side::Right ==> *final(self) == (Bracket {
                bounds: Bounds { a: old(self).bounds.a, b: x },
                f_a: old(self).f_a,
                f_b: f_x,
            }),
            moved == Side::Left ==> *final(self) == (Bracket {
                bounds: Bounds { a: x, b: old(self).bounds.b },
                f_a: f_x,
                f_b: old(self).f_b,
            }),
    {
        proof {
            lemma_contained_is_finite(self.bounds, x);
            lemma_finite_not_nan(self.bounds.a);
            lemma_finite_not_nan(self.bounds.b);
        }
        if is_sign_change(self.f_a, f_x) {
            self.bounds.b = x;
            self.f_b = f_x;
            Side::Right
        } else {
            proof {
                lemma_same_sign_substitutes(self.f_a, f_x, self.f_b);
            }
            self.bounds.a = x;
            self.f_a = f_x;
            Side::Left
        }
    }
}

} // verus!
