//! The bias of the Illinois false-position method.
//!
//! Plain false position can keep one end of the bracket for many rounds.
//! The Illinois variant weighs the value at that stale end: by `1/2` the
//! first time the same end is kept twice, by `1/4` the next time, and so on,
//! which pulls the secant point towards the stale end. A step that replaces
//! the other end, or a fallback bisection, starts afresh.
//!
//! The weight `2^-k` is a double; `Bias` keeps `k` and hands out the bit
//! pattern of the weight. Halving `2^-1074`, the smallest subnormal, rounds
//! to zero, at which point the weight stops applying: the state is then
//! neutral again.
use vstd::prelude::*;
use crate::bracket::Side;

verus! {

/// The number of halvings after which the weight underflows to zero.
pub const HALVINGS_TO_ZERO: u32 = 1075;

/// The exponent of the smallest subnormal double, negated.
pub const MIN_SUBNORMAL_EXP: u32 = 1074;

/// The exponent bias of doubles.
pub const EXP_BIAS: u32 = 1023;

/// The bit pattern of the double `2^-k`, for `k < 1075`: a normal value
/// with biased exponent `1023 - k` down to `2^-1022`, then a subnormal value
/// with a single fraction bit.
pub open spec fn half_pow_bits(k: u32) -> u64 {
    if k < EXP_BIAS {
        ((EXP_BIAS - k) as u64) << 52u64
    } else {
        1u64 << ((MIN_SUBNORMAL_EXP - k) as u64)
    }
}

/// The end other than `side`.
pub open spec fn other(side: Side) -> Side {
    match side {
        Side::Left => Side::Right,
        Side::Right => Side::Left,
    }
}

/// No weight, or the weight `2^-halvings` on the value at the `stale` end.
#[derive(Clone, Copy, Debug, PartialEq, Eq, Structural)]
pub enum Bias {
    Neutral,
    Weighted { stale: Side, halvings: u32 },
}

impl Bias {
    /// The weight has not underflowed.
    pub open spec fn valid(self) -> bool {
        match self {
            Bias::Neutral => true,
            Bias::Weighted { halvings, .. } => halvings < HALVINGS_TO_ZERO,
        }
    }

    /// The bias after a false-position step that replaced the `moved` end:
    /// the kept end is stale; kept once more, its weight halves (and
    /// vanishes on underflow); newly kept, it starts at weight one.
    pub open spec fn next_spec(self, moved: Side) -> Bias {
        match self {
            Bias::Weighted { stale, halvings } => {
                if stale == other(moved) {
                    if halvings + 1 < HALVINGS_TO_ZERO {
                        Bias::Weighted { stale, halvings: (halvings + 1) as u32 }
                    } else {
                        Bias::Neutral
                    }
                } else {
                    Bias::Weighted { stale: other(moved), halvings: 0 }
                }
            },
            Bias::Neutral => Bias::Weighted { stale: other(moved), halvings: 0 },
        }
    }

    /// The weight on the value at the `side` end, as a bit pattern.
    pub open spec fn weight_spec(self, side: Side) -> Option<u64> {
        match self {
            Bias::Weighted { stale, halvings } => {
                if stale == side {
                    Some(half_pow_bits(halvings))
                } else {
                    None
                }
            },
            Bias::Neutral => None,
        }
    }

    /// No weight: the state at the start and after a bisection step.
    pub fn neutral() -> (r: Bias)
        ensures
            r == Bias::Neutral,
            r.valid(),
    {
        Bias::Neutral
    }

    /// The bias after a false-position step that replaced the `moved` end.
    pub fn after_step(self, moved: Side) -> (r: Bias)
        requires
            self.valid(),
        ensures
            r == self.next_spec(moved),
            r.valid(),
    {
        let kept = match moved {
            Side::Left => Side::Right,
            Side::Right => Side::Left,
        };
        match self {
            Bias::Weighted { stale, halvings } => {
                if stale == kept {
                    if halvings + 1 < HALVINGS_TO_ZERO {
                        Bias::Weighted { stale, halvings: halvings + 1 }
                    } else {
                        Bias::Neutral
                    }
                } else {
                    Bias::Weighted { stale: kept, halvings: 0 }
                }
            },
            Bias::Neutral => Bias::Weighted { stale: kept, halvings: 0 },
        }
    }

    /// The bit pattern of the weight on the value at the `side` end, if any.
    pub fn weight(self, side: Side) -> (r: Option<u64>)
        requires
            self.valid(),
        ensures
            r == self.weight_spec(side),
    {
        match self {
            Bias::Weighted { stale, halvings } => {
                if stale == side {
                    if halvings < EXP_BIAS {
                        Some(((EXP_BIAS - halvings) as u64) << 52u64)
                    } else {
                        Some(1u64 << ((MIN_SUBNORMAL_EXP - halvings) as u64))
                    }
                } else {
                    None
                }
            },
            Bias::Neutral => None,
        }
    }
}

/// Keeping the same end twice halves its weight; replacing the other end
/// then moves the weight, at one, to the end that was just replaced before.
pub proof fn lemma_repeated_kept_end_halves(moved: Side, halvings: u32)
    requires
        halvings + 1 < HALVINGS_TO_ZERO,
    ensures
        (Bias::Weighted { stale: other(moved), halvings }).next_spec(moved) == (Bias::Weighted {
            stale: other(moved),
            halvings: (halvings + 1) as u32,
        }),
        (Bias::Weighted { stale: other(moved), halvings }).next_spec(other(moved)) == (
        Bias::Weighted { stale: moved, halvings: 0 }),
{
}

} // verus!
