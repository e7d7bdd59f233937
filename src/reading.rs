//! Exact values of IEEE-754 binary64 measurements.
//!
//! A measurement arrives as the bit pattern of a double. `Reading` holds the
//! exact number that pattern denotes, so that comparisons against decimal
//! bounds can be decided, and proved, without floating-point arithmetic.
use vstd::arithmetic::power2::*;
use vstd::prelude::*;

verus! {

/// Two to the fifty-second: the weight of the implicit leading bit.
pub const HIDDEN_BIT: u64 = 0x10_0000_0000_0000;

/// Largest magnitude of a bound, in tenths, that the comparisons accept.
pub const MAX_BOUND_TENTHS: i64 = 100_000;

/// The exact value of a binary64 datum.
#[derive(Clone, Copy, Debug, PartialEq, Eq, Structural)]
pub enum Reading {
    /// The number `mantissa * 2^exponent`.
    Finite { mantissa: i64, exponent: i32 },
    /// Positive or negative infinity.
    Infinite { negative: bool },
    /// Not a number: unordered, and unequal to everything.
    NotANumber,
}

/// The reading that the binary64 bit pattern `bits` denotes.
pub open spec fn reading_of_bits(bits: u64) -> Reading {
    let fraction = bits % HIDDEN_BIT;
    let biased = (bits / HIDDEN_BIT) % 0x800;
    let negative = bits >= 0x8000_0000_0000_0000;
    if biased == 0x7ff {
        if fraction == 0 {
            Reading::Infinite { negative }
        } else {
            Reading::NotANumber
        }
    } else {
        let magnitude: int = if biased == 0 { fraction as int } else { fraction + HIDDEN_BIT };
        let exponent: int = if biased == 0 { -1074 } else { biased - 1075 };
        Reading::Finite {
            mantissa: (if negative { -magnitude } else { magnitude }) as i64,
            exponent: exponent as i32,
        }
    }
}

/// `m * 2^e >= t / 10`, exactly.
pub open spec fn scaled_at_least(m: int, e: int, t: int) -> bool {
    if e >= 0 {
        m * pow2(e as nat) * 10 >= t
    } else {
        m * 10 >= t * pow2((-e) as nat)
    }
}

/// `m * 2^e <= t / 10`, exactly.
pub open spec fn scaled_at_most(m: int, e: int, t: int) -> bool {
    if e >= 0 {
        m * pow2(e as nat) * 10 <= t
    } else {
        m * 10 <= t * pow2((-e) as nat)
    }
}

impl Reading {
    /// Every reading that a bit pattern can denote has this shape.
    pub open spec fn wf(self) -> bool {
        match self {
            Reading::Finite { mantissa, exponent } => {
                -0x20_0000_0000_0000 < mantissa < 0x20_0000_0000_0000
                    && -1074 <= exponent <= 971
            },
            _ => true,
        }
    }

    /// The value is at least `t / 10` (false for not-a-number, as an IEEE
    /// comparison is).
    pub open spec fn at_least_spec(self, t: int) -> bool {
        match self {
            Reading::Finite { mantissa, exponent } => scaled_at_least(
                mantissa as int,
                exponent as int,
                t,
            ),
            Reading::Infinite { negative } => !negative,
            Reading::NotANumber => false,
        }
    }

    /// The value is at most `t / 10` (false for not-a-number).
    pub open spec fn at_most_spec(self, t: int) -> bool {
        match self {
            Reading::Finite { mantissa, exponent } => scaled_at_most(
                mantissa as int,
                exponent as int,
                t,
            ),
            Reading::Infinite { negative } => negative,
            Reading::NotANumber => false,
        }
    }

    /// The value compares unequal to zero (true for not-a-number).
    pub open spec fn is_nonzero_spec(self) -> bool {
        match self {
            Reading::Finite { mantissa, .. } => mantissa != 0,
            _ => true,
        }
    }

    /// The value compares equal to `t / 10`.
    pub open spec fn equals_spec(self, t: int) -> bool {
        self.at_least_spec(t) && self.at_most_spec(t)
    }

    /// Decodes a binary64 bit pattern.
    pub fn from_bits(bits: u64) -> (r: Reading)
        ensures
            r == reading_of_bits(bits),
            r.wf(),
    {
        let fraction = bits % HIDDEN_BIT;
        let biased = (bits / HIDDEN_BIT) % 0x800;
        let negative = bits >= 0x8000_0000_0000_0000;
        if biased == 0x7ff {
            if fraction == 0 {
                Reading::Infinite { negative }
            } else {
                Reading::NotANumber
            }
        } else {
            let magnitude: i64 = if biased == 0 {
                fraction as i64
            } else {
                (fraction + HIDDEN_BIT) as i64
            };
            let exponent: i32 = if biased == 0 {
                -1074
            } else {
                biased as i32 - 1075
            };
            let mantissa: i64 = if negative {
                -magnitude
            } else {
                magnitude
            };
            Reading::Finite { mantissa, exponent }
        }
    }
}

/// `2^k` as a machine integer.
fn power_of_two(k: u32) -> (r: i128)
    requires
        k < 64,
    ensures
        r == pow2(k as nat),
{
    let mut r: i128 = 1;
    let mut i: u32 = 0;
    proof {
        lemma2_to64();
    }
    while i < k
        invariant
            i <= k,
            k < 64,
            r == pow2(i as nat),
        decreases k - i,
    {
        proof {
            lemma_pow2_unfold((i + 1) as nat);
            lemma_pow2_strictly_increases(i as nat, 63);
            lemma2_to64_rest();
        }
        r = r * 2;
        i = i + 1;
    }
    r
}

/// Beyond this exponent a nonzero finite value exceeds every accepted bound.
proof fn lemma_large_scale(m: int, e: nat, t: int)
    requires
        m != 0,
        e >= 20,
        -MAX_BOUND_TENTHS <= t <= MAX_BOUND_TENTHS,
    ensures
        m > 0 ==> m * pow2(e) * 10 > t,
        m < 0 ==> m * pow2(e) * 10 < t,
{
    lemma2_to64();
    if e > 20 {
        lemma_pow2_strictly_increases(20, e);
    }
    let p = pow2(e) as int;
    assert(p >= 1048576);
    if m > 0 {
        assert(m * p * 10 >= p * 10) by (nonlinear_arith)
            requires
                m >= 1,
                p >= 0,
        ;
    } else {
        assert(m * p * 10 <= -p * 10) by (nonlinear_arith)
            requires
                m <= -1,
                p >= 0,
        ;
    }
}

/// Beyond this negative exponent a finite value is nearer to zero than every
/// nonzero accepted bound.
proof fn lemma_small_scale(m: int, k: nat, t: int)
    requires
        -0x20_0000_0000_0000 < m < 0x20_0000_0000_0000,
        k >= 64,
        t != 0,
    ensures
        t > 0 ==> m * 10 < t * pow2(k),
        t < 0 ==> m * 10 > t * pow2(k),
{
    lemma2_to64();
    if k > 64 {
        lemma_pow2_strictly_increases(64, k);
    }
    let p = pow2(k) as int;
    assert(p >= 0x1_0000_0000_0000_0000);
    if t > 0 {
        assert(t * p >= p) by (nonlinear_arith)
            requires
                t >= 1,
                p >= 0,
        ;
    } else {
        assert(t * p <= -p) by (nonlinear_arith)
            requires
                t <= -1,
                p >= 0,
        ;
    }
}

impl Reading {
    /// Whether the value is at least `t / 10`, compared exactly; NaN is
    /// never at least anything, as with an IEEE `>=`.
    pub fn at_least(&self, t: i64) -> (r: bool)
        requires
            self.wf(),
            -MAX_BOUND_TENTHS <= t <= MAX_BOUND_TENTHS,
        ensures
            r == self.at_least_spec(t as int),
    {
        match self {
            Reading::Finite { mantissa, exponent } => {
                let m = *mantissa;
                let e = *exponent;
                if e >= 0 {
                    if m == 0 {
                        proof {
                            assert(m * pow2(e as nat) * 10 == 0) by (nonlinear_arith)
                                requires
                                    m == 0,
                            ;
                        }
                        0 >= t
                    } else if e >= 20 {
                        proof {
                            lemma_large_scale(m as int, e as nat, t as int);
                        }
                        m > 0
                    } else {
                        let p = power_of_two(e as u32);
                        proof {
                            lemma2_to64();
                            lemma_pow2_strictly_increases(e as nat, 20);
                            assert(-0x20_0000_0000_0000 * 1048576 <= m * p <= 0x20_0000_0000_0000
                                * 1048576) by (nonlinear_arith)
                                requires
                                    -0x20_0000_0000_0000 < m < 0x20_0000_0000_0000,
                                    0 <= p <= 1048576,
                            ;
                        }
                        (m as i128) * p * 10 >= t as i128
                    }
                } else {
                    let k: u32 = (-e) as u32;
                    if t == 0 {
                        proof {
                            assert(t * pow2(k as nat) == 0) by (nonlinear_arith)
                                requires
                                    t == 0,
                            ;
                        }
                        m >= 0
                    } else if k >= 64 {
                        proof {
                            lemma_small_scale(m as int, k as nat, t as int);
                        }
                        t < 0
                    } else {
                        let p = power_of_two(k);
                        proof {
                            lemma2_to64();
                            lemma_pow2_strictly_increases(k as nat, 64);
                            assert(-MAX_BOUND_TENTHS * 0x1_0000_0000_0000_0000 <= t * p
                                <= MAX_BOUND_TENTHS * 0x1_0000_0000_0000_0000) by (nonlinear_arith)
                                requires
                                    -MAX_BOUND_TENTHS <= t <= MAX_BOUND_TENTHS,
                                    0 <= p <= 0x1_0000_0000_0000_0000,
                            ;
                        }
                        (m as i128) * 10 >= (t as i128) * p
                    }
                }
            },
            Reading::Infinite { negative } => !*negative,
            Reading::NotANumber => false,
        }
    }
}

proof fn lemma_negation_flips(m: int, e: int, t: int)
    ensures
        scaled_at_most(m, e, t) == scaled_at_least(-m, e, -t),
{
    if e >= 0 {
        let p = pow2(e as nat) as int;
        assert((-m) * p * 10 == -(m * p * 10)) by (nonlinear_arith);
    } else {
        let p = pow2((-e) as nat) as int;
        assert((-t) * p == -(t * p)) by (nonlinear_arith);
    }
}

impl Reading {
    /// The same magnitude with the opposite sign.
    fn negated(&self) -> (r: Reading)
        requires
            self.wf(),
        ensures
            r.wf(),
            forall|t: int| r.at_least_spec(-t) == #[trigger] self.at_most_spec(t),
    {
        match self {
            Reading::Finite { mantissa, exponent } => {
                let r = Reading::Finite { mantissa: -*mantissa, exponent: *exponent };
                proof {
                    assert forall|t: int| r.at_least_spec(-t) == #[trigger] self.at_most_spec(t) by {
                        lemma_negation_flips(*mantissa as int, *exponent as int, t);
                    }
                }
                r
            },
            Reading::Infinite { negative } => Reading::Infinite { negative: !*negative },
            Reading::NotANumber => Reading::NotANumber,
        }
    }

    /// Whether the value is at most `t / 10`, compared exactly; NaN is never
    /// at most anything, as with an IEEE `<=`.
    pub fn at_most(&self, t: i64) -> (r: bool)
        requires
            self.wf(),
            -MAX_BOUND_TENTHS <= t <= MAX_BOUND_TENTHS,
        ensures
            r == self.at_most_spec(t as int),
    {
        let n = self.negated();
        n.at_least(-t)
    }

    /// Whether the value lies in the closed interval `[low / 10, high / 10]`.
    pub fn within(&self, low: i64, high: i64) -> (r: bool)
        requires
            self.wf(),
            -MAX_BOUND_TENTHS <= low <= MAX_BOUND_TENTHS,
            -MAX_BOUND_TENTHS <= high <= MAX_BOUND_TENTHS,
        ensures
            r == (self.at_least_spec(low as int) && self.at_most_spec(high as int)),
    {
        self.at_least(low) && self.at_most(high)
    }

    /// Whether the value compares equal to `t / 10`.
    pub fn equals(&self, t: i64) -> (r: bool)
        requires
            self.wf(),
            -MAX_BOUND_TENTHS <= t <= MAX_BOUND_TENTHS,
        ensures
            r == self.equals_spec(t as int),
    {
        self.within(t, t)
    }

    /// Whether the value compares unequal to zero.
    pub fn is_nonzero(&self) -> (r: bool)
        ensures
            r == self.is_nonzero_spec(),
    {
        match self {
            Reading::Finite { mantissa, .. } => *mantissa != 0,
            _ => true,
        }
    }
}

/// A value at least `t1 / 10` is at least any smaller bound, and one at most
/// `t1 / 10` is at most any larger bound.
pub proof fn lemma_bounds_are_monotone(r: Reading, t1: int, t2: int)
    ensures
        r.at_least_spec(t1) && t2 <= t1 ==> r.at_least_spec(t2),
        r.at_most_spec(t1) && t1 <= t2 ==> r.at_most_spec(t2),
{
    if let Reading::Finite { mantissa, exponent } = r {
        if exponent < 0 {
            let p = pow2((-exponent) as nat) as int;
            assert(t2 <= t1 ==> t2 * p <= t1 * p) by (nonlinear_arith)
                requires
                    p >= 0,
            ;
            assert(t1 <= t2 ==> t1 * p <= t2 * p) by (nonlinear_arith)
                requires
                    p >= 0,
            ;
        }
    }
}

/// A value equal to `t1 / 10` is neither at least a larger bound nor at most
/// a smaller one.
pub proof fn lemma_equal_value_is_strict(r: Reading, t1: int, t2: int)
    ensures
        r.equals_spec(t1) && t1 < t2 ==> !r.at_least_spec(t2),
        r.equals_spec(t1) && t2 < t1 ==> !r.at_most_spec(t2),
{
    if let Reading::Finite { mantissa, exponent } = r {
        if exponent < 0 {
            let p = pow2((-exponent) as nat) as int;
            lemma_pow2_pos((-exponent) as nat);
            assert(t1 < t2 ==> t1 * p < t2 * p) by (nonlinear_arith)
                requires
                    p > 0,
            ;
            assert(t2 < t1 ==> t2 * p < t1 * p) by (nonlinear_arith)
                requires
                    p > 0,
            ;
        }
    }
}

} // verus!
