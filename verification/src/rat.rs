use vstd::prelude::*;

verus! {

/// A rational value in specifications: the quotient `n / d`.
///
/// A ratio is well formed when its denominator is positive, so the sign of
/// the value is the sign of `n`. The spec-level operations below do not
/// normalise: two ratios can denote the same value with different fields,
/// and `rat_eq` states that sameness by cross multiplication.
#[verifier::ext_equal]
pub struct Ratio {
    pub n: int,
    pub d: int,
}

impl Ratio {
    /// The denominator is positive.
    pub open spec fn wf(self) -> bool {
        self.d > 0
    }

    /// The value is strictly positive (read under `wf`).
    pub open spec fn is_pos(self) -> bool {
        self.n > 0
    }
}

/// The integer `i` as a ratio.
pub open spec fn rat_int(i: int) -> Ratio {
    Ratio { n: i, d: 1 }
}

/// Exact sum of two ratios.
pub open spec fn rat_add(a: Ratio, b: Ratio) -> Ratio {
    Ratio { n: a.n * b.d + b.n * a.d, d: a.d * b.d }
}

/// Exact difference of two ratios.
pub open spec fn rat_sub(a: Ratio, b: Ratio) -> Ratio {
    Ratio { n: a.n * b.d - b.n * a.d, d: a.d * b.d }
}

/// Exact product of two ratios.
pub open spec fn rat_mul(a: Ratio, b: Ratio) -> Ratio {
    Ratio { n: a.n * b.n, d: a.d * b.d }
}

/// Exact quotient of two ratios; the sign of the divisor's numerator is
/// folded into the numerator so that a well-formed divisor with `n != 0`
/// yields a well-formed result.
pub open spec fn rat_div(a: Ratio, b: Ratio) -> Ratio {
    if b.n >= 0 {
        Ratio { n: a.n * b.d, d: a.d * b.n }
    } else {
        Ratio { n: -(a.n * b.d), d: -(a.d * b.n) }
    }
}

/// The two ratios denote the same rational value (cross multiplication).
pub open spec fn rat_eq(a: Ratio, b: Ratio) -> bool {
    a.n * b.d == b.n * a.d
}

/// `x` lies within the range of a machine `i128`.
pub open spec fn in_i128(x: int) -> bool {
    -170141183460469231731687303715884105728 <= x
        <= 170141183460469231731687303715884105727
}

/// The machine computation of `rat_add(a, b)` stays in range.
pub open spec fn add_fits(a: Ratio, b: Ratio) -> bool {
    &&& in_i128(a.n * b.d)
    &&& in_i128(b.n * a.d)
    &&& in_i128(a.n * b.d + b.n * a.d)
    &&& in_i128(a.d * b.d)
}

/// The machine computation of `rat_sub(a, b)` stays in range.
pub open spec fn sub_fits(a: Ratio, b: Ratio) -> bool {
    &&& in_i128(a.n * b.d)
    &&& in_i128(b.n * a.d)
    &&& in_i128(a.n * b.d - b.n * a.d)
    &&& in_i128(a.d * b.d)
}

/// The machine computation of `rat_mul(a, b)` stays in range.
pub open spec fn mul_fits(a: Ratio, b: Ratio) -> bool {
    &&& in_i128(a.n * b.n)
    &&& in_i128(a.d * b.d)
}

/// The machine computation of `rat_div(a, b)` stays in range.
pub open spec fn div_fits(a: Ratio, b: Ratio) -> bool {
    &&& in_i128(a.n * b.d)
    &&& in_i128(a.d * b.n)
    &&& in_i128(-(a.n * b.d))
    &&& in_i128(-(a.d * b.n))
}

/// The cross products compared by `rat_eq(a, b)` stay in range.
pub open spec fn eq_fits(a: Ratio, b: Ratio) -> bool {
    &&& in_i128(a.n * b.d)
    &&& in_i128(b.n * a.d)
}

/// The product of two positive integers is positive.
pub proof fn lemma_pos_mul(x: int, y: int)
    by (nonlinear_arith)
    requires
        x > 0,
        y > 0,
    ensures
        x * y > 0,
{
}

/// An executable rational number: the value `num / den`, with `den > 0`
/// for well-formed values. Arithmetic is exact; each operation's
/// `*_fits` precondition rules machine overflow out.
#[derive(Clone, Copy, Debug, PartialEq, Eq, Structural)]
pub struct Frac {
    pub num: i128,
    pub den: i128,
}

impl View for Frac {
    type V = Ratio;

    open spec fn view(&self) -> Ratio {
        Ratio { n: self.num as int, d: self.den as int }
    }
}

impl Frac {
    /// The rational `num / den`.
    pub fn new(num: i128, den: i128) -> (r: Frac)
        requires
            den > 0,
        ensures
            r@ == (Ratio { n: num as int, d: den as int }),
            r@.wf(),
    {
        Frac { num, den }
    }

    /// The integer `i` as a rational.
    pub fn from_int(i: i128) -> (r: Frac)
        ensures
            r@ == rat_int(i as int),
            r@.wf(),
    {
        Frac { num: i, den: 1 }
    }

    /// Exact sum.
    pub fn add(self, other: Frac) -> (r: Frac)
        requires
            self@.wf(),
            other@.wf(),
            add_fits(self@, other@),
        ensures
            r@ == rat_add(self@, other@),
            r@.wf(),
    {
        proof {
            lemma_pos_mul(self@.d, other@.d);
        }
        Frac {
            num: self.num * other.den + other.num * self.den,
            den: self.den * other.den,
        }
    }

    /// Exact difference.
    pub fn sub(self, other: Frac) -> (r: Frac)
        requires
            self@.wf(),
            other@.wf(),
            sub_fits(self@, other@),
        ensures
            r@ == rat_sub(self@, other@),
            r@.wf(),
    {
        proof {
            lemma_pos_mul(self@.d, other@.d);
        }
        Frac {
            num: self.num * other.den - other.num * self.den,
            den: self.den * other.den,
        }
    }

    /// Exact product.
    pub fn mul(self, other: Frac) -> (r: Frac)
        requires
            self@.wf(),
            other@.wf(),
            mul_fits(self@, other@),
        ensures
            r@ == rat_mul(self@, other@),
            r@.wf(),
    {
        proof {
            lemma_pos_mul(self@.d, other@.d);
        }
        Frac {
            num: self.num * other.num,
            den: self.den * other.den,
        }
    }

    /// Exact quotient; the divisor must denote a non-zero value.
    pub fn div(self, other: Frac) -> (r: Frac)
        requires
            self@.wf(),
            other@.wf(),
            other@.n != 0,
            div_fits(self@, other@),
        ensures
            r@ == rat_div(self@, other@),
            r@.wf(),
    {
        if other.num >= 0 {
            proof {
                lemma_pos_mul(self@.d, other@.n);
            }
            Frac {
                num: self.num * other.den,
                den: self.den * other.num,
            }
        } else {
            proof {
                lemma_pos_mul(self@.d, -other@.n);
                assert(self@.d * -other@.n == -(self@.d * other@.n)) by (nonlinear_arith);
            }
            Frac {
                num: -(self.num * other.den),
                den: -(self.den * other.num),
            }
        }
    }

    /// Whether the two rationals denote the same value, regardless of the
    /// representation each happens to carry.
    pub fn same_value(self, other: Frac) -> (r: bool)
        requires
            self@.wf(),
            other@.wf(),
            eq_fits(self@, other@),
        ensures
            r == rat_eq(self@, other@),
    {
        self.num * other.den == other.num * self.den
    }
}

} // verus!
