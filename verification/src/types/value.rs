//! Exact currency values.
//!
//! A currency's value is the ratio of its gold reserves to its circulation.
//! Values are kept as exact fractions of machine integers, and every contract
//! speaks of the real number that the fraction denotes.

use vstd::prelude::*;

verus! {

/// The real number `n / d`.
pub open spec fn frac(n: int, d: int) -> real {
    (n as real) / (d as real)
}

/// The value that a currency with the given reserves and circulation has:
/// their ratio when both are positive, and zero otherwise.
pub open spec fn value_of(reserves: int, circulation: int) -> real {
    if reserves > 0 && circulation > 0 {
        frac(reserves, circulation)
    } else {
        0real
    }
}

/// The sign of a real number: 1, -1 or 0.
pub open spec fn sign_of(x: real) -> int {
    if x > 0real {
        1
    } else if x < 0real {
        -1
    } else {
        0
    }
}

/// Fractions with positive denominators compare as their cross products do.
pub proof fn lemma_frac_order(a: int, b: int, c: int, d: int)
    requires
        b > 0,
        d > 0,
    ensures
        (frac(a, b) < frac(c, d)) <==> (a * d < c * b),
        (frac(a, b) == frac(c, d)) <==> (a * d == c * b),
{
    let x = frac(a, b);
    let y = frac(c, d);
    let br = b as real;
    let dr = d as real;
    assert(x * br == a as real) by (nonlinear_arith)
        requires
            x == (a as real) / br,
            br > 0real,
    ;
    assert(y * dr == c as real) by (nonlinear_arith)
        requires
            y == (c as real) / dr,
            dr > 0real,
    ;
    assert((x < y) <==> (x * br * dr < y * dr * br)) by (nonlinear_arith)
        requires
            br > 0real,
            dr > 0real,
    ;
    assert((x == y) <==> (x * br * dr == y * dr * br)) by (nonlinear_arith)
        requires
            br > 0real,
            dr > 0real,
    ;
    assert((a * d) as real == (a as real) * dr) by (nonlinear_arith)
        requires
            dr == d as real,
    ;
    assert((c * b) as real == (c as real) * br) by (nonlinear_arith)
        requires
            br == b as real,
    ;
}

/// The difference of two fractions, over their common denominator.
pub proof fn lemma_frac_difference(a: int, b: int, c: int, d: int)
    requires
        b > 0,
        d > 0,
    ensures
        b * d > 0,
        frac(a, b) - frac(c, d) == frac(a * d - c * b, b * d),
{
    let x = frac(a, b);
    let y = frac(c, d);
    let z = frac(a * d - c * b, b * d);
    let br = b as real;
    let dr = d as real;
    assert(b * d > 0) by (nonlinear_arith)
        requires
            b > 0,
            d > 0,
    ;
    assert((b * d) as real == br * dr) by (nonlinear_arith)
        requires
            br == b as real,
            dr == d as real,
    ;
    assert((a * d - c * b) as real == (a as real) * dr - (c as real) * br) by (nonlinear_arith)
        requires
            br == b as real,
            dr == d as real,
    ;
    assert(x * br == a as real) by (nonlinear_arith)
        requires
            x == (a as real) / br,
            br > 0real,
    ;
    assert(y * dr == c as real) by (nonlinear_arith)
        requires
            y == (c as real) / dr,
            dr > 0real,
    ;
    assert(z * (br * dr) == (a as real) * dr - (c as real) * br) by (nonlinear_arith)
        requires
            z == ((a as real) * dr - (c as real) * br) / (br * dr),
            br > 0real,
            dr > 0real,
    ;
    assert(x - y == z) by (nonlinear_arith)
        requires
            x * br == a as real,
            y * dr == c as real,
            z * (br * dr) == (a as real) * dr - (c as real) * br,
            br > 0real,
            dr > 0real,
    ;
}

/// A fraction with a positive denominator has the sign of its numerator.
pub proof fn lemma_frac_sign(n: int, d: int)
    requires
        d > 0,
    ensures
        (frac(n, d) > 0real) <==> (n > 0),
        (frac(n, d) < 0real) <==> (n < 0),
        (frac(n, d) == 0real) <==> (n == 0),
{
    lemma_frac_order(n, d, 0, 1);
    lemma_frac_order(0, 1, n, d);
    lemma_frac_whole(0);
}

/// A fraction with denominator one is its numerator.
pub proof fn lemma_frac_whole(n: int)
    ensures
        frac(n, 1) == n as real,
{
    let nr = n as real;
    assert(nr / 1real == nr) by (nonlinear_arith);
}

/// Adding one to a fraction adds the denominator to its numerator.
pub proof fn lemma_frac_plus_one(n: int, d: int)
    requires
        d > 0,
    ensures
        frac(n, d) + 1real == frac(n + d, d),
{
    lemma_frac_difference(n + d, d, n, d);
    // (n + d) / d - n / d == ((n + d) * d - n * d) / (d * d) == (d * d) / (d * d)
    assert((n + d) * d - n * d == d * d) by (nonlinear_arith);
    lemma_frac_order(d * d, d * d, 1, 1);
    lemma_frac_whole(1);
}

/// A non-negative value, held as an exact fraction.
#[derive(Debug)]
pub struct Value {
    num: i64,
    den: i64,
}

impl Clone for Value {
    fn clone(&self) -> (v: Self)
        ensures
            v == *self,
    {
        proof {
            use_type_invariant(self);
        }
        Value { num: self.num, den: self.den }
    }
}

impl Copy for Value {

}

impl Value {
    /// A value is well formed when its numerator is not negative and its
    /// denominator is positive.
    #[verifier::type_invariant]
    pub closed spec fn wf(self) -> bool {
        0 <= self.num && 0 < self.den
    }

    /// The real number that this value denotes.
    pub closed spec fn view(self) -> real {
        frac(self.num as int, self.den as int)
    }

    /// The numerator of the fraction, as a mathematical integer.
    pub closed spec fn num(self) -> int {
        self.num as int
    }

    /// The denominator of the fraction, as a mathematical integer.
    pub closed spec fn den(self) -> int {
        self.den as int
    }

    /// A well-formed value denotes the fraction of its parts, and is not negative.
    pub proof fn lemma_view(self)
        requires
            self.wf(),
        ensures
            self@ == frac(self.num(), self.den()),
            0 <= self.num() <= i64::MAX,
            0 < self.den() <= i64::MAX,
            self@ >= 0real,
    {
        lemma_frac_sign(self.num as int, self.den as int);
    }

    /// The value of a currency with the given reserves and circulation.
    pub fn of(reserves: i64, circulation: i64) -> (v: Value)
        ensures
            v.wf(),
            v@ == value_of(reserves as int, circulation as int),
            reserves > 0 && circulation > 0 ==> v.num() == reserves && v.den() == circulation,
    {
        if reserves > 0 && circulation > 0 {
            Value { num: reserves, den: circulation }
        } else {
            proof {
                lemma_frac_whole(0);
            }
            Value { num: 0, den: 1 }
        }
    }

    /// The value zero.
    pub fn zero() -> (v: Value)
        ensures
            v.wf(),
            v@ == 0real,
    {
        proof {
            lemma_frac_whole(0);
        }
        Value { num: 0, den: 1 }
    }

    /// The value `num / den`, where that is a non-negative fraction.
    pub fn new(num: i64, den: i64) -> (r: Option<Value>)
        ensures
            r is Some <==> num >= 0 && den > 0,
            r is Some ==> r->0.wf() && r->0@ == frac(num as int, den as int) && r->0.num() == num
                && r->0.den() == den,
    {
        if num >= 0 && den > 0 {
            Some(Value { num, den })
        } else {
            None
        }
    }

    /// The numerator of the fraction.
    pub fn numerator(&self) -> (n: i64)
        ensures
            n == self.num(),
            n >= 0,
    {
        proof {
            use_type_invariant(self);
        }
        self.num
    }

    /// The denominator of the fraction.
    pub fn denominator(&self) -> (d: i64)
        ensures
            d == self.den(),
            d > 0,
    {
        proof {
            use_type_invariant(self);
        }
        self.den
    }

    /// Whether `self` denotes a smaller number than `other`.
    pub fn lt(&self, other: &Value) -> (b: bool)
        ensures
            b == (self@ < other@),
    {
        proof {
            use_type_invariant(self);
            use_type_invariant(other);
            lemma_frac_order(self.num as int, self.den as int, other.num as int, other.den as int);
            lemma_product_bound(self.num as int, other.den as int);
            lemma_product_bound(other.num as int, self.den as int);
        }
        let l: i128 = (self.num as i128) * (other.den as i128);
        let r: i128 = (other.num as i128) * (self.den as i128);
        l < r
    }

    /// Whether `self` and `other` denote the same number.
    pub fn same(&self, other: &Value) -> (b: bool)
        ensures
            b == (self@ == other@),
    {
        proof {
            use_type_invariant(self);
            use_type_invariant(other);
            lemma_frac_order(self.num as int, self.den as int, other.num as int, other.den as int);
            lemma_product_bound(self.num as int, other.den as int);
            lemma_product_bound(other.num as int, self.den as int);
        }
        let l: i128 = (self.num as i128) * (other.den as i128);
        let r: i128 = (other.num as i128) * (self.den as i128);
        l == r
    }

    /// The difference `self - other`.
    pub fn minus(&self, other: &Value) -> (r: Ratio)
        ensures
            r.wf(),
            r@ == self@ - other@,
    {
        proof {
            use_type_invariant(self);
            use_type_invariant(other);
            lemma_frac_difference(
                self.num as int,
                self.den as int,
                other.num as int,
                other.den as int,
            );
            lemma_product_bound(self.num as int, other.den as int);
            lemma_product_bound(other.num as int, self.den as int);
            lemma_product_bound(self.den as int, other.den as int);
        }
        let l: i128 = (self.num as i128) * (other.den as i128);
        let r: i128 = (other.num as i128) * (self.den as i128);
        let d: i128 = (self.den as i128) * (other.den as i128);
        Ratio { num: l - r, den: d }
    }

    /// The sum `self + 1`.
    pub fn plus_one(&self) -> (r: Ratio)
        ensures
            r.wf(),
            r@ == self@ + 1real,
    {
        proof {
            use_type_invariant(self);
            lemma_frac_plus_one(self.num as int, self.den as int);
        }
        Ratio { num: (self.num as i128) + (self.den as i128), den: self.den as i128 }
    }
}

/// The product of two non-negative 64-bit numbers fits in 128 bits with room to spare.
proof fn lemma_product_bound(a: int, b: int)
    requires
        0 <= a <= i64::MAX,
        0 <= b <= i64::MAX,
    ensures
        0 <= a * b <= 0x3fff_ffff_ffff_ffff_0000_0000_0000_0001,
        a > 0 && b > 0 ==> a * b > 0,
{
    assert(0 <= a * b <= 0x7fff_ffff_ffff_ffff * 0x7fff_ffff_ffff_ffff) by (nonlinear_arith)
        requires
            0 <= a <= 0x7fff_ffff_ffff_ffff,
            0 <= b <= 0x7fff_ffff_ffff_ffff,
    ;
    assert(a > 0 && b > 0 ==> a * b > 0) by (nonlinear_arith);
}

/// A signed fraction with a wide numerator and denominator: a difference of
/// values, or a value with headroom added.
#[derive(Debug)]
pub struct Ratio {
    num: i128,
    den: i128,
}

impl Clone for Ratio {
    fn clone(&self) -> (r: Self)
        ensures
            r == *self,
    {
        proof {
            use_type_invariant(self);
        }
        Ratio { num: self.num, den: self.den }
    }
}

impl Copy for Ratio {

}

impl Ratio {
    /// A ratio is well formed when its denominator is positive.
    #[verifier::type_invariant]
    pub closed spec fn wf(self) -> bool {
        0 < self.den
    }

    /// The real number that this ratio denotes.
    pub closed spec fn view(self) -> real {
        frac(self.num as int, self.den as int)
    }

    /// The numerator of the fraction, as a mathematical integer.
    pub closed spec fn num(self) -> int {
        self.num as int
    }

    /// The denominator of the fraction, as a mathematical integer.
    pub closed spec fn den(self) -> int {
        self.den as int
    }

    /// A well-formed ratio denotes the fraction of its parts.
    pub proof fn lemma_view(self)
        requires
            self.wf(),
        ensures
            self@ == frac(self.num(), self.den()),
            0 < self.den(),
    {
    }

    /// The numerator of the fraction.
    pub fn numerator(&self) -> (n: i128)
        ensures
            n == self.num(),
    {
        self.num
    }

    /// The denominator of the fraction.
    pub fn denominator(&self) -> (d: i128)
        ensures
            d == self.den(),
            d > 0,
    {
        proof {
            use_type_invariant(self);
        }
        self.den
    }

    /// The sign of the ratio: 1 where it is positive, -1 where it is negative, else 0.
    pub fn sign(&self) -> (s: i16)
        ensures
            s == sign_of(self@),
    {
        proof {
            use_type_invariant(self);
            lemma_frac_sign(self.num as int, self.den as int);
        }
        if self.num > 0 {
            1
        } else if self.num < 0 {
            -1
        } else {
            0
        }
    }

    /// Whether `factor` times the ratio is more than one.
    pub fn scaled_above_one(&self, factor: u32) -> (b: bool)
        ensures
            b == ((factor as real) * self@ > 1real),
    {
        proof {
            use_type_invariant(self);
            lemma_scaled(factor as int, self.num as int, self.den as int);
        }
        if factor == 0 {
            false
        } else {
            self.num > self.den / (factor as i128)
        }
    }

    /// Whether `factor` times the ratio is less than minus one.
    pub fn scaled_below_minus_one(&self, factor: u32) -> (b: bool)
        ensures
            b == ((factor as real) * self@ < -1real),
    {
        proof {
            use_type_invariant(self);
            lemma_scaled(factor as int, self.num as int, self.den as int);
        }
        if factor == 0 {
            false
        } else {
            self.num < -(self.den / (factor as i128))
        }
    }
}

/// Scaling a fraction by a whole factor and comparing with one, by integers alone.
proof fn lemma_scaled(f: int, n: int, d: int)
    requires
        f >= 0,
        d > 0,
    ensures
        f == 0 ==> !((f as real) * frac(n, d) > 1real) && !((f as real) * frac(n, d) < -1real),
        f > 0 ==> (((f as real) * frac(n, d) > 1real) <==> (n > d / f)),
        f > 0 ==> (((f as real) * frac(n, d) < -1real) <==> (n < -(d / f))),
{
    let x = frac(n, d);
    let fr = f as real;
    let dr = d as real;
    let nr = n as real;
    assert(x * dr == nr) by (nonlinear_arith)
        requires
            x == nr / dr,
            dr > 0real,
    ;
    if f == 0 {
        assert(fr * x == 0real) by (nonlinear_arith)
            requires
                fr == 0real,
        ;
    } else {
        assert((fr * x > 1real) <==> (fr * nr > dr)) by (nonlinear_arith)
            requires
                x * dr == nr,
                dr > 0real,
        ;
        assert((fr * x < -1real) <==> (fr * nr < -dr)) by (nonlinear_arith)
            requires
                x * dr == nr,
                dr > 0real,
        ;
        assert((f * n) as real == fr * nr) by (nonlinear_arith)
            requires
                fr == f as real,
                nr == n as real,
        ;
        let q = d / f;
        let r = d % f;
        assert(d == f * q + r && 0 <= r < f) by (nonlinear_arith)
            requires
                f > 0,
                q == d / f,
                r == d % f,
        ;
        assert((f * n > d) <==> (n > q)) by (nonlinear_arith)
            requires
                d == f * q + r,
                0 <= r < f,
        ;
        assert((f * n < -d) <==> (n < -q)) by (nonlinear_arith)
            requires
                d == f * q + r,
                0 <= r < f,
        ;
    }
}

} // verus!
