//! Numeric readings.
//!
//! A reading is kept as the bit pattern of an IEEE-754 binary64 number. Every
//! finite binary64 number is a whole multiple of 2^-1074, so its value is
//! modelled exactly by an integer count of that unit.
use vstd::prelude::*;
use vstd::string::*;
use vstd::arithmetic::div_mod::{lemma_fundamental_div_mod, lemma_fundamental_div_mod_converse, lemma_mod_pos_bound};
use vstd::arithmetic::power2::{pow2, lemma_pow2_pos, lemma_pow2_unfold, lemma_pow2_adds, lemma_pow2_strictly_increases, lemma2_to64, lemma2_to64_rest};
use crate::decimal::{Numeral, decimal_digits, digit_char, digit_str};

verus! {

/// The sign bit of a binary64 pattern.
pub const SIGN_BIT: u64 = 0x8000_0000_0000_0000;

/// 2^52: the weight of the exponent field, and the implicit leading bit of a
/// normal significand.
pub const HIDDEN_BIT: u64 = 0x0010_0000_0000_0000;

/// The pattern of positive infinity; larger patterns (sign aside) are NaNs.
pub const INFINITY_BITS: u64 = 0x7FF0_0000_0000_0000;

/// The binary exponent of the unit in which magnitudes are counted: 2^-1074.
pub const UNIT_EXPONENT: u64 = 1074;

/// A measured quantity: the bit pattern of an IEEE-754 binary64 number.
#[derive(Clone, Copy, Debug)]
pub struct Reading {
    pub bits: u64,
}

impl Reading {
    /// The sign bit is set (true of -0.0 and of negative NaNs too).
    pub open spec fn is_negative(self) -> bool {
        self.bits >= SIGN_BIT
    }

    /// The pattern with its sign bit cleared.
    pub open spec fn abs_bits(self) -> u64 {
        if self.bits >= SIGN_BIT {
            (self.bits - SIGN_BIT) as u64
        } else {
            self.bits
        }
    }

    /// The pattern encodes no number.
    pub open spec fn is_nan(self) -> bool {
        self.abs_bits() > INFINITY_BITS
    }

    /// The pattern encodes an infinity.
    pub open spec fn is_infinite(self) -> bool {
        self.abs_bits() == INFINITY_BITS
    }

    /// The pattern encodes a number: zero, subnormal or normal.
    pub open spec fn is_finite(self) -> bool {
        self.abs_bits() < INFINITY_BITS
    }

    /// The eleven exponent bits.
    pub open spec fn exponent_field(self) -> nat {
        (self.abs_bits() / HIDDEN_BIT) as nat
    }

    /// The fifty-two fraction bits.
    pub open spec fn fraction_field(self) -> nat {
        (self.abs_bits() % HIDDEN_BIT) as nat
    }

    /// The integer significand: the fraction bits, with the implicit leading
    /// bit unless the number is subnormal.
    pub open spec fn significand(self) -> nat {
        if self.exponent_field() == 0 {
            self.fraction_field()
        } else {
            HIDDEN_BIT as nat + self.fraction_field()
        }
    }

    /// The power of two by which the significand is scaled, counted from the
    /// unit 2^-1074.
    pub open spec fn shift(self) -> nat {
        if self.exponent_field() == 0 {
            0
        } else {
            (self.exponent_field() - 1) as nat
        }
    }

    /// The absolute value of a finite reading, in units of 2^-1074.
    pub open spec fn magnitude(self) -> nat {
        self.significand() * pow2(self.shift())
    }

    /// The value of a finite reading, in units of 2^-1074.
    pub open spec fn scaled_value(self) -> int {
        if self.is_negative() {
            -(self.magnitude() as int)
        } else {
            self.magnitude() as int
        }
    }

    /// The reading is less than the whole number `n`, as binary64 numbers
    /// compare: a NaN is less than nothing.
    pub open spec fn is_below(self, n: int) -> bool {
        if self.is_nan() {
            false
        } else if self.is_infinite() {
            self.is_negative()
        } else {
            self.scaled_value() < n * pow2(UNIT_EXPONENT as nat)
        }
    }

    /// The reading is greater than or equal to the whole number `n`, as
    /// binary64 numbers compare: a NaN is not.
    pub open spec fn is_at_least(self, n: int) -> bool {
        if self.is_nan() {
            false
        } else if self.is_infinite() {
            !self.is_negative()
        } else {
            self.scaled_value() >= n * pow2(UNIT_EXPONENT as nat)
        }
    }

    /// Ten times the absolute value of a finite reading, rounded to the
    /// nearest whole number, a tie going to the even neighbour.
    pub open spec fn tenths(self) -> nat {
        round_half_even(10 * self.magnitude(), pow2(UNIT_EXPONENT as nat))
    }

    /// The reading with one digit after the decimal point, correctly rounded
    /// from its exact value. The sign is shown whenever the sign bit is set,
    /// also where the digits round to zero; infinities read `inf` and NaNs
    /// `NaN`.
    pub open spec fn one_decimal(self) -> Seq<char> {
        if self.is_nan() {
            "NaN"@
        } else if self.is_infinite() {
            if self.is_negative() {
                "-inf"@
            } else {
                "inf"@
            }
        } else {
            let sign = if self.is_negative() {
                "-"@
            } else {
                Seq::<char>::empty()
            };
            sign + decimal_digits(self.tenths() / 10) + "."@ + decimal_digits(self.tenths() % 10)
        }
    }

    /// The reading with the given bit pattern.
    pub fn from_bits(bits: u64) -> (reading: Reading)
        ensures
            reading.bits == bits,
    {
        Reading { bits }
    }

    /// The bit pattern of the reading.
    pub fn to_bits(self) -> (bits: u64)
        ensures
            bits == self.bits,
    {
        self.bits
    }
}

/// `a / unit` rounded to the nearest whole number, a tie going to the even
/// neighbour.
pub open spec fn round_half_even(a: nat, unit: nat) -> nat {
    let q = a / unit;
    let r = a % unit;
    if 2 * r < unit || (2 * r == unit && q % 2 == 0) {
        q
    } else {
        q + 1
    }
}

/// Among patterns that are not NaNs, a larger pattern (sign aside) encodes a
/// larger magnitude.
pub proof fn lemma_magnitude_increases(a: Reading, b: Reading)
    requires
        a.abs_bits() < b.abs_bits(),
        b.abs_bits() <= INFINITY_BITS,
    ensures
        a.magnitude() < b.magnitude(),
{
    let ea = a.exponent_field();
    let eb = b.exponent_field();
    let sa = a.significand() as int;
    let sb = b.significand() as int;
    let pa = pow2(a.shift()) as int;
    let pb = pow2(b.shift()) as int;
    lemma_pow2_pos(a.shift());
    lemma_pow2_pos(b.shift());
    assert(ea <= eb);
    if ea == eb {
        assert(sa < sb);
        assert(sa * pa < sb * pa) by (nonlinear_arith)
            requires
                sa < sb,
                pa > 0,
        ;
    } else if ea == 0 {
        lemma2_to64();
        assert(sa * 1 < sb * pb) by (nonlinear_arith)
            requires
                0 <= sa < 0x0010_0000_0000_0000,
                sb >= 0x0010_0000_0000_0000,
                pb >= 1,
        ;
    } else {
        // the next power of two above `a` is no larger than `b`
        lemma_pow2_unfold(ea);
        if a.shift() + 1 < b.shift() {
            lemma_pow2_strictly_increases(ea, b.shift());
        }
        let pn = pow2(ea) as int;
        assert(pn == 2 * pa);
        assert(pn <= pb);
        assert(sa * pa < sb * pb) by (nonlinear_arith)
            requires
                0 <= sa < 0x0020_0000_0000_0000,
                sb >= 0x0010_0000_0000_0000,
                pa > 0,
                2 * pa <= pb,
        ;
    }
}

/// Zero, of either sign, is the only pattern short of the NaNs whose
/// magnitude is zero.
pub proof fn lemma_magnitude_zero(r: Reading)
    requires
        !r.is_nan(),
    ensures
        r.magnitude() == 0 <==> r.abs_bits() == 0,
{
    let zero = Reading { bits: 0 };
    assert(zero.magnitude() == 0) by {
        assert(zero.significand() == 0);
        assert(0 * pow2(zero.shift()) == 0) by (nonlinear_arith);
    }
    if r.abs_bits() > 0 {
        lemma_magnitude_increases(zero, r);
    } else {
        assert(r.significand() == 0);
        assert(0 * pow2(r.shift()) == 0) by (nonlinear_arith);
    }
}

/// Where `t` is finite, carries no sign and has the value of the whole number
/// `n`, a reading without the sign bit compares with `n` as its pattern
/// compares with that of `t`.
pub proof fn lemma_compare_with_whole(r: Reading, t: Reading, n: int)
    requires
        !r.is_negative(),
        !t.is_negative(),
        t.is_finite(),
        t.magnitude() == n * pow2(UNIT_EXPONENT as nat),
    ensures
        r.is_below(n) <==> r.bits < t.bits,
        r.is_at_least(n) <==> t.bits <= r.bits <= INFINITY_BITS,
{
    if r.is_finite() {
        if r.bits < t.bits {
            lemma_magnitude_increases(r, t);
        } else if r.bits > t.bits {
            lemma_magnitude_increases(t, r);
        } else {
            assert(r == t);
        }
    }
}

/// Rounding is unchanged when numerator and unit are scaled alike.
pub proof fn lemma_round_scaled(t: nat, p: nat, s: nat)
    requires
        p > 0,
        s > 0,
    ensures
        round_half_even(t * s, p * s) == round_half_even(t, p),
{
    let q = t / p;
    let r = t % p;
    lemma_fundamental_div_mod(t as int, p as int);
    lemma_mod_pos_bound(t as int, p as int);
    assert(t * s == q * (p * s) + r * s) by (nonlinear_arith)
        requires
            t == p * q + r,
    ;
    assert(0 <= r * s < p * s) by (nonlinear_arith)
        requires
            0 <= r < p,
            s > 0,
    ;
    lemma_fundamental_div_mod_converse((t * s) as int, (p * s) as int, q as int, (r * s) as int);
    assert((2 * (r * s) < p * s) == (2 * r < p)) by (nonlinear_arith)
        requires
            s > 0,
    ;
    assert((2 * (r * s) == p * s) == (2 * r == p)) by (nonlinear_arith)
        requires
            s > 0,
    ;
}

/// A whole multiple of the unit rounds to itself.
pub proof fn lemma_round_exact(n: nat, unit: nat)
    requires
        unit > 0,
    ensures
        round_half_even(n * unit, unit) == n,
{
    lemma_fundamental_div_mod_converse((n * unit) as int, unit as int, n as int, 0);
}

/// 2^k, for a `k` whose power fits.
fn power_of_two(k: u64) -> (p: u64)
    requires
        k <= 62,
    ensures
        p == pow2(k as nat),
{
    let mut p: u64 = 1;
    let mut i: u64 = 0;
    proof {
        lemma2_to64();
        lemma2_to64_rest();
    }
    while i < k
        invariant
            i <= k <= 62,
            p == pow2(i as nat),
            pow2(62) == 0x4000_0000_0000_0000,
        decreases k - i,
    {
        proof {
            lemma_pow2_unfold((i + 1) as nat);
            if i + 1 < 62 {
                lemma_pow2_strictly_increases((i + 1) as nat, 62);
            }
        }
        p = 2 * p;
        i = i + 1;
    }
    p
}

/// Ten times `significand / 2^k`, rounded half to even.
fn rounded_tenths(significand: u64, k: u64) -> (tenths: u64)
    requires
        significand < 0x20_0000_0000_0000,
    ensures
        tenths == round_half_even(10 * significand as nat, pow2(k as nat)),
{
    let scaled: u64 = 10 * significand;
    if k >= 58 {
        proof {
            lemma2_to64_rest();
            if k > 58 {
                lemma_pow2_strictly_increases(58, k as nat);
            }
            lemma_fundamental_div_mod_converse(scaled as int, pow2(k as nat) as int, 0, scaled as int);
        }
        0
    } else {
        let p: u64 = power_of_two(k);
        proof {
            lemma_pow2_pos(k as nat);
            lemma_fundamental_div_mod(scaled as int, p as int);
            lemma_mod_pos_bound(scaled as int, p as int);
            if k < 57 {
                lemma_pow2_strictly_increases(k as nat, 57);
            }
            lemma2_to64_rest();
            // the quotient is no larger than what was divided
            assert(p * (scaled / p) >= scaled / p) by (nonlinear_arith)
                requires
                    p >= 1,
                    scaled / p >= 0,
            ;
        }
        let q: u64 = scaled / p;
        let r: u64 = scaled % p;
        if 2 * r > p || (2 * r == p && q % 2 == 1) {
            q + 1
        } else {
            q
        }
    }
}

/// `significand * 2^doublings`, in decimal.
fn scaled_up(significand: u64, doublings: u64) -> (numeral: Numeral)
    ensures
        numeral.wf(),
        numeral.value() == significand * pow2(doublings as nat),
{
    let mut numeral = Numeral::from_u64(significand);
    let mut i: u64 = 0;
    proof {
        lemma2_to64();
    }
    while i < doublings
        invariant
            i <= doublings,
            numeral.wf(),
            numeral.value() == significand * pow2(i as nat),
        decreases doublings - i,
    {
        proof {
            lemma_pow2_unfold((i + 1) as nat);
            let s = significand as int;
            let p = pow2(i as nat) as int;
            assert(2 * (s * p) == s * (2 * p)) by (nonlinear_arith);
        }
        numeral.double();
        i = i + 1;
    }
    numeral
}

impl Reading {
    /// The reading as text with one digit after the decimal point.
    pub fn to_one_decimal(self) -> (text: String)
        ensures
            text@ == self.one_decimal(),
    {
        let negative: bool = self.bits >= SIGN_BIT;
        let magnitude_bits: u64 = if negative {
            self.bits - SIGN_BIT
        } else {
            self.bits
        };
        if magnitude_bits > INFINITY_BITS {
            return String::from_str("NaN");
        }
        if magnitude_bits == INFINITY_BITS {
            if negative {
                return String::from_str("-inf");
            }
            return String::from_str("inf");
        }
        let exponent: u64 = magnitude_bits / HIDDEN_BIT;
        let fraction: u64 = magnitude_bits % HIDDEN_BIT;
        let significand: u64 = if exponent == 0 {
            fraction
        } else {
            HIDDEN_BIT + fraction
        };
        let shift: u64 = if exponent == 0 {
            0
        } else {
            exponent - 1
        };
        let ghost unit = pow2(UNIT_EXPONENT as nat);
        proof {
            lemma_pow2_pos(UNIT_EXPONENT as nat);
        }
        let whole: Numeral;
        let tenth: u8;
        if shift >= UNIT_EXPONENT {
            whole = scaled_up(significand, shift - UNIT_EXPONENT);
            tenth = 0;
            proof {
                let above = pow2((shift - UNIT_EXPONENT) as nat);
                lemma_pow2_adds((shift - UNIT_EXPONENT) as nat, UNIT_EXPONENT as nat);
                assert(10 * (significand * (above * unit)) == (10 * (significand * above)) * unit)
                    by (nonlinear_arith);
                lemma_round_exact((10 * (significand * above)) as nat, unit);
                assert(self.tenths() == 10 * whole.value());
            }
        } else {
            let k: u64 = UNIT_EXPONENT - shift;
            let tenths: u64 = rounded_tenths(significand, k);
            whole = Numeral::from_u64(tenths / 10);
            tenth = (tenths % 10) as u8;
            proof {
                let below = pow2(k as nat);
                let scale = pow2(shift as nat);
                lemma_pow2_pos(k as nat);
                lemma_pow2_pos(shift as nat);
                lemma_pow2_adds(k as nat, shift as nat);
                assert(10 * (significand * scale) == (10 * significand) * scale) by (nonlinear_arith);
                lemma_round_scaled((10 * significand) as nat, below, scale);
                assert(self.tenths() == tenths);
            }
        }
        let mut text = if negative {
            String::from_str("-")
        } else {
            String::new()
        };
        let whole_text = whole.to_text();
        text.append(whole_text.as_str());
        text.append(".");
        text.append(digit_str(tenth));
        proof {
            assert(decimal_digits(tenth as nat) =~= seq![digit_char(tenth as nat)]);
        }
        text
    }
}

} // verus!
