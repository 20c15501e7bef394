//! Prices. A price arrives as a binary64 floating-point number. The library
//! computes with no floating point: it holds the number's 64 bits, orders
//! prices by them, and shows a price by the decimal text that came with it.

use vstd::arithmetic::mul::{lemma_mul_inequality, lemma_mul_strict_inequality};
use vstd::arithmetic::power2::{lemma_pow2_pos, lemma_pow2_strictly_increases, lemma_pow2_unfold, pow2};
use vstd::prelude::*;

verus! {

/// The sign bit of a binary64 number.
pub const SIGN_BIT: u64 = 0x8000_0000_0000_0000;

/// The bits of positive infinity: every exponent bit set, no fraction bit.
pub const INFINITY_BITS: u64 = 0x7ff0_0000_0000_0000;

/// The first power of two beyond the 52 fraction bits.
pub const HIDDEN_BIT: u64 = 0x0010_0000_0000_0000;

/// The bits without the sign.
pub open spec fn magnitude_bits(bits: u64) -> int {
    bits as int % SIGN_BIT as int
}

/// Whether the sign bit is set.
pub open spec fn is_negative(bits: u64) -> bool {
    bits >= SIGN_BIT
}

/// Whether the bits hold no number: every exponent bit set and some fraction bit.
pub open spec fn is_nan(bits: u64) -> bool {
    magnitude_bits(bits) > INFINITY_BITS
}

/// The eleven exponent bits.
pub open spec fn exponent_field(bits: u64) -> int {
    magnitude_bits(bits) / HIDDEN_BIT as int
}

/// The 52 fraction bits.
pub open spec fn fraction_field(bits: u64) -> int {
    magnitude_bits(bits) % HIDDEN_BIT as int
}

/// The absolute value of the number, multiplied by 2^1074 so that it is an
/// integer. With exponent field 0 the number is the fraction times 2^-1074;
/// with exponent field `e` above 0 it is (2^52 + fraction) times 2^(e - 1075).
/// An infinity falls beyond every finite number.
pub open spec fn scaled_magnitude(bits: u64) -> int {
    if exponent_field(bits) == 0 {
        fraction_field(bits)
    } else {
        (HIDDEN_BIT + fraction_field(bits)) * pow2((exponent_field(bits) - 1) as nat)
    }
}

/// The number, multiplied by 2^1074. Both zeros give 0.
pub open spec fn scaled_value(bits: u64) -> int {
    if is_negative(bits) {
        -scaled_magnitude(bits)
    } else {
        scaled_magnitude(bits)
    }
}

/// Whether the first number is less than the second. Nothing is less than
/// what is no number, and what is no number is less than nothing.
pub open spec fn less_than(a: u64, b: u64) -> bool {
    !is_nan(a) && !is_nan(b) && scaled_value(a) < scaled_value(b)
}

/// Among numbers, more bits without the sign mean a greater absolute value.
pub proof fn lemma_magnitude_order(a: u64, b: u64)
    requires
        !is_nan(a),
        !is_nan(b),
        magnitude_bits(a) < magnitude_bits(b),
    ensures
        0 <= scaled_magnitude(a) < scaled_magnitude(b),
{
    let ea = exponent_field(a);
    let eb = exponent_field(b);
    let fa = fraction_field(a);
    let fb = fraction_field(b);
    let hidden = HIDDEN_BIT as int;
    assert(ea <= eb);
    assert(ea == eb ==> fa < fb);
    if ea == eb {
        if ea != 0 {
            let p = pow2((ea - 1) as nat) as int;
            lemma_pow2_pos((ea - 1) as nat);
            lemma_mul_strict_inequality(hidden + fa, hidden + fb, p);
            lemma_mul_inequality(0, hidden + fa, p);
        }
    } else {
        let pb = pow2((eb - 1) as nat) as int;
        lemma_pow2_pos((eb - 1) as nat);
        lemma_mul_inequality(hidden, hidden + fb, pb);
        assert(hidden * pb <= scaled_magnitude(b));
        if ea == 0 {
            lemma_mul_inequality(1, pb, hidden);
            assert(hidden * 1 <= hidden * pb) by {
                assert(pb * hidden == hidden * pb) by (nonlinear_arith);
            }
        } else {
            let pa = pow2((ea - 1) as nat) as int;
            lemma_pow2_pos((ea - 1) as nat);
            lemma_mul_strict_inequality(hidden + fa, 2 * hidden, pa);
            lemma_mul_inequality(0, hidden + fa, pa);
            lemma_pow2_unfold(ea as nat);
            assert((2 * hidden) * pa == hidden * pow2(ea as nat)) by (nonlinear_arith)
                requires
                    pow2(ea as nat) == 2 * pa,
            ;
            if ea < eb - 1 {
                lemma_pow2_strictly_increases(ea as nat, (eb - 1) as nat);
            }
            assert(pow2(ea as nat) <= pb);
            lemma_mul_inequality(pow2(ea as nat) as int, pb, hidden);
            assert(hidden * pow2(ea as nat) <= hidden * pb) by (nonlinear_arith)
                requires
                    pow2(ea as nat) * hidden <= pb * hidden,
            ;
        }
    }
}

/// Only the two zeros have the value 0.
pub proof fn lemma_zero_magnitude(a: u64)
    requires
        !is_nan(a),
    ensures
        0 <= scaled_magnitude(a),
        scaled_magnitude(a) == 0 <==> magnitude_bits(a) == 0,
{
    if magnitude_bits(a) != 0 {
        lemma_magnitude_order(0, a);
    }
    assert(scaled_magnitude(0) == 0);
    if magnitude_bits(a) == 0 {
        assert(exponent_field(a) == 0);
    }
}

/// Tells whether the bits hold no number.
pub fn bits_are_nan(bits: u64) -> (r: bool)
    ensures
        r == is_nan(bits),
{
    bits % SIGN_BIT > INFINITY_BITS
}

/// Tells whether the number in `a` is less than the number in `b`.
pub fn bits_less_than(a: u64, b: u64) -> (r: bool)
    ensures
        r == less_than(a, b),
{
    if bits_are_nan(a) || bits_are_nan(b) {
        return false;
    }
    let ma: u64 = a % SIGN_BIT;
    let mb: u64 = b % SIGN_BIT;
    proof {
        lemma_zero_magnitude(a);
        lemma_zero_magnitude(b);
        if ma < mb {
            lemma_magnitude_order(a, b);
        }
        if mb < ma {
            lemma_magnitude_order(b, a);
        }
        if ma == mb {
            assert(exponent_field(a) == exponent_field(b));
            assert(fraction_field(a) == fraction_field(b));
        }
    }
    if a >= SIGN_BIT {
        if b >= SIGN_BIT {
            mb < ma
        } else {
            ma != 0 || mb != 0
        }
    } else {
        if b >= SIGN_BIT {
            false
        } else {
            ma < mb
        }
    }
}

/// A price: the bits of the binary64 number, and the decimal text by which
/// it is shown. The text comes with the price from whoever read the number,
/// since the library holds no floating point to derive it from the bits.
///
/// Two prices are `==` when they hold the same bits and the same text. How
/// their numbers stand to each other is told by [`compare_prices`].
#[derive(Debug, PartialEq, Eq)]
pub struct Price {
    pub bits: u64,
    pub shown: String,
}

/// What a [`Price`] stands for.
pub struct PriceView {
    pub bits: u64,
    pub shown: Seq<char>,
}

impl View for Price {
    type V = PriceView;

    open spec fn view(&self) -> PriceView {
        PriceView { bits: self.bits, shown: self.shown@ }
    }
}

impl Clone for Price {
    fn clone(&self) -> (copy: Self)
        ensures
            copy@ == self@,
    {
        Price { bits: self.bits, shown: self.shown.clone() }
    }
}

impl Price {
    /// A price from the bits of its number and its text.
    pub fn new(bits: u64, shown: String) -> (price: Price)
        ensures
            price@ == (PriceView { bits, shown: shown@ }),
    {
        Price { bits, shown }
    }

    /// Tells whether this price is less than the other.
    pub fn is_less_than(&self, other: &Price) -> (r: bool)
        ensures
            r == less_than(self.bits, other.bits),
    {
        bits_less_than(self.bits, other.bits)
    }
}

/// How two prices stand to each other.
#[derive(Clone, Copy, Debug, PartialEq, Eq, Structural)]
pub enum Standing {
    /// The first is greater than the second.
    FirstHigher,
    /// The second is greater than the first.
    SecondHigher,
    /// Neither is greater than the other.
    Level,
}

/// How the numbers in `first` and `second` stand to each other. Where one of
/// them is no number, neither is greater.
pub open spec fn standing(first: u64, second: u64) -> Standing {
    if less_than(second, first) {
        Standing::FirstHigher
    } else if less_than(first, second) {
        Standing::SecondHigher
    } else {
        Standing::Level
    }
}

/// Finds how two prices stand to each other.
pub fn compare_prices(first: &Price, second: &Price) -> (r: Standing)
    ensures
        r == standing(first.bits, second.bits),
{
    if second.is_less_than(first) {
        Standing::FirstHigher
    } else if first.is_less_than(second) {
        Standing::SecondHigher
    } else {
        Standing::Level
    }
}

/// Among numbers exactly one of three holds: the first is the greater, the
/// second is the greater, or the two are equal in value.
pub proof fn standing_is_strict(first: u64, second: u64)
    requires
        !is_nan(first),
        !is_nan(second),
    ensures
        standing(first, second) == Standing::FirstHigher <==> scaled_value(first) > scaled_value(
            second,
        ),
        standing(first, second) == Standing::SecondHigher <==> scaled_value(first) < scaled_value(
            second,
        ),
        standing(first, second) == Standing::Level <==> scaled_value(first) == scaled_value(second),
{
}

/// Exchanging the two prices exchanges which of them is the higher.
pub proof fn standing_mirrors(first: u64, second: u64)
    ensures
        standing(first, second) == Standing::FirstHigher <==> standing(second, first)
            == Standing::SecondHigher,
        standing(first, second) == Standing::Level <==> standing(second, first) == Standing::Level,
{
}

} // verus!
