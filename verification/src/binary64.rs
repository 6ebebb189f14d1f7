use vstd::arithmetic::div_mod::*;
use vstd::arithmetic::mul::*;
use vstd::arithmetic::power2::*;
use vstd::bits::*;
use vstd::prelude::*;

verus! {

/// The IEEE 754 bit pattern of the double-precision number one.
pub const ONE_BITS: u64 = 0x3FF0_0000_0000_0000;

/// A double-precision number, held as its IEEE 754 bit pattern.
///
/// Sizes of windows and columns are carried through unchanged in this form. The one operation on
/// them is the truncation to an integer.
#[derive(Clone, Copy, Debug)]
pub struct Binary64 {
    pub bits: u64,
}

/// Numbers are equal as IEEE 754 has it: both zeros are the same, and what is not a number equals
/// nothing.
impl PartialEq for Binary64 {
    fn eq(&self, other: &Self) -> (same: bool) {
        let both_zero: bool = self.zero() && other.zero();
        !self.nan() && !other.nan() && (self.bits == other.bits || both_zero)
    }
}

impl vstd::std_specs::cmp::PartialEqSpecImpl for Binary64 {
    open spec fn obeys_eq_spec() -> bool {
        true
    }

    open spec fn eq_spec(&self, other: &Self) -> bool {
        &&& !self.is_nan()
        &&& !other.is_nan()
        &&& self.bits == other.bits || self.is_zero() && other.is_zero()
    }
}

impl Binary64 {
    pub open spec fn is_negative(self) -> bool {
        self.bits >= 0x8000_0000_0000_0000
    }

    /// The exponent field.
    pub open spec fn exponent(self) -> nat {
        ((self.bits / 0x10_0000_0000_0000) % 0x800) as nat
    }

    /// The fraction field.
    pub open spec fn fraction(self) -> nat {
        (self.bits % 0x10_0000_0000_0000) as nat
    }

    pub open spec fn is_nan(self) -> bool {
        self.exponent() == 0x7ff && self.fraction() != 0
    }

    /// Zero of either sign.
    pub open spec fn is_zero(self) -> bool {
        self.exponent() == 0 && self.fraction() == 0
    }

    pub open spec fn is_infinite(self) -> bool {
        self.exponent() == 0x7ff && self.fraction() == 0
    }

    /// The magnitude of a finite number, in units of 2 to the power of -1075.
    pub open spec fn magnitude(self) -> nat {
        if self.exponent() == 0 {
            self.fraction() * 2
        } else {
            (0x10_0000_0000_0000 + self.fraction()) * pow2(self.exponent())
        }
    }

    /// The number rounded towards zero and clamped to the range of `i32`. What is not a number
    /// counts as zero.
    pub open spec fn truncated(self) -> int {
        let whole = (self.magnitude() / pow2(1075)) as int;
        if self.is_nan() {
            0
        } else if self.is_negative() {
            if self.is_infinite() || whole > 0x8000_0000 {
                i32::MIN as int
            } else {
                -whole
            }
        } else {
            if self.is_infinite() || whole > 0x7fff_ffff {
                i32::MAX as int
            } else {
                whole
            }
        }
    }

    fn nan(&self) -> (nan: bool)
        ensures
            nan == self.is_nan(),
    {
        (self.bits / 0x10_0000_0000_0000) % 0x800 == 0x7ff && self.bits % 0x10_0000_0000_0000 != 0
    }

    fn zero(&self) -> (zero: bool)
        ensures
            zero == self.is_zero(),
    {
        (self.bits / 0x10_0000_0000_0000) % 0x800 == 0 && self.bits % 0x10_0000_0000_0000 == 0
    }

    /// The number one.
    pub fn one() -> (number: Self)
        ensures
            number.bits == ONE_BITS,
    {
        Binary64 { bits: ONE_BITS }
    }

    /// Rounds towards zero and clamps to the range of `i32`. What is not a number becomes zero.
    pub fn truncate(&self) -> (whole: i32)
        ensures
            whole == self.truncated(),
    {
        let negative: bool = self.bits >= 0x8000_0000_0000_0000;
        let exponent: u64 = (self.bits / 0x10_0000_0000_0000) % 0x800;
        let fraction: u64 = self.bits % 0x10_0000_0000_0000;
        if exponent < 1023 {
            proof {
                lemma_below_one(*self);
            }
            return 0;
        }
        if exponent == 0x7ff && fraction != 0 {
            return 0;
        }
        if exponent >= 1054 {
            proof {
                lemma_out_of_range(*self);
            }
            return if negative { i32::MIN } else { i32::MAX };
        }
        let significand: u64 = 0x10_0000_0000_0000 + fraction;
        let whole: u64 = significand >> (1075 - exponent);
        proof {
            lemma_in_range(*self);
            lemma_u64_shr_is_div(significand, (1075 - exponent) as u64);
        }
        if negative {
            -(whole as i32)
        } else {
            whole as i32
        }
    }
}

pub(crate) proof fn lemma_below_one(number: Binary64)
    requires
        number.exponent() < 1023,
    ensures
        number.magnitude() / pow2(1075) == 0,
{
    lemma2_to64_rest();
    lemma_pow2_adds(53, 1022);
    lemma_pow2_pos(1022);
    let e = number.exponent();
    if e < 1022 {
        lemma_pow2_strictly_increases(e, 1022);
    }
    assert(number.magnitude() < pow2(1075)) by {
        if e == 0 {
            lemma_pow2_strictly_increases(53, 1075);
        } else {
            let significand = 0x10_0000_0000_0000 + number.fraction();
            lemma_mul_inequality(pow2(e) as int, pow2(1022) as int, significand as int);
            lemma_mul_is_commutative(significand as int, pow2(e) as int);
            lemma_mul_strict_inequality(significand as int, pow2(53) as int, pow2(1022) as int);
            lemma_mul_is_commutative(significand as int, pow2(1022) as int);
        }
    }
    lemma_basic_div(number.magnitude() as int, pow2(1075) as int);
}

pub(crate) proof fn lemma_in_range(number: Binary64)
    requires
        1023 <= number.exponent() < 1054,
    ensures
        number.magnitude() / pow2(1075) == (0x10_0000_0000_0000 + number.fraction()) / pow2(
            (1075 - number.exponent()) as nat,
        ),
        number.magnitude() / pow2(1075) <= 0x7fff_ffff,
{
    let e = number.exponent();
    let shift = (1075 - e) as nat;
    let significand = 0x10_0000_0000_0000 + number.fraction();
    lemma_pow2_adds(e, shift);
    lemma_pow2_pos(e);
    lemma_pow2_pos(shift);
    lemma_div_multiples_vanish_quotient(pow2(e) as int, significand as int, pow2(shift) as int);
    lemma_mul_is_commutative(significand as int, pow2(e) as int);
    lemma2_to64_rest();
    lemma2_to64();
    lemma_pow2_adds(22, 31);
    if shift > 22 {
        lemma_pow2_strictly_increases(22, shift);
    }
    assert(significand < pow2(shift) * pow2(31)) by {
        lemma_mul_inequality(pow2(22) as int, pow2(shift) as int, pow2(31) as int);
    }
    lemma_mul_is_commutative(pow2(shift) as int, pow2(31) as int);
    lemma_div_by_multiple_is_strongly_ordered(
        significand as int,
        (pow2(31) * pow2(shift)) as int,
        pow2(31) as int,
        pow2(shift) as int,
    );
    lemma_div_by_multiple(pow2(31) as int, pow2(shift) as int);
}

pub(crate) proof fn lemma_out_of_range(number: Binary64)
    requires
        1054 <= number.exponent(),
    ensures
        number.magnitude() / pow2(1075) >= 0x8000_0000,
{
    let e = number.exponent();
    let significand = 0x10_0000_0000_0000 + number.fraction();
    lemma2_to64_rest();
    lemma2_to64();
    lemma_pow2_adds(52, 1054);
    lemma_pow2_adds(31, 1075);
    lemma_pow2_pos(1075);
    if e > 1054 {
        lemma_pow2_strictly_increases(1054, e);
    }
    lemma_mul_inequality(pow2(52) as int, significand as int, pow2(1054) as int);
    lemma_mul_inequality(pow2(1054) as int, pow2(e) as int, significand as int);
    lemma_mul_is_commutative(significand as int, pow2(e) as int);
    lemma_mul_is_commutative(significand as int, pow2(1054) as int);
    lemma_div_is_ordered(
        (pow2(31) * pow2(1075)) as int,
        number.magnitude() as int,
        pow2(1075) as int,
    );
    lemma_div_by_multiple(pow2(31) as int, pow2(1075) as int);
}

} // verus!
