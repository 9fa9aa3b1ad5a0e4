//! JSON numbers as the library reads them, and the order of doubles given
//! by their bit patterns.

use vstd::prelude::*;

verus! {

/// `serde_json::Number`, a JSON number as the decoder hands it out.
#[verifier::external_type_specification]
#[verifier::external_body]
pub struct ExNumber(serde_json::Number);

/// A JSON number.
///
/// It is made by the decoder alone, which fills in the three readings of the
/// number that it holds.
pub struct JsonNumber {
    raw: serde_json::Number,
    unsigned: Option<u64>,
    signed: Option<i64>,
    bits: Option<u64>,
}

/// The readings of a JSON number.
pub struct Readings {
    /// The number, where it is a whole number from 0 to `u64::MAX`.
    pub unsigned: Option<u64>,
    /// The number, where it is a whole number from `i64::MIN` to `i64::MAX`.
    pub signed: Option<i64>,
    /// The number as an IEEE 754 double, where it has one: the bit pattern
    /// of the double, which is its sign, eleven exponent bits and 52 fraction
    /// bits.
    pub bits: Option<u64>,
}

impl View for JsonNumber {
    type V = Readings;

    closed spec fn view(&self) -> Readings {
        Readings { unsigned: self.unsigned, signed: self.signed, bits: self.bits }
    }
}

/// The double with the bit pattern `bits` in decimal notation with `places`
/// digits after the point, as `format!` writes it.
pub uninterp spec fn fixed_notation(bits: u64, places: nat) -> Seq<char>;

/// `serde_json::Number::as_u64`, `as_i64` and `as_f64`, each result kept as
/// it comes, the double as the bit pattern that `to_bits` gives, beside a
/// copy of the number itself. Nothing is claimed of the result.
#[verifier::external_body]
pub(crate) fn number_of(number: &serde_json::Number) -> JsonNumber {
    JsonNumber {
        raw: number.clone(),
        unsigned: number.as_u64(),
        signed: number.as_i64(),
        bits: number.as_f64().map(|x| x.to_bits()),
    }
}

/// `format!` with a precision on the double that `serde_json::Number::as_f64`
/// gives: its decimal notation with `places` digits after the point. The
/// text depends on the double and the precision alone, and the contract names
/// it. The double is the one whose bit pattern the decoder has filled in, so
/// there is a text exactly where there is a bit pattern.
#[verifier::external_body]
fn format_fixed(number: &JsonNumber, places: u8) -> (text: Option<String>)
    ensures
        match text {
            Some(text) => number@.bits is Some && text@ == fixed_notation(
                number@.bits->0,
                places as nat,
            ),
            None => number@.bits is None,
        },
{
    number.raw.as_f64().map(|x| format!("{:.*}", usize::from(places), x))
}

impl JsonNumber {
    /// The number, where it is a whole number from 0 to `u64::MAX`.
    pub fn unsigned(&self) -> (n: Option<u64>)
        ensures
            n == self@.unsigned,
    {
        self.unsigned
    }

    /// The number, where it is a whole number from `i64::MIN` to `i64::MAX`.
    pub fn signed(&self) -> (n: Option<i64>)
        ensures
            n == self@.signed,
    {
        self.signed
    }

    /// Bit pattern of the number as a double, where it has one.
    pub fn bits(&self) -> (bits: Option<u64>)
        ensures
            bits == self@.bits,
    {
        self.bits
    }

    /// The number as a double in decimal notation with `places` digits after
    /// the point, where it has a double.
    pub fn fixed(&self, places: u8) -> (text: Option<String>)
        ensures
            match text {
                Some(text) => self@.bits is Some && text@ == fixed_notation(
                    self@.bits->0,
                    places as nat,
                ),
                None => self@.bits is None,
            },
    {
        format_fixed(self, places)
    }

    /// The number as a count: a negative whole number wraps around, a number
    /// that is no whole number in the range of `i64` counts as 0.
    pub fn count(&self) -> (n: u64)
        ensures
            n == counted(self@),
    {
        match self.signed {
            Some(i) => if i >= 0 {
                i as u64
            } else {
                let below: u64 = (-(i + 1)) as u64;
                u64::MAX - below
            },
            None => 0,
        }
    }
}

/// A number as a count: a negative whole number wraps around, a number that
/// is no whole number in the range of `i64` counts as 0.
pub open spec fn counted(number: Readings) -> u64 {
    match number.signed {
        Some(i) => if i >= 0 {
            i as u64
        } else {
            (i + 0x1_0000_0000_0000_0000) as u64
        },
        None => 0,
    }
}

/// Bit pattern of the sign bit of a double.
pub const SIGN_BIT: u64 = 0x8000_0000_0000_0000;

/// Bit pattern of positive infinity: every pattern whose lower 63 bits are
/// greater than this one is a NaN.
pub const INFINITY_BITS: u64 = 0x7ff0_0000_0000_0000;

/// Bit pattern of the double 5.0.
pub const FIVE_BITS: u64 = 0x4014_0000_0000_0000;

/// The lower 63 bits of a double: exponent and fraction, which grow with the
/// absolute value.
pub open spec fn magnitude(bits: u64) -> int {
    bits as int % 0x8000_0000_0000_0000
}

/// Whether the sign bit is set.
pub open spec fn is_negative(bits: u64) -> bool {
    bits >= 0x8000_0000_0000_0000
}

/// Whether the bit pattern is a NaN.
pub open spec fn is_nan(bits: u64) -> bool {
    magnitude(bits) > 0x7ff0_0000_0000_0000
}

/// Place of a double that is no NaN on the number line: an integer that is
/// greater exactly where the double is greater. Both zeros have place 0.
pub open spec fn place(bits: u64) -> int {
    if is_negative(bits) {
        -magnitude(bits)
    } else {
        magnitude(bits)
    }
}

/// Whether the double `a` is greater than the double `b`. A NaN is neither
/// greater nor less than anything.
pub open spec fn greater(a: u64, b: u64) -> bool {
    !is_nan(a) && !is_nan(b) && place(a) > place(b)
}

/// Whether the double `a` is less than or equal to the double `b`.
pub open spec fn at_most(a: u64, b: u64) -> bool {
    !is_nan(a) && !is_nan(b) && place(a) <= place(b)
}

/// Whether the double with bit pattern `a` is greater than the one with bit
/// pattern `b`.
pub fn exceeds(a: u64, b: u64) -> (r: bool)
    ensures
        r == greater(a, b),
{
    let a_low: u64 = if a >= SIGN_BIT {
        a - SIGN_BIT
    } else {
        a
    };
    let b_low: u64 = if b >= SIGN_BIT {
        b - SIGN_BIT
    } else {
        b
    };
    if a_low > INFINITY_BITS || b_low > INFINITY_BITS {
        false
    } else if a < SIGN_BIT {
        if b < SIGN_BIT {
            a_low > b_low
        } else {
            a_low > 0 || b_low > 0
        }
    } else {
        if b < SIGN_BIT {
            false
        } else {
            a_low < b_low
        }
    }
}

/// No double is greater than itself, of two doubles at most one is greater
/// than the other, and of two doubles that are no NaN exactly one of "greater"
/// and "at most" holds.
pub proof fn lemma_greater_is_strict(a: u64, b: u64)
    ensures
        !greater(a, a),
        greater(a, b) ==> !greater(b, a),
        at_most(a, b) ==> !greater(a, b),
        !is_nan(a) && !is_nan(b) ==> (greater(a, b) <==> !at_most(a, b)),
{
}

} // verus!
