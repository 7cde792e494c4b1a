//! Fixed-point decimal quantities and their text.

use vstd::prelude::*;
use crate::text::nat_text;

verus! {

/// Largest magnitude of a mantissa: 96 bits.
pub const MAX_MAGNITUDE: u128 = 0x0000_0000_FFFF_FFFF_FFFF_FFFF_FFFF_FFFF;

/// Largest mantissa; the smallest is its negative.
pub const MAX_MANTISSA: i128 = 0x0000_0000_FFFF_FFFF_FFFF_FFFF_FFFF_FFFF;

/// Largest scale: the number of digits behind the decimal point.
pub const MAX_SCALE: u32 = 28;

/// A run of `n` zero digits.
pub open spec fn zeros(n: nat) -> Seq<char> {
    Seq::new(n, |i: int| '0')
}

/// The digits of a magnitude, padded on the left with zeros to at least `scale` digits.
/// Zero has no digit of its own.
pub open spec fn magnitude_digits(magnitude: nat, scale: nat) -> Seq<char> {
    let raw = if magnitude == 0 {
        Seq::<char>::empty()
    } else {
        nat_text(magnitude)
    };
    if raw.len() < scale {
        zeros((scale - raw.len()) as nat) + raw
    } else {
        raw
    }
}

/// The text of the decimal of a sign, a magnitude and a scale, whose value is the signed
/// magnitude over `10^scale`: a minus sign where the sign is negative (also before a
/// zero), the whole part (`0` where it is empty), and, for a scale above zero, a point and
/// exactly `scale` fractional digits.
pub open spec fn decimal_text(negative: bool, magnitude: nat, scale: nat) -> Seq<char> {
    let digits = magnitude_digits(magnitude, scale);
    let whole = digits.subrange(0, digits.len() - scale);
    let fraction = digits.subrange(digits.len() - scale, digits.len() as int);
    let sign = if negative {
        seq!['-']
    } else {
        Seq::<char>::empty()
    };
    let head = if whole.len() == 0 {
        seq!['0']
    } else {
        whole
    };
    let tail = if scale > 0 {
        seq!['.'] + fraction
    } else {
        Seq::<char>::empty()
    };
    sign + head + tail
}

/// A decimal number held as a sign, a magnitude and a scale. A zero keeps its sign.
#[derive(Clone, Copy, Debug, PartialEq, Eq)]
pub struct DecimalValue {
    negative: bool,
    magnitude: u128,
    scale: u32,
}

impl DecimalValue {
    #[verifier::type_invariant]
    pub closed spec fn well_formed(self) -> bool {
        Self::representable(self.magnitude as int, self.scale as int)
    }

    /// Whether a magnitude and a scale are within what a decimal can hold.
    pub open spec fn representable(magnitude: int, scale: int) -> bool {
        &&& 0 <= magnitude <= MAX_MAGNITUDE
        &&& 0 <= scale <= MAX_SCALE
    }

    pub closed spec fn spec_negative(self) -> bool {
        self.negative
    }

    pub closed spec fn spec_magnitude(self) -> nat {
        self.magnitude as nat
    }

    pub closed spec fn spec_scale(self) -> nat {
        self.scale as nat
    }

    /// The signed mantissa: the magnitude, negated where the sign is negative.
    pub open spec fn spec_mantissa(self) -> int {
        if self.spec_negative() {
            -(self.spec_magnitude() as int)
        } else {
            self.spec_magnitude() as int
        }
    }

    /// The text of this decimal.
    pub open spec fn text(self) -> Seq<char> {
        decimal_text(self.spec_negative(), self.spec_magnitude(), self.spec_scale())
    }

    /// A decimal from its three parts, or `None` where magnitude or scale are out of range.
    pub fn from_parts(negative: bool, magnitude: u128, scale: u32) -> (value: Option<DecimalValue>)
        ensures
            value is Some <==> Self::representable(magnitude as int, scale as int),
            value is Some ==> value->Some_0.spec_negative() == negative
                && value->Some_0.spec_magnitude() == magnitude && value->Some_0.spec_scale()
                == scale,
    {
        if scale <= MAX_SCALE && magnitude <= MAX_MAGNITUDE {
            Some(DecimalValue { negative, magnitude, scale })
        } else {
            None
        }
    }

    /// A decimal from a signed mantissa and a scale, or `None` where they are out of range.
    /// The sign is that of the mantissa: a zero made this way is not negative.
    pub fn new(mantissa: i128, scale: u32) -> (value: Option<DecimalValue>)
        ensures
            value is Some <==> -MAX_MANTISSA <= mantissa <= MAX_MANTISSA && scale <= MAX_SCALE,
            value is Some ==> value->Some_0.spec_negative() == (mantissa < 0)
                && value->Some_0.spec_mantissa() == mantissa && value->Some_0.spec_scale()
                == scale,
    {
        if -MAX_MANTISSA <= mantissa && mantissa <= MAX_MANTISSA {
            if mantissa < 0 {
                Self::from_parts(true, (-mantissa) as u128, scale)
            } else {
                Self::from_parts(false, mantissa as u128, scale)
            }
        } else {
            None
        }
    }

    pub fn is_negative(&self) -> (negative: bool)
        ensures
            negative == self.spec_negative(),
    {
        self.negative
    }

    pub fn magnitude(&self) -> (magnitude: u128)
        ensures
            magnitude == self.spec_magnitude(),
            magnitude <= MAX_MAGNITUDE,
    {
        proof {
            use_type_invariant(self);
        }
        self.magnitude
    }

    pub fn mantissa(&self) -> (mantissa: i128)
        ensures
            mantissa == self.spec_mantissa(),
            -MAX_MANTISSA <= mantissa <= MAX_MANTISSA,
    {
        proof {
            use_type_invariant(self);
        }
        if self.negative {
            -(self.magnitude as i128)
        } else {
            self.magnitude as i128
        }
    }

    pub fn scale(&self) -> (scale: u32)
        ensures
            scale == self.spec_scale(),
            scale <= MAX_SCALE,
    {
        proof {
            use_type_invariant(self);
        }
        self.scale
    }

    /// The text of this decimal, as it stands in a leaf.
    pub fn to_text(&self) -> (text: String)
        ensures
            text@ == self.text(),
    {
        proof {
            use_type_invariant(self);
        }
        render_decimal(self.negative, self.magnitude, self.scale)
    }
}

/// `rust_decimal::Decimal::from_i128_with_scale` on the magnitude, `set_sign_negative` with
/// the sign, and the decimal's `to_string`: the text is the sign, the whole part and
/// `scale` fractional digits of the number. The sign is kept on a zero.
#[verifier::external_body]
fn render_decimal(negative: bool, magnitude: u128, scale: u32) -> (text: String)
    requires
        magnitude <= MAX_MAGNITUDE,
        scale <= MAX_SCALE,
    ensures
        text@ == decimal_text(negative, magnitude as nat, scale as nat),
{
    let mut value = rust_decimal::Decimal::from_i128_with_scale(magnitude as i128, scale);
    value.set_sign_negative(negative);
    value.to_string()
}

} // verus!
