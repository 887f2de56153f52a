//! Fixed-point decimal amounts.
//!
//! A [`Decimal`] is a signed 96-bit mantissa together with a scale between 0
//! and 28: the amount `mantissa / 10^scale`. The value is held as two plain
//! integers, so that contracts can speak of it exactly; parsing, printing and
//! arithmetic are done by the `rust_decimal` crate, never through binary
//! floating point.
use std::str::FromStr;
use vstd::prelude::*;

verus! {

/// Largest magnitude a mantissa can have: `2^96 - 1`.
pub const MAX_MANTISSA: i128 = 79_228_162_514_264_337_593_543_950_335i128;

/// Largest scale a decimal can have.
pub const MAX_SCALE: u32 = 28u32;

/// The mathematical content of a [`Decimal`]: the amount `mantissa / 10^scale`.
pub ghost struct DecimalParts {
    pub mantissa: int,
    pub scale: nat,
}

/// Whether a mantissa and a scale are within what a [`Decimal`] can hold.
pub open spec fn representable(mantissa: int, scale: int) -> bool {
    &&& -MAX_MANTISSA <= mantissa <= MAX_MANTISSA
    &&& 0 <= scale <= MAX_SCALE
}

/// The parts named by a pair of a mantissa and a scale.
pub open spec fn parts_of(pair: (int, nat)) -> DecimalParts {
    DecimalParts { mantissa: pair.0, scale: pair.1 }
}

/// The parts of an optional pair.
pub open spec fn opt_parts_of(pair: Option<(int, nat)>) -> Option<DecimalParts> {
    match pair {
        Some(p) => Some(parts_of(p)),
        None => None,
    }
}

/// The decimal that a text denotes, as `rust_decimal` reads it; `None` where
/// it rejects the text.
pub uninterp spec fn parsed_decimal(text: Seq<char>) -> Option<(int, nat)>;

/// The sum of two decimals as `rust_decimal` computes it; `None` where the
/// sum cannot be represented.
pub uninterp spec fn decimal_sum(a_mantissa: int, a_scale: nat, b_mantissa: int, b_scale: nat)
    -> Option<(int, nat)>;

/// The quotient of two decimals as `rust_decimal` computes it; `None` where
/// the divisor is zero or the quotient cannot be represented.
pub uninterp spec fn decimal_quotient(
    a_mantissa: int,
    a_scale: nat,
    b_mantissa: int,
    b_scale: nat,
) -> Option<(int, nat)>;

/// The text that `rust_decimal` prints for a decimal.
pub uninterp spec fn decimal_text(mantissa: int, scale: nat) -> Seq<char>;

/// The sum of two decimals, by their parts.
pub open spec fn sum_of(a: DecimalParts, b: DecimalParts) -> Option<DecimalParts> {
    opt_parts_of(decimal_sum(a.mantissa, a.scale, b.mantissa, b.scale))
}

/// The quotient of two decimals, by their parts.
pub open spec fn quotient_of(a: DecimalParts, b: DecimalParts) -> Option<DecimalParts> {
    opt_parts_of(decimal_quotient(a.mantissa, a.scale, b.mantissa, b.scale))
}

/// The decimal two, with scale zero.
pub open spec fn two() -> DecimalParts {
    DecimalParts { mantissa: 2, scale: 0 }
}

/// The arithmetic mean of two decimals: their sum, divided by two. `None`
/// where the sum or the quotient cannot be represented.
pub open spec fn mean_of(a: DecimalParts, b: DecimalParts) -> Option<DecimalParts> {
    match sum_of(a, b) {
        Some(s) => quotient_of(s, two()),
        None => None,
    }
}

/// The decimal a text denotes, by its parts.
pub open spec fn parse_of(text: Seq<char>) -> Option<DecimalParts> {
    opt_parts_of(parsed_decimal(text))
}

/// The text of a decimal, by its parts.
pub open spec fn text_of(d: DecimalParts) -> Seq<char> {
    decimal_text(d.mantissa, d.scale)
}

/// A fixed-point decimal amount.
#[derive(Clone, Copy, Debug, PartialEq, Eq)]
pub struct Decimal {
    mantissa: i128,
    scale: u32,
}

impl View for Decimal {
    type V = DecimalParts;

    closed spec fn view(&self) -> DecimalParts {
        DecimalParts { mantissa: self.mantissa as int, scale: self.scale as nat }
    }
}

/// The parts of an optional decimal.
pub open spec fn opt_view(d: Option<Decimal>) -> Option<DecimalParts> {
    match d {
        Some(d) => Some(d@),
        None => None,
    }
}

impl Decimal {
    #[verifier::type_invariant]
    spec fn in_range(self) -> bool {
        representable(self.mantissa as int, self.scale as int)
    }

    /// The decimal with the given mantissa and scale, where it can be
    /// represented.
    pub fn from_parts(mantissa: i128, scale: u32) -> (r: Option<Decimal>)
        ensures
            representable(mantissa as int, scale as int) <==> r is Some,
            r matches Some(d) ==> d@ == (DecimalParts {
                mantissa: mantissa as int,
                scale: scale as nat,
            }),
    {
        if -MAX_MANTISSA <= mantissa && mantissa <= MAX_MANTISSA && scale <= MAX_SCALE {
            Some(Decimal { mantissa, scale })
        } else {
            None
        }
    }

    /// Zero, with scale zero.
    pub fn zero() -> (r: Decimal)
        ensures
            r@ == (DecimalParts { mantissa: 0, scale: 0 }),
    {
        Decimal { mantissa: 0, scale: 0 }
    }

    /// The mantissa.
    pub fn mantissa(&self) -> (m: i128)
        ensures
            m == self@.mantissa,
            -MAX_MANTISSA <= m <= MAX_MANTISSA,
    {
        proof {
            use_type_invariant(self);
        }
        self.mantissa
    }

    /// The scale.
    pub fn scale(&self) -> (s: u32)
        ensures
            s == self@.scale,
            s <= MAX_SCALE,
    {
        proof {
            use_type_invariant(self);
        }
        self.scale
    }

    /// Whether two decimals have the same mantissa and the same scale.
    pub fn same(&self, other: &Decimal) -> (b: bool)
        ensures
            b <==> self@ == other@,
    {
        self.mantissa == other.mantissa && self.scale == other.scale
    }
}

/// Calls `rust_decimal::Decimal::from_str`. The contract claims that the
/// outcome depends on the text alone, and gives it a name; a decimal that comes
/// back has the mantissa and the scale that `rust_decimal` reports for it.
#[verifier::external_body]
fn parse_text(text: &str) -> (r: Option<Decimal>)
    ensures
        opt_view(r) == opt_parts_of(parsed_decimal(text@)),
{
    match rust_decimal::Decimal::from_str(text) {
        Ok(d) => Some(Decimal { mantissa: d.mantissa(), scale: d.scale() }),
        Err(_) => None,
    }
}

/// Calls `rust_decimal::Decimal::checked_add`. The contract claims that the
/// outcome depends on the two operands alone, and gives it a name.
#[verifier::external_body]
fn checked_sum(a: Decimal, b: Decimal) -> (r: Option<Decimal>)
    ensures
        opt_view(r) == opt_parts_of(
            decimal_sum(a@.mantissa, a@.scale, b@.mantissa, b@.scale),
        ),
{
    let x = rust_decimal::Decimal::from_i128_with_scale(a.mantissa, a.scale);
    let y = rust_decimal::Decimal::from_i128_with_scale(b.mantissa, b.scale);
    match x.checked_add(y) {
        Some(d) => Some(Decimal { mantissa: d.mantissa(), scale: d.scale() }),
        None => None,
    }
}

/// Calls `rust_decimal::Decimal::checked_div`. The contract claims that the
/// outcome depends on the two operands alone, and gives it a name.
#[verifier::external_body]
fn checked_quotient(a: Decimal, b: Decimal) -> (r: Option<Decimal>)
    ensures
        opt_view(r) == opt_parts_of(
            decimal_quotient(a@.mantissa, a@.scale, b@.mantissa, b@.scale),
        ),
{
    let x = rust_decimal::Decimal::from_i128_with_scale(a.mantissa, a.scale);
    let y = rust_decimal::Decimal::from_i128_with_scale(b.mantissa, b.scale);
    match x.checked_div(y) {
        Some(d) => Some(Decimal { mantissa: d.mantissa(), scale: d.scale() }),
        None => None,
    }
}

/// Calls `to_string` on a `rust_decimal::Decimal`, which prints it through its
/// `Display`. The contract claims that the text depends on the decimal alone,
/// and gives it a name.
#[verifier::external_body]
fn print_text(d: Decimal) -> (r: String)
    ensures
        r@ == decimal_text(d@.mantissa, d@.scale),
{
    rust_decimal::Decimal::from_i128_with_scale(d.mantissa, d.scale).to_string()
}

/// Calls `rust_decimal::Decimal::try_new`. The contract claims that it fails
/// exactly where the scale is above 28, and that otherwise the decimal has the
/// given number as its mantissa and the given scale.
#[verifier::external_body]
fn try_new(num: i64, scale: u32) -> (r: Option<Decimal>)
    ensures
        r is Some <==> scale <= MAX_SCALE,
        r matches Some(d) ==> d@ == (DecimalParts {
            mantissa: num as int,
            scale: scale as nat,
        }),
{
    match rust_decimal::Decimal::try_new(num, scale) {
        Ok(d) => Some(Decimal { mantissa: d.mantissa(), scale: d.scale() }),
        Err(_) => None,
    }
}

impl Decimal {
    /// Reads a decimal from its text. `None` where the text denotes none.
    pub fn parse(text: &str) -> (r: Option<Decimal>)
        ensures
            opt_view(r) == parse_of(text@),
    {
        parse_text(text)
    }

    /// The decimal `num / 10^scale`. `None` exactly where the scale is above
    /// [`MAX_SCALE`].
    pub fn new(num: i64, scale: u32) -> (r: Option<Decimal>)
        ensures
            r is Some <==> scale <= MAX_SCALE,
            r matches Some(d) ==> d@ == (DecimalParts {
                mantissa: num as int,
                scale: scale as nat,
            }),
    {
        try_new(num, scale)
    }

    /// The sum of two decimals. `None` where it cannot be represented.
    pub fn checked_add(self, other: Decimal) -> (r: Option<Decimal>)
        ensures
            opt_view(r) == sum_of(self@, other@),
    {
        checked_sum(self, other)
    }

    /// The quotient of two decimals. `None` where the divisor is zero or the
    /// quotient cannot be represented.
    pub fn checked_div(self, other: Decimal) -> (r: Option<Decimal>)
        ensures
            opt_view(r) == quotient_of(self@, other@),
    {
        checked_quotient(self, other)
    }

    /// The arithmetic mean of two decimals, computed in decimal arithmetic.
    /// `None` where the sum or its half cannot be represented.
    pub fn mean(self, other: Decimal) -> (r: Option<Decimal>)
        ensures
            opt_view(r) == mean_of(self@, other@),
    {
        match checked_sum(self, other) {
            Some(s) => {
                let two = Decimal { mantissa: 2, scale: 0 };
                checked_quotient(s, two)
            },
            None => None,
        }
    }

    /// The text of the decimal.
    pub fn to_text(&self) -> (r: String)
        ensures
            r@ == text_of(self@),
    {
        print_text(*self)
    }
}

} // verus!
