//! Decimal numbers as `rust_decimal` holds them: a mantissa of at most 96
//! bits, a sign and a scale (the number of decimal digits after the point).
//! Texts are parsed and written by `rust_decimal`; comparing is done here.

use std::str::FromStr;
use vstd::prelude::*;
use crate::dependencies::FundsAssetSpecs;

verus! {

/// The largest magnitude of a mantissa, 2^96 - 1.
pub open spec fn max_mantissa() -> int {
    0xffff_ffff_ffff_ffff_ffff_ffff
}

/// `10^n`.
pub open spec fn pow10(n: nat) -> nat
    decreases n,
{
    if n == 0 {
        1
    } else {
        10 * pow10((n - 1) as nat)
    }
}

/// What `rust_decimal::Decimal::from_str` gives for the text `s`: its
/// mantissa, whether its sign is negative, and its scale; `None` where the
/// text is no decimal.
pub uninterp spec fn decimal_from_text(s: Seq<char>) -> Option<(i128, bool, u32)>;

/// What `Display` for `rust_decimal::Decimal` shows for the decimal with the
/// given mantissa, sign and scale.
pub uninterp spec fn decimal_text(mantissa: i128, negative: bool, scale: u32) -> Seq<char>;

/// The parts that a `rust_decimal::Decimal` can have: a mantissa of at most
/// 96 bits, a scale of at most 28, and a sign that agrees with the mantissa
/// unless it is zero.
pub open spec fn decimal_parts_wf(parts: (i128, bool, u32)) -> bool {
    &&& -max_mantissa() <= parts.0 <= max_mantissa()
    &&& parts.2 <= 28
    &&& parts.0 != 0 ==> parts.1 == (parts.0 < 0)
}

/// A `rust_decimal::Decimal`, by its parts: the value is
/// `mantissa / 10^scale`; `negative` is its sign, which a zero has too.
#[derive(Debug, Clone, Copy, PartialEq, Eq)]
pub struct Decimal {
    pub mantissa: i128,
    pub negative: bool,
    pub scale: u32,
}

impl Decimal {
    /// The parts of the decimal.
    pub open spec fn parts(self) -> (i128, bool, u32) {
        (self.mantissa, self.negative, self.scale)
    }

    /// Whether the parts are those of a `rust_decimal::Decimal`.
    pub open spec fn wf(self) -> bool {
        decimal_parts_wf(self.parts())
    }

    /// The text of the decimal.
    pub open spec fn text(self) -> Seq<char> {
        decimal_text(self.mantissa, self.negative, self.scale)
    }
}

/// Parses a decimal text with `rust_decimal::Decimal::from_str`. The
/// contract names the result `decimal_from_text`, and states what the type
/// guarantees of any decimal: its parts are in range.
#[verifier::external_body]
fn parse_decimal_parts(s: &str) -> (r: Option<(i128, bool, u32)>)
    ensures
        r == decimal_from_text(s@),
        r.is_some() ==> decimal_parts_wf(r.unwrap()),
{
    match rust_decimal::Decimal::from_str(s) {
        Ok(d) => Some((d.mantissa(), d.is_sign_negative(), d.scale())),
        Err(_) => None,
    }
}

/// Writes a decimal with `Display` for `rust_decimal::Decimal`, built from
/// its parts; the contract names the text `decimal_text`.
#[verifier::external_body]
fn write_decimal(mantissa: i128, negative: bool, scale: u32) -> (s: String)
    requires
        decimal_parts_wf((mantissa, negative, scale)),
    ensures
        s@ == decimal_text(mantissa, negative, scale),
{
    let mut d = rust_decimal::Decimal::from_i128_with_scale(mantissa, scale);
    d.set_sign_negative(negative);
    d.to_string()
}

/// What `rust_decimal::Decimal::checked_div` gives for two decimals, by
/// their parts: the parts of the quotient, or `None`.
pub uninterp spec fn decimal_quotient(a: (i128, bool, u32), b: (i128, bool, u32)) -> Option<(i128, bool, u32)>;

/// What `rust_decimal::Decimal::checked_mul` gives for two decimals, by
/// their parts: the parts of the product, or `None`.
pub uninterp spec fn decimal_product(a: (i128, bool, u32), b: (i128, bool, u32)) -> Option<(i128, bool, u32)>;

/// Divides two decimals with `rust_decimal::Decimal::checked_div`. The
/// contract names the result `decimal_quotient`, and states what the source
/// shows: a zero divisor gives `None`, and a quotient has the parts of a
/// decimal.
#[verifier::external_body]
fn checked_div_parts(a: (i128, bool, u32), b: (i128, bool, u32)) -> (r: Option<(i128, bool, u32)>)
    requires
        decimal_parts_wf(a),
        decimal_parts_wf(b),
    ensures
        r == decimal_quotient(a, b),
        b.0 == 0 ==> r is None,
        r matches Some(q) ==> decimal_parts_wf(q),
{
    let mut x = rust_decimal::Decimal::from_i128_with_scale(a.0, a.2);
    x.set_sign_negative(a.1);
    let mut y = rust_decimal::Decimal::from_i128_with_scale(b.0, b.2);
    y.set_sign_negative(b.1);
    match x.checked_div(y) {
        Some(d) => Some((d.mantissa(), d.is_sign_negative(), d.scale())),
        None => None,
    }
}

/// Multiplies two decimals with `rust_decimal::Decimal::checked_mul`. The
/// contract names the result `decimal_product`, and states that a product
/// has the parts of a decimal.
#[verifier::external_body]
fn checked_mul_parts(a: (i128, bool, u32), b: (i128, bool, u32)) -> (r: Option<(i128, bool, u32)>)
    requires
        decimal_parts_wf(a),
        decimal_parts_wf(b),
    ensures
        r == decimal_product(a, b),
        r matches Some(q) ==> decimal_parts_wf(q),
{
    let mut x = rust_decimal::Decimal::from_i128_with_scale(a.0, a.2);
    x.set_sign_negative(a.1);
    let mut y = rust_decimal::Decimal::from_i128_with_scale(b.0, b.2);
    y.set_sign_negative(b.1);
    match x.checked_mul(y) {
        Some(d) => Some((d.mantissa(), d.is_sign_negative(), d.scale())),
        None => None,
    }
}

/// The parts of the decimal of a `u64` (`Decimal::from`): the number, with
/// no decimals.
pub open spec fn u64_parts(n: u64) -> (i128, bool, u32) {
    (n as i128, false, 0)
}

impl Decimal {
    /// The decimal of a `u64`.
    pub fn from_u64(n: u64) -> (d: Decimal)
        ensures
            d.parts() == u64_parts(n),
            d.wf(),
    {
        Decimal { mantissa: n as i128, negative: false, scale: 0 }
    }

    /// `self / other` with `checked_div`; `None` where it fails, and always
    /// where `other` is zero.
    pub fn checked_div(&self, other: &Decimal) -> (r: Option<Decimal>)
        requires
            self.wf(),
            other.wf(),
        ensures
            match r {
                Some(q) => decimal_quotient(self.parts(), other.parts()) == Some(q.parts()) && q.wf(),
                None => decimal_quotient(self.parts(), other.parts()) is None,
            },
            other.mantissa == 0 ==> r is None,
    {
        match checked_div_parts(self.parts_exec(), other.parts_exec()) {
            Some(p) => Some(Decimal { mantissa: p.0, negative: p.1, scale: p.2 }),
            None => None,
        }
    }

    /// `self * other` with `checked_mul`; `None` where it overflows.
    pub fn checked_mul(&self, other: &Decimal) -> (r: Option<Decimal>)
        requires
            self.wf(),
            other.wf(),
        ensures
            match r {
                Some(q) => decimal_product(self.parts(), other.parts()) == Some(q.parts()) && q.wf(),
                None => decimal_product(self.parts(), other.parts()) is None,
            },
    {
        match checked_mul_parts(self.parts_exec(), other.parts_exec()) {
            Some(p) => Some(Decimal { mantissa: p.0, negative: p.1, scale: p.2 }),
            None => None,
        }
    }

    fn parts_exec(&self) -> (p: (i128, bool, u32))
        ensures
            p == self.parts(),
    {
        (self.mantissa, self.negative, self.scale)
    }
}

impl Decimal {
    /// Parses a decimal text (`s.parse::<Decimal>()`); `None` where it is no
    /// decimal.
    pub fn parse(s: &str) -> (r: Option<Decimal>)
        ensures
            match r {
                Some(d) => decimal_from_text(s@) == Some(d.parts()) && d.wf(),
                None => decimal_from_text(s@).is_none(),
            },
    {
        match parse_decimal_parts(s) {
            Some(parts) => Some(Decimal { mantissa: parts.0, negative: parts.1, scale: parts.2 }),
            None => None,
        }
    }

    /// The text of the decimal (`d.to_string()`).
    pub fn to_text(&self) -> (s: String)
        requires
            self.wf(),
        ensures
            s@ == self.text(),
    {
        write_decimal(self.mantissa, self.negative, self.scale)
    }
}

/// The text in which an amount of the funds asset, given in base units, is
/// shown: the amount with the asset's decimals after the point.
pub open spec fn display_units_text(amount: u64, decimals: u32) -> Seq<char> {
    decimal_text(amount as i128, false, decimals)
}

/// Shows an amount of the funds asset given in base units (a decimal with
/// the asset's number of decimals as its scale).
pub fn base_units_to_display_units_str(amount: u64, funds_asset_specs: &FundsAssetSpecs) -> (s: String)
    requires
        funds_asset_specs.decimals <= 28,
    ensures
        s@ == display_units_text(amount, funds_asset_specs.decimals),
{
    let d = Decimal { mantissa: amount as i128, negative: false, scale: funds_asset_specs.decimals };
    d.to_text()
}

/// The text of an amount of algos given in microalgos: a decimal with 6
/// digits after the point.
pub open spec fn algos_text(microalgos: u64) -> Seq<char> {
    decimal_text(microalgos as i128, false, 6)
}

/// Shows an amount of microalgos in algos.
pub fn microalgos_to_algos_str(microalgos: u64) -> (s: String)
    ensures
        s@ == algos_text(microalgos),
{
    let d = Decimal { mantissa: microalgos as i128, negative: false, scale: 6 };
    d.to_text()
}

/// `10^n` for `n <= 28`.
pub fn pow10_u128(n: u32) -> (r: u128)
    requires
        n <= 28,
    ensures
        r == pow10(n as nat),
        r <= pow10(28),
{
    let mut r: u128 = 1;
    let mut i: u32 = 0;
    proof {
        lemma_pow10_mono(0, 28);
        lemma_pow10_28();
    }
    while i < n
        invariant
            i <= n <= 28,
            r == pow10(i as nat),
            pow10(i as nat) <= pow10(28),
        decreases n - i,
    {
        proof {
            lemma_pow10_mono((i + 1) as nat, 28);
            lemma_pow10_28();
        }
        r = r * 10;
        i = i + 1;
    }
    proof {
        lemma_pow10_mono(n as nat, 28);
    }
    r
}

/// `10^a <= 10^b` where `a <= b`.
pub proof fn lemma_pow10_mono(a: nat, b: nat)
    requires
        a <= b,
    ensures
        1 <= pow10(a) <= pow10(b),
    decreases b,
{
    if a == b {
        lemma_pow10_positive(a);
    } else {
        lemma_pow10_mono(a, (b - 1) as nat);
    }
}

proof fn lemma_pow10_positive(n: nat)
    ensures
        pow10(n) >= 1,
    decreases n,
{
    if n > 0 {
        lemma_pow10_positive((n - 1) as nat);
    }
}

/// `10^28`, the largest power of ten a scale can stand for.
pub proof fn lemma_pow10_28()
    ensures
        pow10(28) == 10_000_000_000_000_000_000_000_000_000,
{
    reveal_with_fuel(pow10, 29);
}

} // verus!
