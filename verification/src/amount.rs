//! Decimal payment amounts.
//!
//! An [`Amount`] holds what a `rust_decimal::Decimal` holds as plain values: a
//! signed mantissa of at most 96 bits and a scale of at most 28, the value being
//! `mantissa / 10^scale`. Parsing, multiplication and formatting are done by
//! `rust_decimal`.

use crate::text::nat_text;
use rust_decimal::Decimal;
use std::str::FromStr;
use vstd::prelude::*;

verus! {

/// The largest mantissa magnitude a decimal can hold: `2^96 - 1`.
pub const MAX_MANTISSA: i128 = 0xFFFF_FFFF_FFFF_FFFF_FFFF_FFFFi128;

/// The largest scale a decimal can hold.
pub const MAX_SCALE: u32 = 28;

/// `10^n`.
pub open spec fn pow10(n: nat) -> int
    decreases n,
{
    if n == 0 {
        1
    } else {
        10 * pow10((n - 1) as nat)
    }
}

pub open spec fn abs(m: int) -> int {
    if m < 0 {
        -m
    } else {
        m
    }
}

/// A decimal number `mantissa / 10^scale`. Two amounts are `==` when they
/// have the same mantissa and the same scale.
#[derive(Clone, Copy, Debug, PartialEq, Eq, Structural)]
pub struct Amount {
    pub mantissa: i128,
    pub scale: u32,
}

impl Amount {
    /// The representation limits of a decimal.
    pub open spec fn wf(self) -> bool {
        &&& self.scale <= MAX_SCALE
        &&& -MAX_MANTISSA <= self.mantissa <= MAX_MANTISSA
    }

    /// Whether the value is below zero.
    pub open spec fn is_negative(self) -> bool {
        self.mantissa < 0
    }

    /// Whether the value exceeds the integer `bound`.
    pub open spec fn exceeds(self, bound: int) -> bool {
        self.mantissa > bound * pow10(self.scale as nat)
    }

    /// The parts as mathematical integers.
    pub open spec fn parts(self) -> (int, nat) {
        (self.mantissa as int, self.scale as nat)
    }

    /// The number `mantissa / 10^scale`.
    pub fn new(mantissa: i128, scale: u32) -> (r: Amount)
        ensures
            r.mantissa == mantissa,
            r.scale == scale,
    {
        Amount { mantissa, scale }
    }

    /// The integer `n` (scale zero).
    pub fn from_u64(n: u64) -> (r: Amount)
        ensures
            r.mantissa == n,
            r.scale == 0,
            r.wf(),
    {
        Amount { mantissa: n as i128, scale: 0 }
    }

    /// Parses a decimal number the way `rust_decimal::Decimal::from_str` does.
    /// On failure the error is that parser's message.
    pub fn parse(text: &str) -> (r: Result<Amount, String>)
        ensures
            match r {
                Ok(a) => decimal_parse(text@) == Ok::<(int, nat), Seq<char>>(a.parts()) && a.wf(),
                Err(e) => decimal_parse(text@) == Err::<(int, nat), Seq<char>>(e@),
            },
    {
        decimal_from_str(text)
    }

    /// The value compared with zero: below zero.
    pub fn below_zero(&self) -> (r: bool)
        ensures
            r == self.is_negative(),
    {
        self.mantissa < 0
    }

    /// Whether the value exceeds the integer `bound`.
    pub fn greater_than(&self, bound: u64) -> (r: bool)
        requires
            self.wf(),
        ensures
            r == self.exceeds(bound as int),
    {
        let p = pow10_exec(self.scale);
        proof {
            lemma_pow10_bound(self.scale as nat);
        }
        match (bound as i128).checked_mul(p) {
            Some(limit) => self.mantissa > limit,
            None => {
                proof {
                    assert(self.mantissa <= i128::MAX);
                }
                false
            },
        }
    }

    /// The decimal `self * 10^decimals` (the amount in atomic units of a token
    /// with that many decimals) with trailing zeros removed, or `None` where
    /// the multiplication overflows the decimal range.
    pub fn to_atomic_units(&self, decimals: u32) -> (r: Option<Amount>)
        requires
            self.wf(),
            decimals <= MAX_SCALE,
        ensures
            r is Some <==> units_defined(*self, decimals as nat),
            r matches Some(u) ==> u.parts() == normalized(
                decimal_product(self.parts(), (pow10(decimals as nat), 0nat)).unwrap(),
            ) && u.wf(),
            abs(self.mantissa * pow10(decimals as nat)) <= MAX_MANTISSA ==> r is Some,
            fits_exactly(self.parts(), decimals as nat) ==> decimal_product(
                self.parts(),
                (pow10(decimals as nat), 0nat),
            ) == Some(exact_product(self.parts(), decimals as nat)),
    {
        proof {
            lemma_pow10_bound(decimals as nat);
        }
        let factor = Amount { mantissa: pow10_exec(decimals), scale: 0 };
        match decimal_checked_mul(self, &factor) {
            Some(p) => Some(decimal_normalize(&p)),
            None => None,
        }
    }

    /// The text `Decimal`'s `Display` gives for this value.
    pub fn to_text(&self) -> (r: String)
        requires
            self.wf(),
        ensures
            r@ == decimal_text(self.mantissa as int, self.scale as nat),
    {
        decimal_display(self)
    }
}

/// Whether `a * 10^decimals` has a mantissa within 96 bits, so that the
/// product is exact.
pub open spec fn fits_exactly(a: (int, nat), decimals: nat) -> bool {
    abs(a.0 * pow10(decimals)) <= MAX_MANTISSA
}

/// The exact product `a * 10^decimals` as a decimal: zero with scale zero,
/// otherwise the mantissa times `10^decimals` with the same scale.
pub open spec fn exact_product(a: (int, nat), decimals: nat) -> (int, nat) {
    if a.0 == 0 {
        (0, 0)
    } else {
        (a.0 * pow10(decimals), a.1)
    }
}

/// The text of the exact product `a * 10^decimals` with trailing zeros removed.
pub open spec fn exact_units_text(a: (int, nat), decimals: nat) -> Seq<char> {
    let u = normalized(exact_product(a, decimals));
    decimal_text(u.0, u.1)
}

/// Whether `a * 10^decimals` is within the decimal range.
pub open spec fn units_defined(a: Amount, decimals: nat) -> bool {
    decimal_product(a.parts(), (pow10(decimals), 0nat)) is Some
}

/// `10^n` for `n` up to the largest scale.
pub fn pow10_exec(n: u32) -> (r: i128)
    requires
        n <= MAX_SCALE,
    ensures
        r == pow10(n as nat),
{
    let mut r: i128 = 1;
    let mut i: u32 = 0;
    while i < n
        invariant
            i <= n <= MAX_SCALE,
            r == pow10(i as nat),
        decreases n - i,
    {
        proof {
            lemma_pow10_bound((i + 1) as nat);
        }
        r = r * 10;
        i = i + 1;
    }
    r
}

/// `10^n` is positive and, up to the largest scale, at most `10^28`.
pub proof fn lemma_pow10_bound(n: nat)
    ensures
        pow10(n) > 0,
        n <= 28 ==> pow10(n) <= 10_000_000_000_000_000_000_000_000_000int,
    decreases n,
{
    if n > 0 {
        lemma_pow10_bound((n - 1) as nat);
    }
    if n <= 28 {
        lemma_pow10_monotone(n, 28);
        reveal_with_fuel(pow10, 29);
    }
}

pub proof fn lemma_pow10_monotone(a: nat, b: nat)
    requires
        a <= b,
    ensures
        pow10(a) <= pow10(b),
    decreases b,
{
    if a < b {
        lemma_pow10_monotone(a, (b - 1) as nat);
        lemma_pow10_positive((b - 1) as nat);
    }
}

pub proof fn lemma_pow10_positive(n: nat)
    ensures
        pow10(n) > 0,
    decreases n,
{
    if n > 0 {
        lemma_pow10_positive((n - 1) as nat);
    }
}

// ---------------------------------------------------------------------------
// Normalisation and text
// ---------------------------------------------------------------------------

/// A decimal with its trailing fractional zeros removed; zero becomes `0` with
/// scale zero (`Decimal::normalize`).
pub open spec fn normalized(d: (int, nat)) -> (int, nat)
    decreases d.1,
{
    if d.0 == 0 {
        (0, 0)
    } else if d.1 == 0 {
        d
    } else if d.0 % 10 == 0 {
        normalized((d.0 / 10, (d.1 - 1) as nat))
    } else {
        d
    }
}

/// `n` copies of the character `'0'`.
pub open spec fn zeros(n: nat) -> Seq<char> {
    Seq::new(n, |i: int| '0')
}

/// The digits of `|m|` padded with leading zeros to at least `s` digits; no
/// digit at all for zero.
pub open spec fn padded_digits(m: int, s: nat) -> Seq<char> {
    let d = if m == 0 {
        Seq::<char>::empty()
    } else {
        nat_text(abs(m) as nat)
    };
    if d.len() < s {
        zeros((s - d.len()) as nat) + d
    } else {
        d
    }
}

/// The text of the decimal `m / 10^s` as `Decimal`'s `Display` writes it: an
/// optional minus sign, the integer digits (`0` when there are none) and, when
/// `s > 0`, a point and exactly `s` fractional digits.
pub open spec fn decimal_text(m: int, s: nat) -> Seq<char> {
    let p = padded_digits(m, s);
    let whole = (p.len() - s) as int;
    let sign = if m < 0 {
        seq!['-']
    } else {
        Seq::<char>::empty()
    };
    let int_part = if whole == 0 {
        seq!['0']
    } else {
        p.subrange(0, whole)
    };
    if s == 0 {
        sign + int_part
    } else {
        sign + int_part + seq!['.'] + p.subrange(whole, p.len() as int)
    }
}

// ---------------------------------------------------------------------------
// rust_decimal
// ---------------------------------------------------------------------------

/// What `Decimal::from_str` gives for this text: the mantissa and scale of the
/// parsed number, or the `Display` text of its error.
pub uninterp spec fn decimal_parse(text: Seq<char>) -> Result<(int, nat), Seq<char>>;

/// What `Decimal::checked_mul` gives for two decimals: the mantissa and scale of
/// the product, or `None` where it overflows.
pub uninterp spec fn decimal_product(a: (int, nat), b: (int, nat)) -> Option<(int, nat)>;

/// `Decimal::from_str`. Its result is named by [`decimal_parse`]; a parsed
/// decimal is within the decimal range (its mantissa is made of three 32-bit
/// words and its scale is at most 28).
#[verifier::external_body]
fn decimal_from_str(text: &str) -> (r: Result<Amount, String>)
    ensures
        match r {
            Ok(a) => decimal_parse(text@) == Ok::<(int, nat), Seq<char>>(a.parts()) && a.wf(),
            Err(e) => decimal_parse(text@) == Err::<(int, nat), Seq<char>>(e@),
        },
{
    match Decimal::from_str(text) {
        Ok(d) => Ok(Amount { mantissa: d.mantissa(), scale: d.scale() }),
        Err(e) => Err(e.to_string()),
    }
}

/// `Decimal::checked_mul`. Its result is named by [`decimal_product`]. When the
/// exact product of the mantissas fits in 96 bits and the sum of the scales is
/// at most 28, the product is exact: zero when either factor is zero, otherwise
/// the product of the mantissas with the sum of the scales.
#[verifier::external_body]
fn decimal_checked_mul(a: &Amount, b: &Amount) -> (r: Option<Amount>)
    requires
        a.wf(),
        b.wf(),
    ensures
        r matches Some(p) ==> decimal_product(a.parts(), b.parts()) == Some(p.parts()) && p.wf(),
        r is None ==> decimal_product(a.parts(), b.parts()) is None,
        abs(a.mantissa * b.mantissa) <= MAX_MANTISSA && a.scale + b.scale <= MAX_SCALE ==> r
            == Some(
            if a.mantissa == 0 || b.mantissa == 0 {
                Amount { mantissa: 0, scale: 0 }
            } else {
                Amount { mantissa: (a.mantissa * b.mantissa) as i128, scale: (a.scale + b.scale) as u32 }
            },
        ),
{
    let x = Decimal::from_i128_with_scale(a.mantissa, a.scale);
    let y = Decimal::from_i128_with_scale(b.mantissa, b.scale);
    match x.checked_mul(y) {
        Some(d) => Some(Amount { mantissa: d.mantissa(), scale: d.scale() }),
        None => None,
    }
}

/// `Decimal::normalize`: trailing fractional zeros are removed and zero becomes
/// `0` with scale zero.
#[verifier::external_body]
fn decimal_normalize(a: &Amount) -> (r: Amount)
    requires
        a.wf(),
    ensures
        r.parts() == normalized(a.parts()),
        r.wf(),
{
    let d = Decimal::from_i128_with_scale(a.mantissa, a.scale).normalize();
    Amount { mantissa: d.mantissa(), scale: d.scale() }
}

/// `Decimal`'s `Display` (`to_string`) without width or precision flags.
#[verifier::external_body]
fn decimal_display(a: &Amount) -> (r: String)
    requires
        a.wf(),
    ensures
        r@ == decimal_text(a.mantissa as int, a.scale as nat),
{
    Decimal::from_i128_with_scale(a.mantissa, a.scale).to_string()
}

} // verus!
