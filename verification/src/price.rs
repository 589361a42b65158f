//! Native price objects.
//!
//! A price travels as one 32-bit mantissa whose extreme values are
//! reserved sentinels — blank, market, overflow, underflow — and whose
//! decimal point is fixed by a separate exponent code.

use vstd::prelude::*;
use vstd::utf8::{
    decode_utf8, decode_utf8_encode_utf8, encode_utf8, is_leading_byte_width_1,
    partial_valid_utf8, partial_valid_utf8_extend_ascii_block, valid_utf8,
};

use crate::error::Error;

verus! {

/// The sentinel mantissa of a blank price.
pub const XC_BLANK_PRICE: i32 = i32::MIN;

/// The sentinel mantissa of a market price.
pub const XC_MARKET_PRICE: i32 = i32::MIN + 1;

/// The sentinel mantissa of a price too large for its exponent.
pub const XC_OVERFLOW_PRICE: i32 = i32::MAX;

/// The sentinel mantissa of a price too small for its exponent.
pub const XC_UNDERFLOW_PRICE: i32 = i32::MIN + 2;

/// A price kind.
#[derive(Clone, Copy, Debug, PartialEq, Eq, Structural)]
pub enum PriceKind {
    /// The price is normal, with the given mantissa.
    Normal(i32),
    /// The price is blank.
    Blank,
    /// The price is a market price.
    Market,
    /// The price is too large to represent with the corresponding
    /// exponent.
    Overflow,
    /// The price is too small to represent with the corresponding
    /// exponent.
    Underflow,
}

/// A raw native price mantissa.
#[derive(Clone, Copy, Debug, PartialEq, Eq, Structural)]
pub struct Price {
    /// The raw mantissa, sentinels included.
    pub raw: i32,
}

/// The kind a raw mantissa denotes: one of the four sentinels, or a
/// normal price carrying the mantissa itself.
pub open spec fn spec_price_kind(raw: i32) -> PriceKind {
    if raw == XC_BLANK_PRICE {
        PriceKind::Blank
    } else if raw == XC_MARKET_PRICE {
        PriceKind::Market
    } else if raw == XC_OVERFLOW_PRICE {
        PriceKind::Overflow
    } else if raw == XC_UNDERFLOW_PRICE {
        PriceKind::Underflow
    } else {
        PriceKind::Normal(raw)
    }
}

impl From<i32> for Price {
    fn from(src: i32) -> (r: Price) {
        Price { raw: src }
    }
}

impl vstd::std_specs::convert::FromSpecImpl<i32> for Price {
    open spec fn obeys_from_spec() -> bool {
        true
    }

    open spec fn from_spec(src: i32) -> Price {
        Price { raw: src }
    }
}

impl From<Price> for i32 {
    fn from(src: Price) -> (r: i32) {
        src.raw
    }
}

impl vstd::std_specs::convert::FromSpecImpl<Price> for i32 {
    open spec fn obeys_from_spec() -> bool {
        true
    }

    open spec fn from_spec(src: Price) -> i32 {
        src.raw
    }
}

impl Price {
    /// The raw mantissa, sentinels included.
    pub open spec fn spec_raw(self) -> i32 {
        self.raw
    }

    /// Receive the raw value of the native price.
    pub fn raw_value(&self) -> (r: i32)
        ensures
            r == self.spec_raw(),
    {
        self.raw
    }

    /// Retrieve the value of a price mantissa, if there is one: every
    /// sentinel yields nothing, every other mantissa yields itself.
    pub fn value(&self) -> (r: Option<i32>)
        ensures
            r == (match spec_price_kind(self.spec_raw()) {
                PriceKind::Normal(v) => Some(v),
                _ => None::<i32>,
            }),
    {
        if self.raw == XC_BLANK_PRICE || self.raw == XC_MARKET_PRICE || self.raw
            == XC_OVERFLOW_PRICE || self.raw == XC_UNDERFLOW_PRICE {
            None
        } else {
            Some(self.raw)
        }
    }

    /// Retrieve the kind of value contained in this price object.
    pub fn kind(&self) -> (r: PriceKind)
        ensures
            r == spec_price_kind(self.spec_raw()),
    {
        if self.raw == XC_BLANK_PRICE {
            PriceKind::Blank
        } else if self.raw == XC_MARKET_PRICE {
            PriceKind::Market
        } else if self.raw == XC_OVERFLOW_PRICE {
            PriceKind::Overflow
        } else if self.raw == XC_UNDERFLOW_PRICE {
            PriceKind::Underflow
        } else {
            PriceKind::Normal(self.raw)
        }
    }
}

/// An enumeration of price exponent kinds.
#[derive(Clone, Copy, Debug, PartialEq, Eq, Structural)]
pub enum ExponentKind {
    /// 0 decimal places.
    Decimal0,
    /// 1 decimal place.
    Decimal1,
    /// 2 decimal places.
    Decimal2,
    /// 3 decimal places.
    Decimal3,
    /// 4 decimal places.
    Decimal4,
    /// 5 decimal places.
    Decimal5,
    /// 6 decimal places.
    Decimal6,
    /// 7 decimal places.
    Decimal7,
    /// 8 decimal places.
    Decimal8,
    /// 9 decimal places.
    Decimal9,
    /// Fractions of 512ths rather than decimal places.
    Fractional512,
}

/// The exponent kind a raw exponent code denotes, if any: the decimal
/// codes count decimal places, and one further code marks fractional
/// 512ths pricing.
pub open spec fn spec_exponent_kind_of(value: u8) -> Option<ExponentKind> {
    if value == 0 {
        Some(ExponentKind::Decimal0)
    } else if value == 1 {
        Some(ExponentKind::Decimal1)
    } else if value == 2 {
        Some(ExponentKind::Decimal2)
    } else if value == 3 {
        Some(ExponentKind::Decimal3)
    } else if value == 4 {
        Some(ExponentKind::Decimal4)
    } else if value == 5 {
        Some(ExponentKind::Decimal5)
    } else if value == 6 {
        Some(ExponentKind::Decimal6)
    } else if value == 7 {
        Some(ExponentKind::Decimal7)
    } else if value == 8 {
        Some(ExponentKind::Decimal8)
    } else if value == 9 {
        Some(ExponentKind::Decimal9)
    } else if value == 10 {
        Some(ExponentKind::Fractional512)
    } else {
        None
    }
}

/// The number of decimal places an exponent kind fixes.
pub open spec fn spec_decimal_places(kind: ExponentKind) -> int {
    match kind {
        ExponentKind::Decimal0 => 0,
        ExponentKind::Decimal1 => 1,
        ExponentKind::Decimal2 => 2,
        ExponentKind::Decimal3 => 3,
        ExponentKind::Decimal4 => 4,
        ExponentKind::Decimal5 => 5,
        ExponentKind::Decimal6 => 6,
        ExponentKind::Decimal7 => 7,
        ExponentKind::Decimal8 => 8,
        ExponentKind::Decimal9 => 9,
        ExponentKind::Fractional512 => 10,
    }
}

impl ExponentKind {
    /// Decode a raw exponent code; codes outside the table fail with
    /// `InvalidExponent`.
    pub fn try_from_code(value: u8) -> (r: Result<ExponentKind, Error>)
        ensures
            match spec_exponent_kind_of(value) {
                Some(k) => r == Ok::<ExponentKind, Error>(k),
                None => r == Err::<ExponentKind, Error>(Error::InvalidExponent),
            },
    {
        if value == 0 {
            Ok(ExponentKind::Decimal0)
        } else if value == 1 {
            Ok(ExponentKind::Decimal1)
        } else if value == 2 {
            Ok(ExponentKind::Decimal2)
        } else if value == 3 {
            Ok(ExponentKind::Decimal3)
        } else if value == 4 {
            Ok(ExponentKind::Decimal4)
        } else if value == 5 {
            Ok(ExponentKind::Decimal5)
        } else if value == 6 {
            Ok(ExponentKind::Decimal6)
        } else if value == 7 {
            Ok(ExponentKind::Decimal7)
        } else if value == 8 {
            Ok(ExponentKind::Decimal8)
        } else if value == 9 {
            Ok(ExponentKind::Decimal9)
        } else if value == 10 {
            Ok(ExponentKind::Fractional512)
        } else {
            Err(Error::InvalidExponent)
        }
    }

    /// The number of decimal places this exponent kind fixes.
    pub fn decimal_places(self) -> (r: u8)
        ensures
            r == spec_decimal_places(self),
    {
        match self {
            ExponentKind::Decimal0 => 0,
            ExponentKind::Decimal1 => 1,
            ExponentKind::Decimal2 => 2,
            ExponentKind::Decimal3 => 3,
            ExponentKind::Decimal4 => 4,
            ExponentKind::Decimal5 => 5,
            ExponentKind::Decimal6 => 6,
            ExponentKind::Decimal7 => 7,
            ExponentKind::Decimal8 => 8,
            ExponentKind::Decimal9 => 9,
            ExponentKind::Fractional512 => 10,
        }
    }
}

/// Ten to the given power.
pub open spec fn spec_pow10(k: int) -> int
    decreases k,
{
    if k <= 0 {
        1
    } else {
        10 * spec_pow10(k - 1)
    }
}

/// The ASCII decimal digits of a non-negative number, most significant
/// first.
pub open spec fn spec_udec_bytes(n: int) -> Seq<u8>
    decreases n,
{
    if n < 10 {
        seq![(0x30 + if n >= 0 { n } else { 0 }) as u8]
    } else {
        spec_udec_bytes(n / 10) + seq![(0x30 + n % 10) as u8]
    }
}

/// A run of ASCII zero digits.
pub open spec fn spec_zero_bytes(k: int) -> Seq<u8>
    decreases k,
{
    if k <= 0 {
        Seq::<u8>::empty()
    } else {
        seq![0x30u8] + spec_zero_bytes(k - 1)
    }
}

/// The ASCII rendering of a signed magnitude, as the plain decimal
/// formatter writes it: a minus sign for a negative value, then the
/// digits.
pub open spec fn spec_idec_bytes(neg: bool, mag: int) -> Seq<u8> {
    if neg && mag > 0 {
        seq![0x2Du8] + spec_udec_bytes(mag)
    } else {
        spec_udec_bytes(mag)
    }
}

/// The ASCII rendering of a signed magnitude zero-padded to the given
/// width, as the zero-padding decimal formatter writes it: the sign
/// counts against the width, and a value that is already wider gets no
/// padding.
pub open spec fn spec_padded_bytes(neg: bool, mag: int, width: int) -> Seq<u8> {
    if neg && mag > 0 {
        seq![0x2Du8] + spec_zero_bytes(width - 1 - spec_udec_bytes(mag).len()) + spec_udec_bytes(
            mag,
        )
    } else {
        spec_zero_bytes(width - spec_udec_bytes(mag).len()) + spec_udec_bytes(mag)
    }
}

/// The decimal rendering of a price under an exponent kind, as UTF-8
/// bytes: nothing for a blank price, an asterisk for a market price,
/// bracketed markers for the overflow sentinels, and
/// `mantissa.decimal` — with the decimal part zero-padded to the
/// exponent's width — for a normal price.
pub open spec fn spec_price_bytes(raw: i32, places: int) -> Seq<u8> {
    match spec_price_kind(raw) {
        PriceKind::Blank => Seq::<u8>::empty(),
        PriceKind::Market => seq![0x2Au8],
        PriceKind::Overflow => seq![0x28u8, 0x4Fu8, 0x56u8, 0x45u8, 0x52u8, 0x29u8],
        PriceKind::Underflow => seq![0x28u8, 0x55u8, 0x4Eu8, 0x44u8, 0x45u8, 0x52u8, 0x29u8],
        PriceKind::Normal(v) => {
            let neg = v < 0;
            let mag = if v >= 0 {
                v as int
            } else {
                -(v as int)
            };
            let e = spec_pow10(places);
            spec_idec_bytes(neg, mag / e) + seq![0x2Eu8] + spec_padded_bytes(neg, mag % e, places)
        },
    }
}

/// Format the given price and exponent as a decimal string.
///
/// A blank price renders as the empty string, a market price as `*`,
/// the overflow sentinels as their bracketed markers, and a normal
/// price as its mantissa split at the exponent's decimal point, with
/// the fractional part zero-padded to the exponent's width.  The
/// fractional-512ths exponent does not name a decimal-place count, so
/// it is left out.
#[verifier::rlimit(100)]
#[verifier::spinoff_prover]
pub fn format_price_string(price: Price, exponent_kind: ExponentKind) -> (r: String)
    requires
        exponent_kind != ExponentKind::Fractional512,
    ensures
        encode_utf8(r@) == spec_price_bytes(price.spec_raw(), spec_decimal_places(exponent_kind)),
{
    let places = exponent_kind.decimal_places();
    let ghost d = spec_decimal_places(exponent_kind);
    let bytes: Vec<u8> = match price.kind() {
        PriceKind::Blank => Vec::new(),
        PriceKind::Market => {
            let mut v: Vec<u8> = Vec::new();
            v.push(0x2A);
            proof {
                assert(v@ =~= spec_price_bytes(price.spec_raw(), d));
            }
            v
        },
        PriceKind::Overflow => {
            let mut v: Vec<u8> = Vec::new();
            v.push(0x28);
            v.push(0x4F);
            v.push(0x56);
            v.push(0x45);
            v.push(0x52);
            v.push(0x29);
            proof {
                assert(v@ =~= spec_price_bytes(price.spec_raw(), d));
            }
            v
        },
        PriceKind::Underflow => {
            let mut v: Vec<u8> = Vec::new();
            v.push(0x28);
            v.push(0x55);
            v.push(0x4E);
            v.push(0x44);
            v.push(0x45);
            v.push(0x52);
            v.push(0x29);
            proof {
                assert(v@ =~= spec_price_bytes(price.spec_raw(), d));
            }
            v
        },
        PriceKind::Normal(v) => {
            let neg = v < 0;
            let mag: u64 = if v >= 0 {
                v as u64
            } else {
                (-(v as i64)) as u64
            };
            let e: u64 = match exponent_kind {
                ExponentKind::Decimal0 => 1,
                ExponentKind::Decimal1 => 10,
                ExponentKind::Decimal2 => 100,
                ExponentKind::Decimal3 => 1000,
                ExponentKind::Decimal4 => 10000,
                ExponentKind::Decimal5 => 100000,
                ExponentKind::Decimal6 => 1000000,
                ExponentKind::Decimal7 => 10000000,
                ExponentKind::Decimal8 => 100000000,
                ExponentKind::Decimal9 => 1000000000,
                ExponentKind::Fractional512 => 1,
            };
            proof {
                reveal_with_fuel(spec_pow10, 11);
                assert(e == spec_pow10(d));
            }
            let out = normal_price_bytes(neg, mag, e, places);
            proof {
                assert(out@ =~= spec_price_bytes(price.spec_raw(), d));
            }
            out
        },
    };
    proof {
        lemma_price_bytes_ascii(price.spec_raw(), d);
        lemma_ascii_bytes_valid(bytes@);
    }
    match crate::field::bytes_into_string(bytes) {
        Some(s) => {
            proof {
                decode_utf8_encode_utf8(spec_price_bytes(price.spec_raw(), d));
            }
            s
        },
        None => String::new(),
    }
}

/// The digits of a number are ASCII, hence below `0x80`.
proof fn lemma_udec_bytes_ascii(n: int)
    ensures
        forall|i: int|
            0 <= i < spec_udec_bytes(n).len() ==> #[trigger] spec_udec_bytes(n)[i] < 0x80,
        spec_udec_bytes(n).len() >= 1,
    decreases n,
{
    if n >= 10 {
        lemma_udec_bytes_ascii(n / 10);
    }
}

/// Zero padding is ASCII.
proof fn lemma_zero_bytes_ascii(k: int)
    ensures
        forall|i: int|
            0 <= i < spec_zero_bytes(k).len() ==> #[trigger] spec_zero_bytes(k)[i] < 0x80,
    decreases k,
{
    if k > 0 {
        lemma_zero_bytes_ascii(k - 1);
        assert forall|i: int| 0 <= i < spec_zero_bytes(k).len() implies #[trigger] spec_zero_bytes(
            k,
        )[i] < 0x80 by {
            if i > 0 {
                assert(spec_zero_bytes(k)[i] == spec_zero_bytes(k - 1)[i - 1]);
            }
        }
    }
}

/// A sequence of bytes all below `0x80` is valid UTF-8.
proof fn lemma_ascii_bytes_valid(bytes: Seq<u8>)
    requires
        forall|i: int| 0 <= i < bytes.len() ==> bytes[i] < 0x80,
    ensures
        valid_utf8(bytes),
{
    assert forall|i: int| 0 <= i < bytes.len() implies #[trigger] is_leading_byte_width_1(
        bytes[i],
    ) by {
        let b = bytes[i];
        assert(b & 0x80 == 0x00) by (bit_vector)
            requires
                b < 0x80,
        ;
    }
    assert(bytes.subrange(0, 0) =~= Seq::<u8>::empty());
    assert(partial_valid_utf8(bytes, 0));
    partial_valid_utf8_extend_ascii_block(bytes, 0, bytes.len() as int);
    assert(bytes.subrange(0, bytes.len() as int) =~= bytes);
}

/// Build the ASCII decimal digits of a number.
fn udec_bytes(n: u64) -> (r: Vec<u8>)
    ensures
        r@ == spec_udec_bytes(n as int),
    decreases n,
{
    if n < 10 {
        let mut v: Vec<u8> = Vec::new();
        v.push(0x30 + n as u8);
        assert(v@ =~= spec_udec_bytes(n as int));
        v
    } else {
        let mut v = udec_bytes(n / 10);
        v.push(0x30 + (n % 10) as u8);
        assert(v@ =~= spec_udec_bytes(n as int));
        v
    }
}

/// A zero run grows at either end alike.
proof fn lemma_zero_bytes_snoc(k: int)
    requires
        k >= 1,
    ensures
        spec_zero_bytes(k) =~= spec_zero_bytes(k - 1) + seq![0x30u8],
    decreases k,
{
    if k > 1 {
        lemma_zero_bytes_snoc(k - 1);
        assert(spec_zero_bytes(k) =~= seq![0x30u8] + spec_zero_bytes(k - 1));
    }
}

/// Append a run of ASCII zero digits.
fn push_zeros(v: &mut Vec<u8>, k: usize)
    ensures
        final(v)@ == old(v)@ + spec_zero_bytes(k as int),
{
    let mut i: usize = 0;
    while i < k
        invariant
            i <= k,
            v@ == old(v)@ + spec_zero_bytes(i as int),
        decreases k - i,
    {
        v.push(0x30);
        proof {
            lemma_zero_bytes_snoc(i + 1);
            assert(v@ =~= old(v)@ + spec_zero_bytes(i + 1));
        }
        i += 1;
    }
}

/// Assemble the decimal rendering of a normal price: the signed
/// mantissa, the point, and the zero-padded signed fraction.
#[verifier::rlimit(100)]
#[verifier::spinoff_prover]
fn normal_price_bytes(neg: bool, mag: u64, e: u64, places: u8) -> (r: Vec<u8>)
    requires
        e >= 1,
    ensures
        r@ == spec_idec_bytes(neg, mag as int / e as int) + seq![0x2Eu8] + spec_padded_bytes(
            neg,
            mag as int % e as int,
            places as int,
        ),
{
    let mant = mag / e;
    let dec = mag % e;
    let mut out = udec_bytes(mant);
    if neg && mant > 0 {
        let mut signed: Vec<u8> = Vec::new();
        signed.push(0x2D);
        let digits = out;
        let ghost dg = digits@;
        let mut j: usize = 0;
        while j < digits.len()
            invariant
                j <= dg.len(),
                digits@ == dg,
                signed@ == seq![0x2Du8] + dg.take(j as int),
            decreases dg.len() - j,
        {
            signed.push(digits[j]);
            assert(signed@ =~= seq![0x2Du8] + dg.take(j + 1));
            j += 1;
        }
        assert(signed@ =~= seq![0x2Du8] + dg);
        out = signed;
    }
    out.push(0x2E);
    let frac = udec_bytes(dec);
    let fraclen = frac.len();
    if neg && dec > 0 {
        out.push(0x2D);
        if (places as usize) > fraclen {
            let pad = places as usize - fraclen;
            if pad > 1 {
                push_zeros(&mut out, pad - 1);
            }
        }
    } else {
        if (places as usize) > fraclen {
            push_zeros(&mut out, places as usize - fraclen);
        }
    }
    let ghost before_digits = out@;
    let mut j: usize = 0;
    while j < frac.len()
        invariant
            j <= frac@.len(),
            out@ == before_digits + frac@.take(j as int),
        decreases frac@.len() - j,
    {
        let b = frac[j];
        out.push(b);
        assert(out@ =~= before_digits + frac@.take(j + 1));
        j += 1;
    }
    proof {
        assert(frac@.take(frac@.len() as int) =~= frac@);
        assert(spec_zero_bytes(0) =~= Seq::<u8>::empty());
        assert(out@ =~= spec_idec_bytes(neg, mag as int / e as int) + seq![0x2Eu8]
            + spec_padded_bytes(neg, mag as int % e as int, places as int));
    }
    out
}

/// Every byte a price renders to is ASCII.
proof fn lemma_price_bytes_ascii(raw: i32, places: int)
    ensures
        forall|i: int|
            0 <= i < spec_price_bytes(raw, places).len() ==> #[trigger] spec_price_bytes(
                raw,
                places,
            )[i] < 0x80,
{
    match spec_price_kind(raw) {
        PriceKind::Normal(v) => {
            let neg = v < 0;
            let mag = if v >= 0 {
                v as int
            } else {
                -(v as int)
            };
            let e = spec_pow10(places);
            lemma_udec_bytes_ascii(mag / e);
            lemma_udec_bytes_ascii(mag % e);
            lemma_zero_bytes_ascii(places - spec_udec_bytes(mag % e).len());
            lemma_zero_bytes_ascii(places - 1 - spec_udec_bytes(mag % e).len());
        },
        _ => {},
    }
}

} // verus!
