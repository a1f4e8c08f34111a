//! Payload encoding.
//!
//! Each reading is serialized to a human-readable line of ASCII bytes that
//! embeds both fields with one decimal of precision, e.g.
//! `Data: temperature=25.3 humidity=60.2`. The encoding of a fixed-point
//! tenths value is lossless: the digits printed around the decimal point
//! decode back to exactly the raw tenths value, which is what makes the
//! published number equal to `raw / 10` to full precision.

use vstd::prelude::*;
use vstd::string::StringSliceAdditionalSpecFns;
use crate::reading::Reading;
use crate::reading::SampleError;
use crate::reading::reading_of_sample;

verus! {

/// The ASCII decimal digits of `n`, most significant first, no leading zeros.
pub open spec fn dec_digits(n: nat) -> Seq<u8>
    decreases n,
{
    if n < 10 {
        seq![(n + 48) as u8]
    } else {
        dec_digits(n / 10).push(((n % 10) + 48) as u8)
    }
}

/// The number a string of ASCII digits denotes, most significant first.
pub open spec fn dec_value(s: Seq<u8>) -> int
    decreases s.len(),
{
    if s.len() == 0 {
        0
    } else {
        dec_value(s.drop_last()) * 10 + (s.last() - 48)
    }
}

/// Every byte of `dec_digits(n)` is an ASCII digit.
pub proof fn lemma_dec_digits_ascii(n: nat)
    ensures
        dec_digits(n).len() >= 1,
        forall|i: int| 0 <= i < dec_digits(n).len() ==> 48 <= #[trigger] dec_digits(n)[i] <= 57,
    decreases n,
{
    if n >= 10 {
        lemma_dec_digits_ascii(n / 10);
    }
}

/// Decimal encoding is lossless: the digits denote the number they were
/// produced from.
pub proof fn lemma_dec_digits_value(n: nat)
    ensures
        dec_value(dec_digits(n)) == n,
    decreases n,
{
    if n < 10 {
        assert(dec_digits(n).drop_last() =~= Seq::<u8>::empty());
        assert(dec_value(dec_digits(n)) == dec_value(Seq::<u8>::empty()) * 10 + ((n + 48) as u8 - 48));
    } else {
        lemma_dec_digits_value(n / 10);
        assert(dec_digits(n).drop_last() =~= dec_digits(n / 10));
        assert(n / 10 * 10 + n % 10 == n) by (nonlinear_arith);
        assert(dec_value(dec_digits(n)) == dec_value(dec_digits(n).drop_last()) * 10 + (dec_digits(n).last() - 48));
    }
}

/// The absolute value of a tenths count.
pub open spec fn magnitude(v: int) -> int {
    if v < 0 { -v } else { v }
}

/// A fixed-point tenths value rendered with one decimal: an optional minus
/// sign (byte 45), the whole part's digits, a point (byte 46), and the single
/// tenths digit.
pub open spec fn tenths_digits(v: int) -> Seq<u8> {
    let sign: Seq<u8> = if v < 0 { seq![45u8] } else { Seq::empty() };
    sign + dec_digits((magnitude(v) / 10) as nat).push(46u8).push(
        ((magnitude(v) % 10) + 48) as u8,
    )
}

/// Unit conversion is exact: reading the whole-part digits and the tenths
/// digit of `tenths_digits(v)` back as a number yields `magnitude(v)` itself,
/// and the sign byte is present exactly for negative values. The rendered
/// text therefore denotes `v / 10` to full one-decimal precision.
pub proof fn lemma_tenths_digits_exact(v: int)
    ensures
        ({
            let s = tenths_digits(v);
            let whole = if v < 0 {
                s.subrange(1, s.len() - 2)
            } else {
                s.subrange(0, s.len() - 2)
            };
            &&& dec_value(whole) * 10 + (s.last() - 48) == magnitude(v)
            &&& (v < 0 <==> s[0] == 45)
            &&& s[s.len() - 2] == 46
        }),
{
    let m = magnitude(v);
    let w = (m / 10) as nat;
    lemma_dec_digits_value(w);
    lemma_dec_digits_ascii(w);
    let s = tenths_digits(v);
    let whole = if v < 0 { s.subrange(1, s.len() - 2) } else { s.subrange(0, s.len() - 2) };
    assert(whole =~= dec_digits(w));
    assert(m / 10 * 10 + m % 10 == m) by (nonlinear_arith);
}

/// Appends the decimal digits of `n`, most significant first.
fn push_decimal(out: &mut Vec<u8>, n: u16)
    ensures
        final(out)@ == old(out)@ + dec_digits(n as nat),
    decreases n,
{
    if n >= 10 {
        push_decimal(out, n / 10);
    }
    out.push(48 + (n % 10) as u8);
    proof {
        assert(out@ =~= old(out)@ + dec_digits(n as nat));
    }
}

/// Appends an unsigned tenths value as `whole.tenth`.
fn push_tenths_unsigned(out: &mut Vec<u8>, v: u16)
    ensures
        final(out)@ == old(out)@ + tenths_digits(v as int),
{
    push_decimal(out, v / 10);
    out.push(46);
    out.push(48 + (v % 10) as u8);
    proof {
        assert(out@ =~= old(out)@ + tenths_digits(v as int));
    }
}

/// Appends a signed tenths value: a minus sign when negative, then the
/// magnitude as `whole.tenth`.
fn push_tenths_signed(out: &mut Vec<u8>, v: i16)
    ensures
        final(out)@ == old(out)@ + tenths_digits(v as int),
{
    let mag: u16 = if v < 0 {
        out.push(45);
        (-(v as i32)) as u16
    } else {
        v as u16
    };
    push_decimal(out, mag / 10);
    out.push(46);
    out.push(48 + (mag % 10) as u8);
    proof {
        assert(mag == magnitude(v as int));
        assert(out@ =~= old(out)@ + tenths_digits(v as int));
    }
}

/// Appends the bytes of a literal.
fn push_literal(out: &mut Vec<u8>, s: &str)
    ensures
        final(out)@ == old(out)@ + s.spec_bytes(),
{
    let b = s.as_bytes();
    let mut i: usize = 0;
    while i < b.len()
        invariant
            i <= b@.len(),
            b@ == s.spec_bytes(),
            out@ == old(out)@ + b@.subrange(0, i as int),
        decreases b@.len() - i,
    {
        out.push(b[i]);
        proof {
            assert(out@ =~= old(out)@ + b@.subrange(0, i + 1));
        }
        i = i + 1;
    }
    proof {
        assert(b@.subrange(0, b@.len() as int) =~= b@);
    }
}

/// The full payload published for one reading.
pub open spec fn payload_spec(r: Reading) -> Seq<u8> {
    "Data: temperature=".spec_bytes() + tenths_digits(r.temperature_tenths as int)
        + " humidity=".spec_bytes() + tenths_digits(r.humidity_tenths as int)
}

/// Serializes a reading into the text payload handed to every publish call.
pub fn encode_reading(r: &Reading) -> (p: Vec<u8>)
    ensures
        p@ == payload_spec(*r),
{
    let mut out: Vec<u8> = Vec::new();
    push_literal(&mut out, "Data: temperature=");
    push_tenths_signed(&mut out, r.temperature_tenths);
    push_literal(&mut out, " humidity=");
    push_tenths_unsigned(&mut out, r.humidity_tenths);
    proof {
        assert(out@ =~= payload_spec(*r));
    }
    out
}

/// The documented fallback ambiguity: a failed sample (whatever its cause)
/// and a genuine all-zero measurement publish byte-identical payloads.
pub proof fn lemma_fallback_payload_ambiguous(e: SampleError)
    ensures
        payload_spec(reading_of_sample(Err(e))) == payload_spec(reading_of_sample(Ok((0, 0)))),
{
}

} // verus!
