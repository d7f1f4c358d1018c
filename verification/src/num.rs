//! Exact decimal numbers for the sampling controls of a request.
//!
//! The endpoint takes sampling controls (temperature, penalties, top_p) as
//! JSON numbers. This crate represents such a value exactly, as an optional
//! sign, an integer mantissa and a decimal scale: the value is
//! `mantissa / 10^scale`, negated when `neg` is set. `spec_number` gives the
//! byte sequence the value takes on the wire.

use vstd::prelude::*;

verus! {

/// An exact decimal value: `mantissa / 10^scale`, negated when `neg` holds.
#[derive(Clone, Copy, Debug, PartialEq, Eq, Structural)]
pub struct Number {
    pub neg: bool,
    pub mantissa: u64,
    pub scale: u32,
}

impl Number {
    /// A representation this crate renders: a bounded scale, and no
    /// negative zero.
    pub open spec fn wf(self) -> bool {
        self.scale <= 9 && (self.neg ==> self.mantissa > 0)
    }

    /// The whole number `value`.
    pub fn whole(value: u64) -> (r: Number)
        ensures
            r == (Number { neg: false, mantissa: value, scale: 0 }),
            r.wf(),
    {
        Number { neg: false, mantissa: value, scale: 0 }
    }

    /// The value `mantissa / 10^scale`, negated when `neg` holds.
    pub fn scaled(neg: bool, mantissa: u64, scale: u32) -> (r: Number)
        requires
            scale <= 9,
            neg ==> mantissa > 0,
        ensures
            r == (Number { neg, mantissa, scale }),
            r.wf(),
    {
        Number { neg, mantissa, scale }
    }
}

/// The wire byte for the decimal digit `d`.
pub open spec fn spec_digit(d: nat) -> u8
    recommends
        d < 10,
{
    (48 + d) as u8
}

/// The decimal digits of `n`, most significant first, no leading zeros
/// (a lone zero for `n == 0`).
pub open spec fn spec_dec_digits(n: nat) -> Seq<u8>
    decreases n,
{
    if n < 10 {
        seq![spec_digit(n)]
    } else {
        spec_dec_digits(n / 10) + seq![spec_digit(n % 10)]
    }
}

/// The low-order `width` decimal digits of `n`, zero-padded on the left.
pub open spec fn spec_frac_digits(n: nat, width: nat) -> Seq<u8>
    decreases width,
{
    if width == 0 {
        Seq::empty()
    } else {
        spec_frac_digits(n / 10, (width - 1) as nat) + seq![spec_digit(n % 10)]
    }
}

/// `10^k`.
pub open spec fn spec_pow10(k: nat) -> nat
    decreases k,
{
    if k == 0 {
        1
    } else {
        10 * spec_pow10((k - 1) as nat)
    }
}

/// The wire bytes of the decimal `d`: sign, integer part, and for a
/// positive scale a point followed by exactly `scale` fractional digits.
pub open spec fn spec_number(d: Number) -> Seq<u8> {
    let sign: Seq<u8> = if d.neg {
        seq![45u8]
    } else {
        Seq::empty()
    };
    let whole = spec_dec_digits(d.mantissa as nat / spec_pow10(d.scale as nat));
    if d.scale == 0 {
        sign + whole
    } else {
        sign + whole + seq![46u8] + spec_frac_digits(
            d.mantissa as nat % spec_pow10(d.scale as nat),
            d.scale as nat,
        )
    }
}

/// A power of ten is positive.
pub proof fn lemma_pow10_pos(k: nat)
    ensures
        spec_pow10(k) >= 1,
    decreases k,
{
    if k > 0 {
        lemma_pow10_pos((k - 1) as nat);
    }
}

/// `10^k` as a machine integer, for the scales this crate renders.
pub fn pow10(k: u32) -> (r: u64)
    requires
        k <= 9,
    ensures
        r == spec_pow10(k as nat),
{
    proof {
        reveal_with_fuel(spec_pow10, 11);
    }
    match k {
        0 => 1,
        1 => 10,
        2 => 100,
        3 => 1000,
        4 => 10000,
        5 => 100000,
        6 => 1000000,
        7 => 10000000,
        8 => 100000000,
        _ => 1000000000,
    }
}

/// Appends the decimal digits of `n` to `out`.
pub fn push_u64_digits(out: &mut Vec<u8>, n: u64)
    ensures
        final(out)@ == old(out)@ + spec_dec_digits(n as nat),
    decreases n,
{
    if n < 10 {
        out.push(48 + n as u8);
        assert(out@ =~= old(out)@ + spec_dec_digits(n as nat));
    } else {
        push_u64_digits(out, n / 10);
        out.push(48 + (n % 10) as u8);
        assert(out@ =~= old(out)@ + spec_dec_digits(n as nat));
    }
}

/// Appends the low-order `width` decimal digits of `n`, zero-padded.
pub fn push_frac_digits(out: &mut Vec<u8>, n: u64, width: u32)
    ensures
        final(out)@ == old(out)@ + spec_frac_digits(n as nat, width as nat),
    decreases width,
{
    if width > 0 {
        push_frac_digits(out, n / 10, width - 1);
        out.push(48 + (n % 10) as u8);
        assert(out@ =~= old(out)@ + spec_frac_digits(n as nat, width as nat));
    }
}

/// Appends the wire bytes of the decimal `d` to `out`.
pub fn push_number(out: &mut Vec<u8>, d: Number)
    requires
        d.wf(),
    ensures
        final(out)@ == old(out)@ + spec_number(d),
{
    proof {
        lemma_pow10_pos(d.scale as nat);
    }
    if d.neg {
        out.push(45);
    }
    let p = pow10(d.scale);
    push_u64_digits(out, d.mantissa / p);
    if d.scale > 0 {
        out.push(46);
        push_frac_digits(out, d.mantissa % p, d.scale);
    }
    assert(out@ =~= old(out)@ + spec_number(d));
}

/// The wire bytes of the signed integer `v`.
pub open spec fn spec_i64_digits(v: int) -> Seq<u8> {
    if v < 0 {
        seq![45u8] + spec_dec_digits((-v) as nat)
    } else {
        spec_dec_digits(v as nat)
    }
}

/// Appends the wire bytes of the signed integer `v` to `out`.
pub fn push_i32_digits(out: &mut Vec<u8>, v: i32)
    ensures
        final(out)@ == old(out)@ + spec_i64_digits(v as int),
{
    if v < 0 {
        out.push(45);
        let m: u64 = (-(v as i64)) as u64;
        push_u64_digits(out, m);
        assert(out@ =~= old(out)@ + spec_i64_digits(v as int));
    } else {
        push_u64_digits(out, v as u64);
    }
}

} // verus!
