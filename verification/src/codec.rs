//! The line-oriented wire format: one metric facet per line,
//! `<prefix>.<name>[.<facet>] <value> <timestamp>\n`, all values rendered
//! as decimal numbers, fixed-point values with six fractional digits.

use vstd::prelude::*;
use vstd::string::StringSliceAdditionalSpecFns;
use crate::SCALE;

verus! {

pub const DOT: u8 = 46;

pub const SPACE: u8 = 32;

pub const NEWLINE: u8 = 10;

pub const MINUS: u8 = 45;

pub const DIGIT_ZERO: u8 = 48;

/// The shortest decimal rendering of a non-negative integer.
pub open spec fn dec_digits(n: nat) -> Seq<u8>
    decreases n,
{
    if n < 10 {
        seq![(DIGIT_ZERO + n) as u8]
    } else {
        dec_digits(n / 10).push((DIGIT_ZERO + n % 10) as u8)
    }
}

/// The decimal rendering of an integer, with a leading minus sign when
/// negative.
pub open spec fn dec_int(v: int) -> Seq<u8> {
    if v >= 0 {
        dec_digits(v as nat)
    } else {
        seq![MINUS] + dec_digits((-v) as nat)
    }
}

/// The last `k` decimal digits of `n`, zero-padded to exactly `k` places.
pub open spec fn padded_digits(n: nat, k: nat) -> Seq<u8>
    decreases k,
{
    if k == 0 {
        Seq::empty()
    } else {
        padded_digits(n / 10, (k - 1) as nat).push((DIGIT_ZERO + n % 10) as u8)
    }
}

/// The decimal rendering of a fixed-point parts-per-million value:
/// the whole part, a dot, and exactly six fractional digits.
pub open spec fn dec_scaled(v: nat) -> Seq<u8> {
    dec_digits(v / (SCALE as nat)) + seq![DOT] + padded_digits(v % (SCALE as nat), 6)
}

/// One protocol line: dotted path, space, value, space, whole-second
/// timestamp, newline. The facet segment is omitted when the facet name is
/// empty (single-valued metrics carry no facet).
pub open spec fn line_spec(
    prefix: Seq<u8>,
    name: Seq<u8>,
    facet: Seq<u8>,
    value: Seq<u8>,
    timestamp: nat,
) -> Seq<u8> {
    prefix + seq![DOT] + name + (if facet.len() == 0 {
        Seq::<u8>::empty()
    } else {
        seq![DOT] + facet
    }) + seq![SPACE] + value + seq![SPACE] + dec_digits(timestamp) + seq![NEWLINE]
}

/// Append the bytes of `bs` to `out`.
pub fn push_bytes(out: &mut Vec<u8>, bs: &[u8])
    ensures
        final(out)@ == old(out)@ + bs@,
{
    let n = bs.len();
    let mut i: usize = 0;
    while i < n
        invariant
            n == bs@.len(),
            i <= n,
            out@ == old(out)@ + bs@.take(i as int),
        decreases n - i,
    {
        out.push(bs[i]);
        assert(old(out)@ + bs@.take(i as int) + seq![bs@[i as int]] =~= old(out)@ + bs@.take(
            i as int + 1,
        ));
        i = i + 1;
    }
    assert(bs@.take(n as int) =~= bs@);
}

/// Append the decimal digits of `n`.
pub fn push_decimal_u128(out: &mut Vec<u8>, n: u128)
    ensures
        final(out)@ == old(out)@ + dec_digits(n as nat),
    decreases n,
{
    if n < 10 {
        out.push(DIGIT_ZERO + n as u8);
        assert(old(out)@.push((DIGIT_ZERO + n) as u8) =~= old(out)@ + dec_digits(n as nat));
    } else {
        push_decimal_u128(out, n / 10);
        out.push(DIGIT_ZERO + (n % 10) as u8);
        assert((old(out)@ + dec_digits((n / 10) as nat)).push((DIGIT_ZERO + n % 10) as u8)
            =~= old(out)@ + dec_digits(n as nat));
    }
}

/// Append the decimal rendering of `v`, minus sign included when negative.
pub fn push_decimal_i64(out: &mut Vec<u8>, v: i64)
    ensures
        final(out)@ == old(out)@ + dec_int(v as int),
{
    if v >= 0 {
        push_decimal_u128(out, v as u128);
    } else {
        out.push(MINUS);
        let magnitude: u128 = (-(v as i128)) as u128;
        push_decimal_u128(out, magnitude);
        assert(old(out)@.push(MINUS) + dec_digits(magnitude as nat) =~= old(out)@ + dec_int(
            v as int,
        ));
    }
}

/// Append exactly `k` decimal digits of `n`, zero-padded.
pub fn push_padded(out: &mut Vec<u8>, n: u128, k: u64)
    ensures
        final(out)@ == old(out)@ + padded_digits(n as nat, k as nat),
    decreases k,
{
    if k == 0 {
        assert(old(out)@ + padded_digits(n as nat, 0) =~= old(out)@);
    } else {
        push_padded(out, n / 10, k - 1);
        out.push(DIGIT_ZERO + (n % 10) as u8);
        assert((old(out)@ + padded_digits((n / 10) as nat, (k - 1) as nat)).push(
            (DIGIT_ZERO + n % 10) as u8,
        ) =~= old(out)@ + padded_digits(n as nat, k as nat));
    }
}

/// Append the fixed-point rendering of a parts-per-million value.
pub fn push_decimal_scaled(out: &mut Vec<u8>, v: u128)
    ensures
        final(out)@ == old(out)@ + dec_scaled(v as nat),
{
    push_decimal_u128(out, v / (SCALE as u128));
    out.push(DOT);
    push_padded(out, v % (SCALE as u128), 6);
    assert(old(out)@ + dec_digits((v / (SCALE as u128)) as nat) + seq![DOT] + padded_digits(
        (v % (SCALE as u128)) as nat,
        6,
    ) =~= old(out)@ + dec_scaled(v as nat));
}

/// Encode one line whose value is an integer, over byte strings.
pub fn encode_line_bytes(
    prefix: &[u8],
    name: &[u8],
    facet: &[u8],
    value: i64,
    timestamp: u64,
) -> (line: Vec<u8>)
    ensures
        line@ == line_spec(prefix@, name@, facet@, dec_int(value as int), timestamp as nat),
{
    let mut line: Vec<u8> = Vec::new();
    push_path(&mut line, prefix, name, facet);
    line.push(SPACE);
    push_decimal_i64(&mut line, value);
    line.push(SPACE);
    push_decimal_u128(&mut line, timestamp as u128);
    line.push(NEWLINE);
    assert(line@ =~= line_spec(prefix@, name@, facet@, dec_int(value as int), timestamp as nat));
    line
}

/// Encode one line whose value is a fixed-point parts-per-million figure.
pub fn encode_line_scaled_bytes(
    prefix: &[u8],
    name: &[u8],
    facet: &[u8],
    value_ppm: u128,
    timestamp: u64,
) -> (line: Vec<u8>)
    ensures
        line@ == line_spec(prefix@, name@, facet@, dec_scaled(value_ppm as nat), timestamp as nat),
{
    let mut line: Vec<u8> = Vec::new();
    push_path(&mut line, prefix, name, facet);
    line.push(SPACE);
    push_decimal_scaled(&mut line, value_ppm);
    line.push(SPACE);
    push_decimal_u128(&mut line, timestamp as u128);
    line.push(NEWLINE);
    assert(line@ =~= line_spec(
        prefix@,
        name@,
        facet@,
        dec_scaled(value_ppm as nat),
        timestamp as nat,
    ));
    line
}

/// Append the dotted metric path, omitting the facet segment when the
/// facet name is empty.
fn push_path(out: &mut Vec<u8>, prefix: &[u8], name: &[u8], facet: &[u8])
    ensures
        final(out)@ == old(out)@ + prefix@ + seq![DOT] + name@ + (if facet@.len() == 0 {
            Seq::<u8>::empty()
        } else {
            seq![DOT] + facet@
        }),
{
    push_bytes(out, prefix);
    out.push(DOT);
    push_bytes(out, name);
    if facet.len() > 0 {
        out.push(DOT);
        push_bytes(out, facet);
        assert(old(out)@ + prefix@ + seq![DOT] + name@ + seq![DOT] + facet@ =~= old(out)@ + prefix@
            + seq![DOT] + name@ + (seq![DOT] + facet@));
    } else {
        assert(old(out)@ + prefix@ + seq![DOT] + name@ + Seq::<u8>::empty() =~= old(out)@ + prefix@
            + seq![DOT] + name@);
    }
}

/// Encode one line whose value is an integer. The empty facet marks a
/// single-valued metric: its path is just `prefix.name`.
pub fn encode_line(
    prefix: &str,
    name: &str,
    facet: &str,
    value: i64,
    timestamp: u64,
) -> (line: Vec<u8>)
    ensures
        line@ == line_spec(
            prefix.spec_bytes(),
            name.spec_bytes(),
            facet.spec_bytes(),
            dec_int(value as int),
            timestamp as nat,
        ),
{
    encode_line_bytes(prefix.as_bytes(), name.as_bytes(), facet.as_bytes(), value, timestamp)
}

} // verus!
