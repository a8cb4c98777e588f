//! Human-readable byte counts for progress messages.

use crate::text::{decimal, digit_char, push_decimal};
use vstd::prelude::*;
use vstd::string::*;

verus! {

/// `n / unit` expressed in tenths and rounded to the nearest tenth; a value
/// exactly halfway between two tenths goes to the even one.
pub open spec fn rounded_tenths(n: nat, unit: nat) -> nat
    recommends
        unit > 0,
{
    let q = (n * 10) / unit;
    let r = (n * 10) % unit;
    if 2 * r > unit || (2 * r == unit && q % 2 == 1) {
        q + 1
    } else {
        q
    }
}

/// A number of tenths written with exactly one digit after the point.
pub open spec fn one_decimal(tenths: nat) -> Seq<char> {
    decimal(tenths / 10) + seq!['.'] + seq![digit_char(tenths % 10)]
}

/// The text that stands for a size of `bytes` bytes: plain bytes below one
/// kibibyte, kibibytes with one decimal below one mebibyte, mebibytes with one
/// decimal from there on.
pub open spec fn size_text(bytes: nat) -> Seq<char> {
    if bytes < 1024 {
        decimal(bytes) + " B"@
    } else if bytes < 1024 * 1024 {
        one_decimal(rounded_tenths(bytes, 1024)) + " KB"@
    } else {
        one_decimal(rounded_tenths(bytes, 1024 * 1024)) + " MB"@
    }
}

fn tenths_of(n: u64, unit: u64) -> (t: u64)
    requires
        1024 <= unit <= 1024 * 1024,
        n >= unit,
    ensures
        t == rounded_tenths(n as nat, unit as nat),
{
    let scaled: u128 = (n as u128) * 10;
    let wide: u128 = unit as u128;
    let q: u128 = scaled / wide;
    let r: u128 = scaled % wide;
    assert(q <= scaled / 1024) by (nonlinear_arith)
        requires
            q == scaled / wide,
            wide >= 1024,
            scaled >= 0,
    ;
    if 2 * r > wide || (2 * r == wide && q % 2 == 1) {
        (q + 1) as u64
    } else {
        q as u64
    }
}

fn push_one_decimal(out: &mut String, tenths: u64)
    ensures
        final(out)@ == old(out)@ + one_decimal(tenths as nat),
{
    push_decimal(out, tenths / 10);
    out.push('.');
    push_decimal(out, tenths % 10);
    assert(decimal((tenths % 10) as nat) == seq![digit_char((tenths % 10) as nat)]);
    assert(final(out)@ =~= old(out)@ + one_decimal(tenths as nat));
}

/// Appends the human-readable form of `bytes` to `out`.
pub fn push_size(out: &mut String, bytes: u64)
    ensures
        final(out)@ == old(out)@ + size_text(bytes as nat),
{
    if bytes < 1024 {
        push_decimal(out, bytes);
        out.append(" B");
    } else if bytes < 1024 * 1024 {
        push_one_decimal(out, tenths_of(bytes, 1024));
        out.append(" KB");
    } else {
        push_one_decimal(out, tenths_of(bytes, 1024 * 1024));
        out.append(" MB");
    }
    assert(final(out)@ =~= old(out)@ + size_text(bytes as nat));
}

/// Formats a byte count for people: `"512 B"`, `"1.5 KB"`, `"20.0 MB"`.
pub fn format_size(bytes: u64) -> (s: String)
    ensures
        s@ == size_text(bytes as nat),
{
    let mut s = String::new();
    push_size(&mut s, bytes);
    assert(Seq::<char>::empty() + size_text(bytes as nat) =~= size_text(bytes as nat));
    s
}

} // verus!
