//! Human-readable sizes, rates and the closing statistics of a transfer.

use crate::text::{decimal, fixed2, hundredths, push_decimal, push_fixed2};
use vstd::prelude::*;

verus! {

/// The text of a size in bytes: with two decimals in GB, MB or KB from 10^9,
/// 10^6 and 10^3 bytes up, else whole bytes.
pub open spec fn size_text(bytes: nat) -> Seq<char> {
    if bytes >= 1_000_000_000 {
        fixed2(hundredths(bytes, 1_000_000_000)) + " GB"@
    } else if bytes >= 1_000_000 {
        fixed2(hundredths(bytes, 1_000_000)) + " MB"@
    } else if bytes >= 1_000 {
        fixed2(hundredths(bytes, 1_000)) + " KB"@
    } else {
        decimal(bytes) + " B"@
    }
}

/// The text of the rate of `bytes` moved in `millis` milliseconds, with two
/// decimals, in GB/s, MB/s or KB/s from 10^9, 10^6 and 10^3 bytes a second up,
/// else in B/s.
pub open spec fn speed_text(bytes: nat, millis: nat) -> Seq<char> {
    let per_sec = bytes * 1000;
    if per_sec >= 1_000_000_000 * millis {
        fixed2(hundredths(per_sec, 1_000_000_000 * millis)) + " GB/s"@
    } else if per_sec >= 1_000_000 * millis {
        fixed2(hundredths(per_sec, 1_000_000 * millis)) + " MB/s"@
    } else if per_sec >= 1_000 * millis {
        fixed2(hundredths(per_sec, 1_000 * millis)) + " KB/s"@
    } else {
        fixed2(hundredths(per_sec, millis)) + " B/s"@
    }
}

fn push_scaled(s: &mut String, num: u128, den: u128)
    requires
        den > 0,
        num < 0x1_0000_0000_0000_0000_0000_0000,
        den < 0x1_0000_0000_0000_0000_0000_0000,
    ensures
        final(s)@ == old(s)@ + fixed2(hundredths(num as nat, den as nat)),
{
    push_fixed2(s, (200 * num + den) / (2 * den));
}

/// Appends the text of the size `bytes` to `s`.
pub fn push_size(s: &mut String, bytes: u64)
    ensures
        final(s)@ == old(s)@ + size_text(bytes as nat),
{
    let b = bytes as u128;
    if b >= 1_000_000_000 {
        push_scaled(s, b, 1_000_000_000);
        s.append(" GB");
    } else if b >= 1_000_000 {
        push_scaled(s, b, 1_000_000);
        s.append(" MB");
    } else if b >= 1_000 {
        push_scaled(s, b, 1_000);
        s.append(" KB");
    } else {
        push_decimal(s, b);
        s.append(" B");
    }
    assert(s@ =~= old(s)@ + size_text(bytes as nat));
}

/// The size `bytes` as text, e.g. `1.05 MB` or `999 B`.
pub fn format_size(bytes: usize) -> (r: String)
    ensures
        r@ == size_text(bytes as nat),
{
    let mut s = String::new();
    push_size(&mut s, bytes as u64);
    assert(s@ =~= size_text(bytes as nat));
    s
}

/// The average rate of `bytes` moved in `millis` milliseconds as text, e.g.
/// `12.50 MB/s`.
pub fn format_speed(bytes: u64, millis: u64) -> (r: String)
    requires
        millis > 0,
    ensures
        r@ == speed_text(bytes as nat, millis as nat),
{
    let per_sec = bytes as u128 * 1000;
    let ms = millis as u128;
    let mut s = String::new();
    if per_sec >= 1_000_000_000 * ms {
        push_scaled(&mut s, per_sec, 1_000_000_000 * ms);
        s.append(" GB/s");
    } else if per_sec >= 1_000_000 * ms {
        push_scaled(&mut s, per_sec, 1_000_000 * ms);
        s.append(" MB/s");
    } else if per_sec >= 1_000 * ms {
        push_scaled(&mut s, per_sec, 1_000 * ms);
        s.append(" KB/s");
    } else {
        push_scaled(&mut s, per_sec, ms);
        s.append(" B/s");
    }
    assert(s@ =~= speed_text(bytes as nat, millis as nat));
    s
}

} // verus!
