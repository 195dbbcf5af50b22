//! Rendering unsigned integers as decimal text in the byte buffer.

use vstd::prelude::*;

use crate::CAP_LIMIT;
use crate::const_string::{is_ascii_bytes, ConstString};

verus! {

/// The decimal digits of `n`, most significant first, as ASCII bytes.
/// Zero has no digits: digits are produced only while the remaining value
/// is positive, so rendering zero appends nothing.
pub open spec fn dec_digits(n: nat) -> Seq<u8>
    decreases n,
{
    if n == 0 {
        seq![]
    } else {
        dec_digits(n / 10).push((0x30 + n % 10) as u8)
    }
}

/// Ten to the `k`.
pub open spec fn pow10(k: nat) -> nat
    decreases k,
{
    if k == 0 {
        1
    } else {
        10 * pow10((k - 1) as nat)
    }
}

/// Decimal digits are ASCII.
pub proof fn lemma_dec_digits_ascii(n: nat)
    ensures
        is_ascii_bytes(dec_digits(n)),
    decreases n,
{
    if n > 0 {
        lemma_dec_digits_ascii(n / 10);
    }
}

/// A value below `pow10(k)` has at most `k` decimal digits.
proof fn lemma_dec_digits_len_pow(n: nat, k: nat)
    requires
        n < pow10(k),
    ensures
        dec_digits(n).len() <= k,
    decreases k,
{
    if n > 0 {
        lemma_dec_digits_len_pow(n / 10, (k - 1) as nat);
    }
}

/// A 64-bit value has at most twenty decimal digits.
pub proof fn lemma_dec_digits_len(n: u64)
    ensures
        dec_digits(n as nat).len() <= 20,
{
    assert(pow10(20) == 0x56bc75e2d63100000) by {
        reveal_with_fuel(pow10, 21);
    }
    lemma_dec_digits_len_pow(n as nat, 20);
}

/// Counts the decimal digits of `n` by repeated division.
fn count_digits(n: u64) -> (r: usize)
    ensures
        r == dec_digits(n as nat).len(),
        r <= 20,
{
    proof {
        lemma_dec_digits_len(n);
    }
    let mut c: u64 = n;
    let mut d: usize = 0;
    while c > 0
        invariant
            d + dec_digits(c as nat).len() == dec_digits(n as nat).len(),
            dec_digits(n as nat).len() <= 20,
        decreases c,
    {
        c = c / 10;
        d = d + 1;
    }
    d
}

/// Appends the decimal rendering of `n` to the buffer: capacity for the
/// digit count is reserved up front, then the digits are extracted by
/// repeated division and remainder by ten and appended most significant
/// first.
pub fn fmt_u64(buf: &mut ConstString, n: u64)
    requires
        old(buf).wf(),
        old(buf)@.len() + dec_digits(n as nat).len() <= CAP_LIMIT,
    ensures
        final(buf).wf(),
        final(buf)@ == old(buf)@ + dec_digits(n as nat),
{
    let digits = count_digits(n);
    buf.reserve(digits);
    fmt_digits(buf, n);
}

/// Appends the digits of `n`, recursing on the leading digits so that the
/// most significant comes first.
fn fmt_digits(buf: &mut ConstString, n: u64)
    requires
        old(buf).wf(),
        old(buf)@.len() + dec_digits(n as nat).len() <= CAP_LIMIT,
    ensures
        final(buf).wf(),
        final(buf)@ == old(buf)@ + dec_digits(n as nat),
    decreases n,
{
    if n > 0 {
        fmt_digits(buf, n / 10);
        buf.push_ascii((48 + n % 10) as u8);
        proof {
            assert(buf@ =~= old(buf)@ + dec_digits(n as nat));
        }
    } else {
        proof {
            assert(buf@ =~= old(buf)@ + dec_digits(n as nat));
        }
    }
}

} // verus!
