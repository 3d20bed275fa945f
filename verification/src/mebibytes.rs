//! Byte counts as mebibytes with one decimal.
//!
//! The text is the one that a double-precision division by 1048576, printed with one decimal,
//! gives: the count is first rounded to the nearest double, the quotient is exact, and the
//! printed value is the nearest multiple of a tenth. Ties go to the even neighbour both times.
use vstd::prelude::*;
use vstd::arithmetic::div_mod::{lemma_fundamental_div_mod, lemma_mod_multiples_basic};
use vstd::arithmetic::power2::{lemma2_to64, lemma_pow2_unfold, pow2};

use crate::text::string_of;

verus! {

/// The bytes in a mebibyte.
pub const MEBIBYTE: u128 = 0x10_0000;

/// Whole numbers below this are doubles.
pub const DOUBLE_EXACT: u128 = 0x20_0000_0000_0000;

/// The whole number nearest to `n / d`, the even one of two that are equally near.
pub open spec fn nearest(n: nat, d: nat) -> nat {
    let floor = n / d;
    let rest = n % d;
    if 2 * rest < d || (2 * rest == d && floor % 2 == 0) {
        floor
    } else {
        floor + 1
    }
}

/// The distance between doubles around the whole number `n`, or `1` where every whole number
/// is a double.
pub open spec fn double_spacing(n: nat) -> nat
    decreases n,
{
    if n < DOUBLE_EXACT {
        1
    } else {
        2 * double_spacing(n / 2)
    }
}

/// The double nearest to the whole number `n`, which is a whole number.
pub open spec fn nearest_double(n: nat) -> nat {
    nearest(n, double_spacing(n)) * double_spacing(n)
}

/// The tenths of a mebibyte that are shown for `n` bytes.
pub open spec fn shown_tenths(n: nat) -> nat {
    nearest(10 * nearest_double(n), MEBIBYTE as nat)
}

/// The character for a number below ten.
pub open spec fn digit(n: nat) -> char {
    (48 + n) as char
}

/// A number in decimal, without leading zeros.
pub open spec fn decimal(n: nat) -> Seq<char>
    decreases n,
{
    if n < 10 {
        seq![digit(n)]
    } else {
        decimal(n / 10).push(digit(n % 10))
    }
}

/// The text for `n` bytes: mebibytes with one decimal.
pub open spec fn mebibytes(n: nat) -> Seq<char> {
    decimal(shown_tenths(n) / 10) + seq!['.', digit(shown_tenths(n) % 10)]
}

/// The whole number nearest to `n / d`, the even one of two that are equally near.
fn round_div(n: u128, d: u128) -> (q: u128)
    requires
        d > 0,
        n <= 0xFFFF_FFFF_FFFF_FFFF_FFFF,
        d <= 0xFFFF_FFFF_FFFF_FFFF_FFFF,
    ensures
        q == nearest(n as nat, d as nat),
{
    let floor: u128 = n / d;
    let rest: u128 = n % d;
    assert(rest < d) by (nonlinear_arith)
        requires
            d > 0,
            rest == n % d,
    ;
    assert(floor <= n) by (nonlinear_arith)
        requires
            d > 0,
            floor == n / d,
    ;
    if 2 * rest < d || (2 * rest == d && floor % 2 == 0) {
        floor
    } else {
        floor + 1
    }
}

/// The distance between doubles around `n`.
fn spacing(n: u128) -> (s: u128)
    requires
        n <= u64::MAX,
    ensures
        s == double_spacing(n as nat),
        0 < s,
        s == 1 || s * 0x10_0000_0000_0000 <= n,
{
    let mut rest: u128 = n;
    let mut s: u128 = 1;
    while rest >= DOUBLE_EXACT
        invariant
            0 < s,
            s * rest <= n <= u64::MAX,
            s == 1 || rest >= 0x10_0000_0000_0000,
            s * double_spacing(rest as nat) == double_spacing(n as nat),
        decreases rest,
    {
        let ghost half = (rest / 2) as int;
        assert(2 * s * half <= s * rest) by (nonlinear_arith)
            requires
                0 < s,
                2 * half <= rest,
        ;
        assert(s <= s * rest) by (nonlinear_arith)
            requires
                0 < s,
                rest >= 1,
        ;
        assert((2 * s) * double_spacing(half as nat) == s * (2 * double_spacing(half as nat)))
            by (nonlinear_arith);
        s = 2 * s;
        rest = rest / 2;
    }
    assert(s * 0x10_0000_0000_0000 <= s * rest || s == 1) by (nonlinear_arith)
        requires
            0 < s,
            s == 1 || rest >= 0x10_0000_0000_0000,
    ;
    assert(s * 1 == s);
    s
}

/// The text of a number in decimal.
pub fn decimal_text(n: u128) -> (text: String)
    ensures
        text@ == decimal(n as nat),
{
    let mut reversed: Vec<char> = Vec::new();
    let mut rest: u128 = n;
    while rest >= 10
        invariant
            decimal(n as nat) == decimal(rest as nat) + reversed@.reverse(),
        decreases rest,
    {
        let ghost before = reversed@;
        reversed.push((48 + (rest % 10) as u8) as char);
        assert(reversed@.reverse() == seq![digit((rest % 10) as nat)] + before.reverse());
        assert(decimal(rest as nat) + before.reverse() == decimal((rest / 10) as nat)
            + reversed@.reverse());
        rest = rest / 10;
    }
    reversed.push((48 + rest as u8) as char);
    let mut chars: Vec<char> = Vec::new();
    let mut k: usize = reversed.len();
    while k > 0
        invariant
            k <= reversed.len(),
            chars@ == reversed@.reverse().take(reversed.len() - k),
        decreases k,
    {
        k -= 1;
        chars.push(reversed[k]);
    }
    assert(chars@ == decimal(n as nat));
    string_of(chars.as_slice())
}

/// The text for `bytes` bytes: mebibytes with one decimal.
pub fn mebibytes_text(bytes: u64) -> (text: String)
    ensures
        text@ == mebibytes(bytes as nat),
{
    let n: u128 = bytes as u128;
    let s: u128 = spacing(n);
    let steps: u128 = round_div(n, s);
    proof {
        law_nearest_double_is_near(bytes as nat);
    }
    let tenths: u128 = round_div(10 * (steps * s), MEBIBYTE);
    let mut text = decimal_text(tenths / 10);
    text.push('.');
    text.push((48 + (tenths % 10) as u8) as char);
    text
}

/// The nearest whole number to a quotient is at most half away from it.
proof fn lemma_nearest(n: nat, d: nat)
    requires
        d > 0,
    ensures
        -(d as int) <= 2 * (nearest(n, d) * d - n) <= d,
{
    lemma_fundamental_div_mod(n as int, d as int);
    let floor = n / d;
    assert((floor + 1) * d == floor * d + d) by (nonlinear_arith);
    assert(floor * d == d * floor) by (nonlinear_arith);
    assert(0 <= n % d < d) by (nonlinear_arith)
        requires
            d > 0,
    ;
}

/// The spacing of doubles around `n` is a small part of `n`.
proof fn lemma_spacing(n: nat)
    ensures
        double_spacing(n) > 0,
        n < DOUBLE_EXACT ==> double_spacing(n) == 1,
        n >= DOUBLE_EXACT ==> double_spacing(n) * 0x10_0000_0000_0000 <= n,
    decreases n,
{
    if n >= DOUBLE_EXACT {
        lemma_spacing(n / 2);
    }
}

/// The nearest double is off by at most half the spacing, which is nothing for counts below
/// [`DOUBLE_EXACT`] and at most `n / DOUBLE_EXACT` for the others.
pub proof fn law_nearest_double_is_near(n: nat)
    ensures
        n < DOUBLE_EXACT ==> nearest_double(n) == n,
        -(n as int) <= DOUBLE_EXACT * (nearest_double(n) - n) <= n,
{
    let s = double_spacing(n);
    lemma_spacing(n);
    lemma_nearest(n, s);
    if n < DOUBLE_EXACT {
        assert(n % 1 == 0);
        assert(n / 1 == n);
    }
}

/// The value shown is the multiple of a tenth of a mebibyte that is nearest to the double of
/// the count, and so to the count itself below [`DOUBLE_EXACT`]: it is at most half a tenth
/// away, and even if it is just that.
pub proof fn law_shown_value_is_nearest(n: nat)
    ensures
        -(MEBIBYTE as int) <= 2 * (shown_tenths(n) * MEBIBYTE - 10 * nearest_double(n))
            <= MEBIBYTE,
        2 * (shown_tenths(n) * MEBIBYTE - 10 * nearest_double(n)) == MEBIBYTE || 2 * (
        shown_tenths(n) * MEBIBYTE - 10 * nearest_double(n)) == -(MEBIBYTE as int) ==> shown_tenths(
            n,
        ) % 2 == 0,
        n < DOUBLE_EXACT ==> nearest_double(n) == n,
{
    law_nearest_double_is_near(n);
    law_nearest(10 * nearest_double(n), MEBIBYTE as nat);
}

/// A multiple of a power of two that is not much larger is a double.
proof fn lemma_multiple_is_double(q: nat, k: nat)
    requires
        q < DOUBLE_EXACT,
    ensures
        (q * pow2(k)) % double_spacing(q * pow2(k)) == 0,
    decreases k,
{
    let n = q * pow2(k);
    lemma_spacing(n);
    if n < DOUBLE_EXACT {
        assert(n % 1 == 0);
    } else if k == 0 {
        lemma2_to64();
        assert(q * 1 == q);
    } else {
        let half = q * pow2((k - 1) as nat);
        lemma_pow2_unfold(k);
        assert(n == 2 * half) by (nonlinear_arith)
            requires
                n == q * pow2(k),
                pow2(k) == 2 * pow2((k - 1) as nat),
                half == q * pow2((k - 1) as nat),
        ;
        assert(n / 2 == half);
        lemma_multiple_is_double(q, (k - 1) as nat);
        lemma_spacing(half);
        let s = double_spacing(half);
        lemma_fundamental_div_mod(half as int, s as int);
        assert(n == (half / s) * (2 * s)) by (nonlinear_arith)
            requires
                n == 2 * half,
                half == s * (half / s),
        ;
        lemma_mod_multiples_basic((half / s) as int, (2 * s) as int);
    }
}

/// Whole mebibytes are shown as they are, with a zero after the point.
pub proof fn law_whole_mebibytes(m: nat)
    requires
        m * MEBIBYTE <= u64::MAX,
    ensures
        mebibytes(m * MEBIBYTE as nat) == decimal(m) + seq!['.', '0'],
{
    let n = m * MEBIBYTE as nat;
    let s = double_spacing(n);
    lemma2_to64();
    lemma_multiple_is_double(m, 20);
    lemma_spacing(n);
    lemma_fundamental_div_mod(n as int, s as int);
    assert(n == (n / s) * s) by (nonlinear_arith)
        requires
            n == s * (n / s),
    ;
    assert(nearest_double(n) == n);
    assert(shown_tenths(n) == 10 * m);
}

/// The nearest whole number to a quotient is at most half away from it, and even if it is just
/// that.
pub proof fn law_nearest(n: nat, d: nat)
    requires
        d > 0,
    ensures
        -(d as int) <= 2 * (nearest(n, d) * d - n) <= d,
        2 * (nearest(n, d) * d - n) == d || 2 * (nearest(n, d) * d - n) == -(d as int)
            ==> nearest(n, d) % 2 == 0,
{
    lemma_nearest(n, d);
    lemma_fundamental_div_mod(n as int, d as int);
    let floor = n / d;
    assert((floor + 1) * d == floor * d + d) by (nonlinear_arith);
    assert(floor * d == d * floor) by (nonlinear_arith);
    assert(0 <= n % d < d) by (nonlinear_arith)
        requires
            d > 0,
    ;
}

/// Around a count from 2^53 on, doubles are a power of two apart, of which the count is between
/// 2^52 and 2^53 times as much; below, they are one apart.
pub proof fn law_double_spacing(n: nat)
    ensures
        exists|k: nat| double_spacing(n) == #[trigger] pow2(k),
        n < 9007199254740992 ==> double_spacing(n) == 1,
        n >= 9007199254740992 ==> double_spacing(n) * 4503599627370496 <= n < double_spacing(n)
            * 9007199254740992,
    decreases n,
{
    lemma2_to64();
    if n < DOUBLE_EXACT {
        assert(double_spacing(n) == pow2(0));
    } else {
        law_double_spacing(n / 2);
        let k = choose|k: nat| double_spacing(n / 2) == #[trigger] pow2(k);
        lemma_pow2_unfold(k + 1);
        assert(double_spacing(n) == pow2(k + 1));
    }
}

/// The double of a count is the multiple of the spacing that is nearest to it, and of two that
/// are equally near the even one.
pub proof fn law_nearest_double(n: nat) -> (q: nat)
    ensures
        nearest_double(n) == q * double_spacing(n),
        -(double_spacing(n) as int) <= 2 * (nearest_double(n) - n) <= double_spacing(n),
        2 * (nearest_double(n) - n) == double_spacing(n) || 2 * (nearest_double(n) - n) == -(
        double_spacing(n) as int) ==> q % 2 == 0,
{
    lemma_spacing(n);
    law_nearest(n, double_spacing(n));
    nearest(n, double_spacing(n))
}

/// The number that a text of decimal digits stands for.
pub open spec fn read_decimal(text: Seq<char>) -> int
    decreases text.len(),
{
    if text.len() == 0 {
        0
    } else {
        10 * read_decimal(text.drop_last()) + (text.last() as int - '0' as int)
    }
}

/// Whether a text is a number as one writes it: decimal digits, the first of several not zero.
pub open spec fn is_number(text: Seq<char>) -> bool {
    &&& text.len() > 0
    &&& forall|i: int| 0 <= i < text.len() ==> '0' <= #[trigger] text[i] <= '9'
    &&& text.len() > 1 ==> text[0] != '0'
}

/// A number in decimal is written as one writes it and reads as the number.
pub proof fn law_decimal_reads_back(n: nat)
    ensures
        is_number(decimal(n)),
        read_decimal(decimal(n)) == n,
        n > 0 ==> decimal(n)[0] != '0',
    decreases n,
{
    if n < 10 {
        assert(decimal(n).drop_last().len() == 0);
        assert(read_decimal(decimal(n).drop_last()) == 0);
    } else {
        let init = decimal(n / 10);
        law_decimal_reads_back(n / 10);
        assert(decimal(n).drop_last() =~= init);
        assert forall|i: int| 0 <= i < decimal(n).len() implies '0' <= #[trigger] decimal(n)[i]
            <= '9' by {
            if i < init.len() {
                assert(decimal(n)[i] == init[i]);
            }
        }
        assert(decimal(n)[0] == init[0]);
    }
}

/// The tenths in a number with one digit after the point.
pub open spec fn read_tenths(text: Seq<char>) -> int {
    10 * read_decimal(text.take(text.len() - 2)) + (text.last() as int - '0' as int)
}

/// Whether a text is a number, a point and a digit, and reads as the tenths of 1048576 bytes
/// nearest to `bytes`: it is at most half a tenth away from counts below 2^53, and hardly more
/// from larger ones, which a double need not hold.
pub open spec fn shows_bytes(text: Seq<char>, bytes: nat) -> bool {
    &&& text.len() >= 3
    &&& is_number(text.take(text.len() - 2))
    &&& text[text.len() - 2] == '.'
    &&& '0' <= text.last() <= '9'
    &&& bytes < 9007199254740992 ==> -1048576 <= 2 * (read_tenths(text) * 1048576 - 10 * bytes)
        <= 1048576
    &&& -1048576 - 40960 <= 2 * (read_tenths(text) * 1048576 - 10 * bytes) <= 1048576 + 40960
}

/// The text for a count reads as the tenths that are shown for it.
pub proof fn law_text_reads_as_tenths(n: nat)
    ensures
        read_tenths(mebibytes(n)) == shown_tenths(n),
        is_number(mebibytes(n).take(mebibytes(n).len() - 2)),
{
    let text = mebibytes(n);
    let tenths = shown_tenths(n);
    law_decimal_reads_back(tenths / 10);
    assert(text.take(text.len() - 2) =~= decimal(tenths / 10));
    assert(text.last() == digit(tenths % 10));
}

/// The text for a count reads as its mebibytes, rounded to a tenth, and to an even tenth if the
/// count is halfway between two.
pub proof fn law_text_reads_as_mebibytes(n: nat)
    requires
        n <= u64::MAX,
    ensures
        shows_bytes(mebibytes(n), n),
        n < 9007199254740992 && (2 * (read_tenths(mebibytes(n)) * 1048576 - 10 * n) == 1048576 || 2
            * (read_tenths(mebibytes(n)) * 1048576 - 10 * n) == -1048576) ==> read_tenths(
            mebibytes(n),
        ) % 2 == 0,
{
    law_text_reads_as_tenths(n);
    law_nearest_double_is_near(n);
    law_nearest(10 * nearest_double(n), MEBIBYTE as nat);
}

} // verus!
