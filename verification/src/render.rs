//! Numbers as text: decimal digits, padding to a width, and levels with a
//! fixed number of decimals.

use crate::text::{lemma_bytes_after_plain_text, TextBuffer, CAPACITY};
use crate::volts::UNITS_PER_VOLT;
use vstd::prelude::*;
use vstd::utf8::is_ascii_chars;

verus! {

/// The character of the decimal digit `d`.
pub open spec fn digit(d: int) -> char {
    ((48 + d) as u8) as char
}

/// The decimal digits of `n`, most significant first, without leading zeros.
pub open spec fn decimal(n: nat) -> Seq<char>
    decreases n,
{
    if n < 10 {
        seq![digit(n as int)]
    } else {
        decimal(n / 10).push(digit((n % 10) as int))
    }
}

/// Ten to the power `k`.
pub open spec fn pow10(k: nat) -> nat
    decreases k,
{
    if k == 0 {
        1
    } else {
        10 * pow10((k - 1) as nat)
    }
}

/// `s` moved to the right end of a field of `width` characters, the room
/// before it taken by `fill`; `s` itself where it is as wide or wider.
pub open spec fn padded(s: Seq<char>, width: nat, fill: char) -> Seq<char> {
    if s.len() < width {
        Seq::new((width - s.len()) as nat, |i: int| fill) + s
    } else {
        s
    }
}

/// A count of `10^-decimals` as a number with that many decimals:
/// `fixed(1234, 2)` is "12.34" and `fixed(5, 2)` is "0.05".
pub open spec fn fixed(scaled: nat, decimals: nat) -> Seq<char> {
    decimal(scaled / pow10(decimals)).push('.') + padded(
        decimal(scaled % pow10(decimals)),
        decimals,
        '0',
    )
}

/// The whole number nearest to `num / den`, and of two equally near the even
/// one.
pub open spec fn rounded_quotient(num: int, den: int) -> int {
    let q = num / den;
    let r = num % den;
    if 2 * r > den || (2 * r == den && q % 2 == 1) {
        q + 1
    } else {
        q
    }
}

/// A level in volts with `decimals` decimals, rounded to the last of them.
pub open spec fn volts_text(level: int, decimals: nat) -> Seq<char> {
    fixed(
        rounded_quotient(level * pow10(decimals), UNITS_PER_VOLT as int) as nat,
        decimals,
    )
}

/// A level in millivolts with `decimals` decimals, rounded to the last of
/// them.
pub open spec fn millivolts_text(level: int, decimals: nat) -> Seq<char> {
    fixed(
        rounded_quotient(level * 1000 * pow10(decimals), UNITS_PER_VOLT as int) as nat,
        decimals,
    )
}

/// The rounded quotient is never further than half a unit from the exact one,
/// and where it is exactly half a unit away it is even.
pub proof fn law_rounding_is_to_nearest_ties_to_even(num: int, den: int)
    requires
        0 <= num,
        0 < den,
    ensures
        -den <= 2 * (rounded_quotient(num, den) * den - num) <= den,
        2 * (rounded_quotient(num, den) * den - num) == den || 2 * (rounded_quotient(num, den) * den
            - num) == -den ==> rounded_quotient(num, den) % 2 == 0,
{
    let q = num / den;
    let r = num % den;
    vstd::arithmetic::div_mod::lemma_fundamental_div_mod(num, den);
    assert(q * den == den * q) by (nonlinear_arith);
    assert((q + 1) * den == den * q + den) by (nonlinear_arith);
}

/// Ten to a power is positive.
pub proof fn lemma_pow10_positive(k: nat)
    ensures
        pow10(k) > 0,
    decreases k,
{
    if k > 0 {
        lemma_pow10_positive((k - 1) as nat);
    }
}

/// A number below `10^k` has at most `k` digits, all of them ASCII.
pub proof fn lemma_decimal_shape(n: nat, k: nat)
    requires
        1 <= k,
        n < pow10(k),
    ensures
        1 <= decimal(n).len() <= k,
        is_ascii_chars(decimal(n)),
    decreases k,
{
    if n >= 10 {
        reveal_with_fuel(pow10, 2);
        lemma_decimal_shape(n / 10, (k - 1) as nat);
    }
}

/// Every 64-bit number has at most 20 digits.
pub proof fn lemma_decimal_shape_u64(n: u64)
    ensures
        1 <= decimal(n as nat).len() <= 20,
        is_ascii_chars(decimal(n as nat)),
{
    reveal_with_fuel(pow10, 21);
    lemma_decimal_shape(n as nat, 20);
}

/// Padding keeps ASCII text ASCII and makes it exactly as long as the wider
/// of the text and the field.
pub proof fn lemma_padded_shape(s: Seq<char>, width: nat, fill: char)
    requires
        is_ascii_chars(s),
        fill <= '\u{7f}',
    ensures
        is_ascii_chars(padded(s, width, fill)),
        padded(s, width, fill).len() == if s.len() < width {
            width
        } else {
            s.len()
        },
{
}

/// A fixed-point number whose whole part is below `10^k` takes at most
/// `k + 1 + decimals` characters, all of them ASCII.
pub proof fn lemma_fixed_shape(scaled: nat, decimals: nat, k: nat)
    requires
        1 <= k,
        1 <= decimals,
        scaled / pow10(decimals) < pow10(k),
    ensures
        decimals + 2 <= fixed(scaled, decimals).len() <= k + 1 + decimals,
        is_ascii_chars(fixed(scaled, decimals)),
{
    lemma_pow10_positive(decimals);
    lemma_decimal_shape(scaled / pow10(decimals), k);
    lemma_decimal_shape(scaled % pow10(decimals), decimals);
    lemma_padded_shape(decimal(scaled % pow10(decimals)), decimals, '0');
}

/// The character of one decimal digit.
fn digit_char(d: u8) -> (c: char)
    requires
        d < 10,
    ensures
        c == digit(d as int),
        c <= '\u{7f}',
{
    (48 + d) as char
}

/// Ten to the power `decimals`.
fn power_of_ten(decimals: u32) -> (p: u64)
    requires
        decimals <= 9,
    ensures
        p == pow10(decimals as nat),
        1 <= p <= 1_000_000_000,
{
    let mut p: u64 = 1;
    let mut i: u32 = 0;
    proof {
        reveal_with_fuel(pow10, 10);
    }
    while i < decimals
        invariant
            i <= decimals <= 9,
            p == pow10(i as nat),
            1 <= p,
            p <= pow10(9),
            pow10(9) == 1_000_000_000,
        decreases decimals - i,
    {
        proof {
            lemma_pow10_monotonic((i + 1) as nat, 9);
        }
        p = p * 10;
        i = i + 1;
    }
    p
}

/// Ten to a power grows with the power.
pub proof fn lemma_pow10_monotonic(a: nat, b: nat)
    requires
        a <= b,
    ensures
        pow10(a) <= pow10(b),
    decreases b,
{
    if a < b {
        lemma_pow10_monotonic(a, (b - 1) as nat);
        lemma_pow10_positive((b - 1) as nat);
    }
}

/// `num / den` rounded to the nearest whole number, ties to the even one.
pub fn round_quotient(num: u64, den: u64) -> (q: u64)
    requires
        den > 0,
        num / den < u64::MAX,
    ensures
        q == rounded_quotient(num as int, den as int),
{
    let q = num / den;
    let r = num % den;
    if r > den - r || (r == den - r && q % 2 == 1) {
        q + 1
    } else {
        q
    }
}

/// Appends `count` times the character `c`.
pub(crate) fn put_repeated(buf: &mut TextBuffer, c: char, count: usize)
    requires
        c <= '\u{7f}',
        old(buf).byte_len() + count <= CAPACITY,
    ensures
        final(buf)@ == old(buf)@ + Seq::new(count as nat, |i: int| c),
        final(buf).byte_len() == old(buf).byte_len() + count,
        old(buf).is_plain() ==> final(buf).is_plain(),
{
    let mut done: usize = 0;
    while done < count
        invariant
            done <= count,
            c <= '\u{7f}',
            old(buf).byte_len() + count <= CAPACITY,
            buf@ == old(buf)@ + Seq::new(done as nat, |i: int| c),
            buf.byte_len() == old(buf).byte_len() + done,
            old(buf).is_plain() ==> buf.is_plain(),
        decreases count - done,
    {
        buf.put(c);
        done = done + 1;
    }
}

/// Appends the decimal digits of `n`.
pub(crate) fn put_decimal(buf: &mut TextBuffer, n: u64)
    requires
        old(buf).byte_len() + decimal(n as nat).len() <= CAPACITY,
    ensures
        final(buf)@ == old(buf)@ + decimal(n as nat),
        final(buf).byte_len() == old(buf).byte_len() + decimal(n as nat).len(),
        old(buf).is_plain() ==> final(buf).is_plain(),
    decreases n,
{
    if n >= 10 {
        put_decimal(buf, n / 10);
    }
    buf.put(digit_char((n % 10) as u8));
}

/// Appends the text of `piece`, right-aligned in a field of `width`
/// characters that `fill` fills up.
pub(crate) fn put_padded(buf: &mut TextBuffer, piece: &TextBuffer, width: usize, fill: char)
    requires
        piece.is_plain(),
        fill <= '\u{7f}',
        old(buf).byte_len() + padded(piece@, width as nat, fill).len() <= CAPACITY,
    ensures
        final(buf)@ == old(buf)@ + padded(piece@, width as nat, fill),
        final(buf).byte_len() == old(buf).byte_len() + padded(piece@, width as nat, fill).len(),
        old(buf).is_plain() ==> final(buf).is_plain(),
{
    proof {
        lemma_bytes_after_plain_text(Seq::empty(), piece@);
    }
    let text = piece.as_str();
    let len = piece.len();
    if len < width {
        put_repeated(buf, fill, width - len);
    }
    buf.put_str(text);
}

/// Appends `scaled`, a count of `10^-decimals`, as a number with that many
/// decimals.
pub(crate) fn put_fixed(buf: &mut TextBuffer, scaled: u64, decimals: u32)
    requires
        1 <= decimals <= 9,
        old(buf).byte_len() + fixed(scaled as nat, decimals as nat).len() <= CAPACITY,
    ensures
        final(buf)@ == old(buf)@ + fixed(scaled as nat, decimals as nat),
        final(buf).byte_len() == old(buf).byte_len() + fixed(
            scaled as nat,
            decimals as nat,
        ).len(),
        old(buf).is_plain() ==> final(buf).is_plain(),
{
    let scale = power_of_ten(decimals);
    let whole = scaled / scale;
    let part = scaled % scale;
    proof {
        lemma_decimal_shape(part as nat, decimals as nat);
        lemma_decimal_shape_u64(part);
        lemma_padded_shape(decimal(part as nat), decimals as nat, '0');
    }
    put_decimal(buf, whole);
    buf.put('.');
    let mut digits = TextBuffer::new();
    put_decimal(&mut digits, part);
    put_padded(buf, &digits, decimals as usize, '0');
}

} // verus!
