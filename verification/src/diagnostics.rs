//! The diagnostic text of one channel: its raw code, the millivolts that code
//! stands for, the scaled input, the setpoint, and the actuation code with its
//! millivolts and the real output.

use crate::logics::{lemma_levels_in_units, measured_level, Side, UNITS_PER_CODE_MEASURED};
use crate::render::{
    decimal, fixed, lemma_decimal_shape, lemma_decimal_shape_u64, lemma_fixed_shape,
    lemma_padded_shape, millivolts_text, padded, pow10, put_decimal, put_fixed, put_padded,
    round_quotient, rounded_quotient, volts_text,
};
use crate::text::{
    lemma_bytes_after_plain_text, lemma_bytes_of_concatenation, TextBuffer, CAPACITY,
};
use crate::volts::{Volts, UNITS_PER_VOLT};
use vstd::prelude::*;
use vstd::utf8::{encode_utf8, is_ascii_chars};

verus! {

/// The bytes of the longest title that a diagnostic text has room for,
/// whatever the numbers in it.
pub const MAX_TITLE: usize = 78;

/// A raw or actuation code, right-aligned in nine characters.
pub open spec fn code_field(code: u16) -> Seq<char> {
    padded(decimal(code as nat), 9, ' ')
}

/// The millivolts that a code stands for against the 3.3 V reference, with
/// two decimals, right-aligned in seven characters.
pub open spec fn millivolts_field(code: u16) -> Seq<char> {
    padded(millivolts_text(measured_level(code), 2), 7, ' ')
}

/// A level in volts with `decimals` decimals, filled up with zeros on the
/// left to `width` characters.
pub open spec fn volts_field(level: int, decimals: nat, width: nat) -> Seq<char> {
    padded(volts_text(level, decimals), width, '0')
}

/// The diagnostic text of channel `num`, whose limiter output goes by the
/// name `title`: the channel's raw code `adc`, the side as the control task
/// left it, and the code `dac` that went to the actuator for it.
pub open spec fn diagnostics_text(num: nat, side: Side, adc: u16, dac: u16, title: Seq<char>) -> Seq<
    char,
> {
    "ADC"@ + decimal(num) + ":\n Raw:\n   "@ + code_field(adc) + "\n   "@ + millivolts_field(adc)
        + "mV\n Converted:\n   "@ + volts_field(side.input@, 4, 8) + "V\n"@ + title
        + ":\n  Desired Output:\n    "@ + volts_field(side.desired_output@, 1, 5)
        + "V\n  Raw:\n    "@ + code_field(dac) + "\n    "@ + millivolts_field(dac)
        + "mV\n  Real:\n    "@ + volts_field(side.real_output@, 1, 5) + "V\n"@
}

/// A code field is nine ASCII characters.
pub proof fn lemma_code_field_shape(code: u16)
    ensures
        code_field(code).len() == 9,
        is_ascii_chars(code_field(code)),
        is_ascii_chars(decimal(code as nat)),
        decimal(code as nat).len() <= 5,
{
    reveal_with_fuel(pow10, 6);
    lemma_decimal_shape(code as nat, 5);
    lemma_padded_shape(decimal(code as nat), 9, ' ');
}

/// A millivolts field is seven or eight ASCII characters.
pub proof fn lemma_millivolts_field_shape(code: u16)
    ensures
        7 <= millivolts_field(code).len() <= 8,
        is_ascii_chars(millivolts_field(code)),
        is_ascii_chars(millivolts_text(measured_level(code), 2)),
        millivolts_text(measured_level(code), 2).len() <= 8,
{
    reveal_with_fuel(pow10, 6);
    assert(pow10(2) == 100 && pow10(5) == 100_000);
    lemma_levels_in_units(code, 0);
    let hundredths = rounded_quotient(
        measured_level(code) * 1000 * 100,
        UNITS_PER_VOLT as int,
    ) as nat;
    lemma_fixed_shape(hundredths, 2, 5);
    lemma_padded_shape(millivolts_text(measured_level(code), 2), 7, ' ');
}

/// A volts field with four decimals in eight characters is eight to eleven
/// ASCII characters; one with one decimal in five is five to eight.
pub proof fn lemma_volts_field_shape(level: Volts)
    ensures
        8 <= volts_field(level@, 4, 8).len() <= 11,
        is_ascii_chars(volts_field(level@, 4, 8)),
        is_ascii_chars(volts_text(level@, 4)),
        volts_text(level@, 4).len() <= 11,
        5 <= volts_field(level@, 1, 5).len() <= 8,
        is_ascii_chars(volts_field(level@, 1, 5)),
        is_ascii_chars(volts_text(level@, 1)),
        volts_text(level@, 1).len() <= 8,
{
    reveal_with_fuel(pow10, 7);
    assert(pow10(1) == 10 && pow10(4) == 10_000 && pow10(6) == 1_000_000);
    let fine = rounded_quotient(level@ * 10_000, UNITS_PER_VOLT as int) as nat;
    lemma_fixed_shape(fine, 4, 6);
    lemma_padded_shape(volts_text(level@, 4), 8, '0');
    let coarse = rounded_quotient(level@ * 10, UNITS_PER_VOLT as int) as nat;
    lemma_fixed_shape(coarse, 1, 6);
    lemma_padded_shape(volts_text(level@, 1), 5, '0');
}

/// A text followed by a plain piece takes the bytes of the text and one more
/// for each character of the piece.
proof fn lemma_bytes_with_piece(text: Seq<char>, piece: Seq<char>, most: nat, room: nat)
    requires
        encode_utf8(text).len() <= most,
        is_ascii_chars(piece),
        piece.len() <= room,
    ensures
        encode_utf8(text + piece).len() <= most + room,
{
    lemma_bytes_after_plain_text(text, piece);
}

/// With a title of at most 78 bytes a diagnostic text is never longer than a
/// message buffer, whatever the numbers in it.
pub proof fn law_diagnostics_fit_the_buffer(
    num: usize,
    side: Side,
    adc: u16,
    dac: u16,
    title: Seq<char>,
)
    requires
        encode_utf8(title).len() <= MAX_TITLE,
    ensures
        encode_utf8(diagnostics_text(num as nat, side, adc, dac, title)).len() <= CAPACITY,
{
    reveal_strlit("ADC");
    reveal_strlit(":\n Raw:\n   ");
    reveal_strlit("\n   ");
    reveal_strlit("mV\n Converted:\n   ");
    reveal_strlit("V\n");
    reveal_strlit(":\n  Desired Output:\n    ");
    reveal_strlit("V\n  Raw:\n    ");
    reveal_strlit("\n    ");
    reveal_strlit("mV\n  Real:\n    ");
    lemma_decimal_shape_u64(num as u64);
    lemma_code_field_shape(adc);
    lemma_code_field_shape(dac);
    lemma_millivolts_field_shape(adc);
    lemma_millivolts_field_shape(dac);
    lemma_volts_field_shape(side.input);
    lemma_volts_field_shape(side.desired_output);
    lemma_volts_field_shape(side.real_output);
    let t1 = "ADC"@;
    lemma_bytes_with_piece(Seq::empty(), t1, 0, 3);
    let t2 = t1 + decimal(num as nat);
    lemma_bytes_with_piece(t1, decimal(num as nat), 3, 20);
    let t3 = t2 + ":\n Raw:\n   "@;
    lemma_bytes_with_piece(t2, ":\n Raw:\n   "@, 23, 11);
    let t4 = t3 + code_field(adc);
    lemma_bytes_with_piece(t3, code_field(adc), 34, 9);
    let t5 = t4 + "\n   "@;
    lemma_bytes_with_piece(t4, "\n   "@, 43, 4);
    let t6 = t5 + millivolts_field(adc);
    lemma_bytes_with_piece(t5, millivolts_field(adc), 47, 8);
    let t7 = t6 + "mV\n Converted:\n   "@;
    lemma_bytes_with_piece(t6, "mV\n Converted:\n   "@, 55, 18);
    let t8 = t7 + volts_field(side.input@, 4, 8);
    lemma_bytes_with_piece(t7, volts_field(side.input@, 4, 8), 73, 11);
    let t9 = t8 + "V\n"@;
    lemma_bytes_with_piece(t8, "V\n"@, 84, 2);
    let t10 = t9 + title;
    lemma_bytes_of_concatenation(t9, title);
    let t11 = t10 + ":\n  Desired Output:\n    "@;
    lemma_bytes_with_piece(t10, ":\n  Desired Output:\n    "@, 164, 24);
    let t12 = t11 + volts_field(side.desired_output@, 1, 5);
    lemma_bytes_with_piece(t11, volts_field(side.desired_output@, 1, 5), 188, 8);
    let t13 = t12 + "V\n  Raw:\n    "@;
    lemma_bytes_with_piece(t12, "V\n  Raw:\n    "@, 196, 13);
    let t14 = t13 + code_field(dac);
    lemma_bytes_with_piece(t13, code_field(dac), 209, 9);
    let t15 = t14 + "\n    "@;
    lemma_bytes_with_piece(t14, "\n    "@, 218, 5);
    let t16 = t15 + millivolts_field(dac);
    lemma_bytes_with_piece(t15, millivolts_field(dac), 223, 8);
    let t17 = t16 + "mV\n  Real:\n    "@;
    lemma_bytes_with_piece(t16, "mV\n  Real:\n    "@, 231, 15);
    let t18 = t17 + volts_field(side.real_output@, 1, 5);
    lemma_bytes_with_piece(t17, volts_field(side.real_output@, 1, 5), 246, 8);
    lemma_bytes_with_piece(t18, "V\n"@, 254, 2);
}

/// The number in a millivolts field, in hundredths of a millivolt, and the
/// number in a volts field, in ten-thousandths and in tenths of a volt.
proof fn lemma_field_numbers(code: u16, level: Volts)
    ensures
        millivolts_text(measured_level(code), 2) == fixed(
            rounded_quotient(code * 3_300_000, UNITS_PER_VOLT as int) as nat,
            2,
        ),
        volts_text(level@, 4) == fixed(
            rounded_quotient(level@ * 10_000, UNITS_PER_VOLT as int) as nat,
            4,
        ),
        volts_text(level@, 1) == fixed(
            rounded_quotient(level@ * 10, UNITS_PER_VOLT as int) as nat,
            1,
        ),
{
    reveal_with_fuel(pow10, 5);
    lemma_levels_in_units(code, 0);
    assert(measured_level(code) * 1000 * 100 == code * 3_300_000);
}

/// The voltage that a code stands for against the reference.
pub fn to_voltage(raw: u16) -> (level: Volts)
    ensures
        level@ == measured_level(raw),
{
    proof {
        lemma_levels_in_units(raw, 0);
    }
    Volts { units: (raw as u32) * UNITS_PER_CODE_MEASURED }
}

/// Appends a code field.
fn put_code(buf: &mut TextBuffer, code: u16)
    requires
        old(buf).byte_len() + 9 <= CAPACITY,
    ensures
        final(buf)@ == old(buf)@ + code_field(code),
        final(buf).byte_len() == old(buf).byte_len() + 9,
{
    proof {
        lemma_code_field_shape(code);
    }
    let mut digits = TextBuffer::new();
    put_decimal(&mut digits, code as u64);
    put_padded(buf, &digits, 9, ' ');
}

/// Appends a millivolts field.
fn put_millivolts(buf: &mut TextBuffer, code: u16)
    requires
        old(buf).byte_len() + 8 <= CAPACITY,
    ensures
        final(buf)@ == old(buf)@ + millivolts_field(code),
        final(buf).byte_len() <= old(buf).byte_len() + 8,
{
    proof {
        lemma_millivolts_field_shape(code);
        lemma_field_numbers(code, Volts { units: 0 });
    }
    let level = to_voltage(code);
    let scaled = round_quotient((level.units as u64) * 100_000, UNITS_PER_VOLT as u64);
    let mut number = TextBuffer::new();
    put_fixed(&mut number, scaled, 2);
    put_padded(buf, &number, 7, ' ');
}

/// Appends a volts field with four decimals in eight characters.
fn put_volts_fine(buf: &mut TextBuffer, level: Volts)
    requires
        old(buf).byte_len() + 11 <= CAPACITY,
    ensures
        final(buf)@ == old(buf)@ + volts_field(level@, 4, 8),
        final(buf).byte_len() <= old(buf).byte_len() + 11,
{
    proof {
        lemma_volts_field_shape(level);
        lemma_field_numbers(0, level);
    }
    let scaled = round_quotient((level.units as u64) * 10_000, UNITS_PER_VOLT as u64);
    let mut number = TextBuffer::new();
    put_fixed(&mut number, scaled, 4);
    put_padded(buf, &number, 8, '0');
}

/// Appends a volts field with one decimal in five characters.
fn put_volts(buf: &mut TextBuffer, level: Volts)
    requires
        old(buf).byte_len() + 8 <= CAPACITY,
    ensures
        final(buf)@ == old(buf)@ + volts_field(level@, 1, 5),
        final(buf).byte_len() <= old(buf).byte_len() + 8,
{
    proof {
        lemma_volts_field_shape(level);
        lemma_field_numbers(0, level);
    }
    let scaled = round_quotient((level.units as u64) * 10, UNITS_PER_VOLT as u64);
    let mut number = TextBuffer::new();
    put_fixed(&mut number, scaled, 1);
    put_padded(buf, &number, 5, '0');
}

/// Appends a piece of the fixed wording, which is plain and short.
fn put_wording(buf: &mut TextBuffer, wording: &str)
    requires
        is_ascii_chars(wording@),
        old(buf).byte_len() + wording@.len() <= CAPACITY,
    ensures
        final(buf)@ == old(buf)@ + wording@,
        final(buf).byte_len() == old(buf).byte_len() + wording@.len(),
{
    proof {
        lemma_bytes_after_plain_text(buf@, wording@);
    }
    buf.put_str(wording);
}

/// The diagnostic text of one channel.
pub fn fmt(num: usize, side: &Side, adc: u16, dac: u16, txt: &str) -> (buf: TextBuffer)
    requires
        encode_utf8(txt@).len() <= MAX_TITLE,
    ensures
        buf@ == diagnostics_text(num as nat, *side, adc, dac, txt@),
{
    let mut buf = TextBuffer::new();
    proof {
        reveal_strlit("ADC");
        reveal_strlit(":\n Raw:\n   ");
        reveal_strlit("\n   ");
        reveal_strlit("mV\n Converted:\n   ");
        reveal_strlit("V\n");
        reveal_strlit(":\n  Desired Output:\n    ");
        reveal_strlit("V\n  Raw:\n    ");
        reveal_strlit("\n    ");
        reveal_strlit("mV\n  Real:\n    ");
        lemma_decimal_shape_u64(num as u64);
    }
    put_wording(&mut buf, "ADC");
    put_decimal(&mut buf, num as u64);
    put_wording(&mut buf, ":\n Raw:\n   ");
    put_code(&mut buf, adc);
    put_wording(&mut buf, "\n   ");
    put_millivolts(&mut buf, adc);
    put_wording(&mut buf, "mV\n Converted:\n   ");
    put_volts_fine(&mut buf, side.input);
    put_wording(&mut buf, "V\n");
    buf.put_str(txt);
    put_wording(&mut buf, ":\n  Desired Output:\n    ");
    put_volts(&mut buf, side.desired_output);
    put_wording(&mut buf, "V\n  Raw:\n    ");
    put_code(&mut buf, dac);
    put_wording(&mut buf, "\n    ");
    put_millivolts(&mut buf, dac);
    put_wording(&mut buf, "mV\n  Real:\n    ");
    put_volts(&mut buf, side.real_output);
    put_wording(&mut buf, "V\n");
    buf
}

} // verus!
