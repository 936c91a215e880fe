//! The code-unit encoder: UTF-8, UTF-16 and UTF-32 forms of a 32-bit value,
//! computed without a string-encoding primitive so that surrogates and
//! values above U+10FFFF are reported instead of failing.
use vstd::prelude::*;
use vstd::utf8::{decode_first_scalar, length_of_first_scalar, valid_first_scalar};
use crate::config::{label_str, label_text, Flags, Toggles};
use crate::text::{decimal, hex_upper, push_digits, to_decimal, to_hex};

verus! {

/// Why a value has no UTF-8 or UTF-16 form.
#[derive(PartialEq, Eq, Structural, Clone, Copy, Debug)]
pub enum InvalidCodePoint {
    /// In `0xD800..=0xDFFF`.
    Surrogate,
    /// Above `0x10FFFF`.
    AboveMax,
}

/// Why `cp` is not a Unicode scalar value, if it is not one.
pub open spec fn invalid_reason(cp: u32) -> Option<InvalidCodePoint> {
    if 0xD800 <= cp <= 0xDFFF {
        Some(InvalidCodePoint::Surrogate)
    } else if cp > 0x10FFFF {
        Some(InvalidCodePoint::AboveMax)
    } else {
        None
    }
}

/// `cp` is a Unicode scalar value: at most `0x10FFFF` and not a surrogate.
pub open spec fn is_scalar(cp: u32) -> bool {
    invalid_reason(cp) is None
}

/// The UTF-8 bytes of a scalar value, by the standard bit packing.
pub open spec fn utf8_units(cp: u32) -> Seq<u8> {
    if cp < 0x80 {
        seq![cp as u8]
    } else if cp < 0x800 {
        seq![(0xC0 | ((cp >> 6) & 0x1F)) as u8, (0x80 | (cp & 0x3F)) as u8]
    } else if cp < 0x10000 {
        seq![
            (0xE0 | ((cp >> 12) & 0x0F)) as u8,
            (0x80 | ((cp >> 6) & 0x3F)) as u8,
            (0x80 | (cp & 0x3F)) as u8,
        ]
    } else {
        seq![
            (0xF0 | ((cp >> 18) & 0x07)) as u8,
            (0x80 | ((cp >> 12) & 0x3F)) as u8,
            (0x80 | ((cp >> 6) & 0x3F)) as u8,
            (0x80 | (cp & 0x3F)) as u8,
        ]
    }
}

/// The UTF-16 code units of a scalar value: the value itself up to
/// `0xFFFF`, else the surrogate pair of `cp - 0x10000`.
pub open spec fn utf16_units(cp: u32) -> Seq<u16> {
    if cp <= 0xFFFF {
        seq![cp as u16]
    } else {
        seq![
            (((cp - 0x10000) as u32 >> 10) + 0xD800) as u16,
            (((cp - 0x10000) as u32 & 0x3FF) + 0xDC00) as u16,
        ]
    }
}

/// The value that a high and a low surrogate stand for.
pub open spec fn surrogate_pair_value(high: u16, low: u16) -> int {
    (high - 0xD800) * 0x400 + (low - 0xDC00) + 0x10000
}

/// The UTF-8 form of `cp`, or why it has none.
pub fn utf8_encode(cp: u32) -> (r: Result<Vec<u8>, InvalidCodePoint>)
    ensures
        match invalid_reason(cp) {
            Some(e) => r == Err::<Vec<u8>, InvalidCodePoint>(e),
            None => r matches Ok(b) && b@ == utf8_units(cp),
        },
{
    if 0xD800 <= cp && cp <= 0xDFFF {
        return Err(InvalidCodePoint::Surrogate);
    }
    if cp > 0x10FFFF {
        return Err(InvalidCodePoint::AboveMax);
    }
    let mut b: Vec<u8> = Vec::new();
    if cp < 0x80 {
        b.push(cp as u8);
    } else if cp < 0x800 {
        b.push((0xC0 | ((cp >> 6) & 0x1F)) as u8);
        b.push((0x80 | (cp & 0x3F)) as u8);
    } else if cp < 0x10000 {
        b.push((0xE0 | ((cp >> 12) & 0x0F)) as u8);
        b.push((0x80 | ((cp >> 6) & 0x3F)) as u8);
        b.push((0x80 | (cp & 0x3F)) as u8);
    } else {
        b.push((0xF0 | ((cp >> 18) & 0x07)) as u8);
        b.push((0x80 | ((cp >> 12) & 0x3F)) as u8);
        b.push((0x80 | ((cp >> 6) & 0x3F)) as u8);
        b.push((0x80 | (cp & 0x3F)) as u8);
    }
    assert(b@ =~= utf8_units(cp));
    Ok(b)
}

/// The UTF-16 form of `cp`, or why it has none.
pub fn utf16_encode(cp: u32) -> (r: Result<Vec<u16>, InvalidCodePoint>)
    ensures
        match invalid_reason(cp) {
            Some(e) => r == Err::<Vec<u16>, InvalidCodePoint>(e),
            None => r matches Ok(u) && u@ == utf16_units(cp),
        },
{
    if 0xD800 <= cp && cp <= 0xDFFF {
        return Err(InvalidCodePoint::Surrogate);
    }
    if cp > 0x10FFFF {
        return Err(InvalidCodePoint::AboveMax);
    }
    let mut u: Vec<u16> = Vec::new();
    if cp <= 0xFFFF {
        u.push(cp as u16);
    } else {
        let c = cp - 0x10000;
        assert((c >> 10) + 0xD800 <= 0xFFFF) by (bit_vector)
            requires
                c <= 0xFFFFF,
        ;
        u.push(((c >> 10) + 0xD800) as u16);
        assert((c & 0x3FF) <= 0x3FF) by (bit_vector);
        u.push(((c & 0x3FF) + 0xDC00) as u16);
    }
    assert(u@ =~= utf16_units(cp));
    Ok(u)
}

/// The UTF-32 form of `cp`: eight upper-case hexadecimal digits of the raw
/// value, for any value.
pub fn utf32_hex(cp: u32) -> (r: String)
    ensures
        r@ == hex_upper(cp as nat, 8),
{
    to_hex(cp, 8)
}

/// Encoding a scalar value as UTF-8 and decoding the bytes by the standard
/// decoder gives the value back, and the byte count follows the boundary
/// table: 1 below `0x80`, 2 below `0x800`, 3 below `0x10000`, 4 otherwise.
pub proof fn lemma_utf8_round_trip(cp: u32)
    requires
        is_scalar(cp),
    ensures
        valid_first_scalar(utf8_units(cp)),
        length_of_first_scalar(utf8_units(cp)) == utf8_units(cp).len(),
        decode_first_scalar(utf8_units(cp)) == cp,
        utf8_units(cp).len() == (if cp < 0x80 { 1int } else if cp < 0x800 { 2int } else if cp
            < 0x10000 { 3int } else { 4int }),
{
    let b = utf8_units(cp);
    if cp < 0x80 {
        let b0 = cp as u8;
        assert(b0 <= 0x7f && (b0 & 0x7F) as u32 == cp) by (bit_vector)
            requires
                b0 == cp as u8,
                cp < 0x80,
        ;
    } else if cp < 0x800 {
        let b0 = (0xC0 | ((cp >> 6) & 0x1F)) as u8;
        let b1 = (0x80 | (cp & 0x3F)) as u8;
        assert(0xc0 <= b0 <= 0xdf && 0x80 <= b1 <= 0xbf && ((((b0 & 0x1F) as u32) << 6) | (b1
            & 0x3f) as u32) == cp) by (bit_vector)
            requires
                b0 == (0xC0 | ((cp >> 6) & 0x1F)) as u8,
                b1 == (0x80 | (cp & 0x3F)) as u8,
                0x80 <= cp < 0x800,
        ;
    } else if cp < 0x10000 {
        let b0 = (0xE0 | ((cp >> 12) & 0x0F)) as u8;
        let b1 = (0x80 | ((cp >> 6) & 0x3F)) as u8;
        let b2 = (0x80 | (cp & 0x3F)) as u8;
        assert(0xe0 <= b0 <= 0xef && 0x80 <= b1 <= 0xbf && 0x80 <= b2 <= 0xbf && ((((b0 & 0x0F)
            as u32) << 12) | (((b1 & 0x3f) as u32) << 6) | (b2 & 0x3f) as u32) == cp)
            by (bit_vector)
            requires
                b0 == (0xE0 | ((cp >> 12) & 0x0F)) as u8,
                b1 == (0x80 | ((cp >> 6) & 0x3F)) as u8,
                b2 == (0x80 | (cp & 0x3F)) as u8,
                0x800 <= cp < 0x10000,
        ;
    } else {
        let b0 = (0xF0 | ((cp >> 18) & 0x07)) as u8;
        let b1 = (0x80 | ((cp >> 12) & 0x3F)) as u8;
        let b2 = (0x80 | ((cp >> 6) & 0x3F)) as u8;
        let b3 = (0x80 | (cp & 0x3F)) as u8;
        assert(0xf0 <= b0 <= 0xf7 && 0x80 <= b1 <= 0xbf && 0x80 <= b2 <= 0xbf && 0x80 <= b3
            <= 0xbf && ((((b0 & 0x07) as u32) << 18) | (((b1 & 0x3f) as u32) << 12) | (((b2
            & 0x3f) as u32) << 6) | (b3 & 0x3f) as u32) == cp) by (bit_vector)
            requires
                b0 == (0xF0 | ((cp >> 18) & 0x07)) as u8,
                b1 == (0x80 | ((cp >> 12) & 0x3F)) as u8,
                b2 == (0x80 | ((cp >> 6) & 0x3F)) as u8,
                b3 == (0x80 | (cp & 0x3F)) as u8,
                0x10000 <= cp <= 0x10FFFF,
        ;
    }
}

/// A scalar value above `0xFFFF` becomes a high surrogate followed by a low
/// surrogate from which the standard inverse transform gives the value
/// back; one at most `0xFFFF` becomes the single unit equal to it.
pub proof fn lemma_utf16_round_trip(cp: u32)
    requires
        is_scalar(cp),
    ensures
        cp <= 0xFFFF ==> utf16_units(cp).len() == 1 && utf16_units(cp)[0] == cp,
        cp > 0xFFFF ==> {
            let u = utf16_units(cp);
            &&& u.len() == 2
            &&& 0xD800 <= u[0] <= 0xDBFF
            &&& 0xDC00 <= u[1] <= 0xDFFF
            &&& surrogate_pair_value(u[0], u[1]) == cp
        },
{
    if cp > 0xFFFF {
        let c = (cp - 0x10000) as u32;
        let hi = ((c >> 10) + 0xD800) as u16;
        let lo = ((c & 0x3FF) + 0xDC00) as u16;
        assert(0xD800 <= hi <= 0xDBFF && 0xDC00 <= lo <= 0xDFFF && (hi - 0xD800) * 0x400 + (lo
            - 0xDC00) == c) by (bit_vector)
            requires
                c <= 0xFFFFF,
                hi == ((c >> 10) + 0xD800) as u16,
                lo == ((c & 0x3FF) + 0xDC00) as u16,
        ;
    }
}

/// The report text for a value without a UTF-8 or UTF-16 form.
pub open spec fn invalid_text(e: InvalidCodePoint) -> Seq<char> {
    match e {
        InvalidCodePoint::Surrogate => "Invalid codepoint (in the surrogate range)"@,
        InvalidCodePoint::AboveMax => "Invalid codepoint (above 0x10FFFF)"@,
    }
}

/// Each unit as a space followed by `width` upper-case hexadecimal digits.
pub open spec fn units_text(units: Seq<nat>, width: nat) -> Seq<char>
    decreases units.len(),
{
    if units.len() == 0 {
        Seq::empty()
    } else {
        units_text(units.drop_last(), width) + " "@ + hex_upper(units.last(), width)
    }
}

pub open spec fn bytes_nat(b: Seq<u8>) -> Seq<nat> {
    b.map_values(|x: u8| x as nat)
}

pub open spec fn units16_nat(u: Seq<u16>) -> Seq<nat> {
    u.map_values(|x: u16| x as nat)
}

/// The decimal line of a report.
pub open spec fn decimal_line(cp: u32, color: bool) -> Seq<char> {
    "  "@ + label_text("Decimal :"@, color) + " "@ + decimal(cp as nat)
}

/// The UTF-8 line of a report.
pub open spec fn utf8_line(cp: u32, color: bool) -> Seq<char> {
    label_text("  UTF-8   :"@, color) + match invalid_reason(cp) {
        Some(e) => " "@ + invalid_text(e),
        None => units_text(bytes_nat(utf8_units(cp)), 2),
    }
}

/// The UTF-16 line of a report.
pub open spec fn utf16_line(cp: u32, color: bool) -> Seq<char> {
    label_text("  UTF-16  :"@, color) + match invalid_reason(cp) {
        Some(e) => " "@ + invalid_text(e),
        None => units_text(units16_nat(utf16_units(cp)), 4),
    }
}

/// The UTF-32 line of a report.
pub open spec fn utf32_line(cp: u32, color: bool) -> Seq<char> {
    label_text("  UTF-32  :"@, color) + " "@ + hex_upper(cp as nat, 8)
}

/// `line` alone when `on` holds, nothing otherwise.
pub open spec fn line_if(on: bool, line: Seq<char>) -> Seq<Seq<char>> {
    if on {
        seq![line]
    } else {
        Seq::empty()
    }
}

/// The numeric-forms section: decimal, UTF-8, UTF-16 and UTF-32 lines, each
/// when its toggle is on.
pub open spec fn utf_section(cp: u32, shown: Toggles, color: bool) -> Seq<Seq<char>> {
    line_if(shown.dec, decimal_line(cp, color)) + line_if(shown.utf8, utf8_line(cp, color))
        + line_if(shown.utf16, utf16_line(cp, color)) + line_if(
        shown.utf32,
        utf32_line(cp, color),
    )
}

fn invalid_message(e: InvalidCodePoint) -> (r: &'static str)
    ensures
        r@ == invalid_text(e),
{
    match e {
        InvalidCodePoint::Surrogate => "Invalid codepoint (in the surrogate range)",
        InvalidCodePoint::AboveMax => "Invalid codepoint (above 0x10FFFF)",
    }
}

fn utf8_text(cp: u32, color: bool) -> (r: String)
    ensures
        r@ == utf8_line(cp, color),
{
    let mut r = label_str("  UTF-8   :", color);
    match utf8_encode(cp) {
        Err(e) => {
            r.append(" ");
            r.append(invalid_message(e));
        },
        Ok(b) => {
            let ghost start = r@;
            let mut i: usize = 0;
            while i < b.len()
                invariant
                    0 <= i <= b@.len(),
                    r@ == start + units_text(bytes_nat(b@.take(i as int)), 2),
                decreases b@.len() - i,
            {
                proof {
                    assert(bytes_nat(b@.take(i + 1)).drop_last() =~= bytes_nat(b@.take(i as int)));
                }
                r.append(" ");
                push_digits(&mut r, b[i] as u32, 16, 2);
                i = i + 1;
            }
            assert(b@.take(b@.len() as int) =~= b@);
        },
    }
    r
}

fn utf16_text(cp: u32, color: bool) -> (r: String)
    ensures
        r@ == utf16_line(cp, color),
{
    let mut r = label_str("  UTF-16  :", color);
    match utf16_encode(cp) {
        Err(e) => {
            r.append(" ");
            r.append(invalid_message(e));
        },
        Ok(u) => {
            let ghost start = r@;
            let mut i: usize = 0;
            while i < u.len()
                invariant
                    0 <= i <= u@.len(),
                    r@ == start + units_text(units16_nat(u@.take(i as int)), 4),
                decreases u@.len() - i,
            {
                proof {
                    assert(units16_nat(u@.take(i + 1)).drop_last() =~= units16_nat(u@.take(i as int)));
                }
                r.append(" ");
                push_digits(&mut r, u[i] as u32, 16, 4);
                i = i + 1;
            }
            assert(u@.take(u@.len() as int) =~= u@);
        },
    }
    r
}

/// The numeric-forms section of the report on `cp`, as `flags` selects it.
pub fn write_utf(code_point: u32, flags: &Flags) -> (r: Vec<String>)
    ensures
        crate::text::strings_view(r@) == utf_section(code_point, flags.shown(), flags.show_color),
{
    let color = flags.show_color;
    let mut r: Vec<String> = Vec::new();
    if flags.show_dec {
        let mut line = String::from_str("  ");
        line.append(label_str("Decimal :", color).as_str());
        line.append(" ");
        line.append(to_decimal(code_point).as_str());
        r.push(line);
    }
    if flags.show_utf8 {
        r.push(utf8_text(code_point, color));
    }
    if flags.show_utf16 {
        r.push(utf16_text(code_point, color));
    }
    if flags.show_utf32 {
        let mut line = label_str("  UTF-32  :", color);
        line.append(" ");
        line.append(utf32_hex(code_point).as_str());
        r.push(line);
    }
    assert(crate::text::strings_view(r@) =~= utf_section(code_point, flags.shown(), flags.show_color));
    r
}

} // verus!
