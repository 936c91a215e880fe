//! The UnicodeData.txt decoder and its report section.
//!
//! Each line holds fields cut at `;`. A line whose first field is the code
//! point in upper-case hexadecimal (at least four digits) is the record of
//! that code point. A pair of lines whose second fields hold `First>` and
//! `Last>` is one record for every code point of the inclusive interval
//! between their first fields.
use vstd::prelude::*;
use crate::annotate::{bc_label, bc_to_string, bool_label, bool_to_string, ccc_label, ccc_to_string, gc_label, gc_to_string, trimmed};
use crate::config::{label_str, label_text, Flags, Toggles};
use crate::text::{
    chars_of, contains, ends_with, field, field_at, has_infix, has_suffix, hex_to_u32,
    hex_upper, lines_view, parse_hex, same_text, split_fields, split_on, string_of_prefix,
    strings_view, to_hex,
};

verus! {

/// The name field of the `Last>` row of a range, with its `, Last>` suffix
/// rewritten to `>`.
pub open spec fn range_name(name: Seq<char>) -> Seq<char> {
    if has_suffix(name, ", Last>"@) {
        name.take(name.len() - 7) + ">"@
    } else {
        name
    }
}

/// Scans `lines[i..]` for the record of `cp`, `pending` being the start of
/// the range whose `First>` row came last (cleared by each `Last>` row).
/// The first exact row or enclosing range in file order wins.
pub open spec fn ud_scan(lines: Seq<Seq<char>>, cp: u32, i: int, pending: Option<u32>) -> Option<
    Seq<Seq<char>>,
>
    decreases lines.len() - i,
{
    if i < 0 || i >= lines.len() {
        None
    } else {
        let f = split_on(lines[i], ';');
        if f[0] == hex_upper(cp as nat, 4) {
            Some(f)
        } else if has_infix(field(f, 1), "First>"@) {
            ud_scan(lines, cp, i + 1, parse_hex(f[0]))
        } else if has_infix(field(f, 1), "Last>"@) {
            if pending is Some && parse_hex(f[0]) is Some && pending->0 <= cp && cp <= parse_hex(
                f[0],
            )->0 {
                Some(f.update(1, range_name(f[1])))
            } else {
                ud_scan(lines, cp, i + 1, None)
            }
        } else {
            ud_scan(lines, cp, i + 1, pending)
        }
    }
}

/// The fields of the record of `cp` in the lines of UnicodeData.txt.
pub open spec fn ud_lookup(lines: Seq<Seq<char>>, cp: u32) -> Option<Seq<Seq<char>>> {
    ud_scan(lines, cp, 0, None)
}

/// `name` with a `, Last>` suffix rewritten to `>`.
pub fn normalize_range_name(name: &str) -> (r: String)
    ensures
        r@ == range_name(name@),
{
    let cs = chars_of(name);
    let suffix = chars_of(", Last>");
    proof {
        reveal_strlit(", Last>");
    }
    if ends_with(cs.as_slice(), suffix.as_slice()) {
        let mut r = string_of_prefix(cs.as_slice(), cs.len() - 7);
        r.append(">");
        r
    } else {
        String::from_str(name)
    }
}

/// Finds the record of `code_point` in the lines of UnicodeData.txt and
/// returns its fields.
pub fn find_unicode_data(code_point: u32, lines: &Vec<String>) -> (r: Option<Vec<String>>)
    ensures
        match r {
            None => ud_lookup(lines_view(lines@), code_point) is None,
            Some(f) => ud_lookup(lines_view(lines@), code_point) == Some(strings_view(f@)),
        },
{
    let ghost ls = lines_view(lines@);
    let cp_hex = to_hex(code_point, 4);
    let first = chars_of("First>");
    let last = chars_of("Last>");
    let mut pending: Option<u32> = None;
    let mut i: usize = 0;
    while i < lines.len()
        invariant
            0 <= i <= lines@.len(),
            ls == lines_view(lines@),
            cp_hex@ == hex_upper(code_point as nat, 4),
            first@ == "First>"@,
            last@ == "Last>"@,
            ud_lookup(ls, code_point) == ud_scan(ls, code_point, i as int, pending),
        decreases lines@.len() - i,
    {
        let f = split_fields(lines[i].as_str(), ';');
        proof {
            crate::text::lemma_split_nonempty(ls[i as int], ';');
        }
        let f0 = f[0].as_str();
        let f1 = chars_of(field_at(&f, 1));
        if same_text(f0, cp_hex.as_str()) {
            return Some(f);
        } else if contains(f1.as_slice(), first.as_slice()) {
            let c0 = chars_of(f0);
            pending = hex_to_u32(c0.as_slice());
        } else if contains(f1.as_slice(), last.as_slice()) {
            proof {
                reveal_strlit("Last>");
                if f@.len() <= 1 {
                    assert(f1@.len() == 0);
                }
            }
            let c0 = chars_of(f0);
            let end = hex_to_u32(c0.as_slice());
            match (pending, end) {
                (Some(s), Some(e)) => {
                    if s <= code_point && code_point <= e {
                        let mut g = f;
                        let name = normalize_range_name(g[1].as_str());
                        g.set(1, name);
                        assert(strings_view(g@) =~= split_on(ls[i as int], ';').update(
                            1,
                            range_name(split_on(ls[i as int], ';')[1]),
                        ));
                        return Some(g);
                    }
                },
                _ => {},
            }
            pending = None;
        }
        i = i + 1;
    }
    None
}

/// A report line `  <label> : <value>`, or nothing for an empty value.
pub open spec fn value_line(lbl: Seq<char>, value: Seq<char>, color: bool) -> Seq<Seq<char>> {
    if value.len() == 0 {
        Seq::empty()
    } else {
        seq!["  "@ + label_text(lbl, color) + " : "@ + value]
    }
}

/// A report line `  <label> : <value> ; <annotation>`, or nothing for an
/// empty value.
pub open spec fn annotated_line(lbl: Seq<char>, value: Seq<char>, note: Seq<char>, color: bool) -> Seq<
    Seq<char>,
> {
    if value.len() == 0 {
        Seq::empty()
    } else {
        seq!["  "@ + label_text(lbl, color) + " : "@ + value + " ; "@ + note]
    }
}

/// `lines` when `on` holds, nothing otherwise.
pub open spec fn when(on: bool, lines: Seq<Seq<char>>) -> Seq<Seq<char>> {
    if on {
        lines
    } else {
        Seq::empty()
    }
}

/// The report lines of a record's fields, each when its toggle is on.
pub open spec fn entry_lines(p: Seq<Seq<char>>, s: Toggles, c: bool) -> Seq<Seq<char>> {
    when(s.na, value_line("Character Name (na)            "@, field(p, 1), c))
    + when(s.gc, annotated_line("General Category (gc)          "@, field(p, 2), gc_label(trimmed(field(p, 2))), c))
    + when(s.ccc, annotated_line("Canonical Combining Class (ccc)"@, field(p, 3), ccc_label(trimmed(field(p, 3))), c))
    + when(s.bc, annotated_line("Bidirectional Class (bc)       "@, field(p, 4), bc_label(trimmed(field(p, 4))), c))
    + when(s.dm, value_line("Decomposition Mapping (dm)     "@, field(p, 5), c))
    + when(s.ddv, value_line("Decimal Digit Value (ddv)      "@, field(p, 6), c))
    + when(s.dv, value_line("Digit Value (dv)               "@, field(p, 7), c))
    + when(s.nv, value_line("Numeric Value (nv)             "@, field(p, 8), c))
    + when(s.mir, annotated_line("Mirrored (mir)                 "@, field(p, 9), bool_label(trimmed(field(p, 9))), c))
    + when(s.na1, value_line("Unicode 1.0 Name (na1)         "@, field(p, 10), c))
    + when(s.iso, value_line("10646 Comment Field (iso)      "@, field(p, 11), c))
    + when(s.suc, value_line("Simple Uppercase Mapping (suc) "@, field(p, 12), c))
    + when(s.slc, value_line("Simple Lowercase Mapping (slc) "@, field(p, 13), c))
    + when(s.stc, value_line("Simple Titlecase Mapping (stc) "@, field(p, 14), c))
}

fn push_value(r: &mut Vec<String>, on: bool, lbl: &str, value: &str, color: bool)
    ensures
        strings_view(final(r)@) == strings_view(old(r)@) + when(on, value_line(lbl@, value@, color)),
{
    if on && !value.is_empty() {
        let mut line = String::from_str("  ");
        line.append(label_str(lbl, color).as_str());
        line.append(" : ");
        line.append(value);
        r.push(line);
    }
    assert(strings_view(final(r)@) =~= strings_view(old(r)@) + when(on, value_line(lbl@, value@, color)));
}

fn push_annotated(r: &mut Vec<String>, on: bool, lbl: &str, value: &str, note: &str, color: bool)
    ensures
        strings_view(final(r)@) == strings_view(old(r)@) + when(
            on,
            annotated_line(lbl@, value@, note@, color),
        ),
{
    if on && !value.is_empty() {
        let mut line = String::from_str("  ");
        line.append(label_str(lbl, color).as_str());
        line.append(" : ");
        line.append(value);
        line.append(" ; ");
        line.append(note);
        r.push(line);
    }
    assert(strings_view(final(r)@) =~= strings_view(old(r)@) + when(
        on,
        annotated_line(lbl@, value@, note@, color),
    ));
}

/// The report lines of the record fields `parts`, as `flags` selects them;
/// empty fields are left out.
pub fn write_cp_entry(parts: &Vec<String>, flags: &Flags) -> (r: Vec<String>)
    ensures
        strings_view(r@) == entry_lines(strings_view(parts@), flags.shown(), flags.show_color),
{
    let c = flags.show_color;
    let mut r: Vec<String> = Vec::new();
    let v2 = field_at(parts, 2);
    let v3 = field_at(parts, 3);
    let v4 = field_at(parts, 4);
    let v9 = field_at(parts, 9);
    push_value(&mut r, flags.show_unicode_data_na, "Character Name (na)            ", field_at(parts, 1), c);
    push_annotated(&mut r, flags.show_unicode_data_gc, "General Category (gc)          ", v2, gc_to_string(v2), c);
    push_annotated(&mut r, flags.show_unicode_data_ccc, "Canonical Combining Class (ccc)", v3, ccc_to_string(v3), c);
    push_annotated(&mut r, flags.show_unicode_data_bc, "Bidirectional Class (bc)       ", v4, bc_to_string(v4), c);
    push_value(&mut r, flags.show_unicode_data_dm, "Decomposition Mapping (dm)     ", field_at(parts, 5), c);
    push_value(&mut r, flags.show_unicode_data_ddv, "Decimal Digit Value (ddv)      ", field_at(parts, 6), c);
    push_value(&mut r, flags.show_unicode_data_dv, "Digit Value (dv)               ", field_at(parts, 7), c);
    push_value(&mut r, flags.show_unicode_data_nv, "Numeric Value (nv)             ", field_at(parts, 8), c);
    push_annotated(&mut r, flags.show_unicode_data_mir, "Mirrored (mir)                 ", v9, bool_to_string(v9), c);
    push_value(&mut r, flags.show_unicode_data_na1, "Unicode 1.0 Name (na1)         ", field_at(parts, 10), c);
    push_value(&mut r, flags.show_unicode_data_iso, "10646 Comment Field (iso)      ", field_at(parts, 11), c);
    push_value(&mut r, flags.show_unicode_data_suc, "Simple Uppercase Mapping (suc) ", field_at(parts, 12), c);
    push_value(&mut r, flags.show_unicode_data_slc, "Simple Lowercase Mapping (slc) ", field_at(parts, 13), c);
    push_value(&mut r, flags.show_unicode_data_stc, "Simple Titlecase Mapping (stc) ", field_at(parts, 14), c);
    assert(strings_view(r@) =~= entry_lines(strings_view(parts@), flags.shown(), flags.show_color));
    r
}

/// The UnicodeData.txt section of the report on `cp`.
pub open spec fn unicode_data_section(lines: Seq<Seq<char>>, cp: u32, s: Toggles, c: bool) -> Seq<
    Seq<char>,
> {
    match ud_lookup(lines, cp) {
        Some(p) => entry_lines(p, s, c),
        None => Seq::empty(),
    }
}

/// The UnicodeData.txt section of the report on `code_point`, read from the
/// lines of that file: nothing when it holds no record of the code point.
pub fn get_unicode_data(code_point: u32, flags: &Flags, lines: &Vec<String>) -> (r: Vec<String>)
    ensures
        strings_view(r@) == unicode_data_section(lines_view(lines@), code_point, flags.shown(), flags.show_color),
{
    match find_unicode_data(code_point, lines) {
        Some(parts) => write_cp_entry(&parts, flags),
        None => Vec::new(),
    }
}

} // verus!
