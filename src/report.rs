//! The lookup orchestrator: turns an argument into code points and renders
//! the report on each from the three reference files, in the order numeric
//! forms, UnicodeData.txt fields, block, NamesList.txt entry.
use vstd::prelude::*;
use crate::blocks::{block_section, get_block_name};
use crate::config::{Flags, FlagsView};
use crate::names_list::{get_from_namelist, names_section};
use crate::text::{chars_of, hex_to_u32, hex_upper, hex_value, is_hex_char, lines_view, push_char, strings_view, to_hex};
use crate::unicode_data::{get_unicode_data, unicode_data_section};
use crate::utf::{is_scalar, utf_section, write_utf};

verus! {

/// Relies on `char::from_u32`: the character whose scalar value is `cp`,
/// `None` for surrogates and values above `0x10FFFF`.
#[verifier::external_body]
fn char_of(cp: u32) -> (r: Option<char>)
    ensures
        r is Some <==> is_scalar(cp),
        r matches Some(c) ==> c as u32 == cp,
{
    char::from_u32(cp)
}

/// The line that separates report sections.
pub open spec fn separator() -> Seq<char> {
    "  ------------------"@
}

/// `sep` followed by `section` when `on` holds, nothing otherwise.
pub open spec fn section_if(on: bool, section: Seq<Seq<char>>) -> Seq<Seq<char>> {
    if on {
        seq![separator()] + section
    } else {
        Seq::empty()
    }
}

/// The report on `cp` under configuration `f`: a heading, then each enabled
/// section after a separator; for a value that is no character, only a
/// heading that says so.
pub open spec fn char_report(
    cp: u32,
    f: FlagsView,
    ud: Seq<Seq<char>>,
    blocks: Seq<Seq<char>>,
    names: Seq<Seq<char>>,
) -> Seq<Seq<char>> {
    if !is_scalar(cp) {
        seq!["===== invalid code point "@ + hex_upper(cp as nat, 4) + " =========="@]
    } else {
        seq!["===== "@ + seq![cp as char] + " =========="@]
            + section_if(f.shown.utf, utf_section(cp, f.shown, f.color))
            + section_if(f.shown.ud, unicode_data_section(ud, cp, f.shown, f.color))
            + section_if(f.shown.block, block_section(blocks, cp, f.color))
            + section_if(f.shown.name, names_section(names, cp, f.color))
    }
}

fn append_section(r: &mut Vec<String>, on: bool, section: Vec<String>)
    ensures
        strings_view(final(r)@) == strings_view(old(r)@) + section_if(on, strings_view(section@)),
{
    if on {
        r.push(String::from_str("  ------------------"));
        let mut s = section;
        r.append(&mut s);
    }
    assert(strings_view(final(r)@) =~= strings_view(old(r)@) + section_if(on, strings_view(section@)));
}

/// The report on `code_point`, read from the lines of UnicodeData.txt,
/// Blocks.txt and NamesList.txt.
pub fn get_char_info(
    code_point: u32,
    flags: &Flags,
    unicode_data: &Vec<String>,
    blocks: &Vec<String>,
    names_list: &Vec<String>,
) -> (r: Vec<String>)
    ensures
        strings_view(r@) == char_report(
            code_point,
            flags@,
            lines_view(unicode_data@),
            lines_view(blocks@),
            lines_view(names_list@),
        ),
{
    let mut r: Vec<String> = Vec::new();
    match char_of(code_point) {
        None => {
            let mut head = String::from_str("===== invalid code point ");
            head.append(to_hex(code_point, 4).as_str());
            head.append(" ==========");
            r.push(head);
            assert(strings_view(r@) =~= char_report(code_point, flags@, lines_view(unicode_data@), lines_view(blocks@), lines_view(names_list@)));
        },
        Some(c) => {
            let mut head = String::from_str("===== ");
            push_char(&mut head, c);
            proof {
                vstd::utf8::char_u32_cast(c, code_point);
                assert(head@ =~= "===== "@ + seq![code_point as char]);
            }
            head.append(" ==========");
            r.push(head);
            proof {
                assert(strings_view(r@) =~= seq!["===== "@ + seq![code_point as char] + " =========="@]);
            }
            append_section(&mut r, flags.show_utf, write_utf(code_point, flags));
            append_section(&mut r, flags.show_unicode_data, get_unicode_data(code_point, flags, unicode_data));
            append_section(&mut r, flags.show_block_info, get_block_name(code_point, flags, blocks));
            append_section(&mut r, flags.show_name_info, get_from_namelist(code_point, flags, names_list));
            assert(strings_view(r@) =~= char_report(code_point, flags@, lines_view(unicode_data@), lines_view(blocks@), lines_view(names_list@)));
        },
    }
    r
}

/// An argument that stands for one code point: four to six hexadecimal
/// digits of either case.
pub open spec fn is_code_point_word(w: Seq<char>) -> bool {
    4 <= w.len() <= 6 && forall|i: int| 0 <= i < w.len() ==> is_hex_char(#[trigger] w[i])
}

/// The code points that an argument stands for: the value of its digits for
/// a code point word, else the scalar value of each of its characters.
pub open spec fn code_points(w: Seq<char>) -> Seq<u32> {
    if is_code_point_word(w) {
        seq![hex_value(w) as u32]
    } else {
        w.map_values(|c: char| c as u32)
    }
}

/// The code points that the argument `arg` stands for.
pub fn code_points_of(arg: &str) -> (r: Vec<u32>)
    ensures
        r@ == code_points(arg@),
{
    let cs = chars_of(arg);
    if 4 <= cs.len() && cs.len() <= 6 {
        match hex_to_u32(cs.as_slice()) {
            Some(v) => {
                proof {
                    crate::text::lemma_short_hex_fits(cs@);
                }
                let mut r: Vec<u32> = Vec::new();
                r.push(v);
                assert(r@ =~= code_points(arg@));
                return r;
            },
            None => {
                proof {
                    if is_code_point_word(arg@) {
                        crate::text::lemma_short_hex_fits(cs@);
                    }
                }
            },
        }
    }
    let mut r: Vec<u32> = Vec::new();
    let mut i: usize = 0;
    while i < cs.len()
        invariant
            0 <= i <= cs@.len(),
            r@ == cs@.take(i as int).map_values(|c: char| c as u32),
        decreases cs@.len() - i,
    {
        r.push(cs[i] as u32);
        assert(r@ =~= cs@.take(i + 1).map_values(|c: char| c as u32));
        i = i + 1;
    }
    assert(cs@.take(cs@.len() as int) =~= cs@);
    assert(!is_code_point_word(arg@));
    r
}

} // verus!
