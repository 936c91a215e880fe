use unicode_info::annotate::{bc_to_string, bool_to_string, ccc_to_string, gc_label_of, gc_to_string};
use unicode_info::blocks::{find_block, get_block_name, parse_block_line};
use unicode_info::config::{label, label_str, parse_args_with_terminal, Flags};
use unicode_info::names_list::{find_in_namelist, get_from_namelist};
use unicode_info::report::{code_points_of, get_char_info};
use unicode_info::text::{split_fields, to_decimal, to_hex};
use unicode_info::unicode_data::{find_unicode_data, get_unicode_data, normalize_range_name, write_cp_entry};
use unicode_info::utf::{utf16_encode, utf32_hex, utf8_encode, write_utf, InvalidCodePoint};

fn lines(v: &[&str]) -> Vec<String> {
    v.iter().map(|s| s.to_string()).collect()
}

fn args(v: &[&str]) -> Vec<String> {
    lines(v)
}

fn unicode_data_fixture() -> Vec<String> {
    lines(&[
        "0041;LATIN CAPITAL LETTER A;Lu;0;L;;;;;N;;;;0061;",
        "0048;LATIN CAPITAL LETTER H;Lu;0;L;;;;;N;;;;0068;",
        "00E9;LATIN SMALL LETTER E WITH ACUTE;Ll;0;L;0065 0301;;;;N;LATIN SMALL LETTER E ACUTE;;00C9;;00C9",
        "0664;ARABIC-INDIC DIGIT FOUR;Nd;0;AN;;4;4;4;N;;;;;",
        "AC00;<Hangul Syllable, First>;Lo;0;L;;;;;N;;;;;",
        "D7A3;<Hangul Syllable, Last>;Lo;0;L;;;;;N;;;;;",
    ])
}

fn blocks_fixture() -> Vec<String> {
    lines(&["# Blocks", "0000..007F; Basic Latin", "0080..00FF; Latin-1 Supplement", "AC00..D7AF; Hangul Syllables"])
}

fn names_fixture() -> Vec<String> {
    lines(&[
        "@@\t0000\tC0 Controls and Basic Latin\t007F",
        "0041\tLATIN CAPITAL LETTER A",
        "\tx (latin small letter a - 0061)",
        "@\t\tSee also",
        "0042\tLATIN CAPITAL LETTER B",
        "\t= b",
    ])
}

fn quiet(words: &[&str]) -> Flags {
    parse_args_with_terminal(&args(words), false).unwrap()
}

#[test]
fn direct_entry_gives_name_and_category() {
    let f = find_unicode_data(0x48, &unicode_data_fixture()).unwrap();
    assert_eq!(f[1], "LATIN CAPITAL LETTER H");
    assert_eq!(f[2], "Lu");
    assert_eq!(gc_to_string(&f[2]), "Uppercase Letter");
    let out = get_unicode_data(0x48, &quiet(&["p", "-udna", "-udgc"]), &unicode_data_fixture());
    assert_eq!(
        out,
        vec![
            "  Character Name (na)             : LATIN CAPITAL LETTER H".to_string(),
            "  General Category (gc)           : Lu ; Uppercase Letter".to_string(),
        ]
    );
}

#[test]
fn range_entry_is_synthesized_with_normalized_name() {
    let f = find_unicode_data(0xB000, &unicode_data_fixture()).unwrap();
    assert_eq!(f[0], "D7A3");
    assert_eq!(f[1], "<Hangul Syllable>");
    assert_eq!(f[2], "Lo");
    assert!(find_unicode_data(0xAC00, &unicode_data_fixture()).is_some());
    assert!(find_unicode_data(0xD7A3, &unicode_data_fixture()).is_some());
    assert!(find_unicode_data(0xD7A4, &unicode_data_fixture()).is_none());
    assert!(find_unicode_data(0x0042, &unicode_data_fixture()).is_none());
}

#[test]
fn exact_row_wins_over_enclosing_range_in_file_order() {
    let data = lines(&["AC00;<Foo, First>;Lo;;;;;;;;;;;;", "AC10;<Foo, Last>;Lo;;;;;;;;;;;;", "AC05;EXACT;Lu;;;;;;;;;;;;"]);
    assert_eq!(find_unicode_data(0xAC05, &data).unwrap()[1], "<Foo>");
    let data2 = lines(&["AC05;EXACT;Lu;;;;;;;;;;;;", "AC00;<Foo, First>;Lo;;;;;;;;;;;;", "AC10;<Foo, Last>;Lo;;;;;;;;;;;;"]);
    assert_eq!(find_unicode_data(0xAC05, &data2).unwrap()[1], "EXACT");
}

#[test]
fn last_row_without_first_row_matches_nothing() {
    let data = lines(&["AC10;<Foo, Last>;Lo;;;;;;;;;;;;"]);
    assert!(find_unicode_data(0xAC05, &data).is_none());
}

#[test]
fn block_lookup_inside_and_outside() {
    let b = lines(&["0000..007F; Basic Latin"]);
    assert_eq!(find_block(0x41, &b), Some("Basic Latin".to_string()));
    assert_eq!(find_block(0x100, &b), None);
    assert_eq!(
        get_block_name(0x41, &quiet(&["p", "-b"]), &b),
        vec!["  Unicode Block: Basic Latin".to_string()]
    );
    assert!(get_block_name(0x100, &quiet(&["p", "-b"]), &b).is_empty());
}

#[test]
fn block_lookup_last_match_wins() {
    let b = lines(&["0000..00FF; First", "0040..007F; Second"]);
    assert_eq!(find_block(0x41, &b), Some("Second".to_string()));
    assert_eq!(find_block(0x20, &b), Some("First".to_string()));
}

#[test]
fn block_line_grammar() {
    assert_eq!(parse_block_line("10000..1007F; Linear B Syllabary"), Some((0x10000, 0x1007F, "Linear B Syllabary".to_string())));
    assert_eq!(parse_block_line("# Blocks-15.0.0.txt"), None);
    assert_eq!(parse_block_line("0000..007f; lower"), None);
    assert_eq!(parse_block_line("000..007F; short"), None);
    assert_eq!(parse_block_line("0000..007F;"), None);
    assert_eq!(parse_block_line("0000..007F; "), None);
    assert_eq!(parse_block_line("0000..0000007F; Long"), None);
}

#[test]
fn names_list_entry_and_continuations() {
    let e = find_in_namelist(0x41, &names_fixture()).unwrap();
    assert_eq!(e, lines(&["0041\tLATIN CAPITAL LETTER A", "\tx (latin small letter a - 0061)", "@\t\tSee also"]));
    let e2 = find_in_namelist(0x42, &names_fixture()).unwrap();
    assert_eq!(e2, lines(&["0042\tLATIN CAPITAL LETTER B", "\t= b"]));
    assert!(find_in_namelist(0x43, &names_fixture()).is_none());
    let out = get_from_namelist(0x42, &quiet(&["p", "-n"]), &names_fixture());
    assert_eq!(
        out,
        lines(&["  From NamesList.txt:", "    0042\tLATIN CAPITAL LETTER B", "    \t= b"])
    );
}

#[test]
fn utf8_forms_follow_the_boundary_table() {
    assert_eq!(utf8_encode(0x41), Ok(vec![0x41]));
    assert_eq!(utf8_encode(0x7F), Ok(vec![0x7F]));
    assert_eq!(utf8_encode(0x80), Ok(vec![0xC2, 0x80]));
    assert_eq!(utf8_encode(0xE9), Ok(vec![0xC3, 0xA9]));
    assert_eq!(utf8_encode(0x7FF), Ok(vec![0xDF, 0xBF]));
    assert_eq!(utf8_encode(0x800), Ok(vec![0xE0, 0xA0, 0x80]));
    assert_eq!(utf8_encode(0x20AC), Ok(vec![0xE2, 0x82, 0xAC]));
    assert_eq!(utf8_encode(0xFFFF), Ok(vec![0xEF, 0xBF, 0xBF]));
    assert_eq!(utf8_encode(0x10000), Ok(vec![0xF0, 0x90, 0x80, 0x80]));
    assert_eq!(utf8_encode(0x1F4A9), Ok(vec![0xF0, 0x9F, 0x92, 0xA9]));
    assert_eq!(utf8_encode(0x10FFFF), Ok(vec![0xF4, 0x8F, 0xBF, 0xBF]));
}

#[test]
fn utf8_round_trip_through_std_decoder() {
    let mut cp: u32 = 0;
    while cp <= 0x10FFFF {
        if !(0xD800..=0xDFFF).contains(&cp) {
            let b = utf8_encode(cp).unwrap();
            let s = String::from_utf8(b.clone()).unwrap();
            let cs: Vec<char> = s.chars().collect();
            assert_eq!(cs.len(), 1);
            assert_eq!(cs[0] as u32, cp);
            let want = if cp < 0x80 { 1 } else if cp < 0x800 { 2 } else if cp < 0x10000 { 3 } else { 4 };
            assert_eq!(b.len(), want);
        }
        cp += 0x3F;
    }
}

#[test]
fn utf16_forms_and_pair_inverse() {
    assert_eq!(utf16_encode(0x41), Ok(vec![0x41]));
    assert_eq!(utf16_encode(0xFFFF), Ok(vec![0xFFFF]));
    assert_eq!(utf16_encode(0x1F4A9), Ok(vec![0xD83D, 0xDCA9]));
    assert_eq!(utf16_encode(0x10000), Ok(vec![0xD800, 0xDC00]));
    assert_eq!(utf16_encode(0x10FFFF), Ok(vec![0xDBFF, 0xDFFF]));
    let mut cp: u32 = 0x10000;
    while cp <= 0x10FFFF {
        let u = utf16_encode(cp).unwrap();
        assert_eq!(u.len(), 2);
        let back = ((u[0] as u32 - 0xD800) << 10) + (u[1] as u32 - 0xDC00) + 0x10000;
        assert_eq!(back, cp);
        let std_units: Vec<u16> = char::from_u32(cp).unwrap().encode_utf16(&mut [0u16; 2]).to_vec();
        assert_eq!(u, std_units);
        cp += 0x101;
    }
}

#[test]
fn invalid_values_are_reported_and_utf32_still_renders() {
    assert_eq!(utf8_encode(0xD800), Err(InvalidCodePoint::Surrogate));
    assert_eq!(utf8_encode(0xDFFF), Err(InvalidCodePoint::Surrogate));
    assert_eq!(utf16_encode(0xDC00), Err(InvalidCodePoint::Surrogate));
    assert_eq!(utf8_encode(0x110000), Err(InvalidCodePoint::AboveMax));
    assert_eq!(utf16_encode(0xFFFF_FFFF), Err(InvalidCodePoint::AboveMax));
    assert_eq!(utf32_hex(0xD800), "0000D800");
    assert_eq!(utf32_hex(0x110000), "00110000");
    assert_eq!(utf32_hex(0xFFFF_FFFF), "FFFFFFFF");
    let f = quiet(&["p", "-u"]);
    assert_eq!(
        write_utf(0xD800, &f),
        lines(&[
            "  Decimal : 55296",
            "  UTF-8   : Invalid codepoint (in the surrogate range)",
            "  UTF-16  : Invalid codepoint (in the surrogate range)",
            "  UTF-32  : 0000D800",
        ])
    );
    assert_eq!(
        write_utf(0x110000, &f)[1],
        "  UTF-8   : Invalid codepoint (above 0x10FFFF)"
    );
}

#[test]
fn numeric_section_lines() {
    let f = quiet(&["p", "-u"]);
    assert_eq!(
        write_utf(0x1F4A9, &f),
        lines(&["  Decimal : 128169", "  UTF-8   : F0 9F 92 A9", "  UTF-16  : D83D DCA9", "  UTF-32  : 0001F4A9"])
    );
    assert_eq!(write_utf(0x41, &quiet(&["p", "-u8"])), lines(&["  UTF-8   : 41"]));
}

#[test]
fn annotators_map_codes_and_unknowns() {
    assert_eq!(gc_to_string("Lu"), "Uppercase Letter");
    assert_eq!(gc_to_string(" Lo "), "Other Letter");
    assert_eq!(gc_label_of(" Lo "), "???");
    assert_eq!(gc_to_string("Xx"), "???");
    assert_eq!(bc_to_string("AN"), "Arabic Number");
    assert_eq!(bc_to_string("B"), "Paragraph Separator");
    assert_eq!(ccc_to_string("230"), "A ; Above");
    assert_eq!(ccc_to_string("0"), "NR ; Not Reordered ; Spacing, split, enclosing, reordrant, and Tibetan subjoined");
    assert_eq!(ccc_to_string("5"), "???");
    assert_eq!(bool_to_string("N"), "No ; F ; False");
    assert_eq!(bool_to_string("Y"), "Yes ; T ; True");
    assert_eq!(bool_to_string("y"), "???");
}

#[test]
fn empty_fields_are_left_out_of_the_entry() {
    let parts = split_fields("0664;ARABIC-INDIC DIGIT FOUR;Nd;0;AN;;4;4;4;N;;;;;", ';');
    assert_eq!(parts.len(), 15);
    let out = write_cp_entry(&parts, &quiet(&["p", "-ud"]));
    assert_eq!(
        out,
        lines(&[
            "  Character Name (na)             : ARABIC-INDIC DIGIT FOUR",
            "  General Category (gc)           : Nd ; Decimal Number ; digit",
            "  Canonical Combining Class (ccc) : 0 ; NR ; Not Reordered ; Spacing, split, enclosing, reordrant, and Tibetan subjoined",
            "  Bidirectional Class (bc)        : AN ; Arabic Number",
            "  Decimal Digit Value (ddv)       : 4",
            "  Digit Value (dv)                : 4",
            "  Numeric Value (nv)              : 4",
            "  Mirrored (mir)                  : N ; No ; F ; False",
        ])
    );
    let short = split_fields("0041;NAME", ';');
    assert_eq!(write_cp_entry(&short, &quiet(&["p", "-udgc"])), Vec::<String>::new());
}

#[test]
fn range_name_normalization() {
    assert_eq!(normalize_range_name("<CJK Ideograph, Last>"), "<CJK Ideograph>");
    assert_eq!(normalize_range_name("<Plane 15 Private Use, Last>"), "<Plane 15 Private Use>");
    assert_eq!(normalize_range_name("LATIN"), "LATIN");
}

#[test]
fn no_flags_same_output_as_every_flag() {
    let none = quiet(&["p", "0041"]);
    let all = quiet(&[
        "p", "0041", "-u", "-d", "-u8", "-u16", "-u32", "-ud", "-udna", "-udgc", "-udccc", "-udbc", "-uddm",
        "-udddv", "-uddv", "-udnv", "-udmir", "-udna1", "-udiso", "-udsuc", "-udslc", "-udstc", "-b", "-n",
    ]);
    assert_eq!(none.rest, all.rest);
    for cp in [0x41u32, 0x48, 0xE9, 0xB000, 0x1F4A9, 0xD800] {
        let a = get_char_info(cp, &none, &unicode_data_fixture(), &blocks_fixture(), &names_fixture());
        let b = get_char_info(cp, &all, &unicode_data_fixture(), &blocks_fixture(), &names_fixture());
        assert_eq!(a, b);
    }
}

#[test]
fn parent_flag_same_output_as_all_field_flags() {
    let parent = quiet(&["p", "-ud"]);
    let fields = quiet(&[
        "p", "-udna", "-udgc", "-udccc", "-udbc", "-uddm", "-udddv", "-uddv", "-udnv", "-udmir", "-udna1", "-udiso",
        "-udsuc", "-udslc", "-udstc",
    ]);
    for cp in [0x41u32, 0xE9, 0x664, 0xB000] {
        let a = get_char_info(cp, &parent, &unicode_data_fixture(), &blocks_fixture(), &names_fixture());
        let b = get_char_info(cp, &fields, &unicode_data_fixture(), &blocks_fixture(), &names_fixture());
        assert_eq!(a, b);
    }
}

#[test]
fn child_flag_enables_parent_only_for_its_group() {
    let f = quiet(&["p", "-udgc", "-u8"]);
    assert!(f.show_unicode_data && f.show_unicode_data_gc && !f.show_unicode_data_na);
    assert!(f.show_utf && f.show_utf8 && !f.show_dec && !f.show_utf16);
    assert!(!f.show_block_info && !f.show_name_info);
    let out = get_char_info(0x41, &f, &unicode_data_fixture(), &blocks_fixture(), &names_fixture());
    assert_eq!(
        out,
        lines(&[
            "===== A ==========",
            "  ------------------",
            "  UTF-8   : 41",
            "  ------------------",
            "  General Category (gc)           : Lu ; Uppercase Letter",
        ])
    );
}

#[test]
fn help_and_color_words() {
    assert!(parse_args_with_terminal(&args(&["p", "-b", "-h"]), false).is_none());
    assert!(parse_args_with_terminal(&args(&["p", "--help"]), true).is_none());
    let f = parse_args_with_terminal(&args(&["p", "--color=always", "x"]), false).unwrap();
    assert!(f.show_color);
    assert_eq!(f.rest, args(&["x"]));
    let g = parse_args_with_terminal(&args(&["p", "--color=always", "--color=never"]), true).unwrap();
    assert!(!g.show_color);
    let t = parse_args_with_terminal(&args(&["p"]), true).unwrap();
    assert!(t.show_color && t.show_utf && t.show_name_info);
    assert!(!Flags::new(false).show_utf && Flags::new(true).show_unicode_data_stc);
}

#[test]
fn labels_are_colored_on_request() {
    let f = parse_args_with_terminal(&args(&["p", "--color=always"]), false).unwrap();
    assert_eq!(label(&"Decimal :".to_string(), &f), "\x1b[93mDecimal :\x1b[m");
    assert_eq!(label_str("x", false), "x");
}

#[test]
fn full_report_and_invalid_code_point() {
    let f = quiet(&["p"]);
    let out = get_char_info(0x41, &f, &unicode_data_fixture(), &blocks_fixture(), &names_fixture());
    assert_eq!(out[0], "===== A ==========");
    assert_eq!(out[1], "  ------------------");
    assert_eq!(out[2], "  Decimal : 65");
    assert!(out.contains(&"  Unicode Block: Basic Latin".to_string()));
    assert_eq!(out[out.len() - 1], "    @\t\tSee also");
    let bad = get_char_info(0xD800, &f, &unicode_data_fixture(), &blocks_fixture(), &names_fixture());
    assert_eq!(bad, lines(&["===== invalid code point D800 =========="]));
    let e = get_char_info(0xE9, &f, &unicode_data_fixture(), &blocks_fixture(), &names_fixture());
    assert_eq!(e[0], "===== é ==========");
}

#[test]
fn arguments_become_code_points() {
    assert_eq!(code_points_of("0041"), vec![0x41]);
    assert_eq!(code_points_of("00e9"), vec![0xE9]);
    assert_eq!(code_points_of("1F4A9"), vec![0x1F4A9]);
    assert_eq!(code_points_of("10FFFF"), vec![0x10FFFF]);
    assert_eq!(code_points_of("abc"), vec![0x61, 0x62, 0x63]);
    assert_eq!(code_points_of("0041Z"), vec![0x30, 0x30, 0x34, 0x31, 0x5A]);
    assert_eq!(code_points_of("1234567"), vec![0x31, 0x32, 0x33, 0x34, 0x35, 0x36, 0x37]);
    assert_eq!(code_points_of("日本"), vec![0x65E5, 0x672C]);
    assert_eq!(code_points_of(""), Vec::<u32>::new());
}

#[test]
fn number_formatting() {
    assert_eq!(to_hex(0x41, 4), "0041");
    assert_eq!(to_hex(0x1F4A9, 4), "1F4A9");
    assert_eq!(to_hex(0, 2), "00");
    assert_eq!(to_decimal(0), "0");
    assert_eq!(to_decimal(4294967295), "4294967295");
    assert_eq!(split_fields("a;;b", ';'), lines(&["a", "", "b"]));
    assert_eq!(split_fields("", ';'), lines(&[""]));
}
