//! The NamesList.txt decoder: a primary line `XXXX<tab>...` keyed by the
//! code point, followed by continuation lines that start with a tab or `@`.
use vstd::prelude::*;
use crate::config::{label_str, label_text, Flags};
use crate::text::{chars_of, has_prefix, hex_upper, lines_view, push_char, starts_with, strings_view, to_hex};

verus! {

/// A line that continues an entry: it starts with a tab or `@`.
pub open spec fn is_continuation(l: Seq<char>) -> bool {
    l.len() > 0 && (l[0] == '\t' || l[0] == '@')
}

/// The continuation lines of `lines` from index `from` up to the first line
/// that is not one.
pub open spec fn continuation_run(lines: Seq<Seq<char>>, from: int) -> Seq<Seq<char>>
    decreases lines.len() - from,
{
    if 0 <= from < lines.len() && is_continuation(lines[from]) {
        seq![lines[from]] + continuation_run(lines, from + 1)
    } else {
        Seq::empty()
    }
}

/// The key that starts the primary line of `cp`.
pub open spec fn names_key(cp: u32) -> Seq<char> {
    hex_upper(cp as nat, 4).push('\t')
}

/// The entry of the first primary line from index `i` on that starts with
/// `key`: that line and its continuation lines.
pub open spec fn names_scan(lines: Seq<Seq<char>>, key: Seq<char>, i: int) -> Option<Seq<Seq<char>>>
    decreases lines.len() - i,
{
    if i < 0 || i >= lines.len() {
        None
    } else if has_prefix(lines[i], key) {
        Some(seq![lines[i]] + continuation_run(lines, i + 1))
    } else {
        names_scan(lines, key, i + 1)
    }
}

/// The NamesList.txt entry of `cp`.
pub open spec fn names_lookup(lines: Seq<Seq<char>>, cp: u32) -> Option<Seq<Seq<char>>> {
    names_scan(lines, names_key(cp), 0)
}

/// Finds the NamesList.txt entry of `code_point`: its primary line and the
/// continuation lines that follow it.
pub fn find_in_namelist(code_point: u32, lines: &Vec<String>) -> (r: Option<Vec<String>>)
    ensures
        match r {
            None => names_lookup(lines_view(lines@), code_point) is None,
            Some(e) => names_lookup(lines_view(lines@), code_point) == Some(strings_view(e@)),
        },
{
    let ghost ls = lines_view(lines@);
    let mut key = to_hex(code_point, 4);
    push_char(&mut key, '\t');
    let key_chars = chars_of(key.as_str());
    let mut i: usize = 0;
    while i < lines.len()
        invariant
            0 <= i <= lines@.len(),
            ls == lines_view(lines@),
            key_chars@ == names_key(code_point),
            names_lookup(ls, code_point) == names_scan(ls, names_key(code_point), i as int),
        decreases lines@.len() - i,
    {
        let line = chars_of(lines[i].as_str());
        if starts_with(line.as_slice(), key_chars.as_slice()) {
            let mut entry: Vec<String> = Vec::new();
            entry.push(lines[i].clone());
            let mut j: usize = i + 1;
            assert(names_lookup(ls, code_point) == Some(seq![ls[i as int]] + continuation_run(ls, i + 1)));
            while j < lines.len()
                invariant
                    i < j <= lines@.len(),
                    ls == lines_view(lines@),
                    names_lookup(ls, code_point) == Some(seq![ls[i as int]] + continuation_run(ls, i + 1)),
                    strings_view(entry@) + continuation_run(ls, j as int) == seq![ls[i as int]]
                        + continuation_run(ls, i + 1),
                decreases lines@.len() - j,
            {
                let next = lines[j].as_str();
                let cs = chars_of(next);
                if cs.len() > 0 && (cs[0] == '\t' || cs[0] == '@') {
                    entry.push(lines[j].clone());
                    assert(strings_view(entry@) + continuation_run(ls, j + 1) =~= seq![ls[i as int]]
                        + continuation_run(ls, i + 1));
                    j = j + 1;
                } else {
                    assert(strings_view(entry@) =~= seq![ls[i as int]] + continuation_run(ls, i + 1));
                    return Some(entry);
                }
            }
            assert(strings_view(entry@) =~= seq![ls[i as int]] + continuation_run(ls, i + 1));
            return Some(entry);
        }
        i = i + 1;
    }
    None
}

/// Each line indented by four spaces.
pub open spec fn indented(lines: Seq<Seq<char>>) -> Seq<Seq<char>> {
    lines.map_values(|l: Seq<char>| "    "@ + l)
}

/// The NamesList.txt section of the report on `cp`: a heading and the
/// entry's lines, indented; nothing when there is no entry.
pub open spec fn names_section(lines: Seq<Seq<char>>, cp: u32, color: bool) -> Seq<Seq<char>> {
    match names_lookup(lines, cp) {
        Some(e) => seq!["  "@ + label_text("From NamesList.txt:"@, color)] + indented(e),
        None => Seq::empty(),
    }
}

/// The NamesList.txt section of the report on `code_point`, read from the
/// lines of that file.
pub fn get_from_namelist(code_point: u32, flags: &Flags, lines: &Vec<String>) -> (r: Vec<String>)
    ensures
        strings_view(r@) == names_section(lines_view(lines@), code_point, flags.show_color),
{
    let mut r: Vec<String> = Vec::new();
    match find_in_namelist(code_point, lines) {
        Some(e) => {
            let mut head = String::from_str("  ");
            head.append(label_str("From NamesList.txt:", flags.show_color).as_str());
            r.push(head);
            let mut k: usize = 0;
            while k < e.len()
                invariant
                    0 <= k <= e@.len(),
                    strings_view(r@) == seq!["  "@ + label_text("From NamesList.txt:"@, flags.show_color)]
                        + indented(strings_view(e@).take(k as int)),
                decreases e@.len() - k,
            {
                let mut line = String::from_str("    ");
                line.append(e[k].as_str());
                let ghost before = strings_view(r@);
                r.push(line);
                assert(strings_view(r@) =~= before.push("    "@ + e@[k as int]@));
                assert(strings_view(e@).take(k + 1) =~= strings_view(e@).take(k as int).push(e@[k as int]@));
                assert(indented(strings_view(e@).take(k + 1)) =~= indented(strings_view(e@).take(k as int)).push("    "@ + e@[k as int]@));
                assert(strings_view(r@) =~= seq!["  "@ + label_text("From NamesList.txt:"@, flags.show_color)]
                    + indented(strings_view(e@).take(k + 1)));
                k = k + 1;
            }
            assert(strings_view(e@).take(e@.len() as int) =~= strings_view(e@));
        },
        None => {},
    }
    r
}

} // verus!
