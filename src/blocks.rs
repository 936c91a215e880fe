//! The Blocks.txt decoder: lines `START..END; Name` give inclusive
//! code-point intervals and their block names.
use vstd::prelude::*;
use vstd::slice::slice_subrange;
use crate::config::{label_str, label_text, Flags};
use crate::text::{chars_of, hex_to_u32, hex_value, is_upper_hex_char, lines_view, string_of_range, strings_view};

verus! {

/// The number of upper-case hexadecimal digits in `s` from index `from` on.
pub open spec fn upper_hex_run(s: Seq<char>, from: int) -> nat
    decreases s.len() - from,
{
    if 0 <= from < s.len() && is_upper_hex_char(s[from]) {
        1 + upper_hex_run(s, from + 1)
    } else {
        0
    }
}

/// A line of Blocks.txt read as (start, end, name): four to six upper-case
/// hexadecimal digits, `..`, four to six more, `; `, then a non-empty name
/// without a line feed, the whole line and nothing else.
pub open spec fn block_entry(line: Seq<char>) -> Option<(u32, u32, Seq<char>)> {
    let a = upper_hex_run(line, 0) as int;
    let b = upper_hex_run(line, a + 2) as int;
    let name = line.subrange(a + b + 4, line.len() as int);
    if 4 <= a <= 6 && a + 2 <= line.len() && line[a] == '.' && line[a + 1] == '.' && 4 <= b <= 6
        && a + b + 4 < line.len() && line[a + b + 2] == ';' && line[a + b + 3] == ' '
        && !name.contains('\n') {
        Some(
            (
                hex_value(line.subrange(0, a)) as u32,
                hex_value(line.subrange(a + 2, a + 2 + b)) as u32,
                name,
            ),
        )
    } else {
        None
    }
}

/// The name of the block holding `cp` among `lines[..n]`; when several do,
/// the last one in file order.
pub open spec fn block_scan(lines: Seq<Seq<char>>, cp: u32, n: int) -> Option<Seq<char>>
    decreases n,
{
    if n <= 0 {
        None
    } else {
        match block_entry(lines[n - 1]) {
            Some((s, e, name)) if s <= cp <= e => Some(name),
            _ => block_scan(lines, cp, n - 1),
        }
    }
}

fn run_length(cs: &[char], from: usize) -> (r: usize)
    requires
        from <= cs@.len(),
    ensures
        r == upper_hex_run(cs@, from as int),
        from + r <= cs@.len(),
{
    let mut k = from;
    while k < cs.len() && ('0' <= cs[k] && cs[k] <= '9' || 'A' <= cs[k] && cs[k] <= 'F')
        invariant
            from <= k <= cs@.len(),
            upper_hex_run(cs@, from as int) == (k - from) + upper_hex_run(cs@, k as int),
        decreases cs@.len() - k,
    {
        k = k + 1;
    }
    k - from
}

fn hex_digits_value(cs: &[char], from: usize, to: usize) -> (r: u32)
    requires
        from <= to <= cs@.len(),
        to - from <= 6,
        forall|i: int| from <= i < to ==> is_upper_hex_char(#[trigger] cs@[i]),
    ensures
        r == hex_value(cs@.subrange(from as int, to as int)),
{
    let part = slice_subrange(cs, from, to);
    proof {
        assert forall|i: int| 0 <= i < part@.len() implies crate::text::is_hex_char(#[trigger] part@[i]) by {
            assert(part@[i] == cs@[from + i]);
        }
        crate::text::lemma_short_hex_fits(part@);
    }
    match hex_to_u32(part) {
        Some(v) => v,
        None => 0,
    }
}

/// Reads one line of Blocks.txt.
#[verifier::loop_isolation(false)]
pub fn parse_block_line(line: &str) -> (r: Option<(u32, u32, String)>)
    ensures
        match r {
            None => block_entry(line@) is None,
            Some((s, e, n)) => block_entry(line@) == Some((s, e, n@)),
        },
{
    let cs = chars_of(line);
    let a = run_length(cs.as_slice(), 0);
    if a < 4 || a > 6 || a + 2 > cs.len() || cs[a] != '.' || cs[a + 1] != '.' {
        return None;
    }
    let b = run_length(cs.as_slice(), a + 2);
    if b < 4 || b > 6 || a + b + 4 >= cs.len() || cs[a + b + 2] != ';' || cs[a + b + 3] != ' ' {
        return None;
    }
    let mut k = a + b + 4;
    while k < cs.len()
        invariant
            a + b + 4 <= k <= cs@.len(),
            forall|i: int| a + b + 4 <= i < k ==> cs@[i] != '\n',
        decreases cs@.len() - k,
    {
        if cs[k] == '\n' {
            assert(cs@.subrange(a + b + 4, cs@.len() as int)[k - (a + b + 4)] == '\n');
            return None;
        }
        k = k + 1;
    }
    proof {
        let name = cs@.subrange(a + b + 4, cs@.len() as int);
        assert(!name.contains('\n')) by {
            assert forall|i: int| 0 <= i < name.len() implies name[i] != '\n' by {
                assert(name[i] == cs@[a + b + 4 + i]);
            }
        }
        lemma_run_digits(cs@, 0);
        lemma_run_digits(cs@, a + 2);
    }
    let start = hex_digits_value(cs.as_slice(), 0, a);
    let end = hex_digits_value(cs.as_slice(), a + 2, a + 2 + b);
    let name = string_of_range(cs.as_slice(), a + b + 4, cs.len());
    Some((start, end, name))
}

proof fn lemma_run_digits(s: Seq<char>, from: int)
    requires
        0 <= from,
    ensures
        forall|i: int| from <= i < from + upper_hex_run(s, from) ==> is_upper_hex_char(#[trigger] s[i]),
        from + upper_hex_run(s, from) <= s.len() || upper_hex_run(s, from) == 0,
    decreases s.len() - from,
{
    if 0 <= from < s.len() && is_upper_hex_char(s[from]) {
        lemma_run_digits(s, from + 1);
    }
}

/// The name of the block that holds `code_point` in the lines of
/// Blocks.txt; the last such line wins.
pub fn find_block(code_point: u32, lines: &Vec<String>) -> (r: Option<String>)
    ensures
        match r {
            None => block_scan(lines_view(lines@), code_point, lines@.len() as int) is None,
            Some(n) => block_scan(lines_view(lines@), code_point, lines@.len() as int) == Some(n@),
        },
{
    let ghost ls = lines_view(lines@);
    let mut r: Option<String> = None;
    let mut i: usize = 0;
    while i < lines.len()
        invariant
            0 <= i <= lines@.len(),
            ls == lines_view(lines@),
            match r {
                None => block_scan(ls, code_point, i as int) is None,
                Some(n) => block_scan(ls, code_point, i as int) == Some(n@),
            },
        decreases lines@.len() - i,
    {
        match parse_block_line(lines[i].as_str()) {
            Some((s, e, n)) => {
                if s <= code_point && code_point <= e {
                    r = Some(n);
                }
            },
            None => {},
        }
        i = i + 1;
    }
    r
}

/// The block section of the report: `  Unicode Block: <name>`, or nothing.
pub open spec fn block_section(lines: Seq<Seq<char>>, cp: u32, color: bool) -> Seq<Seq<char>> {
    match block_scan(lines, cp, lines.len() as int) {
        Some(n) => seq!["  "@ + label_text("Unicode Block:"@, color) + " "@ + n],
        None => Seq::empty(),
    }
}

/// The block section of the report on `code_point`, read from the lines of
/// Blocks.txt.
pub fn get_block_name(code_point: u32, flags: &Flags, lines: &Vec<String>) -> (r: Vec<String>)
    ensures
        strings_view(r@) == block_section(lines_view(lines@), code_point, flags.show_color),
{
    let mut r: Vec<String> = Vec::new();
    match find_block(code_point, lines) {
        Some(n) => {
            let mut line = String::from_str("  ");
            line.append(label_str("Unicode Block:", flags.show_color).as_str());
            line.append(" ");
            line.append(n.as_str());
            r.push(line);
        },
        None => {},
    }
    assert(strings_view(r@) =~= block_section(lines_view(lines@), code_point, flags.show_color));
    r
}

} // verus!
