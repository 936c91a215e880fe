//! The language-subtag registry tool's logic: records are runs of
//! `Key: Value` lines between `%%` lines, a line indented by two spaces
//! continues the previous one, and a record is shown when it meets every
//! criterion (a value that starts with `=` must match exactly, any other
//! must occur in the record's value).
use vstd::prelude::*;
use crate::text::{chars_of, contains, has_infix, has_prefix, same_text, starts_with, string_of_range};

verus! {

/// The characters of each key and value.
pub open spec fn pairs_view(m: Seq<(String, String)>) -> Seq<(Seq<char>, Seq<char>)> {
    m.map_values(|p: (String, String)| (p.0@, p.1@))
}

/// Index of the first `: ` in `line` at or after `from`.
pub open spec fn first_sep(line: Seq<char>, from: int) -> Option<int>
    decreases line.len() - from,
{
    if from < 0 || from + 2 > line.len() {
        None
    } else if line[from] == ':' && line[from + 1] == ' ' {
        Some(from)
    } else {
        first_sep(line, from + 1)
    }
}

/// `line` cut at its first `: ` into key and value.
pub open spec fn split_pair(line: Seq<char>) -> Option<(Seq<char>, Seq<char>)> {
    match first_sep(line, 0) {
        Some(k) => Some((line.take(k), line.skip(k + 2))),
        None => None,
    }
}

/// Cuts `line` at its first `: ` into key and value.
pub fn split_key_value(line: &str) -> (r: Option<(String, String)>)
    ensures
        match r {
            None => split_pair(line@) is None,
            Some((k, v)) => split_pair(line@) == Some((k@, v@)),
        },
{
    let cs = chars_of(line);
    let mut i: usize = 0;
    while cs.len() >= 2 && i < cs.len() - 1
        invariant
            i <= cs@.len(),
            cs@ == line@,
            first_sep(cs@, 0) == first_sep(cs@, i as int),
        decreases cs@.len() - i,
    {
        if cs[i] == ':' && cs[i + 1] == ' ' {
            let k = string_of_range(cs.as_slice(), 0, i);
            let v = string_of_range(cs.as_slice(), i + 2, cs.len());
            assert(k@ =~= cs@.take(i as int));
            assert(v@ =~= cs@.skip(i + 2));
            return Some((k, v));
        }
        i = i + 1;
    }
    None
}

/// Index of the first pair whose key is `k`.
pub open spec fn key_pos(m: Seq<(Seq<char>, Seq<char>)>, k: Seq<char>) -> Option<int>
    decreases m.len(),
{
    if m.len() == 0 {
        None
    } else {
        match key_pos(m.drop_last(), k) {
            Some(i) => Some(i),
            None => if m.last().0 == k {
                Some(m.len() - 1)
            } else {
                None
            },
        }
    }
}

proof fn lemma_key_pos_bounds(m: Seq<(Seq<char>, Seq<char>)>, k: Seq<char>)
    ensures
        key_pos(m, k) matches Some(i) ==> 0 <= i < m.len() && m[i].0 == k,
    decreases m.len(),
{
    if m.len() > 0 {
        lemma_key_pos_bounds(m.drop_last(), k);
    }
}

/// Finds the first pair of `m` whose key is `k`.
pub fn find_key(m: &Vec<(String, String)>, k: &str) -> (r: Option<usize>)
    ensures
        match r {
            None => key_pos(pairs_view(m@), k@) is None,
            Some(i) => key_pos(pairs_view(m@), k@) == Some(i as int),
        },
{
    let mut i: usize = 0;
    while i < m.len()
        invariant
            0 <= i <= m@.len(),
            key_pos(pairs_view(m@).take(i as int), k@) is None,
        decreases m@.len() - i,
    {
        assert(pairs_view(m@).take(i + 1).drop_last() =~= pairs_view(m@).take(i as int));
        if same_text(m[i].0.as_str(), k) {
            proof {
                lemma_key_pos_prefix(pairs_view(m@), k@, i + 1);
            }
            return Some(i);
        }
        i = i + 1;
    }
    assert(pairs_view(m@).take(m@.len() as int) =~= pairs_view(m@));
    None
}

proof fn lemma_key_pos_prefix(m: Seq<(Seq<char>, Seq<char>)>, k: Seq<char>, n: int)
    requires
        0 <= n <= m.len(),
        key_pos(m.take(n), k) is Some,
    ensures
        key_pos(m, k) == key_pos(m.take(n), k),
    decreases m.len() - n,
{
    if n < m.len() {
        assert(m.take(n + 1).drop_last() =~= m.take(n));
        lemma_key_pos_prefix(m, k, n + 1);
    } else {
        assert(m.take(n) =~= m);
    }
}

/// What separates the values of a key that a record repeats.
pub open spec fn value_separator() -> Seq<char> {
    " ::<sep_tzu>:: "@
}

/// `m` with the value `v` added under key `k`: appended after a separator
/// to the value already there, or as a new last pair.
pub open spec fn add_value(m: Seq<(Seq<char>, Seq<char>)>, k: Seq<char>, v: Seq<char>) -> Seq<
    (Seq<char>, Seq<char>),
> {
    match key_pos(m, k) {
        Some(i) => m.update(i, (k, m[i].1 + value_separator() + v)),
        None => m.push((k, v)),
    }
}

/// The fields of a record's lines, keys unique in order of first
/// appearance; a line without `: ` adds nothing.
pub open spec fn record_map(lines: Seq<Seq<char>>) -> Seq<(Seq<char>, Seq<char>)>
    decreases lines.len(),
{
    if lines.len() == 0 {
        Seq::empty()
    } else {
        let m = record_map(lines.drop_last());
        match split_pair(lines.last()) {
            Some((k, v)) => add_value(m, k, v),
            None => m,
        }
    }
}

/// The fields of the record whose lines are `record`.
pub fn vec_to_map(record: &Vec<String>) -> (r: Vec<(String, String)>)
    ensures
        pairs_view(r@) == record_map(crate::text::strings_view(record@)),
{
    let ghost lines = crate::text::strings_view(record@);
    let mut r: Vec<(String, String)> = Vec::new();
    let mut i: usize = 0;
    while i < record.len()
        invariant
            0 <= i <= record@.len(),
            lines == crate::text::strings_view(record@),
            pairs_view(r@) == record_map(lines.take(i as int)),
        decreases record@.len() - i,
    {
        assert(lines.take(i + 1).drop_last() =~= lines.take(i as int));
        match split_key_value(record[i].as_str()) {
            Some((k, v)) => {
                match find_key(&r, k.as_str()) {
                    Some(j) => {
                        proof {
                            lemma_key_pos_bounds(pairs_view(r@), k@);
                        }
                        let mut joined = r[j].1.clone();
                        joined.append(" ::<sep_tzu>:: ");
                        joined.append(v.as_str());
                        r.set(j, (k, joined));
                    },
                    None => {
                        r.push((k, v));
                    },
                }
                assert(pairs_view(r@) =~= record_map(lines.take(i + 1)));
            },
            None => {},
        }
        i = i + 1;
    }
    assert(lines.take(record@.len() as int) =~= lines);
    r
}

/// The record fields `m` meet the criterion that key `k` has value `v`.
pub open spec fn criterion_holds(m: Seq<(Seq<char>, Seq<char>)>, k: Seq<char>, v: Seq<char>) -> bool {
    match key_pos(m, k) {
        None => false,
        Some(i) => if v.len() > 0 && v[0] == '=' {
            m[i].1 == v.drop_first()
        } else {
            has_infix(m[i].1, v)
        },
    }
}

/// The record fields `m` meet every criterion.
pub open spec fn meets_all(m: Seq<(Seq<char>, Seq<char>)>, c: Seq<(Seq<char>, Seq<char>)>) -> bool {
    forall|i: int| 0 <= i < c.len() ==> #[trigger] criterion_holds(m, c[i].0, c[i].1)
}

/// Whether the record fields `m` meet every criterion of `criteria`.
pub fn matches_all(m: &Vec<(String, String)>, criteria: &Vec<(String, String)>) -> (r: bool)
    ensures
        r == meets_all(pairs_view(m@), pairs_view(criteria@)),
{
    let ghost mv = pairs_view(m@);
    let ghost cv = pairs_view(criteria@);
    let mut i: usize = 0;
    while i < criteria.len()
        invariant
            0 <= i <= criteria@.len(),
            mv == pairs_view(m@),
            cv == pairs_view(criteria@),
            forall|j: int| 0 <= j < i ==> #[trigger] criterion_holds(mv, cv[j].0, cv[j].1),
        decreases criteria@.len() - i,
    {
        let k = criteria[i].0.as_str();
        let v = chars_of(criteria[i].1.as_str());
        let ok = match find_key(m, k) {
            None => false,
            Some(p) => {
                proof {
                    lemma_key_pos_bounds(mv, k@);
                }
                let value = chars_of(m[p].1.as_str());
                if v.len() > 0 && v[0] == '=' {
                    let want = string_of_range(v.as_slice(), 1, v.len());
                    assert(want@ =~= v@.drop_first());
                    same_text(m[p].1.as_str(), want.as_str())
                } else {
                    contains(value.as_slice(), v.as_slice())
                }
            },
        };
        if !ok {
            assert(!criterion_holds(mv, cv[i as int].0, cv[i as int].1));
            return false;
        }
        i = i + 1;
    }
    true
}

/// How a record line is shown: `  Key: Value`, the key coloured when
/// `color` holds; a line without `: ` is shown indented as it is.
pub open spec fn shown_line(l: Seq<char>, color: bool) -> Seq<char> {
    match split_pair(l) {
        Some((k, v)) => if color {
            "  \x1b[93m"@ + k + ":\x1b[m "@ + v
        } else {
            "  "@ + k + ": "@ + v
        },
        None => "  "@ + l,
    }
}

/// What is shown of a record: `%%` and its lines when its fields meet every
/// criterion, nothing otherwise.
pub open spec fn record_output(section: Seq<Seq<char>>, c: Seq<(Seq<char>, Seq<char>)>, color: bool) -> Seq<
    Seq<char>,
> {
    if meets_all(record_map(section), c) {
        seq!["%%"@] + section.map_values(|l: Seq<char>| shown_line(l, color))
    } else {
        Seq::empty()
    }
}

fn show_line(l: &str, color: bool) -> (r: String)
    ensures
        r@ == shown_line(l@, color),
{
    match split_key_value(l) {
        Some((k, v)) => {
            if color {
                let mut r = String::from_str("  \x1b[93m");
                r.append(k.as_str());
                r.append(":\x1b[m ");
                r.append(v.as_str());
                r
            } else {
                let mut r = String::from_str("  ");
                r.append(k.as_str());
                r.append(": ");
                r.append(v.as_str());
                r
            }
        },
        None => {
            let mut r = String::from_str("  ");
            r.append(l);
            r
        },
    }
}

/// The lines shown for the record `section` under `criteria`.
pub fn print_record(section: &Vec<String>, criteria: &Vec<(String, String)>, color: bool) -> (r: Vec<String>)
    ensures
        crate::text::strings_view(r@) == record_output(
            crate::text::strings_view(section@),
            pairs_view(criteria@),
            color,
        ),
{
    let ghost lines = crate::text::strings_view(section@);
    let m = vec_to_map(section);
    let mut r: Vec<String> = Vec::new();
    if matches_all(&m, criteria) {
        r.push(String::from_str("%%"));
        let mut i: usize = 0;
        while i < section.len()
            invariant
                0 <= i <= section@.len(),
                lines == crate::text::strings_view(section@),
                crate::text::strings_view(r@) == seq!["%%"@] + lines.take(i as int).map_values(
                    |l: Seq<char>| shown_line(l, color),
                ),
            decreases section@.len() - i,
        {
            let ghost before = crate::text::strings_view(r@);
            let shown = show_line(section[i].as_str(), color);
            r.push(shown);
            assert(crate::text::strings_view(r@) =~= before.push(shown_line(lines[i as int], color)));
            assert(lines.take(i + 1).map_values(|l: Seq<char>| shown_line(l, color)) =~= lines.take(
                i as int,
            ).map_values(|l: Seq<char>| shown_line(l, color)).push(shown_line(lines[i as int], color)));
            assert(crate::text::strings_view(r@) =~= seq!["%%"@] + lines.take(i + 1).map_values(
                |l: Seq<char>| shown_line(l, color),
            ));
            i = i + 1;
        }
        assert(lines.take(section@.len() as int) =~= lines);
    }
    assert(crate::text::strings_view(r@) =~= record_output(lines, pairs_view(criteria@), color));
    r
}

/// The registry key that an option word names, if any.
pub open spec fn registry_key(w: Seq<char>) -> Option<Seq<char>> {
    if w == "-add"@ || w == "--added"@ {
        Some("Added"@)
    }     else if w == "-dep"@ || w == "--deprecated"@ {
        Some("Deprecated"@)
    }     else if w == "-cmt"@ || w == "--comments"@ {
        Some("Comments"@)
    }     else if w == "-desc"@ || w == "--description"@ {
        Some("Description"@)
    }     else if w == "-macro"@ || w == "--macrolanguage"@ {
        Some("Macrolanguage"@)
    }     else if w == "-pref"@ || w == "--preferred-value"@ {
        Some("Preferred-Value"@)
    }     else if w == "-px"@ || w == "--prefix"@ {
        Some("Prefix"@)
    }     else if w == "-scp"@ || w == "--scope"@ {
        Some("Scope"@)
    }     else if w == "-sub"@ || w == "--subtag"@ {
        Some("Subtag"@)
    }     else if w == "-ss"@ || w == "--suppress-script"@ {
        Some("Suppress-Script"@)
    }     else if w == "-ta"@ || w == "--tag"@ {
        Some("Tag"@)
    }     else if w == "-t"@ || w == "--type"@ {
        Some("Type"@)
    } else {
        None
    }
}

/// The registry key that the option word `w` names, if any.
pub fn registry_key_of(w: &str) -> (r: Option<&'static str>)
    ensures
        match r {
            None => registry_key(w@) is None,
            Some(k) => registry_key(w@) == Some(k@),
        },
{
    if same_text(w, "-add") || same_text(w, "--added") {
        Some("Added")
    }     else if same_text(w, "-dep") || same_text(w, "--deprecated") {
        Some("Deprecated")
    }     else if same_text(w, "-cmt") || same_text(w, "--comments") {
        Some("Comments")
    }     else if same_text(w, "-desc") || same_text(w, "--description") {
        Some("Description")
    }     else if same_text(w, "-macro") || same_text(w, "--macrolanguage") {
        Some("Macrolanguage")
    }     else if same_text(w, "-pref") || same_text(w, "--preferred-value") {
        Some("Preferred-Value")
    }     else if same_text(w, "-px") || same_text(w, "--prefix") {
        Some("Prefix")
    }     else if same_text(w, "-scp") || same_text(w, "--scope") {
        Some("Scope")
    }     else if same_text(w, "-sub") || same_text(w, "--subtag") {
        Some("Subtag")
    }     else if same_text(w, "-ss") || same_text(w, "--suppress-script") {
        Some("Suppress-Script")
    }     else if same_text(w, "-ta") || same_text(w, "--tag") {
        Some("Tag")
    }     else if same_text(w, "-t") || same_text(w, "--type") {
        Some("Type")
    } else {
        None
    }
}

/// `c` with key `k` set to `v`: replaced where `k` is already there, else
/// added as a new last pair.
pub open spec fn put_value(c: Seq<(Seq<char>, Seq<char>)>, k: Seq<char>, v: Seq<char>) -> Seq<
    (Seq<char>, Seq<char>),
> {
    match key_pos(c, k) {
        Some(i) => c.update(i, (k, v)),
        None => c.push((k, v)),
    }
}

/// What reading the first `n` command-line words of the registry tool has
/// found: the key that the last option word named and that still waits for
/// its value, the criteria, the colour choice and whether help was asked.
pub struct QueryScan {
    pub key: Option<Seq<char>>,
    pub criteria: Seq<(Seq<char>, Seq<char>)>,
    pub color: Option<bool>,
    pub help: bool,
}

/// Reads `args[..n]` from left to right: an option word names the key that
/// the next plain word gives a value to; a later value for the same key
/// replaces the earlier; a plain word with no key waiting is ignored.
pub open spec fn query_scan(args: Seq<Seq<char>>, n: int) -> QueryScan
    decreases n,
{
    if n <= 0 {
        QueryScan { key: None, criteria: Seq::empty(), color: None, help: false }
    } else {
        let s = query_scan(args, n - 1);
        let w = args[n - 1];
        match registry_key(w) {
            Some(k) => QueryScan { key: Some(k), ..s },
            None => if w == "--color=always"@ {
                QueryScan { color: Some(true), ..s }
            } else if w == "--color=never"@ {
                QueryScan { color: Some(false), ..s }
            } else if w == "-h"@ || w == "--help"@ {
                QueryScan { help: true, ..s }
            } else {
                match s.key {
                    Some(k) => QueryScan { key: None, criteria: put_value(s.criteria, k, w), ..s },
                    None => s,
                }
            },
        }
    }
}

/// What the registry tool's command line asks for.
pub struct RegistryQuery {
    pub criteria: Vec<(String, String)>,
    pub color: Option<bool>,
    pub help: bool,
}

/// Reads the registry tool's command line.
#[verifier::loop_isolation(false)]
pub fn args_to_map(args: &Vec<String>) -> (r: RegistryQuery)
    ensures
        ({
            let s = query_scan(crate::text::strings_view(args@), args@.len() as int);
            &&& pairs_view(r.criteria@) == s.criteria
            &&& r.color == s.color
            &&& r.help == s.help
        }),
{
    let ghost words = crate::text::strings_view(args@);
    let mut key: Option<&'static str> = None;
    let mut criteria: Vec<(String, String)> = Vec::new();
    let mut color: Option<bool> = None;
    let mut help = false;
    let mut i: usize = 0;
    while i < args.len()
        invariant
            0 <= i <= args@.len(),
            ({
                let s = query_scan(words, i as int);
                &&& pairs_view(criteria@) == s.criteria
                &&& color == s.color
                &&& help == s.help
                &&& match key {
                    None => s.key is None,
                    Some(k) => s.key == Some(k@),
                }
            }),
        decreases args@.len() - i,
    {
        let w = args[i].as_str();
        match registry_key_of(w) {
            Some(k) => key = Some(k),
            None => {
                if same_text(w, "--color=always") {
                    color = Some(true);
                } else if same_text(w, "--color=never") {
                    color = Some(false);
                } else if same_text(w, "-h") || same_text(w, "--help") {
                    help = true;
                } else {
                    match key {
                        Some(k) => {
                            match find_key(&criteria, k) {
                                Some(j) => {
                                    proof {
                                        lemma_key_pos_bounds(pairs_view(criteria@), k@);
                                    }
                                    criteria.set(j, (String::from_str(k), args[i].clone()));
                                },
                                None => criteria.push((String::from_str(k), args[i].clone())),
                            }
                            assert(pairs_view(criteria@) =~= put_value(
                                query_scan(words, i as int).criteria,
                                k@,
                                words[i as int],
                            ));
                            key = None;
                        },
                        None => {},
                    }
                }
            },
        }
        i = i + 1;
    }
    RegistryQuery { criteria, color, help }
}

/// The state of the registry report after its first `n` lines: what is
/// shown so far and the lines of the record being read.
pub struct RegistryScan {
    pub out: Seq<Seq<char>>,
    pub current: Seq<Seq<char>>,
}

/// Reads the registry lines `lines[..n]`: a `File-Date:` line is shown as
/// it is, a `%%` line ends a record, a line indented by two spaces continues
/// the record's last line (one space dropped), any other line is a new
/// record line.
pub open spec fn registry_scan(lines: Seq<Seq<char>>, n: int, c: Seq<(Seq<char>, Seq<char>)>, color: bool) -> RegistryScan
    decreases n,
{
    if n <= 0 {
        RegistryScan { out: Seq::empty(), current: Seq::empty() }
    } else {
        let s = registry_scan(lines, n - 1, c, color);
        let l = lines[n - 1];
        if has_prefix(l, "File-Date:"@) {
            RegistryScan { out: s.out.push(l), ..s }
        } else if has_prefix(l, "%%"@) {
            RegistryScan { out: s.out + record_output(s.current, c, color), current: Seq::empty() }
        } else if has_prefix(l, "  "@) {
            if s.current.len() > 0 {
                RegistryScan {
                    current: s.current.update(s.current.len() - 1, s.current.last() + l.drop_first()),
                    ..s
                }
            } else {
                s
            }
        } else {
            RegistryScan { current: s.current.push(l), ..s }
        }
    }
}

/// The closing line of the report.
pub open spec fn done_line(color: bool) -> Seq<char> {
    if color {
        "\x1b[32mDONE!\x1b[m"@
    } else {
        "DONE!"@
    }
}

/// Everything the registry tool shows for the registry `lines` under the
/// criteria `c`.
pub open spec fn registry_output(lines: Seq<Seq<char>>, c: Seq<(Seq<char>, Seq<char>)>, color: bool) -> Seq<Seq<char>> {
    let s = registry_scan(lines, lines.len() as int, c, color);
    s.out + record_output(s.current, c, color) + seq!["%%"@, done_line(color)]
}

/// The lines the registry tool shows for the registry `lines` under
/// `criteria`.
#[verifier::loop_isolation(false)]
pub fn registry_report(lines: &Vec<String>, criteria: &Vec<(String, String)>, color: bool) -> (r: Vec<String>)
    ensures
        crate::text::strings_view(r@) == registry_output(crate::text::strings_view(lines@), pairs_view(criteria@), color),
{
    let ghost ls = crate::text::strings_view(lines@);
    let ghost c = pairs_view(criteria@);
    let file_date = chars_of("File-Date:");
    let record_end = chars_of("%%");
    let indent = chars_of("  ");
    proof {
        reveal_strlit("  ");
    }
    let mut out: Vec<String> = Vec::new();
    let mut current: Vec<String> = Vec::new();
    let mut i: usize = 0;
    while i < lines.len()
        invariant
            0 <= i <= lines@.len(),
            ({
                let s = registry_scan(ls, i as int, c, color);
                &&& crate::text::strings_view(out@) == s.out
                &&& crate::text::strings_view(current@) == s.current
            }),
        decreases lines@.len() - i,
    {
        let l = lines[i].as_str();
        let cs = chars_of(l);
        let ghost s = registry_scan(ls, i as int, c, color);
        if starts_with(cs.as_slice(), file_date.as_slice()) {
            out.push(lines[i].clone());
            assert(crate::text::strings_view(out@) =~= s.out.push(ls[i as int]));
        } else if starts_with(cs.as_slice(), record_end.as_slice()) {
            let mut shown = print_record(&current, criteria, color);
            let ghost before = crate::text::strings_view(out@);
            out.append(&mut shown);
            assert(crate::text::strings_view(out@) =~= before + record_output(s.current, c, color));
            current = Vec::new();
            assert(crate::text::strings_view(current@) =~= Seq::<Seq<char>>::empty());
        } else if starts_with(cs.as_slice(), indent.as_slice()) {
            if current.len() > 0 {
                let ghost before = crate::text::strings_view(current@);
                let last = current.len() - 1;
                let mut joined = current[last].clone();
                let tail = string_of_range(cs.as_slice(), 1, cs.len());
                joined.append(tail.as_str());
                current.set(last, joined);
                assert(tail@ =~= ls[i as int].drop_first());
                assert(crate::text::strings_view(current@) =~= before.update(
                    before.len() - 1,
                    before.last() + ls[i as int].drop_first(),
                ));
            }
        } else {
            current.push(lines[i].clone());
            assert(crate::text::strings_view(current@) =~= s.current.push(ls[i as int]));
        }
        i = i + 1;
    }
    let ghost s = registry_scan(ls, lines@.len() as int, c, color);
    assert(ls.len() == lines@.len());
    let mut shown = print_record(&current, criteria, color);
    let mut r = out;
    r.append(&mut shown);
    r.push(String::from_str("%%"));
    if color {
        r.push(String::from_str("\x1b[32mDONE!\x1b[m"));
    } else {
        r.push(String::from_str("DONE!"));
    }
    assert(crate::text::strings_view(r@) =~= registry_output(ls, c, color));
    r
}

} // verus!
