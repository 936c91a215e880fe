//! The report configuration: which sections and fields a report shows, the
//! command-line option table, and the defaulting and implication rules.
use vstd::prelude::*;
use crate::text::{same_text, strings_view};

verus! {

/// One display toggle of the report.
#[derive(PartialEq, Eq, Structural, Clone, Copy, Debug)]
pub enum Toggle {
    /// Parent of the numeric forms.
    Utf,
    Dec,
    Utf8,
    Utf16,
    Utf32,
    /// Parent of the UnicodeData.txt fields.
    UnicodeData,
    Na,
    Gc,
    Ccc,
    Bc,
    Dm,
    Ddv,
    Dv,
    Nv,
    Mir,
    Na1,
    Iso,
    Suc,
    Slc,
    Stc,
    BlockInfo,
    NameInfo,
}

/// A recognised command-line option.
#[derive(PartialEq, Eq, Structural, Clone, Copy, Debug)]
pub enum CliOption {
    Show(Toggle),
    ColorAlways,
    ColorNever,
    Help,
}

/// The group parent of a toggle, if it has one.
pub open spec fn parent_of(t: Toggle) -> Option<Toggle> {
    match t {
        Toggle::Dec | Toggle::Utf8 | Toggle::Utf16 | Toggle::Utf32 => Some(Toggle::Utf),
        Toggle::Na | Toggle::Gc | Toggle::Ccc | Toggle::Bc | Toggle::Dm | Toggle::Ddv | Toggle::Dv
        | Toggle::Nv | Toggle::Mir | Toggle::Na1 | Toggle::Iso | Toggle::Suc | Toggle::Slc
        | Toggle::Stc => Some(Toggle::UnicodeData),
        _ => None,
    }
}

/// The option that a command-line word names, if any.
pub open spec fn classify(w: Seq<char>) -> Option<CliOption> {
    if w == "-u"@ { Some(CliOption::Show(Toggle::Utf)) }
    else if w == "-d"@ { Some(CliOption::Show(Toggle::Dec)) }
    else if w == "-u8"@ { Some(CliOption::Show(Toggle::Utf8)) }
    else if w == "-u16"@ { Some(CliOption::Show(Toggle::Utf16)) }
    else if w == "-u32"@ { Some(CliOption::Show(Toggle::Utf32)) }
    else if w == "-ud"@ { Some(CliOption::Show(Toggle::UnicodeData)) }
    else if w == "-udna"@ { Some(CliOption::Show(Toggle::Na)) }
    else if w == "-udgc"@ { Some(CliOption::Show(Toggle::Gc)) }
    else if w == "-udccc"@ { Some(CliOption::Show(Toggle::Ccc)) }
    else if w == "-udbc"@ { Some(CliOption::Show(Toggle::Bc)) }
    else if w == "-uddm"@ { Some(CliOption::Show(Toggle::Dm)) }
    else if w == "-udddv"@ { Some(CliOption::Show(Toggle::Ddv)) }
    else if w == "-uddv"@ { Some(CliOption::Show(Toggle::Dv)) }
    else if w == "-udnv"@ { Some(CliOption::Show(Toggle::Nv)) }
    else if w == "-udmir"@ { Some(CliOption::Show(Toggle::Mir)) }
    else if w == "-udna1"@ { Some(CliOption::Show(Toggle::Na1)) }
    else if w == "-udiso"@ { Some(CliOption::Show(Toggle::Iso)) }
    else if w == "-udsuc"@ { Some(CliOption::Show(Toggle::Suc)) }
    else if w == "-udslc"@ { Some(CliOption::Show(Toggle::Slc)) }
    else if w == "-udstc"@ { Some(CliOption::Show(Toggle::Stc)) }
    else if w == "-b"@ { Some(CliOption::Show(Toggle::BlockInfo)) }
    else if w == "-n"@ { Some(CliOption::Show(Toggle::NameInfo)) }
    else if w == "--color=always"@ { Some(CliOption::ColorAlways) }
    else if w == "--color=never"@ { Some(CliOption::ColorNever) }
    else if w == "-h"@ || w == "--help"@ { Some(CliOption::Help) }
    else { None }
}

/// Looks a command-line word up in the option table.
pub fn classify_arg(w: &str) -> (r: Option<CliOption>)
    ensures
        r == classify(w@),
{
    if same_text(w, "-u") { Some(CliOption::Show(Toggle::Utf)) }
    else if same_text(w, "-d") { Some(CliOption::Show(Toggle::Dec)) }
    else if same_text(w, "-u8") { Some(CliOption::Show(Toggle::Utf8)) }
    else if same_text(w, "-u16") { Some(CliOption::Show(Toggle::Utf16)) }
    else if same_text(w, "-u32") { Some(CliOption::Show(Toggle::Utf32)) }
    else if same_text(w, "-ud") { Some(CliOption::Show(Toggle::UnicodeData)) }
    else if same_text(w, "-udna") { Some(CliOption::Show(Toggle::Na)) }
    else if same_text(w, "-udgc") { Some(CliOption::Show(Toggle::Gc)) }
    else if same_text(w, "-udccc") { Some(CliOption::Show(Toggle::Ccc)) }
    else if same_text(w, "-udbc") { Some(CliOption::Show(Toggle::Bc)) }
    else if same_text(w, "-uddm") { Some(CliOption::Show(Toggle::Dm)) }
    else if same_text(w, "-udddv") { Some(CliOption::Show(Toggle::Ddv)) }
    else if same_text(w, "-uddv") { Some(CliOption::Show(Toggle::Dv)) }
    else if same_text(w, "-udnv") { Some(CliOption::Show(Toggle::Nv)) }
    else if same_text(w, "-udmir") { Some(CliOption::Show(Toggle::Mir)) }
    else if same_text(w, "-udna1") { Some(CliOption::Show(Toggle::Na1)) }
    else if same_text(w, "-udiso") { Some(CliOption::Show(Toggle::Iso)) }
    else if same_text(w, "-udsuc") { Some(CliOption::Show(Toggle::Suc)) }
    else if same_text(w, "-udslc") { Some(CliOption::Show(Toggle::Slc)) }
    else if same_text(w, "-udstc") { Some(CliOption::Show(Toggle::Stc)) }
    else if same_text(w, "-b") { Some(CliOption::Show(Toggle::BlockInfo)) }
    else if same_text(w, "-n") { Some(CliOption::Show(Toggle::NameInfo)) }
    else if same_text(w, "--color=always") { Some(CliOption::ColorAlways) }
    else if same_text(w, "--color=never") { Some(CliOption::ColorNever) }
    else if same_text(w, "-h") || same_text(w, "--help") { Some(CliOption::Help) }
    else { None }
}

/// One boolean per toggle.
#[derive(PartialEq, Eq, Structural, Clone, Copy, Debug)]
pub struct Toggles {
    pub utf: bool,
    pub dec: bool,
    pub utf8: bool,
    pub utf16: bool,
    pub utf32: bool,
    pub ud: bool,
    pub na: bool,
    pub gc: bool,
    pub ccc: bool,
    pub bc: bool,
    pub dm: bool,
    pub ddv: bool,
    pub dv: bool,
    pub nv: bool,
    pub mir: bool,
    pub na1: bool,
    pub iso: bool,
    pub suc: bool,
    pub slc: bool,
    pub stc: bool,
    pub block: bool,
    pub name: bool,
}

impl Toggles {
    /// Every toggle equal to `b`.
    pub open spec fn uniform(b: bool) -> Toggles {
        Toggles {
            utf: b,
            dec: b,
            utf8: b,
            utf16: b,
            utf32: b,
            ud: b,
            na: b,
            gc: b,
            ccc: b,
            bc: b,
            dm: b,
            ddv: b,
            dv: b,
            nv: b,
            mir: b,
            na1: b,
            iso: b,
            suc: b,
            slc: b,
            stc: b,
            block: b,
            name: b,
        }
    }

    /// These toggles with `t` turned on.
    pub open spec fn with(self, t: Toggle) -> Toggles {
        match t {
            Toggle::Utf => Toggles { utf: true, ..self },
            Toggle::Dec => Toggles { dec: true, ..self },
            Toggle::Utf8 => Toggles { utf8: true, ..self },
            Toggle::Utf16 => Toggles { utf16: true, ..self },
            Toggle::Utf32 => Toggles { utf32: true, ..self },
            Toggle::UnicodeData => Toggles { ud: true, ..self },
            Toggle::Na => Toggles { na: true, ..self },
            Toggle::Gc => Toggles { gc: true, ..self },
            Toggle::Ccc => Toggles { ccc: true, ..self },
            Toggle::Bc => Toggles { bc: true, ..self },
            Toggle::Dm => Toggles { dm: true, ..self },
            Toggle::Ddv => Toggles { ddv: true, ..self },
            Toggle::Dv => Toggles { dv: true, ..self },
            Toggle::Nv => Toggles { nv: true, ..self },
            Toggle::Mir => Toggles { mir: true, ..self },
            Toggle::Na1 => Toggles { na1: true, ..self },
            Toggle::Iso => Toggles { iso: true, ..self },
            Toggle::Suc => Toggles { suc: true, ..self },
            Toggle::Slc => Toggles { slc: true, ..self },
            Toggle::Stc => Toggles { stc: true, ..self },
            Toggle::BlockInfo => Toggles { block: true, ..self },
            Toggle::NameInfo => Toggles { name: true, ..self },
        }
    }

    /// Every toggle equal to `b`.
    pub fn filled(b: bool) -> (r: Toggles)
        ensures
            r == Toggles::uniform(b),
    {
        Toggles {
            utf: b,
            dec: b,
            utf8: b,
            utf16: b,
            utf32: b,
            ud: b,
            na: b,
            gc: b,
            ccc: b,
            bc: b,
            dm: b,
            ddv: b,
            dv: b,
            nv: b,
            mir: b,
            na1: b,
            iso: b,
            suc: b,
            slc: b,
            stc: b,
            block: b,
            name: b,
        }
    }

    /// These toggles with `t` turned on.
    pub fn turn_on(self, t: Toggle) -> (r: Toggles)
        ensures
            r == self.with(t),
    {
        match t {
            Toggle::Utf => Toggles { utf: true, ..self },
            Toggle::Dec => Toggles { dec: true, ..self },
            Toggle::Utf8 => Toggles { utf8: true, ..self },
            Toggle::Utf16 => Toggles { utf16: true, ..self },
            Toggle::Utf32 => Toggles { utf32: true, ..self },
            Toggle::UnicodeData => Toggles { ud: true, ..self },
            Toggle::Na => Toggles { na: true, ..self },
            Toggle::Gc => Toggles { gc: true, ..self },
            Toggle::Ccc => Toggles { ccc: true, ..self },
            Toggle::Bc => Toggles { bc: true, ..self },
            Toggle::Dm => Toggles { dm: true, ..self },
            Toggle::Ddv => Toggles { ddv: true, ..self },
            Toggle::Dv => Toggles { dv: true, ..self },
            Toggle::Nv => Toggles { nv: true, ..self },
            Toggle::Mir => Toggles { mir: true, ..self },
            Toggle::Na1 => Toggles { na1: true, ..self },
            Toggle::Iso => Toggles { iso: true, ..self },
            Toggle::Suc => Toggles { suc: true, ..self },
            Toggle::Slc => Toggles { slc: true, ..self },
            Toggle::Stc => Toggles { stc: true, ..self },
            Toggle::BlockInfo => Toggles { block: true, ..self },
            Toggle::NameInfo => Toggles { name: true, ..self },
        }
    }
}

/// The toggles that show when exactly the toggles of `g` were given
/// explicitly: nothing given shows everything; a group parent shows all of
/// its children; a given child shows its parent.
pub open spec fn resolved(g: Toggles) -> Toggles {
    let utf_child = g.dec || g.utf8 || g.utf16 || g.utf32;
    let ud_child = g.na || g.gc || g.ccc || g.bc || g.dm || g.ddv || g.dv || g.nv || g.mir
        || g.na1 || g.iso || g.suc || g.slc || g.stc;
    let all = !(g.utf || utf_child || g.ud || ud_child || g.block || g.name);
    let utf = all || g.utf;
    let ud = all || g.ud;
    Toggles {
        utf: utf || utf_child,
        dec: utf || g.dec,
        utf8: utf || g.utf8,
        utf16: utf || g.utf16,
        utf32: utf || g.utf32,
        ud: ud || ud_child,
        na: ud || g.na,
        gc: ud || g.gc,
        ccc: ud || g.ccc,
        bc: ud || g.bc,
        dm: ud || g.dm,
        ddv: ud || g.ddv,
        dv: ud || g.dv,
        nv: ud || g.nv,
        mir: ud || g.mir,
        na1: ud || g.na1,
        iso: ud || g.iso,
        suc: ud || g.suc,
        slc: ud || g.slc,
        stc: ud || g.stc,
        block: all || g.block,
        name: all || g.name,
    }
}

/// What a report shows, whether labels are coloured, and the words that are
/// not options (code points or strings to look up).
#[derive(Debug)]
pub struct Flags {
    pub show_utf: bool,
    pub show_dec: bool,
    pub show_utf8: bool,
    pub show_utf16: bool,
    pub show_utf32: bool,
    pub show_unicode_data: bool,
    pub show_unicode_data_na: bool,
    pub show_unicode_data_gc: bool,
    pub show_unicode_data_ccc: bool,
    pub show_unicode_data_bc: bool,
    pub show_unicode_data_dm: bool,
    pub show_unicode_data_ddv: bool,
    pub show_unicode_data_dv: bool,
    pub show_unicode_data_nv: bool,
    pub show_unicode_data_mir: bool,
    pub show_unicode_data_na1: bool,
    pub show_unicode_data_iso: bool,
    pub show_unicode_data_suc: bool,
    pub show_unicode_data_slc: bool,
    pub show_unicode_data_stc: bool,
    pub show_block_info: bool,
    pub show_name_info: bool,
    pub show_color: bool,
    pub rest: Vec<String>,
}

/// The abstract content of a `Flags`.
pub struct FlagsView {
    pub shown: Toggles,
    pub color: bool,
    pub rest: Seq<Seq<char>>,
}

impl Flags {
    /// The toggles of these flags.
    pub open spec fn shown(&self) -> Toggles {
        Toggles {
            utf: self.show_utf,
            dec: self.show_dec,
            utf8: self.show_utf8,
            utf16: self.show_utf16,
            utf32: self.show_utf32,
            ud: self.show_unicode_data,
            na: self.show_unicode_data_na,
            gc: self.show_unicode_data_gc,
            ccc: self.show_unicode_data_ccc,
            bc: self.show_unicode_data_bc,
            dm: self.show_unicode_data_dm,
            ddv: self.show_unicode_data_ddv,
            dv: self.show_unicode_data_dv,
            nv: self.show_unicode_data_nv,
            mir: self.show_unicode_data_mir,
            na1: self.show_unicode_data_na1,
            iso: self.show_unicode_data_iso,
            suc: self.show_unicode_data_suc,
            slc: self.show_unicode_data_slc,
            stc: self.show_unicode_data_stc,
            block: self.show_block_info,
            name: self.show_name_info,
        }
    }
}

impl View for Flags {
    type V = FlagsView;

    open spec fn view(&self) -> FlagsView {
        FlagsView { shown: self.shown(), color: self.show_color, rest: strings_view(self.rest@) }
    }
}

/// Relies on `atty::is(Stream::Stdout)`: whether standard output is a
/// terminal. Nothing is promised of the answer.
#[verifier::external_body]
fn stdout_is_terminal() -> (r: bool) {
    atty::is(atty::Stream::Stdout)
}

/// Flags showing the toggles `shown`, with the given colour choice and words.
pub fn flags_from(shown: Toggles, show_color: bool, rest: Vec<String>) -> (r: Flags)
    ensures
        r.shown() == shown,
        r.show_color == show_color,
        r.rest == rest,
{
    Flags {
        show_utf: shown.utf,
        show_dec: shown.dec,
        show_utf8: shown.utf8,
        show_utf16: shown.utf16,
        show_utf32: shown.utf32,
        show_unicode_data: shown.ud,
        show_unicode_data_na: shown.na,
        show_unicode_data_gc: shown.gc,
        show_unicode_data_ccc: shown.ccc,
        show_unicode_data_bc: shown.bc,
        show_unicode_data_dm: shown.dm,
        show_unicode_data_ddv: shown.ddv,
        show_unicode_data_dv: shown.dv,
        show_unicode_data_nv: shown.nv,
        show_unicode_data_mir: shown.mir,
        show_unicode_data_na1: shown.na1,
        show_unicode_data_iso: shown.iso,
        show_unicode_data_suc: shown.suc,
        show_unicode_data_slc: shown.slc,
        show_unicode_data_stc: shown.stc,
        show_block_info: shown.block,
        show_name_info: shown.name,
        show_color,
        rest,
    }
}

impl Flags {
    /// Every toggle set to `show_default`; labels coloured when standard
    /// output is a terminal.
    pub fn new(show_default: bool) -> (r: Flags)
        ensures
            r.shown() == Toggles::uniform(show_default),
            r.rest@.len() == 0,
    {
        flags_from(Toggles::filled(show_default), stdout_is_terminal(), Vec::new())
    }
}

/// `resolved`, computed.
pub fn resolve(g: Toggles) -> (r: Toggles)
    ensures
        r == resolved(g),
{
    let utf_child = g.dec || g.utf8 || g.utf16 || g.utf32;
    let ud_child = g.na || g.gc || g.ccc || g.bc || g.dm || g.ddv || g.dv || g.nv || g.mir
        || g.na1 || g.iso || g.suc || g.slc || g.stc;
    let all = !(g.utf || utf_child || g.ud || ud_child || g.block || g.name);
    let utf = all || g.utf;
    let ud = all || g.ud;
    Toggles {
        utf: utf || utf_child,
        dec: utf || g.dec,
        utf8: utf || g.utf8,
        utf16: utf || g.utf16,
        utf32: utf || g.utf32,
        ud: ud || ud_child,
        na: ud || g.na,
        gc: ud || g.gc,
        ccc: ud || g.ccc,
        bc: ud || g.bc,
        dm: ud || g.dm,
        ddv: ud || g.ddv,
        dv: ud || g.dv,
        nv: ud || g.nv,
        mir: ud || g.mir,
        na1: ud || g.na1,
        iso: ud || g.iso,
        suc: ud || g.suc,
        slc: ud || g.slc,
        stc: ud || g.stc,
        block: all || g.block,
        name: all || g.name,
    }
}

/// What reading the first `n` command-line words has found so far (word 0
/// is the program name and is skipped).
pub struct ArgScan {
    pub given: Toggles,
    pub color: bool,
    pub help: bool,
    pub rest: Seq<Seq<char>>,
}

/// Reads `args[1..n]` from left to right: a toggle word turns its toggle on,
/// the last colour word decides the colour (`tty` when there is none), a
/// help word asks for help, and every other word is kept in order.
pub open spec fn scan(args: Seq<Seq<char>>, n: int, tty: bool) -> ArgScan
    decreases n,
{
    if n <= 1 {
        ArgScan { given: Toggles::uniform(false), color: tty, help: false, rest: Seq::empty() }
    } else {
        let s = scan(args, n - 1, tty);
        let w = args[n - 1];
        match classify(w) {
            Some(CliOption::Show(t)) => ArgScan { given: s.given.with(t), ..s },
            Some(CliOption::ColorAlways) => ArgScan { color: true, ..s },
            Some(CliOption::ColorNever) => ArgScan { color: false, ..s },
            Some(CliOption::Help) => ArgScan { help: true, ..s },
            None => ArgScan { rest: s.rest.push(w), ..s },
        }
    }
}

/// The configuration that the words `args` ask for; `None` when they ask
/// for help.
pub open spec fn parse_model(args: Seq<Seq<char>>, tty: bool) -> Option<FlagsView> {
    let s = scan(args, args.len() as int, tty);
    if s.help {
        None
    } else {
        Some(FlagsView { shown: resolved(s.given), color: s.color, rest: s.rest })
    }
}

/// Reads the command line `args` (program name first); `stdout_is_terminal`
/// is the colour default. `None` when a help word occurs.
pub fn parse_args_with_terminal(args: &Vec<String>, stdout_is_terminal: bool) -> (r: Option<Flags>)
    ensures
        match r {
            None => parse_model(strings_view(args@), stdout_is_terminal) is None,
            Some(f) => parse_model(strings_view(args@), stdout_is_terminal) == Some(f@),
        },
{
    let ghost words = strings_view(args@);
    let mut given = Toggles::filled(false);
    let mut color = stdout_is_terminal;
    let mut help = false;
    let mut rest: Vec<String> = Vec::new();
    let mut i: usize = 1;
    while i < args.len()
        invariant
            1 <= i,
            i <= args@.len() || (i == 1 && args@.len() == 0),
            words == strings_view(args@),
            ({
                let s = scan(words, i as int, stdout_is_terminal);
                &&& given == s.given
                &&& color == s.color
                &&& help == s.help
                &&& strings_view(rest@) == s.rest
            }),
        decreases args@.len() - i,
    {
        let w = args[i].as_str();
        match classify_arg(w) {
            Some(CliOption::Show(t)) => given = given.turn_on(t),
            Some(CliOption::ColorAlways) => color = true,
            Some(CliOption::ColorNever) => color = false,
            Some(CliOption::Help) => help = true,
            None => {
                rest.push(args[i].clone());
                assert(strings_view(rest@) =~= scan(words, i as int, stdout_is_terminal).rest.push(words[i as int]));
            },
        }
        i = i + 1;
    }
    if args.len() == 0 {
        assert(scan(words, i as int, stdout_is_terminal) == scan(words, 0, stdout_is_terminal));
    }
    if help {
        None
    } else {
        let shown = resolve(given);
        Some(flags_from(shown, color, rest))
    }
}

/// Reads the command line `args` (program name first); labels are coloured
/// by default when standard output is a terminal. `None` when a help word
/// occurs; otherwise the flags are those that `args` ask for with the
/// colour default that they carry.
pub fn parse_args(args: &Vec<String>) -> (r: Option<Flags>)
    ensures
        match r {
            None => parse_model(strings_view(args@), false) is None,
            Some(f) => parse_model(strings_view(args@), f.show_color) == Some(f@),
        },
{
    let tty = stdout_is_terminal();
    let r = parse_args_with_terminal(args, tty);
    proof {
        let w = strings_view(args@);
        let n = args@.len() as int;
        lemma_help_ignores_terminal(w, n, tty, false);
        if r is Some {
            let c = r->0.show_color;
            lemma_help_ignores_terminal(w, n, tty, c);
            lemma_color_choice(w, n, tty, c);
        }
    }
    r
}

proof fn lemma_color_choice(args: Seq<Seq<char>>, n: int, a: bool, b: bool)
    ensures
        scan(args, n, a).color == scan(args, n, b).color || (scan(args, n, a).color == a
            && scan(args, n, b).color == b),
    decreases n,
{
    if n > 1 {
        lemma_color_choice(args, n - 1, a, b);
    }
}

proof fn lemma_help_ignores_terminal(args: Seq<Seq<char>>, n: int, a: bool, b: bool)
    ensures
        scan(args, n, a).help == scan(args, n, b).help,
        scan(args, n, a).given == scan(args, n, b).given,
        scan(args, n, a).rest == scan(args, n, b).rest,
    decreases n,
{
    if n > 1 {
        lemma_help_ignores_terminal(args, n - 1, a, b);
    }
}

/// The characters of a label: wrapped in bright-yellow escape codes when
/// `color` holds, unchanged otherwise.
pub open spec fn label_text(msg: Seq<char>, color: bool) -> Seq<char> {
    if color {
        "\x1b[93m"@ + msg + "\x1b[m"@
    } else {
        msg
    }
}

/// `msg` as a label, coloured as `flags` says.
pub fn label(msg: &String, flags: &Flags) -> (r: String)
    ensures
        r@ == label_text(msg@, flags.show_color),
{
    label_str(msg.as_str(), flags.show_color)
}

/// `msg` as a label, coloured when `color` holds.
pub fn label_str(msg: &str, color: bool) -> (r: String)
    ensures
        r@ == label_text(msg@, color),
{
    if color {
        let mut r = String::from_str("\x1b[93m");
        r.append(msg);
        r.append("\x1b[m");
        r
    } else {
        String::from_str(msg)
    }
}

} // verus!
