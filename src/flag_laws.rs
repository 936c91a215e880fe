//! Laws of the report configuration: a command line without options shows
//! what every toggle shows, and the UnicodeData.txt parent toggle shows what
//! all of its field toggles show.
use vstd::prelude::*;
use crate::config::{classify, parse_model, resolved, scan, ArgScan, CliOption, Toggle, Toggles};
use crate::report::char_report;

verus! {

/// Every toggle word, parents first.
pub open spec fn toggle_words() -> Seq<Seq<char>> {
    seq![
        "-u"@,
        "-d"@,
        "-u8"@,
        "-u16"@,
        "-u32"@,
        "-ud"@,
        "-udna"@,
        "-udgc"@,
        "-udccc"@,
        "-udbc"@,
        "-uddm"@,
        "-udddv"@,
        "-uddv"@,
        "-udnv"@,
        "-udmir"@,
        "-udna1"@,
        "-udiso"@,
        "-udsuc"@,
        "-udslc"@,
        "-udstc"@,
        "-b"@,
        "-n"@,
    ]
}

/// The UnicodeData.txt field words, without their parent.
pub open spec fn unicode_data_field_words() -> Seq<Seq<char>> {
    toggle_words().subrange(6, 20)
}

proof fn lemma_classify_utf()
    ensures
        classify("-u"@) == Some(CliOption::Show(Toggle::Utf)),
{
    reveal_strlit("-u");
}

proof fn lemma_classify_dec()
    ensures
        classify("-d"@) == Some(CliOption::Show(Toggle::Dec)),
{
    reveal_strlit("-d");
    reveal_strlit("-u");
    assert("-d"@[1] != "-u"@[1]);
}

proof fn lemma_classify_utf8()
    ensures
        classify("-u8"@) == Some(CliOption::Show(Toggle::Utf8)),
{
    reveal_strlit("-u8");
    reveal_strlit("-u");
    assert("-u8"@.len() != "-u"@.len());
    reveal_strlit("-d");
    assert("-u8"@.len() != "-d"@.len());
}

proof fn lemma_classify_utf16()
    ensures
        classify("-u16"@) == Some(CliOption::Show(Toggle::Utf16)),
{
    reveal_strlit("-u16");
    reveal_strlit("-u");
    assert("-u16"@.len() != "-u"@.len());
    reveal_strlit("-d");
    assert("-u16"@.len() != "-d"@.len());
    reveal_strlit("-u8");
    assert("-u16"@.len() != "-u8"@.len());
}

proof fn lemma_classify_utf32()
    ensures
        classify("-u32"@) == Some(CliOption::Show(Toggle::Utf32)),
{
    reveal_strlit("-u32");
    reveal_strlit("-u");
    assert("-u32"@.len() != "-u"@.len());
    reveal_strlit("-d");
    assert("-u32"@.len() != "-d"@.len());
    reveal_strlit("-u8");
    assert("-u32"@.len() != "-u8"@.len());
    reveal_strlit("-u16");
    assert("-u32"@[2] != "-u16"@[2]);
}

proof fn lemma_classify_ud()
    ensures
        classify("-ud"@) == Some(CliOption::Show(Toggle::UnicodeData)),
{
    reveal_strlit("-ud");
    reveal_strlit("-u");
    assert("-ud"@.len() != "-u"@.len());
    reveal_strlit("-d");
    assert("-ud"@.len() != "-d"@.len());
    reveal_strlit("-u8");
    assert("-ud"@[2] != "-u8"@[2]);
    reveal_strlit("-u16");
    assert("-ud"@.len() != "-u16"@.len());
    reveal_strlit("-u32");
    assert("-ud"@.len() != "-u32"@.len());
}

proof fn lemma_classify_na()
    ensures
        classify("-udna"@) == Some(CliOption::Show(Toggle::Na)),
{
    reveal_strlit("-udna");
    reveal_strlit("-u");
    assert("-udna"@.len() != "-u"@.len());
    reveal_strlit("-d");
    assert("-udna"@.len() != "-d"@.len());
    reveal_strlit("-u8");
    assert("-udna"@.len() != "-u8"@.len());
    reveal_strlit("-u16");
    assert("-udna"@.len() != "-u16"@.len());
    reveal_strlit("-u32");
    assert("-udna"@.len() != "-u32"@.len());
    reveal_strlit("-ud");
    assert("-udna"@.len() != "-ud"@.len());
}

proof fn lemma_classify_gc()
    ensures
        classify("-udgc"@) == Some(CliOption::Show(Toggle::Gc)),
{
    reveal_strlit("-udgc");
    reveal_strlit("-u");
    assert("-udgc"@.len() != "-u"@.len());
    reveal_strlit("-d");
    assert("-udgc"@.len() != "-d"@.len());
    reveal_strlit("-u8");
    assert("-udgc"@.len() != "-u8"@.len());
    reveal_strlit("-u16");
    assert("-udgc"@.len() != "-u16"@.len());
    reveal_strlit("-u32");
    assert("-udgc"@.len() != "-u32"@.len());
    reveal_strlit("-ud");
    assert("-udgc"@.len() != "-ud"@.len());
    reveal_strlit("-udna");
    assert("-udgc"@[3] != "-udna"@[3]);
}

proof fn lemma_classify_ccc()
    ensures
        classify("-udccc"@) == Some(CliOption::Show(Toggle::Ccc)),
{
    reveal_strlit("-udccc");
    reveal_strlit("-u");
    assert("-udccc"@.len() != "-u"@.len());
    reveal_strlit("-d");
    assert("-udccc"@.len() != "-d"@.len());
    reveal_strlit("-u8");
    assert("-udccc"@.len() != "-u8"@.len());
    reveal_strlit("-u16");
    assert("-udccc"@.len() != "-u16"@.len());
    reveal_strlit("-u32");
    assert("-udccc"@.len() != "-u32"@.len());
    reveal_strlit("-ud");
    assert("-udccc"@.len() != "-ud"@.len());
    reveal_strlit("-udna");
    assert("-udccc"@.len() != "-udna"@.len());
    reveal_strlit("-udgc");
    assert("-udccc"@.len() != "-udgc"@.len());
}

proof fn lemma_classify_bc()
    ensures
        classify("-udbc"@) == Some(CliOption::Show(Toggle::Bc)),
{
    reveal_strlit("-udbc");
    reveal_strlit("-u");
    assert("-udbc"@.len() != "-u"@.len());
    reveal_strlit("-d");
    assert("-udbc"@.len() != "-d"@.len());
    reveal_strlit("-u8");
    assert("-udbc"@.len() != "-u8"@.len());
    reveal_strlit("-u16");
    assert("-udbc"@.len() != "-u16"@.len());
    reveal_strlit("-u32");
    assert("-udbc"@.len() != "-u32"@.len());
    reveal_strlit("-ud");
    assert("-udbc"@.len() != "-ud"@.len());
    reveal_strlit("-udna");
    assert("-udbc"@[3] != "-udna"@[3]);
    reveal_strlit("-udgc");
    assert("-udbc"@[3] != "-udgc"@[3]);
    reveal_strlit("-udccc");
    assert("-udbc"@.len() != "-udccc"@.len());
}

proof fn lemma_classify_dm()
    ensures
        classify("-uddm"@) == Some(CliOption::Show(Toggle::Dm)),
{
    reveal_strlit("-uddm");
    reveal_strlit("-u");
    assert("-uddm"@.len() != "-u"@.len());
    reveal_strlit("-d");
    assert("-uddm"@.len() != "-d"@.len());
    reveal_strlit("-u8");
    assert("-uddm"@.len() != "-u8"@.len());
    reveal_strlit("-u16");
    assert("-uddm"@.len() != "-u16"@.len());
    reveal_strlit("-u32");
    assert("-uddm"@.len() != "-u32"@.len());
    reveal_strlit("-ud");
    assert("-uddm"@.len() != "-ud"@.len());
    reveal_strlit("-udna");
    assert("-uddm"@[3] != "-udna"@[3]);
    reveal_strlit("-udgc");
    assert("-uddm"@[3] != "-udgc"@[3]);
    reveal_strlit("-udccc");
    assert("-uddm"@.len() != "-udccc"@.len());
    reveal_strlit("-udbc");
    assert("-uddm"@[3] != "-udbc"@[3]);
}

proof fn lemma_classify_ddv()
    ensures
        classify("-udddv"@) == Some(CliOption::Show(Toggle::Ddv)),
{
    reveal_strlit("-udddv");
    reveal_strlit("-u");
    assert("-udddv"@.len() != "-u"@.len());
    reveal_strlit("-d");
    assert("-udddv"@.len() != "-d"@.len());
    reveal_strlit("-u8");
    assert("-udddv"@.len() != "-u8"@.len());
    reveal_strlit("-u16");
    assert("-udddv"@.len() != "-u16"@.len());
    reveal_strlit("-u32");
    assert("-udddv"@.len() != "-u32"@.len());
    reveal_strlit("-ud");
    assert("-udddv"@.len() != "-ud"@.len());
    reveal_strlit("-udna");
    assert("-udddv"@.len() != "-udna"@.len());
    reveal_strlit("-udgc");
    assert("-udddv"@.len() != "-udgc"@.len());
    reveal_strlit("-udccc");
    assert("-udddv"@[3] != "-udccc"@[3]);
    reveal_strlit("-udbc");
    assert("-udddv"@.len() != "-udbc"@.len());
    reveal_strlit("-uddm");
    assert("-udddv"@.len() != "-uddm"@.len());
}

proof fn lemma_classify_dv()
    ensures
        classify("-uddv"@) == Some(CliOption::Show(Toggle::Dv)),
{
    reveal_strlit("-uddv");
    reveal_strlit("-u");
    assert("-uddv"@.len() != "-u"@.len());
    reveal_strlit("-d");
    assert("-uddv"@.len() != "-d"@.len());
    reveal_strlit("-u8");
    assert("-uddv"@.len() != "-u8"@.len());
    reveal_strlit("-u16");
    assert("-uddv"@.len() != "-u16"@.len());
    reveal_strlit("-u32");
    assert("-uddv"@.len() != "-u32"@.len());
    reveal_strlit("-ud");
    assert("-uddv"@.len() != "-ud"@.len());
    reveal_strlit("-udna");
    assert("-uddv"@[3] != "-udna"@[3]);
    reveal_strlit("-udgc");
    assert("-uddv"@[3] != "-udgc"@[3]);
    reveal_strlit("-udccc");
    assert("-uddv"@.len() != "-udccc"@.len());
    reveal_strlit("-udbc");
    assert("-uddv"@[3] != "-udbc"@[3]);
    reveal_strlit("-uddm");
    assert("-uddv"@[4] != "-uddm"@[4]);
    reveal_strlit("-udddv");
    assert("-uddv"@.len() != "-udddv"@.len());
}

proof fn lemma_classify_nv()
    ensures
        classify("-udnv"@) == Some(CliOption::Show(Toggle::Nv)),
{
    reveal_strlit("-udnv");
    reveal_strlit("-u");
    assert("-udnv"@.len() != "-u"@.len());
    reveal_strlit("-d");
    assert("-udnv"@.len() != "-d"@.len());
    reveal_strlit("-u8");
    assert("-udnv"@.len() != "-u8"@.len());
    reveal_strlit("-u16");
    assert("-udnv"@.len() != "-u16"@.len());
    reveal_strlit("-u32");
    assert("-udnv"@.len() != "-u32"@.len());
    reveal_strlit("-ud");
    assert("-udnv"@.len() != "-ud"@.len());
    reveal_strlit("-udna");
    assert("-udnv"@[4] != "-udna"@[4]);
    reveal_strlit("-udgc");
    assert("-udnv"@[3] != "-udgc"@[3]);
    reveal_strlit("-udccc");
    assert("-udnv"@.len() != "-udccc"@.len());
    reveal_strlit("-udbc");
    assert("-udnv"@[3] != "-udbc"@[3]);
    reveal_strlit("-uddm");
    assert("-udnv"@[3] != "-uddm"@[3]);
    reveal_strlit("-udddv");
    assert("-udnv"@.len() != "-udddv"@.len());
    reveal_strlit("-uddv");
    assert("-udnv"@[3] != "-uddv"@[3]);
}

proof fn lemma_classify_mir()
    ensures
        classify("-udmir"@) == Some(CliOption::Show(Toggle::Mir)),
{
    reveal_strlit("-udmir");
    reveal_strlit("-u");
    assert("-udmir"@.len() != "-u"@.len());
    reveal_strlit("-d");
    assert("-udmir"@.len() != "-d"@.len());
    reveal_strlit("-u8");
    assert("-udmir"@.len() != "-u8"@.len());
    reveal_strlit("-u16");
    assert("-udmir"@.len() != "-u16"@.len());
    reveal_strlit("-u32");
    assert("-udmir"@.len() != "-u32"@.len());
    reveal_strlit("-ud");
    assert("-udmir"@.len() != "-ud"@.len());
    reveal_strlit("-udna");
    assert("-udmir"@.len() != "-udna"@.len());
    reveal_strlit("-udgc");
    assert("-udmir"@.len() != "-udgc"@.len());
    reveal_strlit("-udccc");
    assert("-udmir"@[3] != "-udccc"@[3]);
    reveal_strlit("-udbc");
    assert("-udmir"@.len() != "-udbc"@.len());
    reveal_strlit("-uddm");
    assert("-udmir"@.len() != "-uddm"@.len());
    reveal_strlit("-udddv");
    assert("-udmir"@[3] != "-udddv"@[3]);
    reveal_strlit("-uddv");
    assert("-udmir"@.len() != "-uddv"@.len());
    reveal_strlit("-udnv");
    assert("-udmir"@.len() != "-udnv"@.len());
}

proof fn lemma_classify_na1()
    ensures
        classify("-udna1"@) == Some(CliOption::Show(Toggle::Na1)),
{
    reveal_strlit("-udna1");
    reveal_strlit("-u");
    assert("-udna1"@.len() != "-u"@.len());
    reveal_strlit("-d");
    assert("-udna1"@.len() != "-d"@.len());
    reveal_strlit("-u8");
    assert("-udna1"@.len() != "-u8"@.len());
    reveal_strlit("-u16");
    assert("-udna1"@.len() != "-u16"@.len());
    reveal_strlit("-u32");
    assert("-udna1"@.len() != "-u32"@.len());
    reveal_strlit("-ud");
    assert("-udna1"@.len() != "-ud"@.len());
    reveal_strlit("-udna");
    assert("-udna1"@.len() != "-udna"@.len());
    reveal_strlit("-udgc");
    assert("-udna1"@.len() != "-udgc"@.len());
    reveal_strlit("-udccc");
    assert("-udna1"@[3] != "-udccc"@[3]);
    reveal_strlit("-udbc");
    assert("-udna1"@.len() != "-udbc"@.len());
    reveal_strlit("-uddm");
    assert("-udna1"@.len() != "-uddm"@.len());
    reveal_strlit("-udddv");
    assert("-udna1"@[3] != "-udddv"@[3]);
    reveal_strlit("-uddv");
    assert("-udna1"@.len() != "-uddv"@.len());
    reveal_strlit("-udnv");
    assert("-udna1"@.len() != "-udnv"@.len());
    reveal_strlit("-udmir");
    assert("-udna1"@[3] != "-udmir"@[3]);
}

proof fn lemma_classify_iso()
    ensures
        classify("-udiso"@) == Some(CliOption::Show(Toggle::Iso)),
{
    reveal_strlit("-udiso");
    reveal_strlit("-u");
    assert("-udiso"@.len() != "-u"@.len());
    reveal_strlit("-d");
    assert("-udiso"@.len() != "-d"@.len());
    reveal_strlit("-u8");
    assert("-udiso"@.len() != "-u8"@.len());
    reveal_strlit("-u16");
    assert("-udiso"@.len() != "-u16"@.len());
    reveal_strlit("-u32");
    assert("-udiso"@.len() != "-u32"@.len());
    reveal_strlit("-ud");
    assert("-udiso"@.len() != "-ud"@.len());
    reveal_strlit("-udna");
    assert("-udiso"@.len() != "-udna"@.len());
    reveal_strlit("-udgc");
    assert("-udiso"@.len() != "-udgc"@.len());
    reveal_strlit("-udccc");
    assert("-udiso"@[3] != "-udccc"@[3]);
    reveal_strlit("-udbc");
    assert("-udiso"@.len() != "-udbc"@.len());
    reveal_strlit("-uddm");
    assert("-udiso"@.len() != "-uddm"@.len());
    reveal_strlit("-udddv");
    assert("-udiso"@[3] != "-udddv"@[3]);
    reveal_strlit("-uddv");
    assert("-udiso"@.len() != "-uddv"@.len());
    reveal_strlit("-udnv");
    assert("-udiso"@.len() != "-udnv"@.len());
    reveal_strlit("-udmir");
    assert("-udiso"@[3] != "-udmir"@[3]);
    reveal_strlit("-udna1");
    assert("-udiso"@[3] != "-udna1"@[3]);
}

proof fn lemma_classify_suc()
    ensures
        classify("-udsuc"@) == Some(CliOption::Show(Toggle::Suc)),
{
    reveal_strlit("-udsuc");
    reveal_strlit("-u");
    assert("-udsuc"@.len() != "-u"@.len());
    reveal_strlit("-d");
    assert("-udsuc"@.len() != "-d"@.len());
    reveal_strlit("-u8");
    assert("-udsuc"@.len() != "-u8"@.len());
    reveal_strlit("-u16");
    assert("-udsuc"@.len() != "-u16"@.len());
    reveal_strlit("-u32");
    assert("-udsuc"@.len() != "-u32"@.len());
    reveal_strlit("-ud");
    assert("-udsuc"@.len() != "-ud"@.len());
    reveal_strlit("-udna");
    assert("-udsuc"@.len() != "-udna"@.len());
    reveal_strlit("-udgc");
    assert("-udsuc"@.len() != "-udgc"@.len());
    reveal_strlit("-udccc");
    assert("-udsuc"@[3] != "-udccc"@[3]);
    reveal_strlit("-udbc");
    assert("-udsuc"@.len() != "-udbc"@.len());
    reveal_strlit("-uddm");
    assert("-udsuc"@.len() != "-uddm"@.len());
    reveal_strlit("-udddv");
    assert("-udsuc"@[3] != "-udddv"@[3]);
    reveal_strlit("-uddv");
    assert("-udsuc"@.len() != "-uddv"@.len());
    reveal_strlit("-udnv");
    assert("-udsuc"@.len() != "-udnv"@.len());
    reveal_strlit("-udmir");
    assert("-udsuc"@[3] != "-udmir"@[3]);
    reveal_strlit("-udna1");
    assert("-udsuc"@[3] != "-udna1"@[3]);
    reveal_strlit("-udiso");
    assert("-udsuc"@[3] != "-udiso"@[3]);
}

proof fn lemma_classify_slc()
    ensures
        classify("-udslc"@) == Some(CliOption::Show(Toggle::Slc)),
{
    reveal_strlit("-udslc");
    reveal_strlit("-u");
    assert("-udslc"@.len() != "-u"@.len());
    reveal_strlit("-d");
    assert("-udslc"@.len() != "-d"@.len());
    reveal_strlit("-u8");
    assert("-udslc"@.len() != "-u8"@.len());
    reveal_strlit("-u16");
    assert("-udslc"@.len() != "-u16"@.len());
    reveal_strlit("-u32");
    assert("-udslc"@.len() != "-u32"@.len());
    reveal_strlit("-ud");
    assert("-udslc"@.len() != "-ud"@.len());
    reveal_strlit("-udna");
    assert("-udslc"@.len() != "-udna"@.len());
    reveal_strlit("-udgc");
    assert("-udslc"@.len() != "-udgc"@.len());
    reveal_strlit("-udccc");
    assert("-udslc"@[3] != "-udccc"@[3]);
    reveal_strlit("-udbc");
    assert("-udslc"@.len() != "-udbc"@.len());
    reveal_strlit("-uddm");
    assert("-udslc"@.len() != "-uddm"@.len());
    reveal_strlit("-udddv");
    assert("-udslc"@[3] != "-udddv"@[3]);
    reveal_strlit("-uddv");
    assert("-udslc"@.len() != "-uddv"@.len());
    reveal_strlit("-udnv");
    assert("-udslc"@.len() != "-udnv"@.len());
    reveal_strlit("-udmir");
    assert("-udslc"@[3] != "-udmir"@[3]);
    reveal_strlit("-udna1");
    assert("-udslc"@[3] != "-udna1"@[3]);
    reveal_strlit("-udiso");
    assert("-udslc"@[3] != "-udiso"@[3]);
    reveal_strlit("-udsuc");
    assert("-udslc"@[4] != "-udsuc"@[4]);
}

proof fn lemma_classify_stc()
    ensures
        classify("-udstc"@) == Some(CliOption::Show(Toggle::Stc)),
{
    reveal_strlit("-udstc");
    reveal_strlit("-u");
    assert("-udstc"@.len() != "-u"@.len());
    reveal_strlit("-d");
    assert("-udstc"@.len() != "-d"@.len());
    reveal_strlit("-u8");
    assert("-udstc"@.len() != "-u8"@.len());
    reveal_strlit("-u16");
    assert("-udstc"@.len() != "-u16"@.len());
    reveal_strlit("-u32");
    assert("-udstc"@.len() != "-u32"@.len());
    reveal_strlit("-ud");
    assert("-udstc"@.len() != "-ud"@.len());
    reveal_strlit("-udna");
    assert("-udstc"@.len() != "-udna"@.len());
    reveal_strlit("-udgc");
    assert("-udstc"@.len() != "-udgc"@.len());
    reveal_strlit("-udccc");
    assert("-udstc"@[3] != "-udccc"@[3]);
    reveal_strlit("-udbc");
    assert("-udstc"@.len() != "-udbc"@.len());
    reveal_strlit("-uddm");
    assert("-udstc"@.len() != "-uddm"@.len());
    reveal_strlit("-udddv");
    assert("-udstc"@[3] != "-udddv"@[3]);
    reveal_strlit("-uddv");
    assert("-udstc"@.len() != "-uddv"@.len());
    reveal_strlit("-udnv");
    assert("-udstc"@.len() != "-udnv"@.len());
    reveal_strlit("-udmir");
    assert("-udstc"@[3] != "-udmir"@[3]);
    reveal_strlit("-udna1");
    assert("-udstc"@[3] != "-udna1"@[3]);
    reveal_strlit("-udiso");
    assert("-udstc"@[3] != "-udiso"@[3]);
    reveal_strlit("-udsuc");
    assert("-udstc"@[4] != "-udsuc"@[4]);
    reveal_strlit("-udslc");
    assert("-udstc"@[4] != "-udslc"@[4]);
}

proof fn lemma_classify_block()
    ensures
        classify("-b"@) == Some(CliOption::Show(Toggle::BlockInfo)),
{
    reveal_strlit("-b");
    reveal_strlit("-u");
    assert("-b"@[1] != "-u"@[1]);
    reveal_strlit("-d");
    assert("-b"@[1] != "-d"@[1]);
    reveal_strlit("-u8");
    assert("-b"@.len() != "-u8"@.len());
    reveal_strlit("-u16");
    assert("-b"@.len() != "-u16"@.len());
    reveal_strlit("-u32");
    assert("-b"@.len() != "-u32"@.len());
    reveal_strlit("-ud");
    assert("-b"@.len() != "-ud"@.len());
    reveal_strlit("-udna");
    assert("-b"@.len() != "-udna"@.len());
    reveal_strlit("-udgc");
    assert("-b"@.len() != "-udgc"@.len());
    reveal_strlit("-udccc");
    assert("-b"@.len() != "-udccc"@.len());
    reveal_strlit("-udbc");
    assert("-b"@.len() != "-udbc"@.len());
    reveal_strlit("-uddm");
    assert("-b"@.len() != "-uddm"@.len());
    reveal_strlit("-udddv");
    assert("-b"@.len() != "-udddv"@.len());
    reveal_strlit("-uddv");
    assert("-b"@.len() != "-uddv"@.len());
    reveal_strlit("-udnv");
    assert("-b"@.len() != "-udnv"@.len());
    reveal_strlit("-udmir");
    assert("-b"@.len() != "-udmir"@.len());
    reveal_strlit("-udna1");
    assert("-b"@.len() != "-udna1"@.len());
    reveal_strlit("-udiso");
    assert("-b"@.len() != "-udiso"@.len());
    reveal_strlit("-udsuc");
    assert("-b"@.len() != "-udsuc"@.len());
    reveal_strlit("-udslc");
    assert("-b"@.len() != "-udslc"@.len());
    reveal_strlit("-udstc");
    assert("-b"@.len() != "-udstc"@.len());
}

proof fn lemma_classify_name()
    ensures
        classify("-n"@) == Some(CliOption::Show(Toggle::NameInfo)),
{
    reveal_strlit("-n");
    reveal_strlit("-u");
    assert("-n"@[1] != "-u"@[1]);
    reveal_strlit("-d");
    assert("-n"@[1] != "-d"@[1]);
    reveal_strlit("-u8");
    assert("-n"@.len() != "-u8"@.len());
    reveal_strlit("-u16");
    assert("-n"@.len() != "-u16"@.len());
    reveal_strlit("-u32");
    assert("-n"@.len() != "-u32"@.len());
    reveal_strlit("-ud");
    assert("-n"@.len() != "-ud"@.len());
    reveal_strlit("-udna");
    assert("-n"@.len() != "-udna"@.len());
    reveal_strlit("-udgc");
    assert("-n"@.len() != "-udgc"@.len());
    reveal_strlit("-udccc");
    assert("-n"@.len() != "-udccc"@.len());
    reveal_strlit("-udbc");
    assert("-n"@.len() != "-udbc"@.len());
    reveal_strlit("-uddm");
    assert("-n"@.len() != "-uddm"@.len());
    reveal_strlit("-udddv");
    assert("-n"@.len() != "-udddv"@.len());
    reveal_strlit("-uddv");
    assert("-n"@.len() != "-uddv"@.len());
    reveal_strlit("-udnv");
    assert("-n"@.len() != "-udnv"@.len());
    reveal_strlit("-udmir");
    assert("-n"@.len() != "-udmir"@.len());
    reveal_strlit("-udna1");
    assert("-n"@.len() != "-udna1"@.len());
    reveal_strlit("-udiso");
    assert("-n"@.len() != "-udiso"@.len());
    reveal_strlit("-udsuc");
    assert("-n"@.len() != "-udsuc"@.len());
    reveal_strlit("-udslc");
    assert("-n"@.len() != "-udslc"@.len());
    reveal_strlit("-udstc");
    assert("-n"@.len() != "-udstc"@.len());
    reveal_strlit("-b");
    assert("-n"@[1] != "-b"@[1]);
}

proof fn lemma_toggle_words_classify()
    ensures
        classify("-u"@) == Some(CliOption::Show(Toggle::Utf)),
        classify("-d"@) == Some(CliOption::Show(Toggle::Dec)),
        classify("-u8"@) == Some(CliOption::Show(Toggle::Utf8)),
        classify("-u16"@) == Some(CliOption::Show(Toggle::Utf16)),
        classify("-u32"@) == Some(CliOption::Show(Toggle::Utf32)),
        classify("-ud"@) == Some(CliOption::Show(Toggle::UnicodeData)),
        classify("-udna"@) == Some(CliOption::Show(Toggle::Na)),
        classify("-udgc"@) == Some(CliOption::Show(Toggle::Gc)),
        classify("-udccc"@) == Some(CliOption::Show(Toggle::Ccc)),
        classify("-udbc"@) == Some(CliOption::Show(Toggle::Bc)),
        classify("-uddm"@) == Some(CliOption::Show(Toggle::Dm)),
        classify("-udddv"@) == Some(CliOption::Show(Toggle::Ddv)),
        classify("-uddv"@) == Some(CliOption::Show(Toggle::Dv)),
        classify("-udnv"@) == Some(CliOption::Show(Toggle::Nv)),
        classify("-udmir"@) == Some(CliOption::Show(Toggle::Mir)),
        classify("-udna1"@) == Some(CliOption::Show(Toggle::Na1)),
        classify("-udiso"@) == Some(CliOption::Show(Toggle::Iso)),
        classify("-udsuc"@) == Some(CliOption::Show(Toggle::Suc)),
        classify("-udslc"@) == Some(CliOption::Show(Toggle::Slc)),
        classify("-udstc"@) == Some(CliOption::Show(Toggle::Stc)),
        classify("-b"@) == Some(CliOption::Show(Toggle::BlockInfo)),
        classify("-n"@) == Some(CliOption::Show(Toggle::NameInfo)),
{
    lemma_classify_utf();
    lemma_classify_dec();
    lemma_classify_utf8();
    lemma_classify_utf16();
    lemma_classify_utf32();
    lemma_classify_ud();
    lemma_classify_na();
    lemma_classify_gc();
    lemma_classify_ccc();
    lemma_classify_bc();
    lemma_classify_dm();
    lemma_classify_ddv();
    lemma_classify_dv();
    lemma_classify_nv();
    lemma_classify_mir();
    lemma_classify_na1();
    lemma_classify_iso();
    lemma_classify_suc();
    lemma_classify_slc();
    lemma_classify_stc();
    lemma_classify_block();
    lemma_classify_name();
}

proof fn lemma_scan_prefix(a: Seq<Seq<char>>, b: Seq<Seq<char>>, n: int, tty: bool)
    requires
        n <= a.len(),
    ensures
        scan(a + b, n, tty) == scan(a, n, tty),
    decreases n,
{
    if n > 1 {
        lemma_scan_prefix(a, b, n - 1, tty);
        assert((a + b)[n - 1] == a[n - 1]);
    }
}

proof fn lemma_scan_plain(a: Seq<Seq<char>>, n: int, tty: bool)
    requires
        1 <= n <= a.len(),
        forall|j: int| 1 <= j < a.len() ==> classify(#[trigger] a[j]) is None,
    ensures
        scan(a, n, tty) == (ArgScan {
            given: Toggles::uniform(false),
            color: tty,
            help: false,
            rest: a.subrange(1, n),
        }),
    decreases n,
{
    if n > 1 {
        lemma_scan_plain(a, n - 1, tty);
        assert(a.subrange(1, n) =~= a.subrange(1, n - 1).push(a[n - 1]));
    } else {
        assert(a.subrange(1, 1) =~= Seq::<Seq<char>>::empty());
    }
}

/// Zero toggles given resolve to what every toggle given resolves to: all
/// sections and fields shown.
pub proof fn lemma_nothing_given_shows_everything()
    ensures
        resolved(Toggles::uniform(false)) == Toggles::uniform(true),
        resolved(Toggles::uniform(true)) == Toggles::uniform(true),
{
}

/// A command line without options configures the report exactly as the
/// same command line with every toggle word added: the output is identical.
pub proof fn lemma_no_options_same_as_every_toggle(args: Seq<Seq<char>>, tty: bool)
    requires
        args.len() >= 1,
        forall|j: int| 1 <= j < args.len() ==> classify(#[trigger] args[j]) is None,
    ensures
        parse_model(args, tty) == parse_model(args + toggle_words(), tty),
        parse_model(args, tty) is Some,
        forall|cp: u32, ud: Seq<Seq<char>>, bl: Seq<Seq<char>>, nl: Seq<Seq<char>>|
            #[trigger] char_report(cp, parse_model(args, tty)->0, ud, bl, nl) == char_report(
                cp,
                parse_model(args + toggle_words(), tty)->0,
                ud,
                bl,
                nl,
            ),
{
    let b = args + toggle_words();
    let n = args.len() as int;
    lemma_toggle_words_classify();
    lemma_scan_plain(args, n, tty);
    lemma_scan_prefix(args, toggle_words(), n, tty);
    assert(b.len() == n + 22);
    assert forall|k: int| 0 <= k < 22 implies b[n + k] == #[trigger] toggle_words()[k] by {}
    assert(b[n + 0] == "-u"@);
    assert(scan(b, n + 1, tty) == (ArgScan { given: scan(b, n + 0, tty).given.with(Toggle::Utf), ..scan(b, n + 0, tty) }));
    assert(b[n + 1] == "-d"@);
    assert(scan(b, n + 2, tty) == (ArgScan { given: scan(b, n + 1, tty).given.with(Toggle::Dec), ..scan(b, n + 1, tty) }));
    assert(b[n + 2] == "-u8"@);
    assert(scan(b, n + 3, tty) == (ArgScan { given: scan(b, n + 2, tty).given.with(Toggle::Utf8), ..scan(b, n + 2, tty) }));
    assert(b[n + 3] == "-u16"@);
    assert(scan(b, n + 4, tty) == (ArgScan { given: scan(b, n + 3, tty).given.with(Toggle::Utf16), ..scan(b, n + 3, tty) }));
    assert(b[n + 4] == "-u32"@);
    assert(scan(b, n + 5, tty) == (ArgScan { given: scan(b, n + 4, tty).given.with(Toggle::Utf32), ..scan(b, n + 4, tty) }));
    assert(b[n + 5] == "-ud"@);
    assert(scan(b, n + 6, tty) == (ArgScan { given: scan(b, n + 5, tty).given.with(Toggle::UnicodeData), ..scan(b, n + 5, tty) }));
    assert(b[n + 6] == "-udna"@);
    assert(scan(b, n + 7, tty) == (ArgScan { given: scan(b, n + 6, tty).given.with(Toggle::Na), ..scan(b, n + 6, tty) }));
    assert(b[n + 7] == "-udgc"@);
    assert(scan(b, n + 8, tty) == (ArgScan { given: scan(b, n + 7, tty).given.with(Toggle::Gc), ..scan(b, n + 7, tty) }));
    assert(b[n + 8] == "-udccc"@);
    assert(scan(b, n + 9, tty) == (ArgScan { given: scan(b, n + 8, tty).given.with(Toggle::Ccc), ..scan(b, n + 8, tty) }));
    assert(b[n + 9] == "-udbc"@);
    assert(scan(b, n + 10, tty) == (ArgScan { given: scan(b, n + 9, tty).given.with(Toggle::Bc), ..scan(b, n + 9, tty) }));
    assert(b[n + 10] == "-uddm"@);
    assert(scan(b, n + 11, tty) == (ArgScan { given: scan(b, n + 10, tty).given.with(Toggle::Dm), ..scan(b, n + 10, tty) }));
    assert(b[n + 11] == "-udddv"@);
    assert(scan(b, n + 12, tty) == (ArgScan { given: scan(b, n + 11, tty).given.with(Toggle::Ddv), ..scan(b, n + 11, tty) }));
    assert(b[n + 12] == "-uddv"@);
    assert(scan(b, n + 13, tty) == (ArgScan { given: scan(b, n + 12, tty).given.with(Toggle::Dv), ..scan(b, n + 12, tty) }));
    assert(b[n + 13] == "-udnv"@);
    assert(scan(b, n + 14, tty) == (ArgScan { given: scan(b, n + 13, tty).given.with(Toggle::Nv), ..scan(b, n + 13, tty) }));
    assert(b[n + 14] == "-udmir"@);
    assert(scan(b, n + 15, tty) == (ArgScan { given: scan(b, n + 14, tty).given.with(Toggle::Mir), ..scan(b, n + 14, tty) }));
    assert(b[n + 15] == "-udna1"@);
    assert(scan(b, n + 16, tty) == (ArgScan { given: scan(b, n + 15, tty).given.with(Toggle::Na1), ..scan(b, n + 15, tty) }));
    assert(b[n + 16] == "-udiso"@);
    assert(scan(b, n + 17, tty) == (ArgScan { given: scan(b, n + 16, tty).given.with(Toggle::Iso), ..scan(b, n + 16, tty) }));
    assert(b[n + 17] == "-udsuc"@);
    assert(scan(b, n + 18, tty) == (ArgScan { given: scan(b, n + 17, tty).given.with(Toggle::Suc), ..scan(b, n + 17, tty) }));
    assert(b[n + 18] == "-udslc"@);
    assert(scan(b, n + 19, tty) == (ArgScan { given: scan(b, n + 18, tty).given.with(Toggle::Slc), ..scan(b, n + 18, tty) }));
    assert(b[n + 19] == "-udstc"@);
    assert(scan(b, n + 20, tty) == (ArgScan { given: scan(b, n + 19, tty).given.with(Toggle::Stc), ..scan(b, n + 19, tty) }));
    assert(b[n + 20] == "-b"@);
    assert(scan(b, n + 21, tty) == (ArgScan { given: scan(b, n + 20, tty).given.with(Toggle::BlockInfo), ..scan(b, n + 20, tty) }));
    assert(b[n + 21] == "-n"@);
    assert(scan(b, n + 22, tty) == (ArgScan { given: scan(b, n + 21, tty).given.with(Toggle::NameInfo), ..scan(b, n + 21, tty) }));
    assert(scan(b, n + 22, tty).given == Toggles::uniform(true));
}

/// Giving the UnicodeData.txt parent alone resolves to what giving all of
/// its fields resolves to.
pub proof fn lemma_parent_same_as_children()
    ensures
        resolved(Toggles { ud: true, ..Toggles::uniform(false) }) == resolved(Toggles {
            na: true,
            gc: true,
            ccc: true,
            bc: true,
            dm: true,
            ddv: true,
            dv: true,
            nv: true,
            mir: true,
            na1: true,
            iso: true,
            suc: true,
            slc: true,
            stc: true,
            ..Toggles::uniform(false)
        }),
{
}

/// A command line without options plus the UnicodeData.txt parent word
/// configures the report exactly as it does plus the fourteen field words.
pub proof fn lemma_parent_word_same_as_field_words(args: Seq<Seq<char>>, tty: bool)
    requires
        args.len() >= 1,
        forall|j: int| 1 <= j < args.len() ==> classify(#[trigger] args[j]) is None,
    ensures
        parse_model(args.push("-ud"@), tty) == parse_model(args + unicode_data_field_words(), tty),
        parse_model(args.push("-ud"@), tty) is Some,
        forall|cp: u32, ud: Seq<Seq<char>>, bl: Seq<Seq<char>>, nl: Seq<Seq<char>>|
            #[trigger] char_report(cp, parse_model(args.push("-ud"@), tty)->0, ud, bl, nl)
                == char_report(cp, parse_model(args + unicode_data_field_words(), tty)->0, ud, bl, nl),
{
    let n = args.len() as int;
    let a = args.push("-ud"@);
    let b = args + unicode_data_field_words();
    lemma_toggle_words_classify();
    lemma_scan_plain(args, n, tty);
    lemma_scan_prefix(args, seq!["-ud"@], n, tty);
    assert(a =~= args + seq!["-ud"@]);
    lemma_scan_prefix(args, unicode_data_field_words(), n, tty);
    assert(b.len() == n + 14);
    assert forall|k: int| 0 <= k < 14 implies b[n + k] == #[trigger] toggle_words()[6 + k] by {}
    assert(b[n + 0] == "-udna"@);
    assert(scan(b, n + 1, tty) == (ArgScan { given: scan(b, n + 0, tty).given.with(Toggle::Na), ..scan(b, n + 0, tty) }));
    assert(b[n + 1] == "-udgc"@);
    assert(scan(b, n + 2, tty) == (ArgScan { given: scan(b, n + 1, tty).given.with(Toggle::Gc), ..scan(b, n + 1, tty) }));
    assert(b[n + 2] == "-udccc"@);
    assert(scan(b, n + 3, tty) == (ArgScan { given: scan(b, n + 2, tty).given.with(Toggle::Ccc), ..scan(b, n + 2, tty) }));
    assert(b[n + 3] == "-udbc"@);
    assert(scan(b, n + 4, tty) == (ArgScan { given: scan(b, n + 3, tty).given.with(Toggle::Bc), ..scan(b, n + 3, tty) }));
    assert(b[n + 4] == "-uddm"@);
    assert(scan(b, n + 5, tty) == (ArgScan { given: scan(b, n + 4, tty).given.with(Toggle::Dm), ..scan(b, n + 4, tty) }));
    assert(b[n + 5] == "-udddv"@);
    assert(scan(b, n + 6, tty) == (ArgScan { given: scan(b, n + 5, tty).given.with(Toggle::Ddv), ..scan(b, n + 5, tty) }));
    assert(b[n + 6] == "-uddv"@);
    assert(scan(b, n + 7, tty) == (ArgScan { given: scan(b, n + 6, tty).given.with(Toggle::Dv), ..scan(b, n + 6, tty) }));
    assert(b[n + 7] == "-udnv"@);
    assert(scan(b, n + 8, tty) == (ArgScan { given: scan(b, n + 7, tty).given.with(Toggle::Nv), ..scan(b, n + 7, tty) }));
    assert(b[n + 8] == "-udmir"@);
    assert(scan(b, n + 9, tty) == (ArgScan { given: scan(b, n + 8, tty).given.with(Toggle::Mir), ..scan(b, n + 8, tty) }));
    assert(b[n + 9] == "-udna1"@);
    assert(scan(b, n + 10, tty) == (ArgScan { given: scan(b, n + 9, tty).given.with(Toggle::Na1), ..scan(b, n + 9, tty) }));
    assert(b[n + 10] == "-udiso"@);
    assert(scan(b, n + 11, tty) == (ArgScan { given: scan(b, n + 10, tty).given.with(Toggle::Iso), ..scan(b, n + 10, tty) }));
    assert(b[n + 11] == "-udsuc"@);
    assert(scan(b, n + 12, tty) == (ArgScan { given: scan(b, n + 11, tty).given.with(Toggle::Suc), ..scan(b, n + 11, tty) }));
    assert(b[n + 12] == "-udslc"@);
    assert(scan(b, n + 13, tty) == (ArgScan { given: scan(b, n + 12, tty).given.with(Toggle::Slc), ..scan(b, n + 12, tty) }));
    assert(b[n + 13] == "-udstc"@);
    assert(scan(b, n + 14, tty) == (ArgScan { given: scan(b, n + 13, tty).given.with(Toggle::Stc), ..scan(b, n + 13, tty) }));
    assert(a[n] == "-ud"@);
    lemma_parent_same_as_children();
}

} // verus!
