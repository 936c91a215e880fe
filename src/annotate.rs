//! The field annotators: static tables from the short property codes of
//! UnicodeData.txt to descriptive labels. An unknown code maps to `???`.
use vstd::prelude::*;
use crate::text::same_text;

verus! {

/// What `str::trim` leaves of a string: the string without leading and
/// trailing white space.
pub uninterp spec fn trimmed(s: Seq<char>) -> Seq<char>;

/// Relies on `str::trim`: removes leading and trailing white space; a
/// string without white space at its ends stays as it is.
#[verifier::external_body]
fn trim(s: &str) -> (r: &str)
    ensures
        r@ == trimmed(s@),
{
    s.trim()
}

/// The label of a General Category code.
pub open spec fn gc_label(code: Seq<char>) -> Seq<char> {
    if code == "C"@ {
        "Other # Cc | Cf | Cn | Co | Cs"@
    }     else if code == "Cc"@ {
        "Control ; cntrl"@
    }     else if code == "Cf"@ {
        "Format"@
    }     else if code == "Cn"@ {
        "Unassigned"@
    }     else if code == "Co"@ {
        "Private Use"@
    }     else if code == "Cs"@ {
        "Surrogate"@
    }     else if code == "L"@ {
        "Letter # Ll | Lm | Lo | Lt | Lu"@
    }     else if code == "LC"@ {
        "Cased Letter # Ll | Lt | Lu"@
    }     else if code == "Ll"@ {
        "Lowercase Letter"@
    }     else if code == "Lm"@ {
        "Modifier Letter"@
    }     else if code == "Lo"@ {
        "Other Letter"@
    }     else if code == "Lt"@ {
        "Titlecase Letter"@
    }     else if code == "Lu"@ {
        "Uppercase Letter"@
    }     else if code == "M"@ {
        "Mark ; Combining Mark # Mc | Me | Mn"@
    }     else if code == "Mc"@ {
        "Spacing Mark"@
    }     else if code == "Me"@ {
        "Enclosing Mark"@
    }     else if code == "Mn"@ {
        "Nonspacing Mark"@
    }     else if code == "N"@ {
        "Number # Nd | Nl | No"@
    }     else if code == "Nd"@ {
        "Decimal Number ; digit"@
    }     else if code == "Nl"@ {
        "Letter Number"@
    }     else if code == "No"@ {
        "Other Number"@
    }     else if code == "P"@ {
        "Punctuation ; punct # Pc | Pd | Pe | Pf | Pi | Po | Ps"@
    }     else if code == "Pc"@ {
        "Connector Punctuation"@
    }     else if code == "Pd"@ {
        "Dash Punctuation"@
    }     else if code == "Pe"@ {
        "Close Punctuation"@
    }     else if code == "Pf"@ {
        "Final Punctuation"@
    }     else if code == "Pi"@ {
        "Initial Punctuation"@
    }     else if code == "Po"@ {
        "Other Punctuation"@
    }     else if code == "Ps"@ {
        "Open Punctuation"@
    }     else if code == "S"@ {
        "Symbol # Sc | Sk | Sm | So"@
    }     else if code == "Sc"@ {
        "Currency Symbol"@
    }     else if code == "Sk"@ {
        "Modifier Symbol"@
    }     else if code == "Sm"@ {
        "Math Symbol"@
    }     else if code == "So"@ {
        "Other Symbol"@
    }     else if code == "Z"@ {
        "Separator # Zl | Zp | Zs"@
    }     else if code == "Zl"@ {
        "Line Separator"@
    }     else if code == "Zp"@ {
        "Paragraph Separator"@
    }     else if code == "Zs"@ {
        "Space Separator"@
    } else {
        "???"@
    }
}

/// The label of the General Category code `code`, taken as it stands.
pub fn gc_label_of(code: &str) -> (r: &'static str)
    ensures
        r@ == gc_label(code@),
{
    if same_text(code, "C") {
        "Other # Cc | Cf | Cn | Co | Cs"
    }     else if same_text(code, "Cc") {
        "Control ; cntrl"
    }     else if same_text(code, "Cf") {
        "Format"
    }     else if same_text(code, "Cn") {
        "Unassigned"
    }     else if same_text(code, "Co") {
        "Private Use"
    }     else if same_text(code, "Cs") {
        "Surrogate"
    }     else if same_text(code, "L") {
        "Letter # Ll | Lm | Lo | Lt | Lu"
    }     else if same_text(code, "LC") {
        "Cased Letter # Ll | Lt | Lu"
    }     else if same_text(code, "Ll") {
        "Lowercase Letter"
    }     else if same_text(code, "Lm") {
        "Modifier Letter"
    }     else if same_text(code, "Lo") {
        "Other Letter"
    }     else if same_text(code, "Lt") {
        "Titlecase Letter"
    }     else if same_text(code, "Lu") {
        "Uppercase Letter"
    }     else if same_text(code, "M") {
        "Mark ; Combining Mark # Mc | Me | Mn"
    }     else if same_text(code, "Mc") {
        "Spacing Mark"
    }     else if same_text(code, "Me") {
        "Enclosing Mark"
    }     else if same_text(code, "Mn") {
        "Nonspacing Mark"
    }     else if same_text(code, "N") {
        "Number # Nd | Nl | No"
    }     else if same_text(code, "Nd") {
        "Decimal Number ; digit"
    }     else if same_text(code, "Nl") {
        "Letter Number"
    }     else if same_text(code, "No") {
        "Other Number"
    }     else if same_text(code, "P") {
        "Punctuation ; punct # Pc | Pd | Pe | Pf | Pi | Po | Ps"
    }     else if same_text(code, "Pc") {
        "Connector Punctuation"
    }     else if same_text(code, "Pd") {
        "Dash Punctuation"
    }     else if same_text(code, "Pe") {
        "Close Punctuation"
    }     else if same_text(code, "Pf") {
        "Final Punctuation"
    }     else if same_text(code, "Pi") {
        "Initial Punctuation"
    }     else if same_text(code, "Po") {
        "Other Punctuation"
    }     else if same_text(code, "Ps") {
        "Open Punctuation"
    }     else if same_text(code, "S") {
        "Symbol # Sc | Sk | Sm | So"
    }     else if same_text(code, "Sc") {
        "Currency Symbol"
    }     else if same_text(code, "Sk") {
        "Modifier Symbol"
    }     else if same_text(code, "Sm") {
        "Math Symbol"
    }     else if same_text(code, "So") {
        "Other Symbol"
    }     else if same_text(code, "Z") {
        "Separator # Zl | Zp | Zs"
    }     else if same_text(code, "Zl") {
        "Line Separator"
    }     else if same_text(code, "Zp") {
        "Paragraph Separator"
    }     else if same_text(code, "Zs") {
        "Space Separator"
    } else {
        "???"
    }
}

/// The label of the General Category code in `short_id`, white space at its ends
/// ignored.
pub fn gc_to_string(short_id: &str) -> (r: &'static str)
    ensures
        r@ == gc_label(trimmed(short_id@)),
{
    gc_label_of(trim(short_id))
}

/// The label of a Bidi Class code.
pub open spec fn bc_label(code: Seq<char>) -> Seq<char> {
    if code == "AL"@ {
        "Arabic Letter"@
    }     else if code == "AN"@ {
        "Arabic Number"@
    }     else if code == "B"@ {
        "Paragraph Separator"@
    }     else if code == "BN"@ {
        "Boundary Neutral"@
    }     else if code == "CS"@ {
        "Common Separator"@
    }     else if code == "EN"@ {
        "European Number"@
    }     else if code == "ES"@ {
        "European Separator"@
    }     else if code == "ET"@ {
        "European Terminator"@
    }     else if code == "FSI"@ {
        "First Strong Isolate"@
    }     else if code == "L"@ {
        "Left To Right"@
    }     else if code == "LRE"@ {
        "Left To Right Embedding"@
    }     else if code == "LRI"@ {
        "Left To Right Isolate"@
    }     else if code == "LRO"@ {
        "Left To Right Override"@
    }     else if code == "NSM"@ {
        "Nonspacing Mark"@
    }     else if code == "ON"@ {
        "Other Neutral"@
    }     else if code == "PDF"@ {
        "Pop Directional Format"@
    }     else if code == "PDI"@ {
        "Pop Directional Isolate"@
    }     else if code == "R"@ {
        "Right To Left"@
    }     else if code == "RLE"@ {
        "Right To Left Embedding"@
    }     else if code == "RLI"@ {
        "Right To Left Isolate"@
    }     else if code == "RLO"@ {
        "Right To Left Override"@
    }     else if code == "S"@ {
        "Segment Separator"@
    }     else if code == "WS"@ {
        "White Space"@
    } else {
        "???"@
    }
}

/// The label of the Bidi Class code `code`, taken as it stands.
pub fn bc_label_of(code: &str) -> (r: &'static str)
    ensures
        r@ == bc_label(code@),
{
    if same_text(code, "AL") {
        "Arabic Letter"
    }     else if same_text(code, "AN") {
        "Arabic Number"
    }     else if same_text(code, "B") {
        "Paragraph Separator"
    }     else if same_text(code, "BN") {
        "Boundary Neutral"
    }     else if same_text(code, "CS") {
        "Common Separator"
    }     else if same_text(code, "EN") {
        "European Number"
    }     else if same_text(code, "ES") {
        "European Separator"
    }     else if same_text(code, "ET") {
        "European Terminator"
    }     else if same_text(code, "FSI") {
        "First Strong Isolate"
    }     else if same_text(code, "L") {
        "Left To Right"
    }     else if same_text(code, "LRE") {
        "Left To Right Embedding"
    }     else if same_text(code, "LRI") {
        "Left To Right Isolate"
    }     else if same_text(code, "LRO") {
        "Left To Right Override"
    }     else if same_text(code, "NSM") {
        "Nonspacing Mark"
    }     else if same_text(code, "ON") {
        "Other Neutral"
    }     else if same_text(code, "PDF") {
        "Pop Directional Format"
    }     else if same_text(code, "PDI") {
        "Pop Directional Isolate"
    }     else if same_text(code, "R") {
        "Right To Left"
    }     else if same_text(code, "RLE") {
        "Right To Left Embedding"
    }     else if same_text(code, "RLI") {
        "Right To Left Isolate"
    }     else if same_text(code, "RLO") {
        "Right To Left Override"
    }     else if same_text(code, "S") {
        "Segment Separator"
    }     else if same_text(code, "WS") {
        "White Space"
    } else {
        "???"
    }
}

/// The label of the Bidi Class code in `short_id`, white space at its ends
/// ignored.
pub fn bc_to_string(short_id: &str) -> (r: &'static str)
    ensures
        r@ == bc_label(trimmed(short_id@)),
{
    bc_label_of(trim(short_id))
}

/// The label of a Canonical Combining Class code.
pub open spec fn ccc_label(code: Seq<char>) -> Seq<char> {
    if code == "0"@ {
        "NR ; Not Reordered ; Spacing, split, enclosing, reordrant, and Tibetan subjoined"@
    }     else if code == "1"@ {
        "OV ; Overlays and interior"@
    }     else if code == "6"@ {
        "HANR ; Han Reading"@
    }     else if code == "7"@ {
        "NK ; Nuktas"@
    }     else if code == "8"@ {
        "KV ; Hiragana/Katakana voicing marks"@
    }     else if code == "9"@ {
        "VR ; Viramas"@
    }     else if code == "10"@ {
        "CCC10 ; Fixed position class"@
    }     else if code == "11"@ {
        "CCC11 ; Fixed position class"@
    }     else if code == "12"@ {
        "CCC12 ; Fixed position class"@
    }     else if code == "13"@ {
        "CCC13 ; Fixed position class"@
    }     else if code == "14"@ {
        "CCC14 ; Fixed position class"@
    }     else if code == "15"@ {
        "CCC15 ; Fixed position class"@
    }     else if code == "16"@ {
        "CCC16 ; Fixed position class"@
    }     else if code == "17"@ {
        "CCC17 ; Fixed position class"@
    }     else if code == "18"@ {
        "CCC18 ; Fixed position class"@
    }     else if code == "19"@ {
        "CCC19 ; Fixed position class"@
    }     else if code == "20"@ {
        "CCC20 ; Fixed position class"@
    }     else if code == "21"@ {
        "CCC21 ; Fixed position class"@
    }     else if code == "22"@ {
        "CCC22 ; Fixed position class"@
    }     else if code == "23"@ {
        "CCC23 ; Fixed position class"@
    }     else if code == "24"@ {
        "CCC24 ; Fixed position class"@
    }     else if code == "25"@ {
        "CCC25 ; Fixed position class"@
    }     else if code == "26"@ {
        "CCC26 ; Fixed position class"@
    }     else if code == "27"@ {
        "CCC27 ; Fixed position class"@
    }     else if code == "28"@ {
        "CCC28 ; Fixed position class"@
    }     else if code == "29"@ {
        "CCC29 ; Fixed position class"@
    }     else if code == "30"@ {
        "CCC30 ; Fixed position class"@
    }     else if code == "31"@ {
        "CCC31 ; Fixed position class"@
    }     else if code == "32"@ {
        "CCC32 ; Fixed position class"@
    }     else if code == "33"@ {
        "CCC33 ; Fixed position class"@
    }     else if code == "34"@ {
        "CCC34 ; Fixed position class"@
    }     else if code == "35"@ {
        "CCC35 ; Fixed position class"@
    }     else if code == "36"@ {
        "CCC36 ; Fixed position class"@
    }     else if code == "84"@ {
        "CCC84 ; Fixed position class"@
    }     else if code == "91"@ {
        "CCC91 ; Fixed position class"@
    }     else if code == "103"@ {
        "CCC103 ; Fixed position class"@
    }     else if code == "107"@ {
        "CCC107 ; Fixed position class"@
    }     else if code == "118"@ {
        "CCC118 ; Fixed position class"@
    }     else if code == "122"@ {
        "CCC122 ; Fixed position class"@
    }     else if code == "129"@ {
        "CCC129 ; Fixed position class"@
    }     else if code == "130"@ {
        "CCC130 ; Fixed position class"@
    }     else if code == "132"@ {
        "CCC132 ; Fixed position class"@
    }     else if code == "133"@ {
        "CCC133 ; Fixed position class # RESERVED "@
    }     else if code == "200"@ {
        "ATBL ; Attached Below Left"@
    }     else if code == "202"@ {
        "ATB ; Attached Below"@
    }     else if code == "204"@ {
        "ATBR ; Attached Below Right"@
    }     else if code == "208"@ {
        "ATL; Attached Left (reordrant around single base character)"@
    }     else if code == "210"@ {
        "ATR ; Attached Right"@
    }     else if code == "212"@ {
        "ATAL ; Attached Above Left"@
    }     else if code == "214"@ {
        "ATA ; Attached Above"@
    }     else if code == "216"@ {
        "ATAR ; Attached Above Right"@
    }     else if code == "218"@ {
        "BL ; Below Left"@
    }     else if code == "220"@ {
        "B ; Below"@
    }     else if code == "222"@ {
        "BR ; Below Right"@
    }     else if code == "224"@ {
        "L ; Left"@
    }     else if code == "226"@ {
        "R ; Right"@
    }     else if code == "228"@ {
        "AL ; Above Left"@
    }     else if code == "230"@ {
        "A ; Above"@
    }     else if code == "232"@ {
        "AR ; Above Right"@
    }     else if code == "233"@ {
        "DB ; Double Below"@
    }     else if code == "234"@ {
        "DA ; Double Above"@
    }     else if code == "240"@ {
        "IS ; Iota Subscript"@
    } else {
        "???"@
    }
}

/// The label of the Canonical Combining Class code `code`, taken as it stands.
pub fn ccc_label_of(code: &str) -> (r: &'static str)
    ensures
        r@ == ccc_label(code@),
{
    if same_text(code, "0") {
        "NR ; Not Reordered ; Spacing, split, enclosing, reordrant, and Tibetan subjoined"
    }     else if same_text(code, "1") {
        "OV ; Overlays and interior"
    }     else if same_text(code, "6") {
        "HANR ; Han Reading"
    }     else if same_text(code, "7") {
        "NK ; Nuktas"
    }     else if same_text(code, "8") {
        "KV ; Hiragana/Katakana voicing marks"
    }     else if same_text(code, "9") {
        "VR ; Viramas"
    }     else if same_text(code, "10") {
        "CCC10 ; Fixed position class"
    }     else if same_text(code, "11") {
        "CCC11 ; Fixed position class"
    }     else if same_text(code, "12") {
        "CCC12 ; Fixed position class"
    }     else if same_text(code, "13") {
        "CCC13 ; Fixed position class"
    }     else if same_text(code, "14") {
        "CCC14 ; Fixed position class"
    }     else if same_text(code, "15") {
        "CCC15 ; Fixed position class"
    }     else if same_text(code, "16") {
        "CCC16 ; Fixed position class"
    }     else if same_text(code, "17") {
        "CCC17 ; Fixed position class"
    }     else if same_text(code, "18") {
        "CCC18 ; Fixed position class"
    }     else if same_text(code, "19") {
        "CCC19 ; Fixed position class"
    }     else if same_text(code, "20") {
        "CCC20 ; Fixed position class"
    }     else if same_text(code, "21") {
        "CCC21 ; Fixed position class"
    }     else if same_text(code, "22") {
        "CCC22 ; Fixed position class"
    }     else if same_text(code, "23") {
        "CCC23 ; Fixed position class"
    }     else if same_text(code, "24") {
        "CCC24 ; Fixed position class"
    }     else if same_text(code, "25") {
        "CCC25 ; Fixed position class"
    }     else if same_text(code, "26") {
        "CCC26 ; Fixed position class"
    }     else if same_text(code, "27") {
        "CCC27 ; Fixed position class"
    }     else if same_text(code, "28") {
        "CCC28 ; Fixed position class"
    }     else if same_text(code, "29") {
        "CCC29 ; Fixed position class"
    }     else if same_text(code, "30") {
        "CCC30 ; Fixed position class"
    }     else if same_text(code, "31") {
        "CCC31 ; Fixed position class"
    }     else if same_text(code, "32") {
        "CCC32 ; Fixed position class"
    }     else if same_text(code, "33") {
        "CCC33 ; Fixed position class"
    }     else if same_text(code, "34") {
        "CCC34 ; Fixed position class"
    }     else if same_text(code, "35") {
        "CCC35 ; Fixed position class"
    }     else if same_text(code, "36") {
        "CCC36 ; Fixed position class"
    }     else if same_text(code, "84") {
        "CCC84 ; Fixed position class"
    }     else if same_text(code, "91") {
        "CCC91 ; Fixed position class"
    }     else if same_text(code, "103") {
        "CCC103 ; Fixed position class"
    }     else if same_text(code, "107") {
        "CCC107 ; Fixed position class"
    }     else if same_text(code, "118") {
        "CCC118 ; Fixed position class"
    }     else if same_text(code, "122") {
        "CCC122 ; Fixed position class"
    }     else if same_text(code, "129") {
        "CCC129 ; Fixed position class"
    }     else if same_text(code, "130") {
        "CCC130 ; Fixed position class"
    }     else if same_text(code, "132") {
        "CCC132 ; Fixed position class"
    }     else if same_text(code, "133") {
        "CCC133 ; Fixed position class # RESERVED "
    }     else if same_text(code, "200") {
        "ATBL ; Attached Below Left"
    }     else if same_text(code, "202") {
        "ATB ; Attached Below"
    }     else if same_text(code, "204") {
        "ATBR ; Attached Below Right"
    }     else if same_text(code, "208") {
        "ATL; Attached Left (reordrant around single base character)"
    }     else if same_text(code, "210") {
        "ATR ; Attached Right"
    }     else if same_text(code, "212") {
        "ATAL ; Attached Above Left"
    }     else if same_text(code, "214") {
        "ATA ; Attached Above"
    }     else if same_text(code, "216") {
        "ATAR ; Attached Above Right"
    }     else if same_text(code, "218") {
        "BL ; Below Left"
    }     else if same_text(code, "220") {
        "B ; Below"
    }     else if same_text(code, "222") {
        "BR ; Below Right"
    }     else if same_text(code, "224") {
        "L ; Left"
    }     else if same_text(code, "226") {
        "R ; Right"
    }     else if same_text(code, "228") {
        "AL ; Above Left"
    }     else if same_text(code, "230") {
        "A ; Above"
    }     else if same_text(code, "232") {
        "AR ; Above Right"
    }     else if same_text(code, "233") {
        "DB ; Double Below"
    }     else if same_text(code, "234") {
        "DA ; Double Above"
    }     else if same_text(code, "240") {
        "IS ; Iota Subscript"
    } else {
        "???"
    }
}

/// The label of the Canonical Combining Class code in `short_id`, white space at its ends
/// ignored.
pub fn ccc_to_string(short_id: &str) -> (r: &'static str)
    ensures
        r@ == ccc_label(trimmed(short_id@)),
{
    ccc_label_of(trim(short_id))
}

/// The label of a Yes/No (mirrored) code.
pub open spec fn bool_label(code: Seq<char>) -> Seq<char> {
    if code == "N"@ {
        "No ; F ; False"@
    }     else if code == "Y"@ {
        "Yes ; T ; True"@
    } else {
        "???"@
    }
}

/// The label of the Yes/No (mirrored) code `code`, taken as it stands.
pub fn bool_label_of(code: &str) -> (r: &'static str)
    ensures
        r@ == bool_label(code@),
{
    if same_text(code, "N") {
        "No ; F ; False"
    }     else if same_text(code, "Y") {
        "Yes ; T ; True"
    } else {
        "???"
    }
}

/// The label of the Yes/No (mirrored) code in `short_id`, white space at its ends
/// ignored.
pub fn bool_to_string(short_id: &str) -> (r: &'static str)
    ensures
        r@ == bool_label(trimmed(short_id@)),
{
    bool_label_of(trim(short_id))
}

} // verus!
