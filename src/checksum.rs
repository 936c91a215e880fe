//! The directory checksum scanner's records: a file's path with forward
//! slashes, its size and its CRC-32 as eight lower-case hexadecimal digits.
use vstd::prelude::*;
use crate::text::{chars_of, hex_upper, lower_hex_char, push_char, to_hex};

verus! {

/// The CRC-32 (IEEE) checksum of `data`.
pub uninterp spec fn crc32_of(data: Seq<u8>) -> u32;

/// Relies on `crc32fast::hash`: the CRC-32 (IEEE) checksum of the bytes,
/// a function of the bytes alone.
#[verifier::external_body]
fn crc32(data: &[u8]) -> (r: u32)
    ensures
        r == crc32_of(data@),
{
    crc32fast::hash(data)
}

/// One scanned file.
#[derive(Debug)]
pub struct FileInfo {
    pub path: String,
    pub size: u64,
    pub crc32: String,
}

/// `path` with every backslash turned into a forward slash.
pub open spec fn normalized_path(path: Seq<char>) -> Seq<char> {
    path.map_values(|c: char| if c == '\\' { '/' } else { c })
}

/// `n` as eight lower-case hexadecimal digits (`{:08x}`).
pub open spec fn crc_text(n: u32) -> Seq<char> {
    hex_upper(n as nat, 8).map_values(|c: char| lower_hex_char(c))
}

/// `path` with every backslash turned into a forward slash.
pub fn normalize_path(path: &str) -> (r: String)
    ensures
        r@ == normalized_path(path@),
{
    let cs = chars_of(path);
    let mut r = String::new();
    let mut i: usize = 0;
    while i < cs.len()
        invariant
            0 <= i <= cs@.len(),
            r@ == normalized_path(cs@.take(i as int)),
        decreases cs@.len() - i,
    {
        let c = cs[i];
        push_char(&mut r, if c == '\\' { '/' } else { c });
        assert(r@ =~= normalized_path(cs@.take(i + 1)));
        i = i + 1;
    }
    assert(cs@.take(cs@.len() as int) =~= cs@);
    r
}

fn lower_hex(c: char) -> (r: char)
    ensures
        r == lower_hex_char(c),
{
    if c == 'A' { 'a' } else if c == 'B' { 'b' } else if c == 'C' { 'c' }
    else if c == 'D' { 'd' } else if c == 'E' { 'e' } else if c == 'F' { 'f' } else { c }
}

/// `n` as eight lower-case hexadecimal digits.
pub fn crc_hex(n: u32) -> (r: String)
    ensures
        r@ == crc_text(n),
{
    let up = chars_of(to_hex(n, 8).as_str());
    let mut r = String::new();
    let mut i: usize = 0;
    while i < up.len()
        invariant
            0 <= i <= up@.len(),
            up@ == hex_upper(n as nat, 8),
            r@ == up@.take(i as int).map_values(|c: char| lower_hex_char(c)),
        decreases up@.len() - i,
    {
        push_char(&mut r, lower_hex(up[i]));
        assert(r@ =~= up@.take(i + 1).map_values(|c: char| lower_hex_char(c)));
        i = i + 1;
    }
    assert(up@.take(up@.len() as int) =~= up@);
    r
}

/// The record of a file found at `raw_path`, `size` bytes long, whose
/// checksum is `crc`.
pub fn file_info_from_crc(raw_path: &str, size: u64, crc: u32) -> (r: FileInfo)
    ensures
        r.path@ == normalized_path(raw_path@),
        r.size == size,
        r.crc32@ == crc_text(crc),
{
    FileInfo { path: normalize_path(raw_path), size, crc32: crc_hex(crc) }
}

/// The record of a file found at `raw_path`, `size` bytes long, holding
/// `data`. The same path, size and content always give the same record.
pub fn file_info(raw_path: &str, size: u64, data: &[u8]) -> (r: FileInfo)
    ensures
        r.path@ == normalized_path(raw_path@),
        r.size == size,
        r.crc32@ == crc_text(crc32_of(data@)),
{
    file_info_from_crc(raw_path, size, crc32(data))
}

} // verus!
