use unicode_info::checksum::{crc_hex, file_info, file_info_from_crc, normalize_path};

#[test]
fn file_record_uses_forward_slashes_and_lowercase_crc() {
    let a = file_info("dir\\sub\\f.txt", 9, b"123456789");
    assert_eq!(a.path, "dir/sub/f.txt");
    assert_eq!(a.size, 9);
    assert_eq!(a.crc32, "cbf43926");
    let e = file_info("empty", 0, b"");
    assert_eq!(e.crc32, "00000000");
}

#[test]
fn same_content_gives_same_record() {
    let a = file_info("x/y", 11, b"foo bar baz");
    let b = file_info("x\\y", 11, b"foo bar baz");
    assert_eq!(a.path, b.path);
    assert_eq!(a.crc32, b.crc32);
    assert_ne!(file_info("x/y", 11, b"foo bar bay").crc32, a.crc32);
}

#[test]
fn crc_formatting() {
    assert_eq!(crc_hex(0xCBF43926), "cbf43926");
    assert_eq!(crc_hex(0x1), "00000001");
    assert_eq!(file_info_from_crc("a\\b", 3, 0xABCDEF01).crc32, "abcdef01");
    assert_eq!(normalize_path("a\\\\b"), "a//b");
}
