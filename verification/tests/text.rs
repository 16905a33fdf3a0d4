use azul_shell::text::{convert_widestring, encode_ascii, encode_wide};

#[test]
fn encode_wide_appends_terminator() {
    assert_eq!(encode_wide(""), vec![0u16]);
    assert_eq!(encode_wide("AzulApplicationClass").len(), 21);
    assert_eq!(encode_wide("ab"), vec![0x61u16, 0x62, 0]);
}

#[test]
fn encode_wide_matches_utf16() {
    let text = "h\u{e9}llo \u{4e16}\u{754c} \u{1f600}!";
    let mut expected: Vec<u16> = text.encode_utf16().collect();
    expected.push(0);
    assert_eq!(encode_wide(text), expected);
}

#[test]
fn encode_wide_writes_surrogate_pairs() {
    assert_eq!(encode_wide("\u{1f600}"), vec![0xD83Du16, 0xDE00, 0]);
    assert_eq!(encode_wide("\u{10000}"), vec![0xD800u16, 0xDC00, 0]);
    assert_eq!(encode_wide("\u{10ffff}"), vec![0xDBFFu16, 0xDFFF, 0]);
    assert_eq!(encode_wide("\u{ffff}"), vec![0xFFFFu16, 0]);
}

#[test]
fn encode_ascii_drops_other_characters() {
    assert_eq!(encode_ascii("wglSwapIntervalEXT").len(), 19);
    assert_eq!(encode_ascii("a\u{e9}b"), vec![97i8, 98, 0]);
    assert_eq!(encode_ascii("\u{7f}\u{80}"), vec![127i8, 0]);
    assert_eq!(encode_ascii(""), vec![0i8]);
}

#[test]
fn convert_widestring_keeps_the_basic_plane() {
    assert_eq!(convert_widestring("File"), vec![70u16, 105, 108, 101, 0]);
    assert_eq!(convert_widestring("a\u{1f600}b"), vec![97u16, 98, 0]);
    assert_eq!(convert_widestring("\u{ffff}"), vec![0xFFFFu16, 0]);
}
