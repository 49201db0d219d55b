use rtc::text::is_utf8;

#[test]
fn utf8_accepts_ascii() {
    assert!(is_utf8(b""));
    assert!(is_utf8(b"#FF00FF"));
}

#[test]
fn utf8_accepts_multibyte() {
    assert!(is_utf8("é".as_bytes()));
    assert!(is_utf8("€".as_bytes()));
    assert!(is_utf8("🎨".as_bytes()));
    assert!(is_utf8("a é € 🎨".as_bytes()));
}

#[test]
fn utf8_rejects_stray_continuation() {
    assert!(!is_utf8(&[0x80]));
    assert!(!is_utf8(&[0x41, 0xBF, 0x41]));
}

#[test]
fn utf8_rejects_overlong_encoding() {
    assert!(!is_utf8(&[0xC0, 0x80]));
    assert!(!is_utf8(&[0xC1, 0xBF]));
    assert!(!is_utf8(&[0xE0, 0x80, 0x80]));
    assert!(!is_utf8(&[0xF0, 0x80, 0x80, 0x80]));
}

#[test]
fn utf8_rejects_surrogates_and_out_of_range() {
    assert!(!is_utf8(&[0xED, 0xA0, 0x80]));
    assert!(!is_utf8(&[0xF4, 0x90, 0x80, 0x80]));
    assert!(!is_utf8(&[0xF5, 0x80, 0x80, 0x80]));
}

#[test]
fn utf8_rejects_truncated_sequences() {
    assert!(!is_utf8(&[0xC3]));
    assert!(!is_utf8(&[0xE2, 0x82]));
    assert!(!is_utf8(&[0xF0, 0x9F, 0x8E]));
}

#[test]
fn utf8_matches_std() {
    let samples: [&[u8]; 8] = [
        b"plain",
        &[0xC3, 0xA9],
        &[0xE2, 0x82, 0xAC],
        &[0xF0, 0x9F, 0x8E, 0xA8],
        &[0xED, 0x9F, 0xBF],
        &[0xEE, 0x80, 0x80],
        &[0xF4, 0x8F, 0xBF, 0xBF],
        &[0x23, 0xFF, 0x46, 0x30, 0x30, 0x46, 0x46],
    ];
    for bytes in samples {
        assert_eq!(is_utf8(bytes), std::str::from_utf8(bytes).is_ok());
    }
}
