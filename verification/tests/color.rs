use rtc::color::HexColorError;
use rtc::color::Rgb;
use rtc::color::render_colors;

#[test]
fn hex_parse_magenta() {
    assert_eq!(Rgb::from_hex(b"#FF00FF"), Ok(Rgb::new(255, 0, 255)));
}

#[test]
fn hex_parse_lower_case() {
    assert_eq!(Rgb::from_hex(b"#ff00ff"), Ok(Rgb::new(255, 0, 255)));
}

#[test]
fn hex_parse_mixed_digits() {
    assert_eq!(Rgb::from_hex(b"#1aB2c3"), Ok(Rgb::new(0x1A, 0xB2, 0xC3)));
    assert_eq!(Rgb::from_hex(b"#000000"), Ok(Rgb::new(0, 0, 0)));
    assert_eq!(Rgb::from_hex(b"#ffffff"), Ok(Rgb::new(255, 255, 255)));
}

#[test]
fn hex_parse_missing_hash() {
    let r = Rgb::from_hex(b"FF00FF_");
    assert_eq!(r, Err(HexColorError::MissingHash));
    assert!(r.unwrap_err().message().contains("must start with '#'"));
}

#[test]
fn hex_parse_invalid_red() {
    let r = Rgb::from_hex(b"#GG0000");
    assert_eq!(r, Err(HexColorError::InvalidRed));
    assert!(r.unwrap_err().message().contains("red"));
}

#[test]
fn hex_parse_invalid_green() {
    let r = Rgb::from_hex(b"#00XY00");
    assert_eq!(r, Err(HexColorError::InvalidGreen));
    assert!(r.unwrap_err().message().contains("green"));
}

#[test]
fn hex_parse_invalid_blue() {
    let r = Rgb::from_hex(b"#0000-1");
    assert_eq!(r, Err(HexColorError::InvalidBlue));
    assert!(r.unwrap_err().message().contains("blue"));
}

#[test]
fn hex_parse_invalid_utf8() {
    let r = Rgb::from_hex(&[0x23, 0xFF, 0x46, 0x30, 0x30, 0x46, 0x46]);
    assert_eq!(r, Err(HexColorError::InvalidUtf8));
    assert!(r.unwrap_err().message().contains("UTF-8"));
}

#[test]
fn hex_parse_error_order() {
    // Text validity is checked before the leading '#'.
    let r = Rgb::from_hex(&[0x46, 0xC0, 0x80, 0x30, 0x30, 0x46, 0x46]);
    assert_eq!(r, Err(HexColorError::InvalidUtf8));
    // The red pair is reported before the green and blue pairs.
    assert_eq!(Rgb::from_hex(b"#GGGGGG"), Err(HexColorError::InvalidRed));
}

#[test]
fn render_two_colors() {
    let colors = [Rgb::new(255, 0, 0), Rgb::new(0, 255, 0)];
    assert_eq!(render_colors(&colors), b"255 0 0\n0 255 0\n".to_vec());
}

#[test]
fn render_empty_batch() {
    assert_eq!(render_colors(&[]), Vec::<u8>::new());
}

#[test]
fn render_digit_widths() {
    let colors = [Rgb::new(0, 9, 10), Rgb::new(99, 100, 255)];
    assert_eq!(render_colors(&colors), b"0 9 10\n99 100 255\n".to_vec());
}
