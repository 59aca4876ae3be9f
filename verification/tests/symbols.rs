use bysqr::base32::{base32_encode, to_base32};
use bysqr::output::{guess_output_mode, OutputFormat, OutputMode, OutputModeError};
use bysqr::packer::pack_header;
use bysqr::qr::Theme;

const ALPHABET: &str = "0123456789ABCDEFGHIJKLMNOPQRSTUV";

#[test]
fn alphabet_table_is_complete() {
    let values: Vec<u8> = (0..32).collect();
    assert_eq!(base32_encode(&values), ALPHABET);
}

#[test]
fn reencoding_length_is_bit_count_rounded_up() {
    for n in 0..24usize {
        let payload = vec![0xA5u8; n];
        let out = to_base32(&payload);
        assert_eq!(out.chars().count(), (n * 8 + 4) / 5);
    }
}

#[test]
fn reencoding_draws_from_the_table() {
    let payload: Vec<u8> = (0..=255u8).collect();
    let out = to_base32(&payload);
    assert!(out.chars().all(|c| ALPHABET.contains(c)));
}

#[test]
fn trailing_bits_are_zero_padded() {
    // One byte of all-ones expands to 11111 111 + 00: symbols 31 and 28.
    assert_eq!(to_base32(&vec![0xFF]), "VS");
    // 0x00 expands to 00000 000 + 00: symbols 0 and 0.
    assert_eq!(to_base32(&vec![0x00]), "00");
    assert_eq!(to_base32(&vec![]), "");
}

#[test]
fn bits_are_grouped_most_significant_first() {
    // 0b00001_000 -> groups 00001, 00000: "10".
    assert_eq!(to_base32(&vec![0x08]), "10");
    // Two bytes use all 16 bits plus 4 zero pad bits.
    // 0x12 0x34 -> 00010 01000 11010 0(0000) -> 2, 8, 26, 0.
    assert_eq!(to_base32(&vec![0x12, 0x34]), "28Q0");
}

#[test]
fn header_packs_four_bit_fields() {
    assert_eq!(pack_header(0, 0, 0, 0), 0);
    assert_eq!(pack_header(1, 2, 3, 4), 0x1234);
    assert_eq!(pack_header(0xF, 0xF, 0xF, 0xF), 0xFFFF);
    // Fields are masked to their low four bits.
    assert_eq!(pack_header(0x11, 0x12, 0x13, 0x14), 0x1234);
}

#[test]
fn default_theme_colors() {
    let t = Theme::default();
    assert_eq!(t.background_color, "#ffffff");
    assert_eq!(t.outline_color, "#6fa4d7");
    assert_eq!(t.icon_color, "#6fa4d7");
    assert_eq!(t.by_square_text_color, "#b2b4b9");
    assert_eq!(t.pay_text_color, "#6fa4d7");
}

#[test]
fn output_mode_from_destination_extension() {
    let png = guess_output_mode(&Some(Some("png".to_string())), &None);
    assert_eq!(png, Ok(OutputMode::Save(OutputFormat::PNG)));
    let jpg = guess_output_mode(&Some(Some("jpg".to_string())), &None);
    assert_eq!(jpg, Ok(OutputMode::Save(OutputFormat::JPEG)));
    let jpeg = guess_output_mode(&Some(Some("jpeg".to_string())), &None);
    assert_eq!(jpeg, Ok(OutputMode::Save(OutputFormat::JPEG)));
    let svg = guess_output_mode(&Some(Some("svg".to_string())), &None);
    assert_eq!(svg, Ok(OutputMode::Save(OutputFormat::SVG)));
}

#[test]
fn output_mode_destination_beats_requested_format() {
    let r = guess_output_mode(&Some(Some("svg".to_string())), &Some("png".to_string()));
    assert_eq!(r, Ok(OutputMode::Save(OutputFormat::SVG)));
}

#[test]
fn unsupported_extension_is_reported() {
    let r = guess_output_mode(&Some(Some("bmp".to_string())), &None);
    assert_eq!(r, Err(OutputModeError::UnsupportedExtension("bmp".to_string())));
    let msg = r.unwrap_err().message();
    assert_eq!(msg, "invalid output: unsupported extension bmp");
}

#[test]
fn destination_without_extension_is_rejected() {
    let r = guess_output_mode(&Some(None), &None);
    assert_eq!(r, Err(OutputModeError::UnknownFileFormat));
}

#[test]
fn output_mode_from_requested_format() {
    let r = guess_output_mode(&None, &Some("png".to_string()));
    assert_eq!(r, Ok(OutputMode::Print(OutputFormat::PNG)));
    let r = guess_output_mode(&None, &Some("webp".to_string()));
    assert_eq!(r, Err(OutputModeError::UnsupportedExtension("webp".to_string())));
}

#[test]
fn missing_format_for_standard_output() {
    let r = guess_output_mode(&None, &None);
    assert_eq!(r, Err(OutputModeError::MissingFormat));
}
