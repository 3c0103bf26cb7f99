use raytracer::image::{encode_png, ImageError};
use raytracer::options::{default_output_name, parse_height, same_text, split_ratio, LATEST_SECOND};

#[test]
fn named_heights() {
    assert_eq!(parse_height("HD"), Some(720));
    assert_eq!(parse_height("720p"), Some(720));
    assert_eq!(parse_height("FHD"), Some(1080));
    assert_eq!(parse_height("1080p"), Some(1080));
    assert_eq!(parse_height("4K"), Some(2160));
    assert_eq!(parse_height("2160p"), Some(2160));
    assert_eq!(parse_height("8K"), Some(4320));
    assert_eq!(parse_height("4320p"), Some(4320));
}

#[test]
fn numeric_heights() {
    assert_eq!(parse_height("480"), Some(480));
    assert_eq!(parse_height("+17"), Some(17));
    assert_eq!(parse_height("007"), Some(7));
    assert_eq!(parse_height("0"), Some(0));
}

#[test]
fn bad_heights_are_rejected() {
    assert_eq!(parse_height(""), None);
    assert_eq!(parse_height("+"), None);
    assert_eq!(parse_height("-5"), None);
    assert_eq!(parse_height("hd"), None);
    assert_eq!(parse_height(" 720"), None);
    assert_eq!(parse_height("720px"), None);
    assert_eq!(parse_height("99999999999999999999999"), None);
}

#[test]
fn same_text_compares_characters() {
    assert!(same_text("", ""));
    assert!(same_text("FHD", "FHD"));
    assert!(!same_text("FHD", "FH"));
    assert!(!same_text("4K", "8K"));
    assert!(same_text("é:ü", "é:ü"));
}

#[test]
fn ratio_with_colon() {
    assert_eq!(split_ratio("16:9"), ("16", Some("9")));
    assert_eq!(split_ratio("4:3:2"), ("4", Some("3:2")));
    assert_eq!(split_ratio(":"), ("", Some("")));
}

#[test]
fn ratio_without_colon() {
    assert_eq!(split_ratio("1.7777"), ("1.7777", None));
    assert_eq!(split_ratio(""), ("", None));
}

#[test]
fn default_name_at_the_epoch() {
    assert_eq!(default_output_name(0, 0), "1970-01-01T00:00:00Z.png");
}

#[test]
fn default_name_with_fraction() {
    assert_eq!(
        default_output_name(1_518_568_087, 5),
        "2018-02-14T00:28:07.000000005Z.png"
    );
}

#[test]
fn default_name_at_the_last_second() {
    assert_eq!(default_output_name(LATEST_SECOND, 0), "9999-12-31T23:59:59Z.png");
}

#[test]
fn png_of_two_pixels() {
    let bytes = match encode_png(2, 1, &[255, 0, 0, 0, 0, 255]) {
        Ok(b) => b,
        Err(_) => panic!("encoding failed"),
    };
    assert_eq!(&bytes[..8], &[137, 80, 78, 71, 13, 10, 26, 10]);
    assert_eq!(&bytes[12..16], b"IHDR");
    assert_eq!(&bytes[16..20], &[0, 0, 0, 2]);
    assert_eq!(&bytes[20..24], &[0, 0, 0, 1]);
    assert_eq!(bytes[24], 8);
    assert_eq!(bytes[25], 2);
    assert_eq!(&bytes[bytes.len() - 8..bytes.len() - 4], b"IEND");
}

#[test]
fn png_rejects_zero_sizes() {
    assert!(matches!(encode_png(0, 1, &[]), Err(ImageError::Encoding(_))));
    assert!(matches!(encode_png(1, 0, &[]), Err(ImageError::Encoding(_))));
}

#[test]
fn png_rejects_wrong_buffer_length() {
    assert!(matches!(encode_png(2, 2, &[0; 11]), Err(ImageError::Encoding(_))));
    assert!(matches!(encode_png(2, 2, &[0; 13]), Err(ImageError::Encoding(_))));
}

#[test]
fn png_rejects_oversized_dimensions() {
    let too_wide = u32::MAX as usize + 1;
    assert!(matches!(encode_png(too_wide, 1, &[]), Err(ImageError::DimensionTooLarge)));
    assert!(matches!(encode_png(1, too_wide, &[]), Err(ImageError::DimensionTooLarge)));
    assert!(matches!(
        encode_png(u32::MAX as usize, u32::MAX as usize, &[]),
        Err(ImageError::DimensionTooLarge)
    ));
}
