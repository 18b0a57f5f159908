use image::ImageFormat;
use image_host::util::{
    generate_random_id, generate_random_string, mimetype_to_format, resolve_format, DecoderFormat,
    ImageId, ID_CHARSET,
};

#[test]
fn generate_random_id_works() {
    assert_eq!(generate_random_id(5).0.len(), 5);
}

#[test]
fn generate_random_id_uses_the_id_charset() {
    for _ in 0..200 {
        let id = generate_random_id(5);
        assert_eq!(id.0.chars().count(), 5);
        assert!(id.0.chars().all(|c| ID_CHARSET.contains(c)));
    }
    assert_eq!(generate_random_id(0).0, "");
    assert_eq!(generate_random_id(64).0.len(), 64);
}

#[test]
fn id_charset_has_no_vowels() {
    assert_eq!(ID_CHARSET.len(), 54);
    assert!(!ID_CHARSET.chars().any(|c| "aeiouAEIOU".contains(c)));
    assert!(ID_CHARSET.contains('-') && ID_CHARSET.contains('_'));
    assert!(('0'..='9').all(|c| ID_CHARSET.contains(c)));
}

#[test]
fn generate_random_string_draws_from_the_charset() {
    assert_eq!(generate_random_string(7, b"a"), "aaaaaaa");
    let s = generate_random_string(100, b"xyz");
    assert_eq!(s.len(), 100);
    assert!(s.chars().all(|c| c == 'x' || c == 'y' || c == 'z'));
    assert_eq!(generate_random_string(0, b"xyz"), "");
    assert_eq!(generate_random_string(0, b""), "");
}

#[test]
fn generate_random_string_reaches_every_character() {
    let s = generate_random_string(2000, b"ab");
    assert!(s.contains('a') && s.contains('b'));
}

#[test]
fn image_id_to_string_is_the_id() {
    assert_eq!(ImageId("bcdfg".to_string()).to_string(), "bcdfg");
    assert_eq!(ImageId(String::new()).to_string(), "");
}

#[test]
fn mimetype_to_format_known_types() {
    assert_eq!(mimetype_to_format("image/png"), ImageFormat::Png);
    assert_eq!(mimetype_to_format("image/jpeg"), ImageFormat::Jpeg);
    assert_eq!(mimetype_to_format("image/gif"), ImageFormat::Gif);
    assert_eq!(mimetype_to_format("image/webp"), ImageFormat::WebP);
    assert_eq!(mimetype_to_format("image/pnm"), ImageFormat::Pnm);
    assert_eq!(mimetype_to_format("image/tiff"), ImageFormat::Tiff);
    assert_eq!(mimetype_to_format("image/tga"), ImageFormat::Tga);
    assert_eq!(mimetype_to_format("image/dds"), ImageFormat::Dds);
    assert_eq!(mimetype_to_format("image/bmp"), ImageFormat::Bmp);
    assert_eq!(mimetype_to_format("image/ico"), ImageFormat::Ico);
    assert_eq!(mimetype_to_format("image/hdr"), ImageFormat::Hdr);
    assert_eq!(mimetype_to_format("image/farbfeld"), ImageFormat::Farbfeld);
    assert_eq!(mimetype_to_format("image/avif"), ImageFormat::Avif);
}

#[test]
fn mimetype_to_format_falls_back_to_jpeg() {
    assert_eq!(mimetype_to_format("image/x-unknown"), ImageFormat::Jpeg);
    assert_eq!(mimetype_to_format(""), ImageFormat::Jpeg);
    assert_eq!(mimetype_to_format("IMAGE/PNG"), ImageFormat::Jpeg);
    assert_eq!(mimetype_to_format("image/png "), ImageFormat::Jpeg);
}

#[test]
fn resolve_format_follows_the_table() {
    assert_eq!(resolve_format("image/png"), DecoderFormat::Png);
    assert_eq!(resolve_format("image/webp"), DecoderFormat::WebP);
    assert_eq!(resolve_format("image/farbfeld"), DecoderFormat::Farbfeld);
    assert_eq!(resolve_format("image/avif"), DecoderFormat::Avif);
    assert_eq!(resolve_format("application/json"), DecoderFormat::Jpeg);
}
