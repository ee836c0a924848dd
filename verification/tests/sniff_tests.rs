use download_dispatch::sniff::{sniff, ImageKind};

const PNG_SIG: [u8; 8] = [0x89, 0x50, 0x4e, 0x47, 0x0d, 0x0a, 0x1a, 0x0a];

#[test]
fn png_signature_is_recognized() {
    assert_eq!(sniff(&PNG_SIG), Some(ImageKind::Png));
}

#[test]
fn png_signature_with_trailing_content_is_recognized() {
    let mut buf = PNG_SIG.to_vec();
    buf.extend_from_slice(&[0x00, 0x00, 0x00, 0x0d, 0x49, 0x48, 0x44, 0x52]);
    assert_eq!(sniff(&buf), Some(ImageKind::Png));
}

#[test]
fn jpeg_variants_are_recognized() {
    for last in [0xe0u8, 0xe1, 0xe2, 0xe3, 0xe8] {
        let buf = [0xff, 0xd8, 0xff, last, 0x10, 0x4a, 0x46, 0x49];
        assert_eq!(sniff(&buf), Some(ImageKind::Jpeg), "variant {last:#x}");
    }
}

#[test]
fn unknown_jpeg_like_prefix_is_not_recognized() {
    // FF D8 FF E4 is not one of the recognized variants.
    assert_eq!(sniff(&[0xff, 0xd8, 0xff, 0xe4]), None);
}

#[test]
fn riff_maps_to_webp() {
    assert_eq!(sniff(b"RIFF\x10\x00\x00\x00WEBP"), Some(ImageKind::Webp));
}

#[test]
fn gif_signature_is_recognized() {
    assert_eq!(sniff(b"GIF89a"), Some(ImageKind::Gif));
    assert_eq!(sniff(b"GIF8"), Some(ImageKind::Gif));
}

#[test]
fn short_buffers_match_nothing() {
    assert_eq!(sniff(&[]), None);
    assert_eq!(sniff(&[0xff]), None);
    assert_eq!(sniff(&[0xff, 0xd8, 0xff]), None);
    assert_eq!(sniff(b"RIF"), None);
    assert_eq!(sniff(b"GIF"), None);
    // A PNG prefix shorter than the full eight-byte signature matches
    // nothing: no four-byte rule covers it.
    assert_eq!(sniff(&PNG_SIG[..7]), None);
}

#[test]
fn unrecognized_content_matches_nothing() {
    assert_eq!(sniff(b"%PDF-1.7 and more"), None);
    assert_eq!(sniff(b"PK\x03\x04archive"), None);
    assert_eq!(sniff(b"plain text here"), None);
}
