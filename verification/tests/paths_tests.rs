use download_dispatch::paths::{eq_bytes, extension_of, kind_extension, reconcile, with_extension};
use download_dispatch::sniff::ImageKind;

const PNG_SIG: [u8; 8] = [0x89, 0x50, 0x4e, 0x47, 0x0d, 0x0a, 0x1a, 0x0a];
const JPEG_SIG: [u8; 4] = [0xff, 0xd8, 0xff, 0xe0];

fn bytes(s: &str) -> Vec<u8> {
    s.as_bytes().to_vec()
}

#[test]
fn extension_after_last_dot_of_file_name() {
    assert_eq!(extension_of(&bytes("photo.jpg")), Some(bytes("jpg")));
    assert_eq!(extension_of(&bytes("archive.tar.gz")), Some(bytes("gz")));
    assert_eq!(extension_of(&bytes("/home/user/report.pdf")), Some(bytes("pdf")));
    assert_eq!(extension_of(&bytes("noext")), None);
    assert_eq!(extension_of(&bytes("/home/user.name/noext")), None);
    assert_eq!(extension_of(&bytes(".bashrc")), None);
    assert_eq!(extension_of(&bytes("")), None);
    assert_eq!(extension_of(&bytes("trailing.")), Some(bytes("")));
}

#[test]
fn with_extension_replaces_or_appends() {
    assert_eq!(with_extension(&bytes("photo.jpg"), b"png"), bytes("photo.png"));
    assert_eq!(with_extension(&bytes("noext"), b"png"), bytes("noext.png"));
    assert_eq!(with_extension(&bytes("/d.ir/file.webp"), b"gif"), bytes("/d.ir/file.gif"));
    assert_eq!(with_extension(&bytes(".bashrc"), b"png"), bytes(".bashrc.png"));
    // Names on which no extension edit is meaningful stay as they are.
    assert_eq!(with_extension(&bytes(""), b"png"), bytes(""));
    assert_eq!(with_extension(&bytes("."), b"png"), bytes("."));
    assert_eq!(with_extension(&bytes("a/.."), b"png"), bytes("a/.."));
}

#[test]
fn canonical_extensions() {
    assert_eq!(kind_extension(&ImageKind::Png), bytes("png"));
    assert_eq!(kind_extension(&ImageKind::Jpeg), bytes("jpg"));
    assert_eq!(kind_extension(&ImageKind::Webp), bytes("webp"));
    assert_eq!(kind_extension(&ImageKind::Gif), bytes("gif"));
}

#[test]
fn png_content_in_jpg_name_is_reconciled() {
    let fixed = reconcile(&bytes("photo.jpg"), &PNG_SIG);
    assert_eq!(fixed, bytes("photo.png"));
}

#[test]
fn agreeing_extension_is_left_alone() {
    assert_eq!(reconcile(&bytes("photo.png"), &PNG_SIG), bytes("photo.png"));
    assert_eq!(reconcile(&bytes("pic.jpg"), &JPEG_SIG), bytes("pic.jpg"));
}

#[test]
fn unrecognized_content_is_left_alone() {
    assert_eq!(reconcile(&bytes("notes.txt"), b"plain text"), bytes("notes.txt"));
    assert_eq!(reconcile(&bytes("whatever"), &[]), bytes("whatever"));
}

#[test]
fn case_differences_still_rename() {
    // The comparison against the canonical extension is exact, as is the
    // rename decision; only category classification lower-cases.
    assert_eq!(reconcile(&bytes("photo.PNG"), &PNG_SIG), bytes("photo.png"));
}

#[test]
fn reconcile_twice_equals_once() {
    let cases: &[(&str, &[u8])] = &[
        ("photo.jpg", &PNG_SIG),
        ("photo.png", &PNG_SIG),
        ("noext", &JPEG_SIG),
        (".bashrc", &PNG_SIG),
        ("/tmp/a.dir/file", b"GIF89a"),
        ("notes.txt", b"not an image"),
        ("", &PNG_SIG),
        ("x/.", &PNG_SIG),
    ];
    for (p, content) in cases {
        let once = reconcile(&bytes(p), content);
        let twice = reconcile(&once, content);
        assert_eq!(twice, once, "path {p:?}");
    }
}

#[test]
fn eq_bytes_compares_contents() {
    assert!(eq_bytes(b"abc", b"abc"));
    assert!(!eq_bytes(b"abc", b"abd"));
    assert!(!eq_bytes(b"abc", b"ab"));
    assert!(eq_bytes(b"", b""));
}
