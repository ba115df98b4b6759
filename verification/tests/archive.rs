use plugin_installer::archive::{manifest_in, read_manifest, ManifestRead};
use std::io::{Cursor, Write};
use zip::write::SimpleFileOptions;
use zip::{CompressionMethod, ZipArchive, ZipWriter};

fn archive_of(entries: &[(&str, &[u8])], method: CompressionMethod) -> Vec<u8> {
    let mut writer = ZipWriter::new(Cursor::new(Vec::new()));
    let options = SimpleFileOptions::default().compression_method(method);
    for (name, content) in entries {
        writer.start_file(*name, options).unwrap();
        writer.write_all(content).unwrap();
    }
    writer.finish().unwrap().into_inner()
}

#[test]
fn manifest_is_read_from_a_stored_archive() {
    let body = archive_of(
        &[
            ("foo.dll", b"MZ\x90\x00"),
            ("foo.json", b"{\"InternalName\":\"foo\"}"),
        ],
        CompressionMethod::Stored,
    );
    assert_eq!(
        read_manifest(&body, "foo"),
        ManifestRead::Text("{\"InternalName\":\"foo\"}".to_string())
    );
}

#[test]
fn manifest_is_read_from_a_deflated_archive() {
    let manifest = "{\"Name\":\"Heliosphere\",\"Description\":\"aaaaaaaaaaaaaaaaaaaaaaaaaaaaaaaa\"}";
    let body = archive_of(
        &[("heliosphere.json", manifest.as_bytes())],
        CompressionMethod::Deflated,
    );
    assert_eq!(
        read_manifest(&body, "heliosphere"),
        ManifestRead::Text(manifest.to_string())
    );
}

#[test]
fn manifest_of_another_name_is_missing() {
    let body = archive_of(&[("foo.json", b"{}")], CompressionMethod::Stored);
    assert_eq!(
        read_manifest(&body, "bar"),
        ManifestRead::Missing("specified file not found in archive".to_string())
    );
}

#[test]
fn manifest_name_is_matched_exactly() {
    let body = archive_of(
        &[("dir/foo.json", b"{}"), ("FOO.json", b"{}")],
        CompressionMethod::Stored,
    );
    assert_eq!(
        read_manifest(&body, "foo"),
        ManifestRead::Missing("specified file not found in archive".to_string())
    );
    assert_eq!(
        read_manifest(&body, "dir/foo"),
        ManifestRead::Text("{}".to_string())
    );
}

#[test]
fn empty_archive_has_no_manifest() {
    let body = archive_of(&[], CompressionMethod::Stored);
    assert_eq!(
        read_manifest(&body, "foo"),
        ManifestRead::Missing("specified file not found in archive".to_string())
    );
}

#[test]
fn body_that_is_no_archive_is_corrupt() {
    let read = read_manifest(&b"<html>404 Not Found</html>".to_vec(), "foo");
    assert!(matches!(read, ManifestRead::Corrupt(_)));
    let read = read_manifest(&Vec::new(), "foo");
    assert!(matches!(read, ManifestRead::Corrupt(_)));
}

#[test]
fn manifest_that_is_not_text_is_unreadable() {
    let body = archive_of(&[("foo.json", &[0x7B, 0xFF, 0x7D])], CompressionMethod::Stored);
    assert_eq!(
        read_manifest(&body, "foo"),
        ManifestRead::Unreadable("stream did not contain valid UTF-8".to_string())
    );
}

#[test]
fn manifest_with_a_damaged_content_is_unreadable() {
    let mut body = archive_of(&[("foo.json", b"{\"a\":1}")], CompressionMethod::Stored);
    let at = body
        .windows(7)
        .position(|w| w == b"{\"a\":1}")
        .unwrap();
    body[at + 1] = b'b';
    assert!(matches!(
        read_manifest(&body, "foo"),
        ManifestRead::Unreadable(_)
    ));
}

#[test]
fn open_archive_is_searched_by_manifest_name() {
    let body = archive_of(
        &[("foo.json", b"one"), ("bar.json", b"two")],
        CompressionMethod::Stored,
    );
    let mut archive = ZipArchive::new(Cursor::new(body)).unwrap();
    assert_eq!(
        manifest_in(&mut archive, "bar"),
        ManifestRead::Text("two".to_string())
    );
    assert_eq!(
        manifest_in(&mut archive, "foo"),
        ManifestRead::Text("one".to_string())
    );
    assert_eq!(
        manifest_in(&mut archive, "baz"),
        ManifestRead::Missing("specified file not found in archive".to_string())
    );
}

#[test]
fn manifest_packed_by_an_unknown_method_is_unavailable() {
    let mut body = archive_of(&[("foo.json", b"{}")], CompressionMethod::Stored);
    // Set the method of the one entry to 12, in its local header and in the
    // directory.
    let local = body.windows(4).position(|w| w == b"PK\x03\x04").unwrap();
    body[local + 8] = 12;
    let central = body.windows(4).position(|w| w == b"PK\x01\x02").unwrap();
    body[central + 10] = 12;
    assert_eq!(
        read_manifest(&body, "foo"),
        ManifestRead::Unavailable(
            "unsupported Zip archive: Compression method not supported".to_string()
        )
    );
    assert_eq!(
        read_manifest(&body, "bar"),
        ManifestRead::Missing("specified file not found in archive".to_string())
    );
}
