use gsx_profile_manager::zip_handler::{
    extract_zip_file, file_name_of, has_profile_ending, has_profile_extension, ExtractedFile,
};
use std::io::{Cursor, Write};
use zip::write::SimpleFileOptions;
use zip::{CompressionMethod, ZipWriter};

fn archive(entries: &[(&str, Option<&[u8]>)]) -> Vec<u8> {
    let mut writer = ZipWriter::new(Cursor::new(Vec::new()));
    let options = SimpleFileOptions::default().compression_method(CompressionMethod::Stored);
    for (name, content) in entries {
        match content {
            Some(bytes) => {
                writer.start_file(*name, options).unwrap();
                writer.write_all(bytes).unwrap();
            }
            None => writer.add_directory(*name, options).unwrap(),
        }
    }
    writer.finish().unwrap().into_inner()
}

fn position(hay: &[u8], needle: &[u8]) -> usize {
    hay.windows(needle.len()).position(|w| w == needle).unwrap()
}

fn names(files: &[ExtractedFile]) -> Vec<&str> {
    files.iter().map(|f| f.name.as_str()).collect()
}

#[test]
fn profile_files_are_taken_in_archive_order() {
    let bytes = archive(&[
        ("a.ini", Some(b"[general]")),
        ("dir/", None),
        ("dir/sub/B.PY", Some(b"print(1)")),
        ("readme.txt", Some(b"text")),
        ("GSX/profile.INI", Some(b"")),
        ("python.pyc", Some(b"x")),
    ]);
    let files = extract_zip_file(bytes).unwrap();
    assert_eq!(names(&files), vec!["a.ini", "B.PY", "profile.INI"]);
    assert_eq!(files[0].content, b"[general]");
    assert_eq!(files[1].content, b"print(1)");
    assert_eq!(files[2].content, b"");
}

#[test]
fn deflated_files_are_read() {
    let mut writer = ZipWriter::new(Cursor::new(Vec::new()));
    let options = SimpleFileOptions::default().compression_method(CompressionMethod::Deflated);
    writer.start_file("p/long.ini", options).unwrap();
    let content = vec![b'z'; 5000];
    writer.write_all(&content).unwrap();
    let bytes = writer.finish().unwrap().into_inner();
    let files = extract_zip_file(bytes).unwrap();
    assert_eq!(files.len(), 1);
    assert_eq!(files[0].name, "long.ini");
    assert_eq!(files[0].content, content);
}

#[test]
fn archive_without_profile_files_is_refused() {
    let bytes = archive(&[("readme.txt", Some(b"text")), ("dir/", None)]);
    assert_eq!(
        extract_zip_file(bytes).err(),
        Some("No .ini or .py files found in the ZIP archive".to_string())
    );
    let empty = archive(&[]);
    assert_eq!(
        extract_zip_file(empty).err(),
        Some("No .ini or .py files found in the ZIP archive".to_string())
    );
}

#[test]
fn directory_named_like_a_profile_is_passed_over() {
    let bytes = archive(&[("odd.ini/", None), ("x.py", Some(b"1"))]);
    let files = extract_zip_file(bytes).unwrap();
    assert_eq!(names(&files), vec!["x.py"]);
}

#[test]
fn bytes_that_are_no_archive_are_refused() {
    let e = extract_zip_file(b"hello, this is no archive".to_vec()).err().unwrap();
    assert!(e.starts_with("Failed to open ZIP: "), "{}", e);
    let e = extract_zip_file(Vec::new()).err().unwrap();
    assert!(e.starts_with("Failed to open ZIP: "), "{}", e);
}

#[test]
fn damaged_profile_file_fails_the_extraction() {
    let mut bytes = archive(&[("a.ini", Some(b"PAYLOAD-0123456789"))]);
    let at = position(&bytes, b"PAYLOAD-0123456789");
    bytes[at] = b'Q';
    let e = extract_zip_file(bytes).err().unwrap();
    assert!(e.starts_with("Failed to read file content: "), "{}", e);
}

#[test]
fn damaged_other_file_is_not_read() {
    let mut bytes = archive(&[("notes.txt", Some(b"PAYLOAD-0123456789")), ("a.ini", Some(b"ok"))]);
    let at = position(&bytes, b"PAYLOAD-0123456789");
    bytes[at] = b'Q';
    let files = extract_zip_file(bytes).unwrap();
    assert_eq!(names(&files), vec!["a.ini"]);
    assert_eq!(files[0].content, b"ok");
}

#[test]
fn entry_that_cannot_be_opened_fails_the_extraction() {
    let mut bytes = archive(&[("notes.txt", Some(b"text")), ("a.ini", Some(b"ok"))]);
    // Mark the first entry as encrypted in the archive's directory.
    let at = position(&bytes, b"PK\x01\x02");
    bytes[at + 8] |= 1;
    let e = extract_zip_file(bytes).err().unwrap();
    assert!(e.starts_with("Failed to read file from ZIP: "), "{}", e);
}

#[test]
fn file_name_is_what_follows_the_last_slash() {
    assert_eq!(file_name_of("a/b/c.ini"), "c.ini");
    assert_eq!(file_name_of("c.ini"), "c.ini");
    assert_eq!(file_name_of("a/"), "");
    assert_eq!(file_name_of(""), "");
    assert_eq!(file_name_of("a\\b.ini"), "a\\b.ini");
}

#[test]
fn profile_extension_ignores_case() {
    assert!(has_profile_extension("x.ini"));
    assert!(has_profile_extension("X.INI"));
    assert!(has_profile_extension("x.Py"));
    assert!(has_profile_extension(".py"));
    assert!(!has_profile_extension("x.pyc"));
    assert!(!has_profile_extension("ini"));
    assert!(!has_profile_extension("x.ini.bak"));
    assert!(!has_profile_extension(""));
}

#[test]
fn profile_ending_is_tested_as_written() {
    assert!(has_profile_ending("x.ini"));
    assert!(has_profile_ending(".py"));
    assert!(!has_profile_ending("X.INI"));
    assert!(!has_profile_ending("x.txt"));
    assert!(!has_profile_ending(""));
}

/// An archive of one stored entry, put together by hand, with the given
/// extra field in the entry's record of the directory.
fn archive_with_extra_field(name: &str, content: &[u8], extra: &[u8]) -> Vec<u8> {
    let u16le = |v: usize| (v as u16).to_le_bytes();
    let u32le = |v: usize| (v as u32).to_le_bytes();
    let mut bytes = Vec::new();
    // The entry: header, name, content.
    bytes.extend(b"PK\x03\x04");
    bytes.extend(u16le(20));
    bytes.extend([0u8; 10]);
    bytes.extend(u32le(0));
    bytes.extend(u32le(content.len()));
    bytes.extend(u32le(content.len()));
    bytes.extend(u16le(name.len()));
    bytes.extend(u16le(0));
    bytes.extend(name.as_bytes());
    bytes.extend(content);
    // The directory: one record.
    let directory_start = bytes.len();
    bytes.extend(b"PK\x01\x02");
    bytes.extend(u16le(20));
    bytes.extend(u16le(20));
    bytes.extend([0u8; 8]);
    bytes.extend(u32le(0));
    bytes.extend(u32le(content.len()));
    bytes.extend(u32le(content.len()));
    bytes.extend(u16le(name.len()));
    bytes.extend(u16le(extra.len()));
    bytes.extend([0u8; 10]);
    bytes.extend(u32le(0));
    bytes.extend(name.as_bytes());
    bytes.extend(extra);
    let directory_len = bytes.len() - directory_start;
    // The end of the directory.
    bytes.extend(b"PK\x05\x06");
    bytes.extend([0u8; 4]);
    bytes.extend(u16le(1));
    bytes.extend(u16le(1));
    bytes.extend(u32le(directory_len));
    bytes.extend(u32le(directory_start));
    bytes.extend(u16le(0));
    bytes
}

#[test]
fn hand_made_archive_is_read() {
    let bytes = archive_with_extra_field("a.ini", b"", &[]);
    let files = extract_zip_file(bytes).unwrap();
    assert_eq!(names(&files), vec!["a.ini"]);
    assert_eq!(files[0].content, b"");
}

#[test]
fn entry_marked_for_aes_without_encryption_fails_the_extraction() {
    // Extra field 0x9901: vendor version 2, vendor "AE", strength 1, stored.
    let extra = [0x01, 0x99, 0x07, 0x00, 0x02, 0x00, 0x41, 0x45, 0x01, 0x00, 0x00];
    let bytes = archive_with_extra_field("a.ini", b"", &extra);
    let e = extract_zip_file(bytes).err().unwrap();
    assert!(e.starts_with("Failed to read file from ZIP: "), "{}", e);
}
