use std::io::Write;

use installer_core::archive::{classify, Archive, EntryKind, EntryReading};
use zip::unstable::write::FileOptionsExt;

fn stored() -> zip::write::FileOptions {
    zip::write::FileOptions::default().compression_method(zip::CompressionMethod::Stored)
}

fn deflated() -> zip::write::FileOptions {
    zip::write::FileOptions::default().compression_method(zip::CompressionMethod::Deflated)
}

fn pack(files: &[(&str, &[u8])]) -> Vec<u8> {
    let mut writer = zip::ZipWriter::new(std::io::Cursor::new(Vec::new()));
    for (name, content) in files {
        if name.ends_with('/') {
            writer.add_directory(*name, deflated()).expect("directory is added");
        } else {
            writer.start_file(*name, deflated()).expect("file is started");
            writer.write_all(content).expect("content is written");
        }
    }
    writer.finish().expect("archive is finished").into_inner()
}

fn file(name: &str, data: &[u8]) -> EntryReading {
    EntryReading::File { name: name.to_string(), data: data.to_vec() }
}

#[test]
fn bytes_that_are_no_archive_are_refused() {
    assert!(Archive::open(Vec::new()).is_none());
    assert!(Archive::open(b"this is not a zip archive at all".to_vec()).is_none());
    assert!(Archive::open(vec![0u8; 4096]).is_none());
}

#[test]
fn empty_archive_has_no_entries() {
    let mut archive = Archive::open(pack(&[])).expect("archive opens");
    assert_eq!(archive.len(), 0);
    assert_eq!(archive.read(0), EntryReading::Unreadable);
}

#[test]
fn entries_come_in_the_order_of_the_directory() {
    let bytes = pack(&[("b.txt", b"second"), ("a.txt", b"first"), ("c/", b""), ("c/d.bin", &[0, 1, 2, 255])]);
    let mut archive = Archive::open(bytes).expect("archive opens");
    assert_eq!(archive.len(), 4);
    assert_eq!(archive.read(0), file("b.txt", b"second"));
    assert_eq!(archive.read(1), file("a.txt", b"first"));
    assert_eq!(archive.read(2), EntryReading::Directory { name: "c/".to_string() });
    assert_eq!(archive.read(3), file("c/d.bin", &[0, 1, 2, 255]));
}

#[test]
fn entries_can_be_read_again_and_out_of_order() {
    let bytes = pack(&[("one", b"1"), ("two", b"22"), ("three", b"333")]);
    let mut archive = Archive::open(bytes).expect("archive opens");
    assert_eq!(archive.read(2), file("three", b"333"));
    assert_eq!(archive.read(0), file("one", b"1"));
    assert_eq!(archive.read(0), file("one", b"1"));
    assert_eq!(archive.read(1), file("two", b"22"));
    assert_eq!(archive.len(), 3);
}

#[test]
fn index_past_the_end_is_unreadable() {
    let mut archive = Archive::open(pack(&[("only", b"x")])).expect("archive opens");
    assert_eq!(archive.read(1), EntryReading::Unreadable);
    assert_eq!(archive.read(usize::MAX), EntryReading::Unreadable);
    assert_eq!(archive.read(0), file("only", b"x"));
}

#[test]
fn empty_file_has_empty_content() {
    let mut archive = Archive::open(pack(&[("empty.txt", b"")])).expect("archive opens");
    assert_eq!(archive.read(0), file("empty.txt", b""));
}

#[test]
fn large_content_is_decoded_in_full() {
    let mut content: Vec<u8> = Vec::new();
    let mut i: u32 = 0;
    while i < 200_000 {
        content.push((i % 251) as u8);
        i += 1;
    }
    let mut archive = Archive::open(pack(&[("big.bin", &content)])).expect("archive opens");
    assert_eq!(archive.read(0), file("big.bin", &content));
}

#[test]
fn name_that_climbs_out_is_rejected() {
    let bytes = pack(&[("../evil.txt", b"x"), ("a/../../evil.txt", b"y"), ("ok/../fine.txt", b"z")]);
    let mut archive = Archive::open(bytes).expect("archive opens");
    assert_eq!(archive.read(0), EntryReading::Rejected { name: "../evil.txt".to_string() });
    assert_eq!(archive.read(1), EntryReading::Rejected { name: "a/../../evil.txt".to_string() });
    assert_eq!(archive.read(2), file("ok/../fine.txt", b"z"));
}

#[test]
fn name_that_starts_at_the_root_is_rejected() {
    let mut archive = Archive::open(pack(&[("/etc/passwd", b"x")])).expect("archive opens");
    assert_eq!(archive.read(0), EntryReading::Rejected { name: "/etc/passwd".to_string() });
}

#[test]
fn name_with_a_nul_is_rejected() {
    let mut archive = Archive::open(pack(&[("a\0b.txt", b"x")])).expect("archive opens");
    assert_eq!(archive.read(0), EntryReading::Rejected { name: "a\0b.txt".to_string() });
}

#[test]
fn rejected_directory_is_rejected_too() {
    let mut archive = Archive::open(pack(&[("../out/", b"")])).expect("archive opens");
    assert_eq!(archive.read(0), EntryReading::Rejected { name: "../out/".to_string() });
}

#[test]
fn damaged_content_is_unreadable_and_the_rest_is_not() {
    let mut writer = zip::ZipWriter::new(std::io::Cursor::new(Vec::new()));
    writer.start_file("good.txt", stored()).expect("file is started");
    writer.write_all(b"good content").expect("content is written");
    writer.start_file("bad.txt", stored()).expect("file is started");
    writer.write_all(b"UNIQUE-MARKER-TO-DAMAGE").expect("content is written");
    let mut bytes = writer.finish().expect("archive is finished").into_inner();
    let marker = b"UNIQUE-MARKER-TO-DAMAGE";
    let at = bytes.windows(marker.len()).position(|w| w == marker).expect("marker is there");
    bytes[at] = b'X';
    let mut archive = Archive::open(bytes).expect("archive opens");
    assert_eq!(archive.read(0), file("good.txt", b"good content"));
    assert_eq!(archive.read(1), EntryReading::Unreadable);
}

#[test]
fn encrypted_entry_is_unreadable() {
    let mut writer = zip::ZipWriter::new(std::io::Cursor::new(Vec::new()));
    writer
        .start_file("secret.txt", stored().with_deprecated_encryption(b"password"))
        .expect("file is started");
    writer.write_all(b"hidden").expect("content is written");
    writer.start_file("plain.txt", stored()).expect("file is started");
    writer.write_all(b"open").expect("content is written");
    let bytes = writer.finish().expect("archive is finished").into_inner();
    let mut archive = Archive::open(bytes).expect("archive opens");
    assert_eq!(archive.read(0), EntryReading::Unreadable);
    assert_eq!(archive.read(1), file("plain.txt", b"open"));
}

#[test]
fn truncated_archive_is_refused() {
    let bytes = pack(&[("a.txt", b"hello"), ("b.txt", b"world")]);
    let cut = bytes[..bytes.len() - 10].to_vec();
    assert!(Archive::open(cut).is_none());
}

#[test]
fn classify_rejects_what_is_not_contained() {
    assert_eq!(classify("file.txt", false), EntryKind::Rejected);
    assert_eq!(classify("dir/", false), EntryKind::Rejected);
    assert_eq!(classify("", false), EntryKind::Rejected);
}

#[test]
fn classify_tells_directories_from_files() {
    assert_eq!(classify("dir/", true), EntryKind::Directory);
    assert_eq!(classify("a/b/", true), EntryKind::Directory);
    assert_eq!(classify("file.txt", true), EntryKind::File);
    assert_eq!(classify("a/b", true), EntryKind::File);
    assert_eq!(classify("dir\\", true), EntryKind::File);
    assert_eq!(classify("", true), EntryKind::File);
}

#[test]
fn name_that_is_the_parent_itself_is_rejected() {
    let mut archive = Archive::open(pack(&[("..", b"x"), ("../", b"")])).expect("archive opens");
    assert_eq!(archive.read(0), EntryReading::Rejected { name: "..".to_string() });
    assert_eq!(archive.read(1), EntryReading::Rejected { name: "../".to_string() });
}

#[test]
fn name_that_only_looks_like_stepping_out_is_a_file() {
    let mut archive =
        Archive::open(pack(&[("..a", b"1"), ("...", b"2"), (".../x", b"3")])).expect("archive opens");
    assert_eq!(archive.read(0), file("..a", b"1"));
    assert_eq!(archive.read(1), file("...", b"2"));
    assert_eq!(archive.read(2), file(".../x", b"3"));
}

#[test]
fn name_that_climbs_out_by_backslashes_is_rejected() {
    let bytes = pack(&[("a\\..\\..\\x", b"1"), ("..\\x", b"2"), ("a/..\\../x", b"3")]);
    let mut archive = Archive::open(bytes).expect("archive opens");
    assert_eq!(archive.read(0), EntryReading::Rejected { name: "a\\..\\..\\x".to_string() });
    assert_eq!(archive.read(1), EntryReading::Rejected { name: "..\\x".to_string() });
    assert_eq!(archive.read(2), EntryReading::Rejected { name: "a/..\\../x".to_string() });
}

#[test]
fn name_that_climbs_out_in_its_middle_or_at_its_end_is_rejected() {
    let bytes = pack(&[("a/b/../../../x", b"1"), ("a/..", b"2"), ("a/../..", b"3"), ("./../x", b"4")]);
    let mut archive = Archive::open(bytes).expect("archive opens");
    assert_eq!(archive.read(0), EntryReading::Rejected { name: "a/b/../../../x".to_string() });
    assert_eq!(archive.read(1), file("a/..", b"2"));
    assert_eq!(archive.read(2), EntryReading::Rejected { name: "a/../..".to_string() });
    assert_eq!(archive.read(3), EntryReading::Rejected { name: "./../x".to_string() });
}

#[test]
fn name_that_every_platform_reads_alike_is_admitted_where_its_walk_stays_inside() {
    let names = [
        "a", "a/b", "a//b", "./a", "a/./b", "a/b/../c", "a/../b/../c", ".a", "a.", "..a/b",
        "a/...", "dir/sub/file.txt", "x/y/z/../../w",
    ];
    let files: Vec<(&str, &[u8])> = names.iter().map(|name| (*name, name.as_bytes())).collect();
    let mut archive = Archive::open(pack(&files)).expect("archive opens");
    for (index, name) in names.iter().enumerate() {
        assert_eq!(archive.read(index), file(name, name.as_bytes()));
    }
}
