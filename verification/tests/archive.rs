use garmin_export::archive::{check_member_count, extract};
use garmin_export::error::ArchiveError;
use std::io::Write;

fn archive_of(members: &[(&str, &[u8])], method: zip::CompressionMethod) -> Vec<u8> {
    let mut writer = zip::ZipWriter::new(std::io::Cursor::new(Vec::new()));
    let options = zip::write::FileOptions::default().compression_method(method);
    for (name, data) in members {
        writer.start_file(*name, options).unwrap();
        writer.write_all(data).unwrap();
    }
    writer.finish().unwrap().into_inner()
}

#[test]
fn single_member_is_decompressed() {
    let buffer = archive_of(&[("activity.fit", b"hello")], zip::CompressionMethod::Deflated);
    assert_eq!(extract(buffer), Ok(b"hello".to_vec()));
}

#[test]
fn two_members_are_refused() {
    let buffer = archive_of(
        &[("a.fit", b"hello"), ("b.fit", b"world")],
        zip::CompressionMethod::Stored,
    );
    assert_eq!(extract(buffer), Err(ArchiveError::UnexpectedMemberCount));
}

#[test]
fn member_count_must_be_one() {
    assert_eq!(check_member_count(1), Ok(()));
    assert_eq!(check_member_count(0), Err(ArchiveError::UnexpectedMemberCount));
    assert_eq!(check_member_count(2), Err(ArchiveError::UnexpectedMemberCount));
}

#[test]
fn stored_member_is_returned_verbatim() {
    let buffer = archive_of(&[("activity.fit", b"hello")], zip::CompressionMethod::Stored);
    assert_eq!(extract(buffer), Ok(b"hello".to_vec()));
}

#[test]
fn empty_archive_is_refused() {
    let buffer = archive_of(&[], zip::CompressionMethod::Stored);
    assert_eq!(extract(buffer), Err(ArchiveError::UnexpectedMemberCount));
}

#[test]
fn truncated_buffer_is_corrupt() {
    let mut buffer = archive_of(&[("activity.fit", b"hello")], zip::CompressionMethod::Deflated);
    buffer.truncate(buffer.len() / 2);
    assert_eq!(extract(buffer), Err(ArchiveError::Corrupt));
}

#[test]
fn garbage_is_corrupt() {
    assert_eq!(extract(b"this is no archive at all".to_vec()), Err(ArchiveError::Corrupt));
    assert_eq!(extract(Vec::new()), Err(ArchiveError::Corrupt));
}

#[test]
fn damaged_member_is_corrupt() {
    let mut buffer = archive_of(&[("activity.fit", b"hello")], zip::CompressionMethod::Stored);
    // the member's bytes follow its local header and name; changing one breaks its checksum
    let at = 30 + "activity.fit".len();
    assert_eq!(&buffer[at..at + 5], b"hello");
    buffer[at] = b'j';
    assert_eq!(extract(buffer), Err(ArchiveError::Corrupt));
}
