//! Unwrapping a downloaded payload: a compressed archive with exactly one member.

use crate::error::ArchiveError;
use vstd::prelude::*;

verus! {

#[verifier::external_type_specification]
#[verifier::external_body]
#[verifier::reject_recursive_types(T)]
pub struct ExCursor<T>(std::io::Cursor<T>);

#[verifier::external_type_specification]
#[verifier::external_body]
#[verifier::reject_recursive_types(R)]
pub struct ExZipArchive<R>(zip::ZipArchive<R>);

#[verifier::external_type_specification]
#[verifier::external_body]
pub struct ExZipError(zip::result::ZipError);

/// What `zip::ZipArchive::new` makes of a buffer: `None` where it refuses the
/// buffer, else what [`archive_members`] says of the archive it returns.
pub uninterp spec fn zip_members(bytes: Seq<u8>) -> Option<Seq<Option<Seq<u8>>>>;

/// The members that an opened archive lists, in the order of its directory:
/// each with the bytes that reading it to the end yields, or `None` for a
/// member that cannot be opened without a password or read to the end.
pub uninterp spec fn archive_members(
    archive: zip::ZipArchive<std::io::Cursor<Vec<u8>>>,
) -> Seq<Option<Seq<u8>>>;

/// Calls `zip::ZipArchive::new` on a cursor over `bytes`. Trusted: the call
/// succeeds or fails as [`zip_members`] says of the buffer, and the archive
/// returned holds the members that [`zip_members`] lists.
#[verifier::external_body]
fn open_archive(bytes: Vec<u8>) -> (opened: Result<
    zip::ZipArchive<std::io::Cursor<Vec<u8>>>,
    zip::result::ZipError,
>)
    ensures
        match opened {
            Ok(archive) => zip_members(bytes@) == Some(archive_members(archive)),
            Err(_) => zip_members(bytes@) is None,
        },
{
    zip::ZipArchive::new(std::io::Cursor::new(bytes))
}

/// Calls `zip::ZipArchive::len`. Trusted: it returns the number of members
/// that the archive lists.
#[verifier::external_body]
fn member_count(archive: &zip::ZipArchive<std::io::Cursor<Vec<u8>>>) -> (count: usize)
    ensures
        count == archive_members(*archive).len(),
{
    archive.len()
}

/// Calls `zip::ZipArchive::by_index_decrypt` with an empty password (which,
/// other than `by_index`, returns an error for every member that it cannot
/// open), then `std::io::Read::read_to_end` on the member. Trusted: the
/// archive lists the same members afterwards; the bytes returned are those of
/// the member at `index`; and nothing is returned exactly where the archive
/// has no such member or the member cannot be opened and read to the end.
#[verifier::external_body]
fn read_member(archive: &mut zip::ZipArchive<std::io::Cursor<Vec<u8>>>, index: usize) -> (data:
    Option<Vec<u8>>)
    ensures
        archive_members(*final(archive)) == archive_members(*old(archive)),
        match data {
            Some(bytes) => index < archive_members(*old(archive)).len()
                && archive_members(*old(archive))[index as int] == Some(bytes@),
            None => index >= archive_members(*old(archive)).len()
                || archive_members(*old(archive))[index as int] is None,
        },
{
    let mut member = archive.by_index_decrypt(index, b"").ok()?.ok()?;
    let mut data = Vec::new();
    std::io::Read::read_to_end(&mut member, &mut data).ok()?;
    Some(data)
}

/// What unwrapping yields for a buffer whose members are `members`: the bytes
/// of the sole member, `UnexpectedMemberCount` where the archive does not hold
/// exactly one, and `Corrupt` where the buffer or its member cannot be read.
pub open spec fn unwrapped(members: Option<Seq<Option<Seq<u8>>>>) -> Result<Seq<u8>, ArchiveError> {
    match members {
        None => Err(ArchiveError::Corrupt),
        Some(list) => if list.len() != 1 {
            Err(ArchiveError::UnexpectedMemberCount)
        } else {
            match list[0] {
                Some(data) => Ok(data),
                None => Err(ArchiveError::Corrupt),
            }
        },
    }
}

/// Accepts an archive that lists exactly one member.
pub fn check_member_count(count: usize) -> (checked: Result<(), ArchiveError>)
    ensures
        checked == if count == 1 {
            Ok::<(), ArchiveError>(())
        } else {
            Err::<(), ArchiveError>(ArchiveError::UnexpectedMemberCount)
        },
{
    if count == 1 {
        Ok(())
    } else {
        Err(ArchiveError::UnexpectedMemberCount)
    }
}

/// Unwraps a downloaded payload: returns the decompressed bytes of the single
/// member of the archive in `bytes`.
pub fn extract(bytes: Vec<u8>) -> (payload: Result<Vec<u8>, ArchiveError>)
    ensures
        match payload {
            Ok(data) => unwrapped(zip_members(bytes@)) == Ok::<Seq<u8>, ArchiveError>(data@),
            Err(e) => unwrapped(zip_members(bytes@)) == Err::<Seq<u8>, ArchiveError>(e),
        },
{
    let ghost source = bytes@;
    match open_archive(bytes) {
        Err(_) => Err(ArchiveError::Corrupt),
        Ok(archive) => {
            let mut archive = archive;
            match check_member_count(member_count(&archive)) {
                Err(e) => Err(e),
                Ok(()) => match read_member(&mut archive, 0) {
                    Some(data) => Ok(data),
                    None => Err(ArchiveError::Corrupt),
                },
            }
        },
    }
}

} // verus!
