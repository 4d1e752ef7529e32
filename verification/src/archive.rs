//! The archive reader behind the scanner: an archive is opened from bytes
//! held in memory and its entries are handed out as plain values.
use vstd::prelude::*;
use crate::entry::{EntryInfo, EntryInfoView};

verus! {

/// `std::io::Cursor`: the reader that the archive is opened over. Nothing
/// is said of what it holds.
#[verifier::external_type_specification]
#[verifier::external_body]
#[verifier::reject_recursive_types(T)]
pub struct ExCursor<T>(std::io::Cursor<T>);

/// `zip::ZipArchive`: an opened archive. What it holds is spoken of
/// through `archive_entries` alone.
#[verifier::external_type_specification]
#[verifier::external_body]
#[verifier::reject_recursive_types(R)]
pub struct ExZipArchive<R>(zip::ZipArchive<R>);

/// `zip::result::ZipError`: why the reader refused. It is carried to the
/// scanner, which reports a failure of its own in its place.
#[verifier::external_type_specification]
#[verifier::external_body]
pub struct ExZipError(zip::result::ZipError);

/// One entry of an opened archive: what the archive says of it, and its
/// uncompressed bytes. Either is absent where the archive reader fails on it.
pub ghost struct EntryModel {
    pub info: Option<EntryInfoView>,
    pub data: Option<Seq<u8>>,
}

/// The entries of an opened archive, in the order of its central directory.
pub uninterp spec fn archive_entries(archive: zip::ZipArchive<std::io::Cursor<Vec<u8>>>) -> Seq<
    EntryModel,
>;

/// The entries that the archive reader finds in a buffer, where it accepts
/// the buffer as an archive.
pub uninterp spec fn parsed_archive(bytes: Seq<u8>) -> Option<Seq<EntryModel>>;

/// Opens the archive held in `bytes` with `zip::ZipArchive::new`, over a
/// copy of the bytes. The contract names what was read: the reader's answer
/// depends on the bytes alone.
#[verifier::external_body]
pub(crate) fn open_archive(bytes: &[u8]) -> (r: Result<
    zip::ZipArchive<std::io::Cursor<Vec<u8>>>,
    zip::result::ZipError,
>)
    ensures
        match r {
            Ok(archive) => parsed_archive(bytes@) == Some(archive_entries(archive)),
            Err(_) => parsed_archive(bytes@) is None,
        },
{
    zip::ZipArchive::new(std::io::Cursor::new(bytes.to_vec()))
}

/// `zip::ZipArchive::len`: the number of entries.
#[verifier::external_body]
pub(crate) fn archive_len(archive: &zip::ZipArchive<std::io::Cursor<Vec<u8>>>) -> (n: usize)
    ensures
        n == archive_entries(*archive).len(),
{
    archive.len()
}

/// `zip::ZipArchive::by_index`, and the entry's name and flags as plain
/// values. `None` where the reader cannot open the entry or its name is no
/// text, and for an index past the end. The archive keeps its entries.
#[verifier::external_body]
pub(crate) fn entry_info(
    archive: &mut zip::ZipArchive<std::io::Cursor<Vec<u8>>>,
    index: usize,
) -> (r: Option<EntryInfo>)
    ensures
        archive_entries(*final(archive)) == archive_entries(*old(archive)),
        index >= archive_entries(*old(archive)).len() ==> r is None,
        index < archive_entries(*old(archive)).len() ==> match r {
            Some(info) => archive_entries(*old(archive))[index as int].info == Some(info@),
            None => archive_entries(*old(archive))[index as int].info is None,
        },
{
    let file = archive.by_index(index).ok()?;
    let name = file.name().ok()?.into_owned();
    Some(EntryInfo { name, enclosed: file.enclosed_name().is_some(), is_file: file.is_file() })
}

/// `zip::ZipArchive::by_index`, and the entry read to its end. `None` where
/// the reader cannot open or read the entry, and for an index past the end.
/// The archive keeps its entries.
#[verifier::external_body]
pub(crate) fn entry_bytes(
    archive: &mut zip::ZipArchive<std::io::Cursor<Vec<u8>>>,
    index: usize,
) -> (r: Option<Vec<u8>>)
    ensures
        archive_entries(*final(archive)) == archive_entries(*old(archive)),
        index >= archive_entries(*old(archive)).len() ==> r is None,
        index < archive_entries(*old(archive)).len() ==> match r {
            Some(data) => archive_entries(*old(archive))[index as int].data == Some(data@),
            None => archive_entries(*old(archive))[index as int].data is None,
        },
{
    let mut file = archive.by_index(index).ok()?;
    let mut data: Vec<u8> = Vec::new();
    std::io::Read::read_to_end(&mut file, &mut data).ok()?;
    Some(data)
}

} // verus!
