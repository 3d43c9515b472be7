//! Trusted access to the `zip` crate: parsing an in-memory ZIP archive
//! and reading its entries out as plain values.
//!
//! Everything else about extraction — path checks, progress, the plan of
//! filesystem actions — is verified code in [`crate::unpack`]; only the
//! calls into `zip` below are taken on trust.

use crate::unpack::UnpackError;
use vstd::prelude::*;

verus! {

#[verifier::external_type_specification]
#[verifier::external_body]
#[verifier::reject_recursive_types(T)]
pub struct ExCursor<T>(std::io::Cursor<T>);

#[verifier::external_type_specification]
#[verifier::external_body]
#[verifier::reject_recursive_types(R)]
pub struct ExZipArchive<R>(zip::ZipArchive<R>);

/// The entries a parsed archive holds, in stored order: for each, its raw
/// name bytes, its decompressed contents, and its POSIX mode bits if the
/// archive stored any.  They are the parsed entry table's view: an
/// archive that stores one name twice holds the later entry only.
pub uninterp spec fn archive_entries(a: zip::ZipArchive<std::io::Cursor<Vec<u8>>>) -> Seq<
    (Seq<u8>, Seq<u8>, Option<u32>),
>;

/// The buffer the archive was parsed from and reads entry contents out
/// of.
pub uninterp spec fn archive_bytes(a: zip::ZipArchive<std::io::Cursor<Vec<u8>>>) -> Seq<u8>;

/// The entries that parsing these bytes as a ZIP archive yields; parsing
/// is a function of the bytes alone.
pub uninterp spec fn zip_parse(bytes: Seq<u8>) -> Seq<(Seq<u8>, Seq<u8>, Option<u32>)>;

/// Whether these bytes parse as a ZIP archive at all; like the parse
/// itself, this depends on the bytes alone.
pub uninterp spec fn zip_parses(bytes: Seq<u8>) -> bool;

/// Whether the entry at index `i` of the archive these bytes hold can be
/// read out cleanly (located, decompressed, checksummed); this depends on
/// the bytes and the index alone.
pub uninterp spec fn entry_readable(bytes: Seq<u8>, i: int) -> bool;

/// Relies on `zip::ZipArchive::new`: parsing an in-memory buffer succeeds
/// or fails on the bytes alone, and on success the archive holds those
/// bytes and the entries their parse yields.
#[verifier::external_body]
pub(crate) fn zip_open(bytes: Vec<u8>) -> (r: Result<
    zip::ZipArchive<std::io::Cursor<Vec<u8>>>,
    UnpackError,
>)
    ensures
        r is Ok <==> zip_parses(bytes@),
        r matches Ok(a) ==> archive_entries(a) == zip_parse(bytes@) && archive_bytes(a)
            == bytes@,
        r matches Err(e) ==> e == UnpackError::OpenFailed,
{
    match zip::ZipArchive::new(std::io::Cursor::new(bytes)) {
        Ok(a) => Ok(a),
        Err(_) => Err(UnpackError::OpenFailed),
    }
}

/// Relies on `zip::ZipArchive::len`: the number of entries the archive
/// holds.
#[verifier::external_body]
pub(crate) fn zip_len(a: &zip::ZipArchive<std::io::Cursor<Vec<u8>>>) -> (n: usize)
    ensures
        n == archive_entries(*a).len(),
{
    a.len()
}

/// One archive entry, read out as plain values.
pub struct ZipEntry {
    /// The stored name, as raw bytes.
    pub name: Vec<u8>,
    /// The decompressed contents.
    pub data: Vec<u8>,
    /// The POSIX permission bits, where the archive stored them.
    pub mode: Option<u32>,
}

/// Relies on `zip::ZipArchive::by_index` and `std::io::Read::read_to_end`
/// on the returned entry: the name, mode bits and decompressed contents
/// of the entry at `i`.  Whether the read succeeds depends on the
/// archive's buffer and the index alone; reading moves the underlying
/// cursor but leaves the buffer and the entries unchanged.
#[verifier::external_body]
pub(crate) fn zip_entry_at(a: &mut zip::ZipArchive<std::io::Cursor<Vec<u8>>>, i: usize) -> (r:
    Result<ZipEntry, UnpackError>)
    requires
        i < archive_entries(*old(a)).len(),
    ensures
        archive_entries(*final(a)) == archive_entries(*old(a)),
        archive_bytes(*final(a)) == archive_bytes(*old(a)),
        r is Ok <==> entry_readable(archive_bytes(*old(a)), i as int),
        r matches Ok(e) ==> {
            let ent = archive_entries(*old(a))[i as int];
            &&& e.name@ == ent.0
            &&& e.data@ == ent.1
            &&& e.mode == ent.2
        },
        r matches Err(err) ==> err == UnpackError::IoError,
{
    match a.by_index(i) {
        Err(_) => Err(UnpackError::IoError),
        Ok(mut f) => {
            let name = f.name_raw().to_vec();
            let mode = f.unix_mode();
            let mut data = Vec::new();
            match std::io::Read::read_to_end(&mut f, &mut data) {
                Ok(_) => Ok(ZipEntry { name, data, mode }),
                Err(_) => Err(UnpackError::IoError),
            }
        },
    }
}

} // verus!
