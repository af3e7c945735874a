use vstd::prelude::*;
use std::io::Cursor;
use zip::read::ZipArchive;
use crate::errors::ExtractError;

verus! {

#[verifier::external_type_specification]
#[verifier::external_body]
#[verifier::reject_recursive_types(R)]
pub struct ExZipArchive<R>(ZipArchive<R>);

#[verifier::external_type_specification]
#[verifier::external_body]
#[verifier::reject_recursive_types(T)]
pub struct ExCursor<T>(Cursor<T>);

/// What an opened container holds: for each entry of its central directory,
/// in directory order, the entry's stored name and its decompressed bytes.
pub uninterp spec fn archive_entries(a: ZipArchive<Cursor<Vec<u8>>>) -> Seq<(Seq<char>, Seq<u8>)>;

/// The entries that parsing the container bytes `data` yields: for each
/// entry of the central directory, in directory order, its stored name and
/// its decompressed bytes. Parsing an in-memory container is a function of
/// the bytes alone.
pub uninterp spec fn zip_entries(data: Seq<u8>) -> Seq<(Seq<char>, Seq<u8>)>;

/// Relies on zip::read::ZipArchive::new: parses the central directory of the
/// container held in `data` (the bytes are first moved into a
/// std::io::Cursor); an error means the container's structural metadata
/// could not be read.
#[verifier::external_body]
pub(crate) fn open_archive(data: Vec<u8>) -> (r: Result<
    ZipArchive<Cursor<Vec<u8>>>,
    ExtractError,
>)
    ensures
        r is Ok ==> archive_entries(r->Ok_0) == zip_entries(data@),
        r is Err ==> r->Err_0 is CorruptArchive,
{
    match ZipArchive::new(Cursor::new(data)) {
        Ok(a) => Ok(a),
        Err(e) => Err(ExtractError::CorruptArchive(e.to_string())),
    }
}

/// Relies on zip::read::ZipArchive::len: the number of entries in the
/// central directory.
#[verifier::external_body]
pub(crate) fn archive_len(a: &ZipArchive<Cursor<Vec<u8>>>) -> (n: usize)
    ensures
        n == archive_entries(*a).len(),
{
    a.len()
}

/// Relies on zip::read::ZipArchive::by_index, zip::read::ZipFile::name and
/// std::io::Read::read_to_end: the stored name of entry `i` and its
/// decompressed bytes. Reading moves the underlying cursor but leaves the
/// entry table untouched; an i/o error while inflating is an IoFailure, any
/// other refusal of the entry is a CorruptArchive.
#[verifier::external_body]
pub(crate) fn read_entry_at(a: &mut ZipArchive<Cursor<Vec<u8>>>, i: usize) -> (r: Result<
    (String, Vec<u8>),
    ExtractError,
>)
    requires
        i < archive_entries(*old(a)).len(),
    ensures
        archive_entries(*final(a)) == archive_entries(*old(a)),
        r is Ok ==> r->Ok_0.0@ == archive_entries(*old(a))[i as int].0,
        r is Ok ==> r->Ok_0.1@ == archive_entries(*old(a))[i as int].1,
        r is Err ==> r->Err_0 is IoFailure || r->Err_0 is CorruptArchive,
{
    match a.by_index(i) {
        Ok(mut f) => {
            let name = f.name().to_string();
            let mut buf = Vec::new();
            match std::io::Read::read_to_end(&mut f, &mut buf) {
                Ok(_) => Ok((name, buf)),
                Err(e) => Err(ExtractError::IoFailure(e.to_string())),
            }
        },
        Err(zip::result::ZipError::Io(e)) => Err(ExtractError::IoFailure(e.to_string())),
        Err(e) => Err(ExtractError::CorruptArchive(e.to_string())),
    }
}

/// Relies on tempfile::tempdir and tempfile::TempDir::keep: creates a fresh,
/// uniquely named writable directory under the system temporary location,
/// detaches it from automatic deletion so it outlives the call, and hands
/// back its absolute path.
#[verifier::external_body]
pub(crate) fn make_scratch_root() -> (r: Result<String, ExtractError>)
    ensures
        r is Err ==> r->Err_0 is IoFailure,
{
    match tempfile::tempdir() {
        Ok(d) => Ok(d.keep().to_string_lossy().into_owned()),
        Err(e) => Err(ExtractError::IoFailure(e.to_string())),
    }
}

} // verus!
