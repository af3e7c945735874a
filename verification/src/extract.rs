use vstd::prelude::*;
use std::io::Cursor;
use zip::read::ZipArchive;
use crate::errors::ExtractError;
use crate::container::{archive_entries, zip_entries, open_archive, archive_len, read_entry_at,
    make_scratch_root};
use crate::plan::{ArchiveEntry, PlannedFile, entries_model, entry_model, plan_model, plan_of,
    build_plan};

verus! {

/// The result of one successful extraction operation: the scratch root the
/// operation provisioned, and the files to materialize beneath it, in
/// archive-visitation order.
#[derive(Debug)]
pub struct Extraction {
    pub root: String,
    pub files: Vec<PlannedFile>,
}

/// Reads every entry of the opened container, in central-directory order:
/// each entry's stored name and its decompressed bytes. The first entry
/// that cannot be read aborts the whole operation.
pub(crate) fn read_all_entries(a: &mut ZipArchive<Cursor<Vec<u8>>>) -> (r: Result<
    Vec<ArchiveEntry>,
    ExtractError,
>)
    ensures
        archive_entries(*final(a)) == archive_entries(*old(a)),
        r is Ok ==> entries_model(r->Ok_0@) == archive_entries(*old(a)),
        r is Err ==> r->Err_0 is IoFailure || r->Err_0 is CorruptArchive,
{
    let n = archive_len(a);
    let mut out: Vec<ArchiveEntry> = Vec::new();
    let mut i: usize = 0;
    proof {
        assert(entries_model(out@) =~= archive_entries(*a).take(0));
    }
    while i < n
        invariant
            archive_entries(*a) == archive_entries(*old(a)),
            n == archive_entries(*a).len(),
            i <= n,
            entries_model(out@) == archive_entries(*a).take(i as int),
        decreases n - i,
    {
        let ghost prev = out@;
        match read_entry_at(a, i) {
            Ok(pair) => {
                let (name, data) = pair;
                out.push(ArchiveEntry { name, data });
                proof {
                    assert(entries_model(out@) =~= entries_model(prev).push(
                        entry_model(out@[out@.len() - 1]),
                    ));
                    assert(archive_entries(*a).take(i as int + 1) =~= archive_entries(
                        *a,
                    ).take(i as int).push(archive_entries(*a)[i as int]));
                }
            },
            Err(e) => {
                return Err(e);
            },
        }
        i += 1;
    }
    proof {
        assert(archive_entries(*a).take(n as int) =~= archive_entries(*a));
    }
    Ok(out)
}

/// The whole operation on an in-memory container: provisions a fresh
/// scratch root, parses the container's central directory, reads every
/// entry, and builds the extraction plan — exactly the non-directory
/// entries whose suffix is on the whitelist, in visitation order, each with
/// its destination beneath the root and its decompressed bytes.
///
/// Selection and decompression finish before anything is written, so a
/// container that cannot be read leaves the scratch area empty; writing the
/// planned files, and any partial state a failed write leaves behind, is
/// the caller's side of the boundary.
pub fn extract_zip(data: Vec<u8>) -> (r: Result<Extraction, ExtractError>)
    ensures
        r is Ok ==> plan_model(r->Ok_0.files@) == plan_of(zip_entries(data@), r->Ok_0.root@),
{
    let root = match make_scratch_root() {
        Ok(s) => s,
        Err(e) => {
            return Err(e);
        },
    };
    let mut archive = match open_archive(data) {
        Ok(a) => a,
        Err(e) => {
            return Err(e);
        },
    };
    let entries = match read_all_entries(&mut archive) {
        Ok(v) => v,
        Err(e) => {
            return Err(e);
        },
    };
    let files = build_plan(&entries, root.as_str());
    Ok(Extraction { root, files })
}

} // verus!
