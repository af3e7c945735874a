use vstd::prelude::*;
use vstd::string::*;
use crate::filter::{keeps, is_kept};
use crate::paths::{joined, dest_path};

verus! {

/// One entry read out of the container: its stored relative name and its
/// decompressed bytes.
#[derive(Debug)]
pub struct ArchiveEntry {
    pub name: String,
    pub data: Vec<u8>,
}

/// One file the extraction will materialize: the original in-archive name,
/// the destination path beneath the scratch root, and the bytes to write.
#[derive(Debug)]
pub struct PlannedFile {
    pub name: String,
    pub path: String,
    pub data: Vec<u8>,
}

/// The descriptor reported to the caller for one extracted file: the
/// original in-archive relative name and the filesystem location the bytes
/// were written to.
#[derive(Debug)]
pub struct ExtractedFile {
    pub name: String,
    pub path: String,
}

/// The mathematical value of one archive entry: (name, bytes).
pub open spec fn entry_model(e: ArchiveEntry) -> (Seq<char>, Seq<u8>) {
    (e.name@, e.data@)
}

/// The mathematical value of a sequence of archive entries.
pub open spec fn entries_model(s: Seq<ArchiveEntry>) -> Seq<(Seq<char>, Seq<u8>)> {
    s.map_values(|e: ArchiveEntry| entry_model(e))
}

/// The mathematical value of one planned file: (name, path, bytes).
pub open spec fn planned_model(p: PlannedFile) -> (Seq<char>, Seq<char>, Seq<u8>) {
    (p.name@, p.path@, p.data@)
}

/// The mathematical value of a sequence of planned files.
pub open spec fn plan_model(s: Seq<PlannedFile>) -> Seq<(Seq<char>, Seq<char>, Seq<u8>)> {
    s.map_values(|p: PlannedFile| planned_model(p))
}

/// The extraction plan for the given entries beneath `root`: the kept
/// entries (non-directory names with a whitelisted suffix), in visitation
/// order, each paired with its joined destination path and its bytes.
/// Skipped and directory entries contribute nothing.
pub open spec fn plan_of(
    entries: Seq<(Seq<char>, Seq<u8>)>,
    root: Seq<char>,
) -> Seq<(Seq<char>, Seq<char>, Seq<u8>)>
    decreases entries.len(),
{
    if entries.len() == 0 {
        Seq::empty()
    } else {
        let prior = plan_of(entries.drop_last(), root);
        let last = entries.last();
        if keeps(last.0) {
            prior.push((last.0, joined(root, last.0), last.1))
        } else {
            prior
        }
    }
}

/// A fresh vector holding the same bytes.
fn copy_bytes(src: &Vec<u8>) -> (r: Vec<u8>)
    ensures
        r@ == src@,
{
    let mut r: Vec<u8> = Vec::new();
    let mut i: usize = 0;
    while i < src.len()
        invariant
            i <= src@.len(),
            r@ == src@.take(i as int),
        decreases src@.len() - i,
    {
        r.push(src[i]);
        proof {
            assert(src@.take(i as int + 1) =~= src@.take(i as int).push(src@[i as int]));
        }
        i += 1;
    }
    proof {
        assert(src@.take(src@.len() as int) =~= src@);
    }
    r
}

/// Builds the extraction plan for `entries` beneath `root`: exactly the kept
/// entries, in order, each with its destination path and its bytes. Total:
/// planning itself cannot fail, whatever the entries hold.
pub fn build_plan(entries: &Vec<ArchiveEntry>, root: &str) -> (plan: Vec<PlannedFile>)
    ensures
        plan_model(plan@) == plan_of(entries_model(entries@), root@),
{
    let ghost em = entries_model(entries@);
    let mut plan: Vec<PlannedFile> = Vec::new();
    let mut i: usize = 0;
    proof {
        assert(plan_model(plan@) =~= plan_of(em.take(0), root@));
    }
    while i < entries.len()
        invariant
            i <= entries@.len(),
            em == entries_model(entries@),
            plan_model(plan@) == plan_of(em.take(i as int), root@),
        decreases entries@.len() - i,
    {
        let e = &entries[i];
        let ghost prev = plan@;
        if is_kept(e.name.as_str()) {
            let p = PlannedFile {
                name: e.name.clone(),
                path: dest_path(root, e.name.as_str()),
                data: copy_bytes(&e.data),
            };
            plan.push(p);
            proof {
                assert(plan_model(plan@) =~= plan_model(prev).push(
                    (entries@[i as int].name@, joined(root@, entries@[i as int].name@),
                    entries@[i as int].data@),
                ));
            }
        }
        proof {
            assert(em.take(i as int + 1).drop_last() =~= em.take(i as int));
            assert(em.take(i as int + 1).last() == entry_model(entries@[i as int]));
            assert(plan_model(plan@) == plan_of(em.take(i as int + 1), root@));
        }
        i += 1;
    }
    proof {
        assert(em.take(entries@.len() as int) =~= em);
    }
    plan
}

/// The descriptors for a plan: one per planned file, in the same order,
/// carrying the original name and the destination path.
pub fn descriptors_of(files: &Vec<PlannedFile>) -> (ds: Vec<ExtractedFile>)
    ensures
        ds@.len() == files@.len(),
        forall|i: int|
            0 <= i < files@.len() ==> #[trigger] ds@[i].name@ == files@[i].name@
                && ds@[i].path@ == files@[i].path@,
{
    let mut ds: Vec<ExtractedFile> = Vec::new();
    let mut i: usize = 0;
    while i < files.len()
        invariant
            i <= files@.len(),
            ds@.len() == i,
            forall|j: int|
                0 <= j < i ==> #[trigger] ds@[j].name@ == files@[j].name@
                    && ds@[j].path@ == files@[j].path@,
        decreases files@.len() - i,
    {
        let f = &files[i];
        ds.push(ExtractedFile { name: f.name.clone(), path: f.path.clone() });
        i += 1;
    }
    ds
}

} // verus!
