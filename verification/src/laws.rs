use vstd::prelude::*;
use crate::filter::keeps;
use crate::paths::joined;
use crate::plan::plan_of;

verus! {

/// The kept entries of a visitation sequence: those whose name is not a
/// directory name and carries a whitelisted suffix, in their original order.
pub open spec fn kept_of(entries: Seq<(Seq<char>, Seq<u8>)>) -> Seq<(Seq<char>, Seq<u8>)> {
    entries.filter(|e: (Seq<char>, Seq<u8>)| keeps(e.0))
}

/// One entry placed beneath the root: its name, its joined destination
/// path, and its bytes.
pub open spec fn placed(root: Seq<char>, e: (Seq<char>, Seq<u8>)) -> (
    Seq<char>,
    Seq<char>,
    Seq<u8>,
) {
    (e.0, joined(root, e.0), e.1)
}

/// A whole visitation sequence placed beneath the root, entry by entry.
pub open spec fn placed_all(entries: Seq<(Seq<char>, Seq<u8>)>, root: Seq<char>) -> Seq<
    (Seq<char>, Seq<char>, Seq<u8>),
> {
    entries.map_values(|e: (Seq<char>, Seq<u8>)| placed(root, e))
}

/// Law: the plan is exactly the kept entries — every non-directory entry
/// with a whitelisted suffix yields one planned file, in visitation order,
/// and directory entries and entries with other suffixes yield none.
pub proof fn lemma_plan_selects_kept(entries: Seq<(Seq<char>, Seq<u8>)>, root: Seq<char>)
    ensures
        plan_of(entries, root) == placed_all(kept_of(entries), root),
    decreases entries.len(),
{
    reveal(Seq::filter);
    if entries.len() == 0 {
        assert(plan_of(entries, root) =~= placed_all(kept_of(entries), root));
    } else {
        let prefix = entries.drop_last();
        let last = entries.last();
        lemma_plan_selects_kept(prefix, root);
        if keeps(last.0) {
            assert(kept_of(entries) == kept_of(prefix).push(last));
            assert(placed_all(kept_of(prefix).push(last), root) =~= placed_all(
                kept_of(prefix),
                root,
            ).push(placed(root, last)));
        } else {
            assert(kept_of(entries) == kept_of(prefix));
        }
        assert(plan_of(entries, root) =~= placed_all(kept_of(entries), root));
    }
}

/// Law: in an archive all of whose entries are kept, every entry yields
/// exactly one planned file, at its own position and with its own name,
/// path and bytes.
pub proof fn lemma_all_kept_one_each(entries: Seq<(Seq<char>, Seq<u8>)>, root: Seq<char>)
    requires
        forall|i: int| 0 <= i < entries.len() ==> keeps((#[trigger] entries[i]).0),
    ensures
        plan_of(entries, root).len() == entries.len(),
        forall|i: int|
            0 <= i < entries.len() ==> #[trigger] plan_of(entries, root)[i] == placed(
                root,
                entries[i],
            ),
    decreases entries.len(),
{
    if entries.len() == 0 {
    } else {
        let prefix = entries.drop_last();
        lemma_all_kept_one_each(prefix, root);
        assert(keeps(entries.last().0));
        assert(plan_of(entries, root) == plan_of(prefix, root).push(placed(root, entries.last())));
    }
}

/// Law: an archive with no kept entry yields an empty plan, and planning
/// cannot fail on it.
pub proof fn lemma_no_kept_empty_plan(entries: Seq<(Seq<char>, Seq<u8>)>, root: Seq<char>)
    requires
        forall|i: int| 0 <= i < entries.len() ==> !keeps((#[trigger] entries[i]).0),
    ensures
        plan_of(entries, root) == Seq::<(Seq<char>, Seq<char>, Seq<u8>)>::empty(),
    decreases entries.len(),
{
    if entries.len() == 0 {
        assert(plan_of(entries, root) =~= Seq::<(Seq<char>, Seq<char>, Seq<u8>)>::empty());
    } else {
        lemma_no_kept_empty_plan(entries.drop_last(), root);
        assert(!keeps(entries.last().0));
    }
}

/// Law: every planned file is faithful to the archive — its name was kept,
/// its destination path is the root, one separator, then its own name (the
/// relative structure reconstructed beneath the root), and its bytes are
/// exactly the decompressed bytes of an entry carrying that name.
pub proof fn lemma_planned_files_faithful(entries: Seq<(Seq<char>, Seq<u8>)>, root: Seq<char>)
    ensures
        forall|j: int|
            #![trigger plan_of(entries, root)[j]]
            0 <= j < plan_of(entries, root).len() ==> {
                keeps(plan_of(entries, root)[j].0) && plan_of(entries, root)[j].1 == joined(
                    root,
                    plan_of(entries, root)[j].0,
                ) && entries.contains((plan_of(entries, root)[j].0, plan_of(entries, root)[j].2))
            },
    decreases entries.len(),
{
    if entries.len() == 0 {
    } else {
        let prefix = entries.drop_last();
        let last = entries.last();
        lemma_planned_files_faithful(prefix, root);
        assert forall|x: (Seq<char>, Seq<u8>)| prefix.contains(x) implies entries.contains(x) by {
            let i = choose|i: int| 0 <= i < prefix.len() && prefix[i] == x;
            assert(entries[i] == x);
        }
        let whole = plan_of(entries, root);
        let prior = plan_of(prefix, root);
        assert forall|j: int|
            0 <= j < whole.len() implies keeps(whole[j].0) && whole[j].1 == joined(root, whole[j].0)
            && entries.contains((whole[j].0, whole[j].2)) by {
            if keeps(last.0) {
                assert(whole == prior.push(placed(root, last)));
                if j < prior.len() {
                    assert(whole[j] == prior[j]);
                } else {
                    assert(whole[j] == placed(root, last));
                    assert((last.0, last.1) == last);
                    assert(entries[entries.len() - 1] == last);
                    assert(entries.contains(last));
                }
            } else {
                assert(whole == prior);
                assert(whole[j] == prior[j]);
            }
        }
    }
}

} // verus!
