use vstd::prelude::*;
use vstd::string::*;

verus! {

/// The destination of entry `name` beneath scratch root `root`: the root,
/// one path separator, then the entry's relative name, exactly as stored.
pub open spec fn joined(root: Seq<char>, name: Seq<char>) -> Seq<char> {
    root + seq!['/'] + name
}

/// Joins `root` and `name` with a single separator, reconstructing the
/// entry's relative structure beneath the root.
pub fn dest_path(root: &str, name: &str) -> (r: String)
    ensures
        r@ == joined(root@, name@),
{
    let mut out = String::from_str(root);
    out.append("/");
    out.append(name);
    proof {
        reveal_strlit("/");
        assert(out@ =~= joined(root@, name@));
    }
    out
}

} // verus!
