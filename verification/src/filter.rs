use vstd::prelude::*;
use vstd::string::*;

verus! {

/// A name denotes a directory entry exactly when it ends with the
/// path separator.
pub open spec fn is_dir_name(s: Seq<char>) -> bool {
    s.len() > 0 && s[s.len() - 1] == '/'
}

/// Case-insensitive match of one suffix character: the stored character is
/// either the lower-case or the upper-case form.
pub open spec fn ci(c: char, lo: char, up: char) -> bool {
    c == lo || c == up
}

/// The name ends, case-insensitively, with `.csv`.
pub open spec fn has_csv_suffix(s: Seq<char>) -> bool {
    &&& s.len() >= 4
    &&& s[s.len() - 4] == '.'
    &&& ci(s[s.len() - 3], 'c', 'C')
    &&& ci(s[s.len() - 2], 's', 'S')
    &&& ci(s[s.len() - 1], 'v', 'V')
}

/// The name ends, case-insensitively, with `.txt`.
pub open spec fn has_txt_suffix(s: Seq<char>) -> bool {
    &&& s.len() >= 4
    &&& s[s.len() - 4] == '.'
    &&& ci(s[s.len() - 3], 't', 'T')
    &&& ci(s[s.len() - 2], 'x', 'X')
    &&& ci(s[s.len() - 1], 't', 'T')
}

/// The name ends, case-insensitively, with `.tsv`.
pub open spec fn has_tsv_suffix(s: Seq<char>) -> bool {
    &&& s.len() >= 4
    &&& s[s.len() - 4] == '.'
    &&& ci(s[s.len() - 3], 't', 'T')
    &&& ci(s[s.len() - 2], 's', 'S')
    &&& ci(s[s.len() - 1], 'v', 'V')
}

/// The suffix whitelist: a name is wanted when it ends, case-insensitively,
/// with one of `.csv`, `.txt`, `.tsv`. Only the suffix is inspected; the rest
/// of the name plays no part.
pub open spec fn wanted_name(s: Seq<char>) -> bool {
    has_csv_suffix(s) || has_txt_suffix(s) || has_tsv_suffix(s)
}

/// An entry is kept exactly when its name is not a directory name and its
/// suffix is on the whitelist.
pub open spec fn keeps(s: Seq<char>) -> bool {
    !is_dir_name(s) && wanted_name(s)
}

/// True iff `name` denotes a directory entry (ends with `/`).
pub fn is_directory(name: &str) -> (r: bool)
    ensures
        r == is_dir_name(name@),
{
    let n = name.unicode_len();
    if n == 0 {
        false
    } else {
        name.get_char(n - 1) == '/'
    }
}

/// True iff `name` ends, case-insensitively, with one of the whitelisted
/// suffixes `.csv`, `.txt`, `.tsv`.
pub fn is_wanted(name: &str) -> (r: bool)
    ensures
        r == wanted_name(name@),
{
    let n = name.unicode_len();
    if n < 4 {
        return false;
    }
    let dot = name.get_char(n - 4);
    let a = name.get_char(n - 3);
    let b = name.get_char(n - 2);
    let c = name.get_char(n - 1);
    if dot != '.' {
        return false;
    }
    let csv = (a == 'c' || a == 'C') && (b == 's' || b == 'S') && (c == 'v' || c == 'V');
    let txt = (a == 't' || a == 'T') && (b == 'x' || b == 'X') && (c == 't' || c == 'T');
    let tsv = (a == 't' || a == 'T') && (b == 's' || b == 'S') && (c == 'v' || c == 'V');
    csv || txt || tsv
}

/// True iff an entry named `name` is kept: not a directory, wanted suffix.
pub fn is_kept(name: &str) -> (r: bool)
    ensures
        r == keeps(name@),
{
    !is_directory(name) && is_wanted(name)
}

} // verus!
