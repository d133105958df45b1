use vstd::prelude::*;

verus! {

/// The separator between path components.
pub open spec fn sep() -> char {
    '/'
}

/// True when `p` is non-empty and its last character is the separator.
pub open spec fn ends_with_sep(p: Seq<char>) -> bool {
    p.len() > 0 && p.last() == sep()
}

/// `base` followed by `part`, with exactly the separator between them that
/// `base` does not already end with. An empty base yields `part` unchanged.
pub open spec fn joined(base: Seq<char>, part: Seq<char>) -> Seq<char> {
    if base.len() == 0 || ends_with_sep(base) {
        base + part
    } else {
        base.push(sep()) + part
    }
}

/// A directory path as the synchronization tool must receive it to copy the
/// directory's contents rather than the directory itself: with a trailing
/// separator. An empty path stays empty.
pub open spec fn dir_contents_arg(p: Seq<char>) -> Seq<char> {
    if p.len() == 0 || ends_with_sep(p) {
        p
    } else {
        p.push(sep())
    }
}

fn ends_with_separator(p: &str) -> (r: bool)
    ensures
        r == ends_with_sep(p@),
{
    let n = p.unicode_len();
    n > 0 && p.get_char(n - 1) == '/'
}

/// Joins `part` onto `base` with one separator between them.
pub fn join(base: &str, part: &str) -> (r: String)
    ensures
        r@ == joined(base@, part@),
{
    let mut r = String::from_str(base);
    if base.unicode_len() > 0 && !ends_with_separator(base) {
        r.append("/");
        proof {
            reveal_strlit("/");
            assert(r@ =~= base@.push(sep()));
        }
    }
    r.append(part);
    r
}

/// The source argument for a synchronization job: `backup_root` with a
/// trailing separator, so that the tool does not nest an extra directory
/// level inside the destination.
pub fn gen_backup_root_str(backup_root: &str) -> (r: String)
    ensures
        r@ == dir_contents_arg(backup_root@),
{
    let mut r = String::from_str(backup_root);
    if backup_root.unicode_len() > 0 && !ends_with_separator(backup_root) {
        r.append("/");
        proof {
            reveal_strlit("/");
            assert(r@ =~= backup_root@.push(sep()));
        }
    }
    r
}

} // verus!
