//! Paths held as text, joined the way `std::path::PathBuf::push` joins them
//! on Unix: an absolute part replaces the base, a relative part is appended
//! after a `/` unless the base is empty or already ends with one.

use vstd::prelude::*;

verus! {

/// Whether a Unix path is absolute: it starts at the root `/`.
pub open spec fn spec_is_absolute(path: Seq<char>) -> bool {
    path.len() > 0 && path[0] == '/'
}

/// The path that results from pushing `part` onto `base`.
pub open spec fn spec_push_path(base: Seq<char>, part: Seq<char>) -> Seq<char> {
    if spec_is_absolute(part) {
        part
    } else if base.len() == 0 || base.last() == '/' {
        base + part
    } else {
        base + seq!['/'] + part
    }
}

/// Whether `path` is absolute.
pub fn is_absolute_path(path: &str) -> (b: bool)
    ensures
        b == spec_is_absolute(path@),
{
    let n = path.unicode_len();
    n > 0 && path.get_char(0) == '/'
}

/// `part` pushed onto `base`.
pub fn push_path(base: &str, part: &str) -> (p: String)
    ensures
        p@ == spec_push_path(base@, part@),
{
    if is_absolute_path(part) {
        return String::from_str(part);
    }
    let n = base.unicode_len();
    let mut p = String::from_str(base);
    if n > 0 && base.get_char(n - 1) != '/' {
        proof {
            reveal_strlit("/");
        }
        p.append("/");
    }
    p.append(part);
    p
}

/// Pushing a part onto a path: an absolute part replaces the path; a
/// relative part follows the path after exactly one `/` (none is added to an
/// empty path or after a trailing `/`).
pub proof fn lemma_push_path_shape(base: Seq<char>, part: Seq<char>)
    ensures
        part.len() > 0 && part[0] == '/' ==> spec_push_path(base, part) == part,
        !(part.len() > 0 && part[0] == '/') && base.len() > 0 && base[base.len() - 1] != '/'
            ==> spec_push_path(base, part) == base + seq!['/'] + part,
        !(part.len() > 0 && part[0] == '/') && (base.len() == 0 || base[base.len() - 1] == '/')
            ==> spec_push_path(base, part) == base + part,
{
}

} // verus!
