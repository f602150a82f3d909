//! Joining file-system paths, as `Path::join` does on Unix.
use vstd::prelude::*;
use vstd::string::*;

verus! {

/// `base` joined with `name`: an absolute `name` replaces `base`; otherwise
/// `name` is appended, after a `/` unless `base` is empty or already ends in one.
pub open spec fn join_path(base: Seq<char>, name: Seq<char>) -> Seq<char> {
    if name.len() > 0 && name[0] == '/' {
        name
    } else if base.len() == 0 || base.last() == '/' {
        base + name
    } else {
        base + seq!['/'] + name
    }
}

/// Joins `name` onto `base`.
pub fn join(base: &str, name: &str) -> (r: String)
    ensures
        r@ == join_path(base@, name@),
{
    let n = base.unicode_len();
    let m = name.unicode_len();
    if m > 0 && name.get_char(0) == '/' {
        return crate::text::owned(name);
    }
    if n == 0 || base.get_char(n - 1) == '/' {
        crate::text::concat(base, name)
    } else {
        let with_sep = crate::text::concat(base, "/");
        proof {
            reveal_strlit("/");
        }
        crate::text::concat(with_sep.as_str(), name)
    }
}

} // verus!
