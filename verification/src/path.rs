//! File system paths as strings.
//!
//! The supervisor lays its files out below one instance directory; every path
//! it hands out is built by joining components onto that directory.
use vstd::prelude::*;
use vstd::string::*;

verus! {

/// `base` joined with `component`, as `std::path::Path::join` does on Unix:
/// an absolute component replaces the base; otherwise one `/` separates the
/// two, unless `base` is empty or already ends in `/`.
pub open spec fn path_join(base: Seq<char>, component: Seq<char>) -> Seq<char> {
    if component.len() > 0 && component[0] == '/' {
        component
    } else if base.len() == 0 || base.last() == '/' {
        base + component
    } else {
        base + seq!['/'] + component
    }
}

/// Joins `component` onto `base` (see [`path_join`]).
pub fn join_path(base: &str, component: &str) -> (r: String)
    ensures
        r@ == path_join(base@, component@),
{
    let clen = component.unicode_len();
    if clen > 0 && component.get_char(0) == '/' {
        return component.to_string();
    }
    let blen = base.unicode_len();
    let mut r = base.to_string();
    if blen > 0 && base.get_char(blen - 1) != '/' {
        proof {
            reveal_strlit("/");
        }
        r.append("/");
    }
    r.append(component);
    r
}

} // verus!
