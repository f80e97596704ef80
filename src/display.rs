use vstd::prelude::*;
use vstd::string::{StrSliceExecFns, StringExecFns};

verus! {

/// `s` fitted to `width` characters from its end: when too long, an
/// ellipsis and then the last `width - 3` characters.
pub open spec fn fitted_tail(s: Seq<char>, width: nat) -> Seq<char> {
    if s.len() > width {
        "..."@ + s.subrange(s.len() - (width - 3), s.len() as int)
    } else {
        s
    }
}

/// `s` fitted to `width` characters from its start: when too long, the
/// first `width - 3` characters and then an ellipsis.
pub open spec fn fitted_head(s: Seq<char>, width: nat) -> Seq<char> {
    if s.len() > width {
        s.subrange(0, width - 3) + "..."@
    } else {
        s
    }
}

/// Shortens text for a field of `width` columns, keeping its end.
pub fn fit_tail(s: &str, width: usize) -> (r: String)
    requires
        width >= 3,
    ensures
        r@ == fitted_tail(s@, width as nat),
{
    let n = s.unicode_len();
    if n > width {
        String::from_str("...").concat(s.substring_char(n - (width - 3), n))
    } else {
        String::from_str(s)
    }
}

/// Shortens text for a field of `width` columns, keeping its start.
pub fn fit_head(s: &str, width: usize) -> (r: String)
    requires
        width >= 3,
    ensures
        r@ == fitted_head(s@, width as nat),
{
    let n = s.unicode_len();
    if n > width {
        String::from_str(s.substring_char(0, width - 3)).concat("...")
    } else {
        String::from_str(s)
    }
}

} // verus!
