use vstd::prelude::*;
use vstd::string::{StrSliceExecFns, StringExecFns};
use crate::error::VaultError;

verus! {

/// Unicode `White_Space`, the set that `char::is_whitespace` tests.
pub open spec fn is_white_space_spec(c: char) -> bool {
    let u = c as u32;
    (0x9 <= u && u <= 0xd) || u == 0x20 || u == 0x85 || u == 0xa0 || u == 0x1680 || (0x2000 <= u
        && u <= 0x200a) || u == 0x2028 || u == 0x2029 || u == 0x202f || u == 0x205f || u == 0x3000
}

pub open spec fn is_quote(c: char) -> bool {
    c == '\'' || c == '"'
}

/// `s` without its leading white space.
pub open spec fn trim_front(s: Seq<char>) -> Seq<char>
    decreases s.len(),
{
    if s.len() > 0 && is_white_space_spec(s[0]) {
        trim_front(s.drop_first())
    } else {
        s
    }
}

/// `s` without its trailing white space.
pub open spec fn trim_back(s: Seq<char>) -> Seq<char>
    decreases s.len(),
{
    if s.len() > 0 && is_white_space_spec(s.last()) {
        trim_back(s.drop_last())
    } else {
        s
    }
}

/// `s` with every single and double quote character removed.
pub open spec fn unquoted(s: Seq<char>) -> Seq<char>
    decreases s.len(),
{
    if s.len() == 0 {
        s
    } else if is_quote(s.last()) {
        unquoted(s.drop_last())
    } else {
        unquoted(s.drop_last()).push(s.last())
    }
}

/// The cleaned form of a user-typed path: trimmed, then stripped of quotes.
pub open spec fn cleaned(s: Seq<char>) -> Seq<char> {
    unquoted(trim_back(trim_front(s)))
}

/// The suffix that marks a sealed container.
pub open spec fn container_extension() -> Seq<char> {
    ".shh"@
}

/// `s` without the path separators at its end.
pub open spec fn without_trailing_seps(s: Seq<char>) -> Seq<char>
    decreases s.len(),
{
    if s.len() > 0 && s.last() == '/' {
        without_trailing_seps(s.drop_last())
    } else {
        s
    }
}

/// The final component of a path, as `std::path::Path::file_name` gives it;
/// `None` for a root, a prefix, or a path ending in `..`.
pub uninterp spec fn file_name_of(path: Seq<char>) -> Option<Seq<char>>;

pub open spec fn has_container_extension(s: Seq<char>) -> bool {
    s.len() >= 4 && s.subrange(s.len() - 4, s.len() as int) == container_extension()
}

pub fn is_white_space(c: char) -> (r: bool)
    ensures
        r == is_white_space_spec(c),
{
    let u = c as u32;
    (0x9 <= u && u <= 0xd) || u == 0x20 || u == 0x85 || u == 0xa0 || u == 0x1680 || (0x2000 <= u
        && u <= 0x200a) || u == 0x2028 || u == 0x2029 || u == 0x202f || u == 0x205f || u == 0x3000
}

/// Trims surrounding white space from a typed path and drops quote characters.
pub fn clean_path(raw: &str) -> (r: String)
    ensures
        r@ == cleaned(raw@),
{
    let n = raw.unicode_len();
    let mut start: usize = 0;
    assert(raw@.subrange(0, n as int) =~= raw@);
    while start < n && is_white_space(raw.get_char(start))
        invariant
            start <= n,
            n == raw@.len(),
            trim_front(raw@.subrange(start as int, n as int)) == trim_front(raw@),
        decreases n - start,
    {
        assert(raw@.subrange(start as int, n as int).drop_first() =~= raw@.subrange(
            start as int + 1,
            n as int,
        ));
        start = start + 1;
    }
    let ghost front = raw@.subrange(start as int, n as int);
    assert(trim_front(front) == front);
    let mut end: usize = n;
    while end > start && is_white_space(raw.get_char(end - 1))
        invariant
            start <= end <= n,
            n == raw@.len(),
            front == raw@.subrange(start as int, n as int),
            trim_back(raw@.subrange(start as int, end as int)) == trim_back(front),
        decreases end,
    {
        assert(raw@.subrange(start as int, end as int).drop_last() =~= raw@.subrange(
            start as int,
            end as int - 1,
        ));
        end = end - 1;
    }
    let ghost kept = raw@.subrange(start as int, end as int);
    assert(trim_back(kept) == kept);
    let mut out = String::new();
    let mut i: usize = start;
    while i < end
        invariant
            start <= i <= end <= n,
            n == raw@.len(),
            kept == raw@.subrange(start as int, end as int),
            out@ == unquoted(raw@.subrange(start as int, i as int)),
        decreases end - i,
    {
        let c = raw.get_char(i);
        assert(raw@.subrange(start as int, i as int + 1).drop_last() =~= raw@.subrange(
            start as int,
            i as int,
        ));
        if c != '\'' && c != '"' {
            out.append(raw.substring_char(i, i + 1));
            assert(raw@.subrange(i as int, i as int + 1) =~= seq![c]);
        }
        i = i + 1;
    }
    assert(raw@.subrange(start as int, i as int) == kept);
    out
}

/// True when the path names a sealed container, judged by its suffix alone.
pub fn is_container_path(p: &str) -> (r: bool)
    ensures
        r == has_container_extension(p@),
{
    let ext = ".shh";
    proof {
        reveal_strlit(".shh");
    }
    assert(ext@.len() == 4);
    let n = p.unicode_len();
    if n < 4 {
        return false;
    }
    let mut k: usize = 0;
    while k < 4
        invariant
            k <= 4 <= n,
            n == p@.len(),
            ext@ == container_extension(),
            ext@.len() == 4,
            forall|j: int| 0 <= j < k ==> p@[n - 4 + j] == ext@[j],
        decreases 4 - k,
    {
        if p.get_char(n - 4 + k) != ext.get_char(k) {
            assert(p@.subrange(n - 4, n as int)[k as int] != container_extension()[k as int]);
            return false;
        }
        k = k + 1;
    }
    assert(p@.subrange(n - 4, n as int) =~= container_extension());
    true
}

/// The name of the container that sealing `p` produces: beside the target,
/// so trailing separators are dropped first.
pub fn container_path_for(p: &str) -> (r: String)
    ensures
        r@ == without_trailing_seps(p@) + container_extension(),
{
    let mut end = p.unicode_len();
    assert(p@.subrange(0, end as int) =~= p@);
    while end > 0 && p.get_char(end - 1) == '/'
        invariant
            end <= p@.len(),
            without_trailing_seps(p@.subrange(0, end as int)) == without_trailing_seps(p@),
        decreases end,
    {
        assert(p@.subrange(0, end as int).drop_last() =~= p@.subrange(0, end as int - 1));
        end = end - 1;
    }
    String::from_str(p.substring_char(0, end)).concat(".shh")
}

/// Relies on `std::path::Path::file_name`: the final component of the path.
#[verifier::external_body]
fn final_component(path: &str) -> (r: Option<String>)
    ensures
        r matches Some(n) ==> file_name_of(path@) == Some(n@),
        r is None ==> file_name_of(path@) is None,
{
    std::path::Path::new(path).file_name().map(|n| n.to_string_lossy().into_owned())
}

/// The name the target is packed under: its final component. A path with
/// none, such as a root, is an invalid path.
pub fn archive_name(path: &str) -> (r: Result<String, VaultError>)
    ensures
        r matches Ok(n) ==> file_name_of(path@) == Some(n@),
        r is Err <==> file_name_of(path@) is None,
        r is Err ==> r matches Err(VaultError::InvalidPath),
{
    match final_component(path) {
        Some(n) => Ok(n),
        None => Err(VaultError::InvalidPath),
    }
}

/// The fixed name of the intermediate archive written beside the target.
pub fn temp_archive_name() -> (r: String)
    ensures
        r@ == ".shh_tmp.tar"@,
{
    String::from_str(".shh_tmp.tar")
}

} // verus!
