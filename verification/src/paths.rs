//! Path and case helpers from the standard library that the library relies on.
use vstd::prelude::*;

verus! {

/// The extension of `path` as `std::path::Path::extension` gives it on the
/// platform the library is built for, when it is valid UTF-8.
pub uninterp spec fn path_extension(path: Seq<char>) -> Option<Seq<char>>;

/// The lower-case form of `s` as `str::to_lowercase` gives it.
pub uninterp spec fn lowercase(s: Seq<char>) -> Seq<char>;

/// The position of the last `.` of a name at or before `i`.
pub open spec fn last_dot(s: Seq<char>, i: int) -> Option<int>
    decreases i + 1,
{
    if i < 0 || i >= s.len() {
        None
    } else if s[i] == '.' {
        Some(i)
    } else {
        last_dot(s, i - 1)
    }
}

/// The extension of a file name as `Path::extension` documents it: none
/// without a `.`, none when the only `.` begins the name, else what follows
/// the last `.`.
pub open spec fn name_extension(name: Seq<char>) -> Option<Seq<char>> {
    match last_dot(name, name.len() - 1) {
        None => None,
        Some(i) => if i == 0 {
            None
        } else {
            Some(name.skip(i + 1))
        },
    }
}

/// A path of one plain component on every platform: no `/`, no `\\` (a
/// separator on Windows), no `:` (which can begin a Windows drive prefix),
/// and neither empty, `.` nor `..`; it is its own file name.
pub open spec fn is_plain_name(path: Seq<char>) -> bool {
    &&& !path.contains('/')
    &&& !path.contains('\\')
    &&& !path.contains(':')
    &&& path.len() > 0
    &&& path != seq!['.']
    &&& path != seq!['.', '.']
}

/// Calls `std::path::Path::extension` on `path` and `OsStr::to_str` on the
/// result. The contract claims that the result is a function of the path,
/// named `path_extension`, and, for a path of one plain component (its own
/// file name), the documented rule `name_extension`; of paths with
/// directories it claims nothing more.
#[verifier::external_body]
pub(crate) fn extension_of(path: &str) -> (r: Option<&str>)
    ensures
        match r {
            Some(e) => path_extension(path@) == Some(e@),
            None => path_extension(path@) is None,
        },
        is_plain_name(path@) ==> match r {
            Some(e) => name_extension(path@) == Some(e@),
            None => name_extension(path@) is None,
        },
{
    std::path::Path::new(path).extension().and_then(|e| e.to_str())
}

/// The lower-case form of an ASCII character: `A`-`Z` become `a`-`z`, every
/// other character stays.
pub open spec fn ascii_lower(c: char) -> char {
    if 'A' <= c && c <= 'Z' {
        ((c as u32) + 32) as char
    } else {
        c
    }
}

/// Calls `str::to_lowercase`. The contract claims that the result is a
/// function of the argument, named `lowercase(s)`, and that on ASCII text it
/// is the ASCII lower case (the Unicode lower-case mapping of an ASCII
/// character is its ASCII one); of other text it claims nothing more.
#[verifier::external_body]
pub(crate) fn to_lowercase(s: &str) -> (r: String)
    ensures
        r@ == lowercase(s@),
        (forall|i: int| 0 <= i < s@.len() ==> (s@[i] as u32) < 128) ==> r@ == s@.map_values(
            |c: char| ascii_lower(c),
        ),
{
    s.to_lowercase()
}

/// The lower-cased extension of `path`, or the empty text when it has none
/// (`extension().and_then(to_str).unwrap_or("").to_lowercase()`).
pub open spec fn lower_extension(path: Seq<char>) -> Seq<char> {
    match path_extension(path) {
        Some(e) => lowercase(e),
        None => Seq::empty(),
    }
}

/// The lower-cased extension of `path`, or the empty text when it has none.
pub fn lower_extension_of(path: &str) -> (r: String)
    ensures
        r@ == lower_extension(path@),
        match path_extension(path@) {
            Some(e) => (forall|i: int| 0 <= i < e.len() ==> (e[i] as u32) < 128) ==> r@
                == e.map_values(|c: char| ascii_lower(c)),
            None => r@ == Seq::<char>::empty(),
        },
{
    match extension_of(path) {
        Some(e) => to_lowercase(e),
        None => String::new(),
    }
}

} // verus!
