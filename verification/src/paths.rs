//! File-system paths as text.
//!
//! Paths are carried as strings. They are put together by the standard
//! library, so that the result is what the platform's own path handling
//! produces; the library gives that result a name and reasons about it only
//! through the name.

use vstd::prelude::*;

verus! {

/// The text of `std::path::Path::new(base).join(part)`, on the platform the
/// crate is built for.
pub uninterp spec fn joined(base: Seq<char>, part: Seq<char>) -> Seq<char>;

/// Calls `std::path::Path::join` on `base` with `part` and hands the result
/// back as text. The result is named, not described: `joined` is whatever
/// the standard library computes from the two texts. Both arguments are
/// valid UTF-8, so the conversion back to text loses nothing.
#[verifier::external_body]
pub(crate) fn join(base: &str, part: &str) -> (path: String)
    ensures
        path@ == joined(base@, part@),
{
    std::path::Path::new(base).join(part).to_string_lossy().into_owned()
}

/// `first` and then `second` adjoined to `base`.
pub open spec fn joined2(base: Seq<char>, first: Seq<char>, second: Seq<char>) -> Seq<char> {
    joined(joined(base, first), second)
}

/// `first` and then `second` adjoined to `base`.
pub fn join2(base: &str, first: &str, second: &str) -> (path: String)
    ensures
        path@ == joined2(base@, first@, second@),
{
    let inner = join(base, first);
    join(inner.as_str(), second)
}

/// Every component of `parts`, in order, adjoined to `base`.
pub open spec fn joined_all(base: Seq<char>, parts: Seq<Seq<char>>) -> Seq<char>
    decreases parts.len(),
{
    if parts.len() == 0 {
        base
    } else {
        joined(joined_all(base, parts.drop_last()), parts.last())
    }
}

/// The text of an optional string.
pub open spec fn opt_text(s: Option<String>) -> Option<Seq<char>> {
    match s {
        Some(t) => Some(t@),
        None => None,
    }
}

/// A copy of an optional string.
pub fn duplicate_opt(s: &Option<String>) -> (copy: Option<String>)
    ensures
        opt_text(copy) == opt_text(*s),
{
    match s {
        Some(t) => Some(t.clone()),
        None => None,
    }
}

/// The texts of a sequence of strings.
pub open spec fn texts(strings: Seq<String>) -> Seq<Seq<char>> {
    strings.map_values(|s: String| s@)
}

/// Every component of `parts`, in order, adjoined to `base`.
pub fn join_all(base: &str, parts: &Vec<String>) -> (path: String)
    ensures
        path@ == joined_all(base@, texts(parts@)),
{
    let mut path = base.to_owned();
    let mut i: usize = 0;
    while i < parts.len()
        invariant
            i <= parts.len(),
            path@ == joined_all(base@, texts(parts@).take(i as int)),
        decreases parts.len() - i,
    {
        proof {
            let next = texts(parts@).take(i + 1);
            assert(next.drop_last() =~= texts(parts@).take(i as int));
            assert(next.last() == parts@[i as int]@);
        }
        path = join(path.as_str(), parts[i].as_str());
        i += 1;
    }
    proof {
        assert(texts(parts@).take(parts.len() as int) =~= texts(parts@));
    }
    path
}

} // verus!
