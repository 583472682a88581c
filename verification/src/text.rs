//! Text helpers: lower-casing of names and containment of one text in
//! another.

use vstd::prelude::*;

verus! {

/// The lower-case form of a text, as Unicode defines it.
pub uninterp spec fn lowercase(s: Seq<char>) -> Seq<char>;

/// Calls `str::to_lowercase`. The result is the lower-case form of the
/// argument, which this library only names: the Unicode tables behind it
/// are not restated.
#[verifier::external_body]
pub(crate) fn to_lowercase(s: &str) -> (r: String)
    ensures
        r@ == lowercase(s@),
{
    s.to_lowercase()
}

/// `needle` occurs in `hay` as a contiguous run of characters.
pub open spec fn contains(hay: Seq<char>, needle: Seq<char>) -> bool {
    exists|i: int|
        0 <= i && i + needle.len() <= hay.len() && #[trigger] hay.subrange(
            i,
            i + needle.len(),
        ) == needle
}

/// A text occurs at the end of whatever is put in front of it.
pub proof fn lemma_contains_suffix(prefix: Seq<char>, s: Seq<char>)
    ensures
        contains(prefix + s, s),
{
    let hay = prefix + s;
    let i = prefix.len() as int;
    assert(hay.subrange(i, i + s.len()) =~= s);
}

} // verus!
