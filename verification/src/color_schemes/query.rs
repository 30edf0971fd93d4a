use nucleo::pattern::{Atom, AtomKind, CaseMatching, Normalization};
use vstd::prelude::*;

verus! {

/// The character positions of `name` that the search text `query` matches,
/// as `nucleo` reports them for a substring atom with smart case and smart
/// normalization; empty when it does not match.
pub uninterp spec fn substring_match_indices(query: Seq<char>, name: Seq<char>) -> Seq<u32>;

/// Calls `nucleo::pattern::Atom::new(query, CaseMatching::Smart,
/// Normalization::Smart, AtomKind::Substring, true)` and its `indices` on
/// `name` with a matcher of the default configuration. The contract claims only
/// that the positions depend on the two texts alone.
#[verifier::external_body]
pub(crate) fn match_indices(query: &str, name: &str) -> (r: Vec<u32>)
    ensures
        r@ == substring_match_indices(query@, name@),
{
    let atom = Atom::new(query, CaseMatching::Smart, Normalization::Smart, AtomKind::Substring, true);
    let mut matcher = nucleo::Matcher::new(nucleo::Config::DEFAULT);
    let mut buf = Vec::new();
    let mut indices = Vec::new();
    let _score = atom.indices(nucleo::Utf32Str::new(name, &mut buf), &mut matcher, &mut indices);
    indices
}

/// A scheme called `name` is shown for the search text `query`: an empty
/// search shows everything, otherwise the search must match part of the name.
pub open spec fn shown_for(query: Seq<char>, name: Seq<char>) -> bool {
    query.len() == 0 || substring_match_indices(query, name).len() > 0
}

/// Whether a scheme called `name` is shown for the search text `query`.
pub fn is_shown_for(query: &str, name: &str) -> (r: bool)
    ensures
        r == shown_for(query@, name@),
{
    if query.unicode_len() == 0 {
        true
    } else {
        match_indices(query, name).len() > 0
    }
}

} // verus!
