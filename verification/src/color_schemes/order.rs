use std::cmp::Ordering;
use vstd::prelude::*;

use super::models::{ColorScheme, SchemeView, SortBy};

verus! {

/// The order of two ranks.
pub open spec fn rank_cmp(a: u64, b: u64) -> Ordering {
    if a < b {
        Ordering::Less
    } else if b < a {
        Ordering::Greater
    } else {
        Ordering::Equal
    }
}

/// The order with its two sides exchanged.
pub open spec fn flip(o: Ordering) -> Ordering {
    match o {
        Ordering::Less => Ordering::Greater,
        Ordering::Equal => Ordering::Equal,
        Ordering::Greater => Ordering::Less,
    }
}

/// Present values first, larger first; absent values last.
pub open spec fn present_desc_order(a: Option<int>, b: Option<int>) -> Ordering {
    match (a, b) {
        (None, None) => Ordering::Equal,
        (None, Some(_)) => Ordering::Greater,
        (Some(_), None) => Ordering::Less,
        (Some(x), Some(y)) => if y < x {
            Ordering::Less
        } else if x < y {
            Ordering::Greater
        } else {
            Ordering::Equal
        },
    }
}

pub open spec fn opt_u64(o: Option<u64>) -> Option<int> {
    match o {
        Some(v) => Some(v as int),
        None => None,
    }
}

pub open spec fn opt_i64(o: Option<i64>) -> Option<int> {
    match o {
        Some(v) => Some(v as int),
        None => None,
    }
}

/// How two schemes compare under a sort order, given `collated`, how the
/// desktop's collator orders their names (by name) or their authors (by
/// author, when both have one): by downloads, most first; by last update,
/// newest first; schemes that lack the compared value come last.
pub open spec fn scheme_cmp(by: SortBy, a: SchemeView, b: SchemeView, collated: Ordering) -> Ordering {
    match by {
        SortBy::Az => collated,
        SortBy::MostDownloaded => present_desc_order(opt_u64(a.downloads), opt_u64(b.downloads)),
        SortBy::LastModified => present_desc_order(opt_i64(a.updated), opt_i64(b.updated)),
        SortBy::Author => match (a.author, b.author) {
            (None, None) => Ordering::Equal,
            (None, Some(_)) => Ordering::Greater,
            (Some(_), None) => Ordering::Less,
            (Some(_), Some(_)) => collated,
        },
    }
}

/// How two ranked schemes compare: each scheme comes with the rank that the
/// desktop's collator gives the text it is compared by (its name, or its
/// author), so that the collator orders two such texts as their ranks.
pub open spec fn scheme_order(by: SortBy, a: (SchemeView, u64), b: (SchemeView, u64)) -> Ordering {
    scheme_cmp(by, a.0, b.0, rank_cmp(a.1, b.1))
}

/// `a` may stand before `b`.
pub open spec fn not_after(by: SortBy, a: (SchemeView, u64), b: (SchemeView, u64)) -> bool {
    scheme_order(by, a, b) != Ordering::Greater
}

/// The order of two ranks.
pub fn rank_order(a: u64, b: u64) -> (o: Ordering)
    ensures
        o == rank_cmp(a, b),
{
    if a < b {
        Ordering::Less
    } else if b < a {
        Ordering::Greater
    } else {
        Ordering::Equal
    }
}

fn present_desc_u64(a: Option<u64>, b: Option<u64>) -> (o: Ordering)
    ensures
        o == present_desc_order(opt_u64(a), opt_u64(b)),
{
    match (a, b) {
        (None, None) => Ordering::Equal,
        (None, Some(_)) => Ordering::Greater,
        (Some(_), None) => Ordering::Less,
        (Some(x), Some(y)) => if y < x {
            Ordering::Less
        } else if x < y {
            Ordering::Greater
        } else {
            Ordering::Equal
        },
    }
}

fn present_desc_i64(a: Option<i64>, b: Option<i64>) -> (o: Ordering)
    ensures
        o == present_desc_order(opt_i64(a), opt_i64(b)),
{
    match (a, b) {
        (None, None) => Ordering::Equal,
        (None, Some(_)) => Ordering::Greater,
        (Some(_), None) => Ordering::Less,
        (Some(x), Some(y)) => if y < x {
            Ordering::Less
        } else if x < y {
            Ordering::Greater
        } else {
            Ordering::Equal
        },
    }
}

impl SortBy {
    /// Compares two schemes, given `collated`, how the desktop's collator
    /// orders their names (by name) or their authors (by author): by name or
    /// author as collated; by downloads, most first; by last update, newest
    /// first. Schemes that lack the compared value come last.
    pub fn compare(&self, a: &ColorScheme, b: &ColorScheme, collated: Ordering) -> (o: Ordering)
        ensures
            o == scheme_cmp(*self, a@, b@, collated),
    {
        match self {
            SortBy::Az => collated,
            SortBy::MostDownloaded => present_desc_u64(a.downloads, b.downloads),
            SortBy::LastModified => present_desc_i64(a.updated, b.updated),
            SortBy::Author => match (&a.author, &b.author) {
                (None, None) => Ordering::Equal,
                (None, Some(_)) => Ordering::Greater,
                (Some(_), None) => Ordering::Less,
                (Some(_), Some(_)) => collated,
            },
        }
    }
}

/// A collator's answers on three texts that order them consistently: the
/// answer for `a` and `c` does not put `c` first when the two others do not,
/// and puts `a` first when one of the others does.
pub open spec fn consistent(ab: Ordering, bc: Ordering, ac: Ordering) -> bool {
    ab != Ordering::Greater && bc != Ordering::Greater ==> {
        &&& ac != Ordering::Greater
        &&& (ab == Ordering::Less || bc == Ordering::Less ==> ac == Ordering::Less)
    }
}

/// Exchanging the schemes, and the collator's answer with them, exchanges
/// the result.
pub proof fn lemma_scheme_cmp_flip(by: SortBy, a: SchemeView, b: SchemeView, collated: Ordering)
    ensures
        scheme_cmp(by, b, a, flip(collated)) == flip(scheme_cmp(by, a, b, collated)),
{
}

/// The comparison is transitive, and strict when one step is strict, when
/// the collator's answers on the three schemes are consistent.
pub proof fn lemma_scheme_cmp_trans(
    by: SortBy,
    a: SchemeView,
    b: SchemeView,
    c: SchemeView,
    ab: Ordering,
    bc: Ordering,
    ac: Ordering,
)
    requires
        consistent(ab, bc, ac),
        scheme_cmp(by, a, b, ab) != Ordering::Greater,
        scheme_cmp(by, b, c, bc) != Ordering::Greater,
    ensures
        scheme_cmp(by, a, c, ac) != Ordering::Greater,
        scheme_cmp(by, a, b, ab) == Ordering::Less || scheme_cmp(by, b, c, bc) == Ordering::Less
            ==> scheme_cmp(by, a, c, ac) == Ordering::Less,
{
}

/// Ranked order is antisymmetric.
pub proof fn lemma_scheme_order_flip(by: SortBy, a: (SchemeView, u64), b: (SchemeView, u64))
    ensures
        scheme_order(by, b, a) == flip(scheme_order(by, a, b)),
{
    lemma_scheme_cmp_flip(by, a.0, b.0, rank_cmp(a.1, b.1));
}

/// "May stand before" is transitive, and strict when one step is strict.
pub proof fn lemma_scheme_order_trans(by: SortBy, a: (SchemeView, u64), b: (SchemeView, u64), c: (SchemeView, u64))
    requires
        not_after(by, a, b),
        not_after(by, b, c),
    ensures
        not_after(by, a, c),
        scheme_order(by, a, b) == Ordering::Less || scheme_order(by, b, c) == Ordering::Less
            ==> scheme_order(by, a, c) == Ordering::Less,
{
    lemma_scheme_cmp_trans(by, a.0, b.0, c.0, rank_cmp(a.1, b.1), rank_cmp(b.1, c.1), rank_cmp(a.1, c.1));
}

} // verus!

verus! {

/// `a` must stand after `b`.
pub open spec fn after(by: SortBy, a: (SchemeView, u64), b: (SchemeView, u64)) -> bool {
    scheme_order(by, a, b) == Ordering::Greater
}

/// `a` and `b` compare equal.
pub open spec fn ties(by: SortBy, a: (SchemeView, u64), b: (SchemeView, u64)) -> bool {
    scheme_order(by, a, b) == Ordering::Equal
}

/// Whether `a`, of collation rank `ra`, must stand after `b`, of rank `rb`.
pub fn is_after(by: SortBy, a: &ColorScheme, ra: u64, b: &ColorScheme, rb: u64) -> (r: bool)
    ensures
        r == after(by, (a@, ra), (b@, rb)),
{
    match by.compare(a, b, rank_order(ra, rb)) {
        Ordering::Greater => true,
        _ => false,
    }
}

/// Standing after is the converse of standing strictly before, and ties are symmetric.
pub proof fn lemma_after_converse(by: SortBy, a: (SchemeView, u64), b: (SchemeView, u64))
    ensures
        after(by, a, b) <==> (not_after(by, b, a) && !ties(by, b, a)),
        ties(by, a, b) <==> ties(by, b, a),
        not_after(by, a, b) || not_after(by, b, a),
{
    lemma_scheme_order_flip(by, a, b);
}

/// "May stand before" is transitive.
pub proof fn lemma_not_after_trans(by: SortBy, a: (SchemeView, u64), b: (SchemeView, u64), c: (SchemeView, u64))
    requires
        not_after(by, a, b),
        not_after(by, b, c),
    ensures
        not_after(by, a, c),
{
    lemma_scheme_order_trans(by, a, b, c);
}

} // verus!
