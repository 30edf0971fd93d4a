use vstd::prelude::*;

use super::models::{in_range, increasing, ColorScheme, SchemeView, SortBy};
use super::order::{after, is_after, lemma_after_converse, lemma_not_after_trans, not_after, ties};

verus! {

/// The scheme at a position with the collation rank of the text it is
/// compared by.
pub open spec fn entry_at(items: Seq<ColorScheme>, ranks: Seq<u64>, pos: usize) -> (SchemeView, u64) {
    (items[pos as int]@, ranks[pos as int])
}

/// Every position of `perm` is one of `items`.
pub open spec fn positions_in(items: Seq<ColorScheme>, perm: Seq<usize>) -> bool {
    forall|i: int| 0 <= i < perm.len() ==> in_range(items, #[trigger] perm[i])
}

/// The schemes at `perm` stand in order: none after one it should precede.
pub open spec fn sorted_by(by: SortBy, items: Seq<ColorScheme>, ranks: Seq<u64>, perm: Seq<usize>) -> bool {
    forall|i: int, j: int|
        0 <= i < j < perm.len() ==> not_after(by, #[trigger] entry_at(items, ranks, perm[i]), #[trigger] entry_at(items, ranks, perm[j]))
}

/// Schemes that compare equal keep the order of their positions.
pub open spec fn stable_by(by: SortBy, items: Seq<ColorScheme>, ranks: Seq<u64>, perm: Seq<usize>) -> bool {
    forall|i: int, j: int|
        0 <= i < j < perm.len() && ties(by, #[trigger] entry_at(items, ranks, perm[i]), #[trigger] entry_at(items, ranks, perm[j]))
            ==> perm[i] < perm[j]
}

/// `perm` holds exactly the positions of `base`, each once.
pub open spec fn same_positions(perm: Seq<usize>, base: Seq<usize>) -> bool {
    &&& perm.len() == base.len()
    &&& perm.no_duplicates()
    &&& forall|x: usize| perm.contains(x) <==> base.contains(x)
}

/// The stable sort of the positions `base` by the order `by` of their schemes.
pub open spec fn is_stable_sort(
    by: SortBy,
    items: Seq<ColorScheme>,
    ranks: Seq<u64>,
    base: Seq<usize>,
    perm: Seq<usize>,
) -> bool {
    &&& same_positions(perm, base)
    &&& sorted_by(by, items, ranks, perm)
    &&& stable_by(by, items, ranks, perm)
}

/// Orders the positions `base` of `items` by `by`, keeping the order of
/// positions among schemes that compare equal (a stable sort). `ranks` gives,
/// position by position, the collation rank of the text each scheme is
/// compared by.
pub fn stable_sort_positions(items: &Vec<ColorScheme>, ranks: &Vec<u64>, base: &Vec<usize>, by: SortBy) -> (perm: Vec<usize>)
    requires
        ranks@.len() == items@.len(),
        increasing(base@),
        positions_in(items@, base@),
    ensures
        is_stable_sort(by, items@, ranks@, base@, perm@),
{
    let mut out: Vec<usize> = Vec::new();
    let n = base.len();
    let mut k: usize = 0;
    while k < n
        invariant
            n == base@.len(),
            k <= n,
            increasing(base@),
            positions_in(items@, base@),
            positions_in(items@, out@),
            out@.len() == k,
            out@.no_duplicates(),
            forall|x: usize| out@.contains(x) <==> base@.take(k as int).contains(x),
            ranks@.len() == items@.len(),
            sorted_by(by, items@, ranks@, out@),
            stable_by(by, items@, ranks@, out@),
        decreases n - k,
    {
        let e = base[k];
        assert(in_range(items@, base@[k as int]));
        let mut p: usize = out.len();
        while p > 0 && is_after(by, &items[out[p - 1]], ranks[out[p - 1]], &items[e], ranks[e])
            invariant
                ranks@.len() == items@.len(),
                p <= out@.len(),
                e < items@.len(),
                positions_in(items@, out@),
                forall|j: int| p <= j < out@.len() ==> after(by, #[trigger] entry_at(items@, ranks@, out@[j]), entry_at(items@, ranks@, e)),
            decreases p,
        {
            assert(in_range(items@, out@[p - 1]));
            p = p - 1;
        }
        let ghost old_out = out@;
        proof {
            // every position already placed comes before `e` in `base`
            assert forall|j: int| 0 <= j < old_out.len() implies #[trigger] old_out[j] < e by {
                assert(old_out.contains(old_out[j]));
                assert(base@.take(k as int).contains(old_out[j]));
                let t = choose|t: int| 0 <= t < k && base@.take(k as int)[t] == old_out[j];
                assert(base@[t] < base@[k as int]);
            }
            if p > 0 {
                assert(in_range(items@, old_out[p - 1]));
            }
        }
        out.insert(p, e);
        proof {
            let new_out = out@;
            assert(new_out =~= old_out.insert(p as int, e));
            assert forall|i: int, j: int| 0 <= i < j < new_out.len() implies
                not_after(by, #[trigger] entry_at(items@, ranks@, new_out[i]), #[trigger] entry_at(items@, ranks@, new_out[j]))
                && (ties(by, entry_at(items@, ranks@, new_out[i]), entry_at(items@, ranks@, new_out[j])) ==> new_out[i] < new_out[j]) by {
                if i < p && j == p {
                    // new_out[i] precedes old_out[p - 1], which precedes e
                    assert(!after(by, entry_at(items@, ranks@, old_out[p - 1]), entry_at(items@, ranks@, e)));
                    lemma_after_converse(by, entry_at(items@, ranks@, old_out[p - 1]), entry_at(items@, ranks@, e));
                    if i < p - 1 {
                        assert(not_after(by, entry_at(items@, ranks@, old_out[i]), entry_at(items@, ranks@, old_out[p - 1])));
                        lemma_not_after_trans(by, entry_at(items@, ranks@, old_out[i]), entry_at(items@, ranks@, old_out[p - 1]), entry_at(items@, ranks@, e));
                    }
                    assert(old_out[i] < e);
                } else if i == p {
                    assert(new_out[j] == old_out[j - 1]);
                    assert(after(by, entry_at(items@, ranks@, old_out[j - 1]), entry_at(items@, ranks@, e)));
                    lemma_after_converse(by, entry_at(items@, ranks@, old_out[j - 1]), entry_at(items@, ranks@, e));
                } else if i < p {
                    assert(new_out[i] == old_out[i]);
                    if j < p {
                        assert(new_out[j] == old_out[j]);
                    } else {
                        assert(new_out[j] == old_out[j - 1]);
                    }
                } else {
                    assert(new_out[i] == old_out[i - 1]);
                    assert(new_out[j] == old_out[j - 1]);
                }
            }
            assert(base@.take(k + 1) =~= base@.take(k as int).push(e));
            assert forall|x: usize| new_out.contains(x) <==> base@.take(k + 1).contains(x) by {
                if new_out.contains(x) {
                    let t = choose|t: int| 0 <= t < new_out.len() && new_out[t] == x;
                    if t == p {
                        assert(base@.take(k + 1)[k as int] == x);
                    } else {
                        if t < p {
                            assert(old_out[t] == x);
                        } else {
                            assert(old_out[t - 1] == x);
                        }
                        assert(old_out.contains(x));
                        assert(base@.take(k as int).contains(x));
                        let u = choose|u: int| 0 <= u < k && base@.take(k as int)[u] == x;
                        assert(base@.take(k + 1)[u] == x);
                    }
                }
                if base@.take(k + 1).contains(x) {
                    if x == e {
                        assert(new_out[p as int] == e);
                    } else {
                        assert(base@.take(k as int).contains(x));
                        assert(old_out.contains(x));
                        let t = choose|t: int| 0 <= t < old_out.len() && old_out[t] == x;
                        if t < p {
                            assert(new_out[t] == x);
                        } else {
                            assert(new_out[t + 1] == x);
                        }
                    }
                }
            }
            assert forall|a: int, b: int| 0 <= a < new_out.len() && 0 <= b < new_out.len() && a != b
                implies new_out[a] != new_out[b] by {
                if a == p {
                    if b < p { assert(old_out[b] < e); } else { assert(old_out[b - 1] < e); }
                } else if b == p {
                    if a < p { assert(old_out[a] < e); } else { assert(old_out[a - 1] < e); }
                } else {
                    let a2 = if a < p { a } else { a - 1 };
                    let b2 = if b < p { b } else { b - 1 };
                    assert(new_out[a] == old_out[a2]);
                    assert(new_out[b] == old_out[b2]);
                }
            }
            assert forall|i: int| 0 <= i < new_out.len() implies in_range(items@, #[trigger] new_out[i]) by {
                if i < p {
                    assert(new_out[i] == old_out[i]);
                } else if i > p {
                    assert(new_out[i] == old_out[i - 1]);
                }
            }
        }
        k = k + 1;
    }
    proof {
        assert(base@.take(n as int) =~= base@);
    }
    out
}

} // verus!
