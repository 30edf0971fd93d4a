use vstd::prelude::*;

use super::models::{ColorScheme, SchemeView};
use crate::strings::same_text;

verus! {

/// The schemes of `s` whose name is not `name`, in order.
pub open spec fn without_name(s: Seq<SchemeView>, name: Seq<char>) -> Seq<SchemeView>
    decreases s.len(),
{
    if s.len() == 0 {
        s
    } else if s.last().name == name {
        without_name(s.drop_last(), name)
    } else {
        without_name(s.drop_last(), name).push(s.last())
    }
}

/// `s` with `c` stored under its name: any scheme of that name is replaced,
/// and `c` comes last.
pub open spec fn with_named(s: Seq<SchemeView>, c: SchemeView) -> Seq<SchemeView> {
    without_name(s, c.name).push(c)
}

/// No two schemes of `s` share a name.
pub open spec fn distinct_names(s: Seq<SchemeView>) -> bool {
    forall|i: int, j: int| 0 <= i < j < s.len() ==> s[i].name != s[j].name
}

/// Some scheme of `s` is called `name`.
pub open spec fn has_name(s: Seq<SchemeView>, name: Seq<char>) -> bool {
    exists|i: int| 0 <= i < s.len() && s[i].name == name
}

/// What is left after removing a name holds only other names, each from `s`,
/// and keeps distinct names distinct.
pub proof fn lemma_without_name(s: Seq<SchemeView>, name: Seq<char>)
    ensures
        forall|i: int| 0 <= i < without_name(s, name).len() ==> (#[trigger] without_name(s, name)[i]).name != name,
        forall|i: int| 0 <= i < without_name(s, name).len() ==> s.contains(#[trigger] without_name(s, name)[i]),
        forall|i: int| 0 <= i < s.len() && s[i].name != name ==> without_name(s, name).contains(#[trigger] s[i]),
        without_name(s, name).len() <= s.len(),
        !has_name(s, name) ==> without_name(s, name) == s,
        distinct_names(s) ==> distinct_names(without_name(s, name)),
    decreases s.len(),
{
    if s.len() > 0 {
        let t = s.drop_last();
        lemma_without_name(t, name);
        let w = without_name(t, name);
        assert forall|i: int| 0 <= i < t.len() implies s.contains(#[trigger] t[i]) by {
            assert(s[i] == t[i]);
        }
        assert(s.contains(s.last())) by {
            assert(s[s.len() - 1] == s.last());
        }
        assert forall|i: int| 0 <= i < s.len() && s[i].name != name implies without_name(s, name).contains(#[trigger] s[i]) by {
            if i < s.len() - 1 {
                assert(t[i] == s[i]);
                assert(w.contains(t[i]));
                let k = choose|k: int| 0 <= k < w.len() && w[k] == t[i];
                if s.last().name != name {
                    assert(without_name(s, name)[k] == s[i]);
                }
            } else {
                let ws = without_name(s, name);
                assert(ws[ws.len() - 1] == s[i]);
            }
        }
        if !has_name(s, name) {
            assert(!has_name(t, name)) by {
                if has_name(t, name) {
                    let i = choose|i: int| 0 <= i < t.len() && t[i].name == name;
                    assert(s[i] == t[i]);
                }
            }
            assert(s.last().name != name) by {
                assert(s[s.len() - 1] == s.last());
            }
            assert(s =~= t.push(s.last()));
        }
        if distinct_names(s) {
            assert(distinct_names(t)) by {
                assert forall|i: int, j: int| 0 <= i < j < t.len() implies t[i].name != t[j].name by {
                    assert(t[i] == s[i]);
                    assert(t[j] == s[j]);
                }
            }
            if s.last().name != name {
                let ws = w.push(s.last());
                assert forall|i: int, j: int| 0 <= i < j < ws.len() implies ws[i].name != ws[j].name by {
                    if j == ws.len() - 1 {
                        assert(ws[i] == w[i]);
                        assert(t.contains(w[i]));
                        let k = choose|k: int| 0 <= k < t.len() && t[k] == w[i];
                        assert(s[k] == t[k]);
                        assert(s[s.len() - 1] == s.last());
                    } else {
                        assert(ws[i] == w[i]);
                        assert(ws[j] == w[j]);
                    }
                }
            }
        }
    }
}

/// Storing a scheme under its name keeps names distinct and makes the name present.
pub proof fn lemma_with_named(s: Seq<SchemeView>, c: SchemeView)
    requires
        distinct_names(s),
    ensures
        distinct_names(with_named(s, c)),
        has_name(with_named(s, c), c.name),
{
    lemma_without_name(s, c.name);
    let w = without_name(s, c.name);
    let ws = w.push(c);
    assert forall|i: int, j: int| 0 <= i < j < ws.len() implies ws[i].name != ws[j].name by {
        if j == ws.len() - 1 {
            assert(ws[i] == w[i]);
        } else {
            assert(ws[i] == w[i]);
            assert(ws[j] == w[j]);
        }
    }
    assert(ws[ws.len() - 1] == c);
}

/// The views of a vector of schemes.
pub open spec fn views_of(v: Seq<ColorScheme>) -> Seq<SchemeView> {
    Seq::new(v.len(), |i: int| v[i]@)
}

/// Copies of the schemes of `v` that are not called `name`, in order.
pub fn without_named(v: &Vec<ColorScheme>, name: &str) -> (r: Vec<ColorScheme>)
    ensures
        views_of(r@) == without_name(views_of(v@), name@),
{
    let mut out: Vec<ColorScheme> = Vec::new();
    let ghost all = views_of(v@);
    let n = v.len();
    let mut k: usize = 0;
    proof {
        assert(views_of(out@) =~= without_name(all.take(0), name@));
    }
    while k < n
        invariant
            n == all.len(),
            n == v@.len(),
            all == views_of(v@),
            k <= n,
            views_of(out@) == without_name(all.take(k as int), name@),
        decreases n - k,
    {
        let keep = !same_text(v[k].name.as_str(), name);
        assert(all.take(k + 1).drop_last() =~= all.take(k as int));
        assert(all.take(k + 1).last() == all[k as int]);
        if keep {
            let c = v[k].clone();
            out.push(c);
            assert(views_of(out@) =~= views_of(out@).drop_last().push(c@));
            assert(views_of(out@).drop_last() =~= without_name(all.take(k as int), name@));
        }
        k = k + 1;
    }
    proof {
        assert(all.take(n as int) =~= all);
    }
    out
}

} // verus!
