use vstd::prelude::*;

verus! {

/// `perm` holds each position of `0..n` once.
pub open spec fn permutes(perm: Seq<usize>, n: nat) -> bool {
    &&& perm.len() == n
    &&& perm.no_duplicates()
    &&& forall|i: int| 0 <= i < perm.len() ==> #[trigger] perm[i] < n
}

/// The keys at `perm` do not increase, and equal keys keep the order of
/// their positions: `perm` is the stable sort of the positions by key,
/// largest first.
pub open spec fn sorted_desc_stable(keys: Seq<i64>, perm: Seq<usize>) -> bool {
    &&& forall|i: int, j: int| 0 <= i < j < perm.len() ==> keys[#[trigger] perm[i] as int] >= keys[#[trigger] perm[j] as int]
    &&& forall|i: int, j: int| 0 <= i < j < perm.len() && keys[#[trigger] perm[i] as int] == keys[#[trigger] perm[j] as int]
        ==> perm[i] < perm[j]
}

/// The positions of `keys`, ordered by key, largest first; positions with
/// equal keys keep their order (a stable sort).
pub fn stable_sort_desc(keys: &Vec<i64>) -> (perm: Vec<usize>)
    ensures
        permutes(perm@, keys@.len()),
        sorted_desc_stable(keys@, perm@),
{
    let n = keys.len();
    let mut out: Vec<usize> = Vec::new();
    let mut k: usize = 0;
    while k < n
        invariant
            n == keys@.len(),
            k <= n,
            out@.len() == k,
            out@.no_duplicates(),
            forall|i: int| 0 <= i < out@.len() ==> #[trigger] out@[i] < k,
            sorted_desc_stable(keys@, out@),
        decreases n - k,
    {
        let e = k;
        let mut p: usize = out.len();
        while p > 0 && keys[out[p - 1]] < keys[e]
            invariant
                p <= out@.len(),
                e < n,
                n == keys@.len(),
                forall|i: int| 0 <= i < out@.len() ==> #[trigger] out@[i] < e,
                forall|j: int| p <= j < out@.len() ==> keys[#[trigger] out@[j] as int] < keys[e as int],
            decreases p,
        {
            p = p - 1;
        }
        let ghost old_out = out@;
        out.insert(p, e);
        proof {
            let s = out@;
            assert(s =~= old_out.insert(p as int, e));
            assert forall|i: int, j: int| 0 <= i < j < s.len() implies keys[#[trigger] s[i] as int] >= keys[#[trigger] s[j] as int]
                && (keys[s[i] as int] == keys[s[j] as int] ==> s[i] < s[j]) by {
                if i < p && j == p {
                    assert(s[i] == old_out[i]);
                    assert(keys[old_out[p - 1] as int] >= keys[e as int]);
                    if i < p - 1 {
                        assert(keys[old_out[i] as int] >= keys[old_out[p - 1] as int]);
                    }
                    assert(old_out[i] < e);
                } else if i == p {
                    assert(s[j] == old_out[j - 1]);
                } else if i < p {
                    assert(s[i] == old_out[i]);
                    if j < p { assert(s[j] == old_out[j]); } else { assert(s[j] == old_out[j - 1]); }
                } else {
                    assert(s[i] == old_out[i - 1]);
                    assert(s[j] == old_out[j - 1]);
                }
            }
            assert forall|a: int, b: int| 0 <= a < s.len() && 0 <= b < s.len() && a != b implies s[a] != s[b] by {
                if a == p {
                    if b < p { assert(old_out[b] < e); } else { assert(old_out[b - 1] < e); }
                } else if b == p {
                    if a < p { assert(old_out[a] < e); } else { assert(old_out[a - 1] < e); }
                } else {
                    let a2 = if a < p { a } else { a - 1 };
                    let b2 = if b < p { b } else { b - 1 };
                    assert(s[a] == old_out[a2]);
                    assert(s[b] == old_out[b2]);
                }
            }
            assert forall|i: int| 0 <= i < s.len() implies #[trigger] s[i] < k + 1 by {
                if i < p { assert(s[i] == old_out[i]); } else if i > p { assert(s[i] == old_out[i - 1]); }
            }
        }
        k = k + 1;
    }
    out
}

} // verus!
