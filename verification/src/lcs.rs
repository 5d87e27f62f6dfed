//! Longest common subsequence of two word sequences, computed by dynamic
//! programming and backtracking, with its mathematical characterisation.

use vstd::prelude::*;
use crate::text::str_eq;

verus! {

/// The length of a longest common subsequence of `a` and `b`, by the usual
/// recurrence on the last elements.
pub open spec fn lcs_len<A>(a: Seq<A>, b: Seq<A>) -> nat
    decreases a.len(), b.len(),
{
    if a.len() == 0 || b.len() == 0 {
        0
    } else if a.last() == b.last() {
        lcs_len(a.drop_last(), b.drop_last()) + 1
    } else {
        let x = lcs_len(a.drop_last(), b);
        let y = lcs_len(a, b.drop_last());
        if x >= y {
            x
        } else {
            y
        }
    }
}

/// The common subsequence that backtracking through the table of `lcs_len`
/// from the bottom-right corner yields: on equal last elements take the element,
/// otherwise drop the last element of `a` when that keeps a strictly longer
/// subsequence, else drop the last element of `b`.
pub open spec fn lcs_seq<A>(a: Seq<A>, b: Seq<A>) -> Seq<A>
    decreases a.len(), b.len(),
{
    if a.len() == 0 || b.len() == 0 {
        seq![]
    } else if a.last() == b.last() {
        lcs_seq(a.drop_last(), b.drop_last()).push(a.last())
    } else if lcs_len(a.drop_last(), b) > lcs_len(a, b.drop_last()) {
        lcs_seq(a.drop_last(), b)
    } else {
        lcs_seq(a, b.drop_last())
    }
}

/// `idx` picks, in strictly increasing positions of `a`, the elements of `c`.
pub open spec fn embeds<A>(idx: Seq<int>, c: Seq<A>, a: Seq<A>) -> bool {
    &&& idx.len() == c.len()
    &&& forall|k: int| 0 <= k < idx.len() ==> 0 <= #[trigger] idx[k] < a.len() && a[idx[k]] == c[k]
    &&& forall|k: int, l: int| 0 <= k < l < idx.len() ==> #[trigger] idx[k] < #[trigger] idx[l]
}

/// `c` is a subsequence of `a`.
pub open spec fn is_subsequence<A>(c: Seq<A>, a: Seq<A>) -> bool {
    exists|idx: Seq<int>| embeds(idx, c, a)
}

/// The views of a sequence of string slices.
pub open spec fn strs_view(v: Seq<&str>) -> Seq<Seq<char>> {
    v.map_values(|s: &str| s@)
}

/// A longest common subsequence is no longer than either sequence.
pub proof fn lemma_lcs_len_bound<A>(a: Seq<A>, b: Seq<A>)
    ensures
        lcs_len(a, b) <= a.len(),
        lcs_len(a, b) <= b.len(),
    decreases a.len(), b.len(),
{
    if a.len() == 0 || b.len() == 0 {
    } else if a.last() == b.last() {
        lemma_lcs_len_bound(a.drop_last(), b.drop_last());
    } else {
        lemma_lcs_len_bound(a.drop_last(), b);
        lemma_lcs_len_bound(a, b.drop_last());
    }
}

/// Dropping the last element of one sequence lowers the LCS length by at most one.
pub proof fn lemma_lcs_len_drop<A>(a: Seq<A>, b: Seq<A>)
    ensures
        a.len() > 0 ==> lcs_len(a.drop_last(), b) <= lcs_len(a, b) <= lcs_len(a.drop_last(), b)
            + 1,
        b.len() > 0 ==> lcs_len(a, b.drop_last()) <= lcs_len(a, b) <= lcs_len(a, b.drop_last())
            + 1,
    decreases a.len() + b.len(),
{
    if a.len() == 0 || b.len() == 0 {
        if a.len() > 0 {
            assert(lcs_len(a.drop_last(), b) == 0);
        }
        if b.len() > 0 {
            assert(lcs_len(a, b.drop_last()) == 0);
        }
    } else {
        lemma_lcs_len_drop(a.drop_last(), b);
        lemma_lcs_len_drop(a, b.drop_last());
        let a1 = a.drop_last();
        let b1 = b.drop_last();
        if a1.len() == 0 {
            assert(lcs_len(a1, b) == 0);
            assert(lcs_len(a1, b1) == 0);
        }
        if b1.len() == 0 {
            assert(lcs_len(a, b1) == 0);
            assert(lcs_len(a1, b1) == 0);
        }
        assert(a1.drop_last() =~= a.drop_last().drop_last());
    }
}

/// The backtracked subsequence has the length given by the recurrence.
pub proof fn lemma_lcs_seq_len<A>(a: Seq<A>, b: Seq<A>)
    ensures
        lcs_seq(a, b).len() == lcs_len(a, b),
    decreases a.len(), b.len(),
{
    if a.len() == 0 || b.len() == 0 {
    } else if a.last() == b.last() {
        lemma_lcs_seq_len(a.drop_last(), b.drop_last());
    } else {
        lemma_lcs_seq_len(a.drop_last(), b);
        lemma_lcs_seq_len(a, b.drop_last());
    }
}

proof fn lemma_embeds_extend<A>(idx: Seq<int>, c: Seq<A>, a: Seq<A>)
    requires
        a.len() > 0,
        embeds(idx, c, a.drop_last()),
    ensures
        embeds(idx, c, a),
{
}

/// A witness that the backtracked subsequence is a subsequence of `a`.
pub proof fn lemma_lcs_seq_in_first<A>(a: Seq<A>, b: Seq<A>) -> (idx: Seq<int>)
    ensures
        embeds(idx, lcs_seq(a, b), a),
    decreases a.len(), b.len(),
{
    if a.len() == 0 || b.len() == 0 {
        Seq::empty()
    } else if a.last() == b.last() {
        let prev = lemma_lcs_seq_in_first(a.drop_last(), b.drop_last());
        let idx = prev.push(a.len() - 1);
        assert(embeds(idx, lcs_seq(a, b), a)) by {
            let c = lcs_seq(a, b);
            assert(c == lcs_seq(a.drop_last(), b.drop_last()).push(a.last()));
            assert forall|k: int| 0 <= k < idx.len() implies 0 <= #[trigger] idx[k] < a.len()
                && a[idx[k]] == c[k] by {
                if k < prev.len() {
                    assert(idx[k] == prev[k]);
                }
            }
        }
        idx
    } else if lcs_len(a.drop_last(), b) > lcs_len(a, b.drop_last()) {
        let idx = lemma_lcs_seq_in_first(a.drop_last(), b);
        lemma_embeds_extend(idx, lcs_seq(a.drop_last(), b), a);
        idx
    } else {
        lemma_lcs_seq_in_first(a, b.drop_last())
    }
}

/// A witness that the backtracked subsequence is a subsequence of `b`.
pub proof fn lemma_lcs_seq_in_second<A>(a: Seq<A>, b: Seq<A>) -> (idx: Seq<int>)
    ensures
        embeds(idx, lcs_seq(a, b), b),
    decreases a.len(), b.len(),
{
    if a.len() == 0 || b.len() == 0 {
        Seq::empty()
    } else if a.last() == b.last() {
        let prev = lemma_lcs_seq_in_second(a.drop_last(), b.drop_last());
        let idx = prev.push(b.len() - 1);
        assert(embeds(idx, lcs_seq(a, b), b)) by {
            let c = lcs_seq(a, b);
            assert(c == lcs_seq(a.drop_last(), b.drop_last()).push(a.last()));
            assert forall|k: int| 0 <= k < idx.len() implies 0 <= #[trigger] idx[k] < b.len()
                && b[idx[k]] == c[k] by {
                if k < prev.len() {
                    assert(idx[k] == prev[k]);
                }
            }
        }
        idx
    } else if lcs_len(a.drop_last(), b) > lcs_len(a, b.drop_last()) {
        lemma_lcs_seq_in_second(a.drop_last(), b)
    } else {
        let idx = lemma_lcs_seq_in_second(a, b.drop_last());
        lemma_embeds_extend(idx, lcs_seq(a, b.drop_last()), b);
        idx
    }
}

/// Every common subsequence of `a` and `b` is at most `lcs_len(a, b)` long.
pub proof fn lemma_common_subsequence_bound<A>(
    c: Seq<A>,
    a: Seq<A>,
    b: Seq<A>,
    ia: Seq<int>,
    ib: Seq<int>,
)
    requires
        embeds(ia, c, a),
        embeds(ib, c, b),
    ensures
        c.len() <= lcs_len(a, b),
    decreases a.len() + b.len(),
{
    if c.len() == 0 {
    } else {
        let p = ia.last();
        let q = ib.last();
        assert(0 <= p < a.len() && 0 <= q < b.len()) by {
            assert(ia[ia.len() - 1] == p);
            assert(ib[ib.len() - 1] == q);
        }
        lemma_lcs_len_drop(a, b);
        if p < a.len() - 1 {
            assert(embeds(ia, c, a.drop_last())) by {
                assert forall|k: int| 0 <= k < ia.len() implies #[trigger] ia[k] < a.len() - 1 by {
                    if k < ia.len() - 1 {
                        assert(ia[k] < ia[ia.len() - 1]);
                    }
                }
            }
            lemma_common_subsequence_bound(c, a.drop_last(), b, ia, ib);
        } else if q < b.len() - 1 {
            assert(embeds(ib, c, b.drop_last())) by {
                assert forall|k: int| 0 <= k < ib.len() implies #[trigger] ib[k] < b.len() - 1 by {
                    if k < ib.len() - 1 {
                        assert(ib[k] < ib[ib.len() - 1]);
                    }
                }
            }
            lemma_common_subsequence_bound(c, a, b.drop_last(), ia, ib);
        } else {
            assert(a.last() == c.last()) by {
                assert(a[ia[ia.len() - 1]] == c[c.len() - 1]);
            }
            assert(b.last() == c.last()) by {
                assert(b[ib[ib.len() - 1]] == c[c.len() - 1]);
            }
            let c1 = c.drop_last();
            let ia1 = ia.drop_last();
            let ib1 = ib.drop_last();
            assert(embeds(ia1, c1, a.drop_last())) by {
                assert forall|k: int| 0 <= k < ia1.len() implies 0 <= #[trigger] ia1[k] < a.len()
                    - 1 && a.drop_last()[ia1[k]] == c1[k] by {
                    assert(ia[k] < ia[ia.len() - 1]);
                    assert(ia1[k] == ia[k]);
                }
                assert forall|k: int, l: int| 0 <= k < l < ia1.len() implies #[trigger] ia1[k]
                    < #[trigger] ia1[l] by {
                    assert(ia[k] < ia[l]);
                }
            }
            assert(embeds(ib1, c1, b.drop_last())) by {
                assert forall|k: int| 0 <= k < ib1.len() implies 0 <= #[trigger] ib1[k] < b.len()
                    - 1 && b.drop_last()[ib1[k]] == c1[k] by {
                    assert(ib[k] < ib[ib.len() - 1]);
                    assert(ib1[k] == ib[k]);
                }
                assert forall|k: int, l: int| 0 <= k < l < ib1.len() implies #[trigger] ib1[k]
                    < #[trigger] ib1[l] by {
                    assert(ib[k] < ib[l]);
                }
            }
            lemma_common_subsequence_bound(c1, a.drop_last(), b.drop_last(), ia1, ib1);
        }
    }
}

/// What `compute_lcs` returns is a longest common subsequence: it is a
/// subsequence of both inputs, and no common subsequence is longer.
pub proof fn law_lcs_is_longest_common_subsequence<A>(a: Seq<A>, b: Seq<A>)
    ensures
        is_subsequence(lcs_seq(a, b), a),
        is_subsequence(lcs_seq(a, b), b),
        forall|c: Seq<A>|
            is_subsequence(c, a) && is_subsequence(c, b) ==> c.len() <= lcs_seq(a, b).len(),
{
    let ia = lemma_lcs_seq_in_first(a, b);
    let ib = lemma_lcs_seq_in_second(a, b);
    lemma_lcs_seq_len(a, b);
    assert forall|c: Seq<A>| is_subsequence(c, a) && is_subsequence(c, b) implies c.len()
        <= lcs_seq(a, b).len() by {
        let ja = choose|idx: Seq<int>| embeds(idx, c, a);
        let jb = choose|idx: Seq<int>| embeds(idx, c, b);
        lemma_common_subsequence_bound(c, a, b, ja, jb);
    }
}

/// Longest common subsequence of two word sequences (dynamic programming
/// over prefixes, then backtracking from the full prefixes).
pub fn compute_lcs<'a>(a: &[&'a str], b: &[&'a str]) -> (r: Vec<&'a str>)
    ensures
        strs_view(r@) == lcs_seq(strs_view(a@), strs_view(b@)),
{
    let ghost av = strs_view(a@);
    let ghost bv = strs_view(b@);
    let m = a.len();
    let n = b.len();
    if m == 0 || n == 0 {
        let r: Vec<&'a str> = Vec::new();
        assert(strs_view(r@) =~= seq![]);
        return r;
    }
    // dp[i][j] is the LCS length of the first i words of a and the first j of b.

    let mut dp: Vec<Vec<usize>> = Vec::new();
    let mut row0: Vec<usize> = Vec::new();
    row0.push(0);
    let mut j: usize = 0;
    while j < n
        invariant
            j <= n,
            n == b.len(),
            row0@.len() == j + 1,
            forall|c: int| 0 <= c <= j ==> #[trigger] row0@[c] == 0,
        decreases n - j,
    {
        row0.push(0);
        j = j + 1;
    }
    dp.push(row0);
    let mut i: usize = 0;
    while i < m
        invariant
            i <= m,
            m == a.len(),
            n == b.len(),
            av == strs_view(a@),
            bv == strs_view(b@),
            dp@.len() == i + 1,
            forall|r: int| 0 <= r <= i ==> (#[trigger] dp@[r])@.len() == n + 1,
            forall|r: int, c: int|
                0 <= r <= i && 0 <= c <= n ==> #[trigger] dp@[r]@[c] == lcs_len(
                    av.take(r),
                    bv.take(c),
                ),
        decreases m - i,
    {
        // Row i + 1 of the table.
        let mut row: Vec<usize> = Vec::new();
        row.push(0);
        let mut j: usize = 0;
        while j < n
            invariant
                i < m,
                j <= n,
                m == a.len(),
                n == b.len(),
                av == strs_view(a@),
                bv == strs_view(b@),
                dp@.len() == i + 1,
                forall|r: int| 0 <= r <= i ==> (#[trigger] dp@[r])@.len() == n + 1,
                forall|r: int, c: int|
                    0 <= r <= i && 0 <= c <= n ==> #[trigger] dp@[r]@[c] == lcs_len(
                        av.take(r),
                        bv.take(c),
                    ),
                row@.len() == j + 1,
                forall|c: int| 0 <= c <= j ==> #[trigger] row@[c] == lcs_len(av.take(i + 1), bv.take(c)),
            decreases n - j,
        {
            let ghost ai = av.take(i + 1);
            let ghost bj = bv.take(j + 1);
            assert(ai.drop_last() =~= av.take(i as int));
            assert(bj.drop_last() =~= bv.take(j as int));
            assert(ai.last() == a@[i as int]@);
            assert(bj.last() == b@[j as int]@);
            let prev = &dp[i];
            if str_eq(a[i], b[j]) {
                let d = prev[j];
                proof {
                    lemma_lcs_len_bound(av.take(i as int), bv.take(j as int));
                }
                row.push(d + 1);
            } else {
                let up = prev[j + 1];
                let left = row[j];
                let v = if up >= left {
                    up
                } else {
                    left
                };
                row.push(v);
            }
            j = j + 1;
        }
        dp.push(row);
        i = i + 1;
    }
    // Backtrack from the full prefixes, collecting the subsequence in reverse.

    let mut rev: Vec<&'a str> = Vec::new();
    let ghost mut suffix: Seq<Seq<char>> = seq![];
    let mut i: usize = m;
    let mut j: usize = n;
    assert(av.take(m as int) =~= av);
    assert(bv.take(n as int) =~= bv);
    while i > 0 && j > 0
        invariant
            i <= m,
            j <= n,
            m == a.len(),
            n == b.len(),
            av == strs_view(a@),
            bv == strs_view(b@),
            dp@.len() == m + 1,
            forall|r: int| 0 <= r <= m ==> (#[trigger] dp@[r])@.len() == n + 1,
            forall|r: int, c: int|
                0 <= r <= m && 0 <= c <= n ==> #[trigger] dp@[r]@[c] == lcs_len(
                    av.take(r),
                    bv.take(c),
                ),
            lcs_seq(av, bv) == lcs_seq(av.take(i as int), bv.take(j as int)) + suffix,
            rev@.len() == suffix.len(),
            forall|k: int| 0 <= k < rev@.len() ==> (#[trigger] rev@[k])@ == suffix[suffix.len() - 1 - k],
        decreases i + j,
    {
        let ghost ai = av.take(i as int);
        let ghost bj = bv.take(j as int);
        assert(ai.drop_last() =~= av.take(i - 1));
        assert(bj.drop_last() =~= bv.take(j - 1));
        assert(ai.last() == a@[i - 1]@);
        assert(bj.last() == b@[j - 1]@);
        if str_eq(a[i - 1], b[j - 1]) {
            let w = a[i - 1];
            rev.push(w);
            proof {
                let x = w@;
                assert(lcs_seq(ai, bj) == lcs_seq(av.take(i - 1), bv.take(j - 1)).push(x));
                assert(lcs_seq(av.take(i - 1), bv.take(j - 1)).push(x) + suffix =~= lcs_seq(
                    av.take(i - 1),
                    bv.take(j - 1),
                ) + (seq![x] + suffix));
                suffix = seq![x] + suffix;
            }
            i = i - 1;
            j = j - 1;
        } else if dp[i - 1][j] > dp[i][j - 1] {
            i = i - 1;
        } else {
            j = j - 1;
        }
    }
    proof {
        assert(lcs_seq(av.take(i as int), bv.take(j as int)) =~= seq![]);
        assert(lcs_seq(av, bv) =~= suffix);
    }
    let mut r: Vec<&'a str> = Vec::new();
    let len = rev.len();
    let mut k: usize = 0;
    while k < len
        invariant
            len == rev@.len(),
            len == suffix.len(),
            k <= len,
            r@.len() == k,
            forall|t: int| 0 <= t < rev@.len() ==> (#[trigger] rev@[t])@ == suffix[suffix.len() - 1 - t],
            forall|t: int| 0 <= t < k ==> (#[trigger] r@[t])@ == suffix[t],
        decreases len - k,
    {
        r.push(rev[len - 1 - k]);
        k = k + 1;
    }
    assert(strs_view(r@) =~= suffix);
    r
}

} // verus!
