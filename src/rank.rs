use vstd::prelude::*;
use crate::row::{models, select, selected, Record, SqlValue, StoreError};

verus! {

broadcast use vstd::seq_lib::group_to_multiset_ensures;

/// Whether text `a` sorts at or before text `b`, comparing characters by code
/// point, as SQLite's binary collation compares UTF-8 text.
pub open spec fn text_le(a: Seq<char>, b: Seq<char>) -> bool
    decreases a.len(),
{
    if a.len() == 0 {
        true
    } else if b.len() == 0 {
        false
    } else if a[0] != b[0] {
        (a[0] as u32) <= (b[0] as u32)
    } else {
        text_le(a.drop_first(), b.drop_first())
    }
}

/// Of two texts, one sorts at or before the other.
pub proof fn lemma_text_le_total(a: Seq<char>, b: Seq<char>)
    ensures
        text_le(a, b) || text_le(b, a),
    decreases a.len(),
{
    if a.len() > 0 && b.len() > 0 && a[0] == b[0] {
        lemma_text_le_total(a.drop_first(), b.drop_first());
    }
}

proof fn lemma_text_le_step(a: Seq<char>, b: Seq<char>, i: int)
    requires
        0 <= i < a.len(),
        i < b.len(),
        a[i] == b[i],
    ensures
        text_le(a.skip(i), b.skip(i)) == text_le(a.skip(i + 1), b.skip(i + 1)),
{
    assert(a.skip(i).drop_first() =~= a.skip(i + 1));
    assert(b.skip(i).drop_first() =~= b.skip(i + 1));
}

/// Whether text `a` sorts at or before text `b`.
pub fn text_at_or_before(a: &str, b: &str) -> (r: bool)
    ensures
        r == text_le(a@, b@),
{
    let n = a.unicode_len();
    let m = b.unicode_len();
    let mut i: usize = 0;
    assert(a@.skip(0) =~= a@);
    assert(b@.skip(0) =~= b@);
    while i < n && i < m
        invariant
            n == a@.len(),
            m == b@.len(),
            i <= n,
            i <= m,
            text_le(a@, b@) == text_le(a@.skip(i as int), b@.skip(i as int)),
        decreases n - i,
    {
        let c = a.get_char(i);
        let d = b.get_char(i);
        if c != d {
            assert(a@.skip(i as int)[0] == c && b@.skip(i as int)[0] == d);
            return (c as u32) <= (d as u32);
        }
        proof {
            lemma_text_le_step(a@, b@, i as int);
        }
        i = i + 1;
    }
    if i == n {
        assert(a@.skip(i as int).len() == 0);
        true
    } else {
        assert(b@.skip(i as int).len() == 0);
        assert(a@.skip(i as int).len() > 0);
        false
    }
}

/// A record kind with the order its lists are returned in.
pub trait Ranked: View + Sized {
    /// Whether a record may stand before another.
    spec fn precedes(a: Self::V, b: Self::V) -> bool;

    /// Of two records, one may stand before the other.
    proof fn lemma_precedes_total(a: Self::V, b: Self::V)
        ensures
            Self::precedes(a, b) || Self::precedes(b, a),
    ;

    /// Whether this record may stand before the other.
    fn may_precede(&self, other: &Self) -> (r: bool)
        ensures
            r == Self::precedes(self@, other@),
    ;
}

/// Whether each record of a list may stand before the next.
pub open spec fn ranked<R: Ranked>(s: Seq<R::V>) -> bool {
    forall|i: int| 0 < i < s.len() ==> R::precedes(s[i - 1], #[trigger] s[i])
}

/// The records in their kind's order: the same records, each record able to
/// stand before the next.
pub fn rank<R: Ranked>(items: Vec<R>) -> (r: Vec<R>)
    ensures
        models(r@).to_multiset() == models(items@).to_multiset(),
        ranked::<R>(models(r@)),
{
    let ghost ms = models(items@);
    let n = items.len();
    let mut rest = items;
    let mut out: Vec<R> = Vec::new();
    let mut i: usize = 0;
    assert(ms.take(0) =~= Seq::<R::V>::empty());
    assert(models(out@) =~= Seq::<R::V>::empty());
    while i < n
        invariant
            n == ms.len(),
            i <= n,
            rest@.len() == n - i,
            forall|k: int| 0 <= k < rest@.len() ==> rest@[k]@ == ms[k + i as int],
            models(out@).to_multiset() == ms.take(i as int).to_multiset(),
            ranked::<R>(models(out@)),
        decreases n - i,
    {
        let x = rest.remove(0);
        assert(x@ == ms[i as int]);
        let mut p = out.len();
        while p > 0 && !out[p - 1].may_precede(&x)
            invariant
                p <= out@.len(),
                p == out@.len() || !R::precedes(out@[p as int]@, x@),
            decreases p,
        {
            p = p - 1;
        }
        let ghost s = models(out@);
        proof {
            if p < out@.len() {
                R::lemma_precedes_total(s[p as int], x@);
            }
        }
        out.insert(p, x);
        let ghost t = models(out@);
        assert(t =~= s.insert(p as int, x@));
        assert forall|k: int| 0 < k < t.len() implies R::precedes(t[k - 1], #[trigger] t[k]) by {
            if k < p {
                assert(t[k - 1] == s[k - 1] && t[k] == s[k]);
            } else if k == p {
                assert(t[k - 1] == s[k - 1] && t[k] == x@);
            } else if k == p + 1 {
                assert(t[k - 1] == x@ && t[k] == s[k - 1]);
            } else {
                assert(t[k - 1] == s[k - 2] && t[k] == s[k - 1]);
                assert(R::precedes(s[k - 2], s[k - 1]));
            }
        }
        proof {
            vstd::seq_lib::to_multiset_insert(s, p as int, x@);
            assert(ms.take(i + 1) =~= ms.take(i as int).push(ms[i as int]));
        }
        i = i + 1;
    }
    assert(ms.take(n as int) =~= ms);
    out
}

/// Whether a list holds exactly the records a selection returns, each as
/// often, in the kind's order.
pub open spec fn ranked_selection<R: Record + Ranked>(
    rows: Seq<Seq<crate::row::Cell>>,
    filters: Seq<(usize, Seq<char>)>,
    vs: Seq<R::V>,
) -> bool {
    &&& selected::<R>(rows, filters) is Ok
    &&& vs.to_multiset() == selected::<R>(rows, filters)->Ok_0.to_multiset()
    &&& ranked::<R>(vs)
}

/// Decodes the rows that meet the filters and puts them in the kind's order.
pub fn select_ranked<R: Record + Ranked>(
    rows: &Vec<Vec<SqlValue>>,
    filters: &Vec<(usize, String)>,
) -> (r: Result<Vec<R>, StoreError>)
    ensures
        match r {
            Ok(v) => ranked_selection::<R>(rows.deep_view(), filters.deep_view(), models(v@)),
            Err(e) => selected::<R>(rows.deep_view(), filters.deep_view()) == Err::<
                Seq<R::V>,
                StoreError,
            >(e),
        },
{
    match select::<R>(rows, filters) {
        Ok(v) => Ok(rank(v)),
        Err(e) => Err(e),
    }
}

} // verus!
