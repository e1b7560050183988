//! Time-ordered views of append-only histories.
//!
//! Ledger entries are ordered by the instant they take effect and, among
//! entries effective at the same instant, by their sequence number.
//! Instants are microseconds since the Unix epoch.

use vstd::prelude::*;
use vstd::seq_lib::group_to_multiset_ensures;
use vstd::seq_lib::to_multiset_build;
use vstd::seq_lib::to_multiset_insert;
use vstd::seq_lib::to_multiset_remove;

verus! {

/// The current time, in microseconds since the Unix epoch
/// (`chrono::Utc::now().timestamp_micros()`). Read from the system clock,
/// so nothing is stated of the value.
#[verifier::external_body]
pub(crate) fn now_micros() -> i64 {
    chrono::Utc::now().timestamp_micros()
}

/// An entry of a history: it takes effect at an instant and carries a
/// sequence number.
pub trait Timed: Sized {
    spec fn at(&self) -> int;

    spec fn seq_no(&self) -> int;

    fn effective_micros(&self) -> (r: i64)
        ensures
            r as int == self.at(),
    ;

    fn sequence_no(&self) -> (r: u64)
        ensures
            r as int == self.seq_no(),
    ;

    fn duplicate(&self) -> (r: Self)
        ensures
            r == *self,
    ;
}

/// `a` is effective before `b`, or at the same instant with a sequence
/// number no greater.
pub open spec fn no_later<E: Timed>(a: E, b: E) -> bool {
    a.at() < b.at() || (a.at() == b.at() && a.seq_no() <= b.seq_no())
}

/// Ordered by effective instant, then by sequence number.
pub open spec fn in_time_order<E: Timed>(s: Seq<E>) -> bool {
    forall|i: int, j: int| 0 <= i < j < s.len() ==> no_later(#[trigger] s[i], #[trigger] s[j])
}

/// The entries of `s` kept under a cutoff: all of them without one, else
/// those effective at or before it, in their order in `s`.
pub open spec fn kept<E: Timed>(s: Seq<E>, cutoff: Option<i64>) -> Seq<E> {
    match cutoff {
        None => s,
        Some(t) => s.filter(effective_by(t)),
    }
}

/// Whether an entry is effective at or before `t`.
pub open spec fn effective_by<E: Timed>(t: i64) -> spec_fn(E) -> bool {
    |e: E| e.at() <= t as int
}

/// The first position of `r` at which `x` can be placed keeping `r` in
/// time order, after every entry that is no later than `x`.
fn insertion_point<E: Timed>(r: &Vec<E>, x: &E) -> (p: usize)
    requires
        in_time_order(r@),
    ensures
        p <= r.len(),
        forall|k: int| 0 <= k < p ==> no_later(#[trigger] r@[k], *x),
        p < r.len() ==> !no_later(r@[p as int], *x),
{
    let xa = x.effective_micros();
    let xs = x.sequence_no();
    let mut p: usize = 0;
    while p < r.len()
        invariant
            p <= r.len(),
            xa as int == x.at(),
            xs as int == x.seq_no(),
            forall|k: int| 0 <= k < p ==> no_later(#[trigger] r@[k], *x),
        decreases r.len() - p,
    {
        let a = r[p].effective_micros();
        let s = r[p].sequence_no();
        if xa < a || (xa == a && xs < s) {
            return p;
        }
        p = p + 1;
    }
    p
}

/// The entries of `v` kept under `cutoff`, in time order. Effective
/// instant and sequence number together order the result; every kept entry
/// appears exactly as often as in `v`.
pub fn time_ordered<E: Timed>(v: &Vec<E>, cutoff: Option<i64>) -> (r: Vec<E>)
    ensures
        in_time_order(r@),
        r@.to_multiset() == kept(v@, cutoff).to_multiset(),
{
    let mut r: Vec<E> = Vec::new();
    let mut i: usize = 0;
    assert(v@.subrange(0, 0) =~= Seq::<E>::empty());
    assert(kept(v@.subrange(0, 0), cutoff) =~= Seq::<E>::empty());
    assert(r@ =~= Seq::<E>::empty());
    while i < v.len()
        invariant
            i <= v.len(),
            in_time_order(r@),
            r@.to_multiset() == kept(v@.subrange(0, i as int), cutoff).to_multiset(),
        decreases v.len() - i,
    {
        let ghost pre = v@.subrange(0, i as int);
        let ghost cur = v@.subrange(0, i + 1);
        let x = &v[i];
        assert(cur =~= pre.push(*x));
        assert(pre.push(*x).drop_last() =~= pre);
        let keep = match cutoff {
            None => true,
            Some(t) => x.effective_micros() <= t,
        };
        proof {
            if let Some(t) = cutoff {
                let f = effective_by::<E>(t);
                reveal(Seq::filter);
                assert(f(*x) == keep);
                assert(pre.push(*x).filter(f) == (if f(*x) {
                    pre.filter(f).push(*x)
                } else {
                    pre.filter(f)
                }));
            }
        }
        assert(keep ==> kept(cur, cutoff) == kept(pre, cutoff).push(*x));
        assert(!keep ==> kept(cur, cutoff) == kept(pre, cutoff));
        if keep {
            let p = insertion_point(&r, x);
            let ghost old_r = r@;
            r.insert(p, x.duplicate());
            assert(r@ == old_r.insert(p as int, *x));
            proof {
                to_multiset_insert(old_r, p as int, *x);
                to_multiset_build(kept(pre, cutoff), *x);
            }
            assert forall|a: int, b: int| 0 <= a < b < r@.len() implies no_later(
                #[trigger] r@[a],
                #[trigger] r@[b],
            ) by {
                if b < p {
                    assert(r@[a] == old_r[a] && r@[b] == old_r[b]);
                } else if b == p {
                    assert(r@[a] == old_r[a]);
                } else if a < p {
                    assert(r@[a] == old_r[a] && r@[b] == old_r[b - 1]);
                    assert(no_later(old_r[p as int], old_r[b - 1]));
                } else if a == p {
                    assert(r@[b] == old_r[b - 1]);
                    assert(no_later(old_r[p as int], old_r[b - 1]));
                } else {
                    assert(r@[a] == old_r[a - 1] && r@[b] == old_r[b - 1]);
                }
            }
        }
        i = i + 1;
    }
    assert(v@.subrange(0, v@.len() as int) =~= v@);
    r
}

/// No two entries share both effective instant and sequence number.
pub open spec fn distinct_keys<E: Timed>(s: Seq<E>) -> bool {
    forall|i: int, j: int|
        0 <= i < j < s.len() ==> !(#[trigger] s[i].at() == #[trigger] s[j].at() && s[i].seq_no()
            == s[j].seq_no())
}

/// Keeping the entries under a cutoff keeps the keys distinct.
pub proof fn lemma_kept_distinct<E: Timed>(h: Seq<E>, cutoff: Option<i64>)
    requires
        distinct_keys(h),
    ensures
        distinct_keys(kept(h, cutoff)),
    decreases h.len(),
{
    if let Some(t) = cutoff {
        if h.len() > 0 {
            let f = effective_by::<E>(t);
            let pre = h.drop_last();
            assert(distinct_keys(pre)) by {
                assert forall|i: int, j: int| 0 <= i < j < pre.len() implies !(
                #[trigger] pre[i].at() == #[trigger] pre[j].at() && pre[i].seq_no()
                    == pre[j].seq_no()) by {
                    assert(pre[i] == h[i] && pre[j] == h[j]);
                }
            }
            lemma_kept_distinct(pre, cutoff);
            reveal(Seq::filter);
            let k = kept(h, cutoff);
            let kp = kept(pre, cutoff);
            if f(h.last()) {
                assert(k == kp.push(h.last()));
                assert forall|i: int, j: int| 0 <= i < j < k.len() implies !(#[trigger] k[i].at()
                    == #[trigger] k[j].at() && k[i].seq_no() == k[j].seq_no()) by {
                    if j == k.len() - 1 {
                        assert(kp.contains(k[i])) by {
                            assert(kp[i] == k[i]);
                        }
                        pre.lemma_filter_contains_rev(f, k[i]);
                        let m = choose|m: int| 0 <= m < pre.len() && pre[m] == k[i];
                        assert(h[m] == k[i]);
                        assert(k[j] == h[h.len() - 1]);
                    } else {
                        assert(k[i] == kp[i] && k[j] == kp[j]);
                    }
                }
            } else {
                assert(k == kp);
            }
        }
    }
}

/// Time order determines a history's reading: two sequences holding the
/// entries of a history with distinct keys, each once, and both in time
/// order, are the same sequence.
pub proof fn lemma_time_order_unique<E: Timed>(x: Seq<E>, y: Seq<E>, h: Seq<E>)
    requires
        in_time_order(x),
        in_time_order(y),
        x.to_multiset() == h.to_multiset(),
        y.to_multiset() == h.to_multiset(),
        distinct_keys(h),
    ensures
        x == y,
    decreases h.len(),
{
    broadcast use group_to_multiset_ensures;
    broadcast use vstd::multiset::group_multiset_axioms;

    assert(x.to_multiset().len() == x.len());
    assert(y.to_multiset().len() == y.len());
    assert(h.to_multiset().len() == h.len());
    if h.len() == 0 {
        assert(x.len() == 0 && y.len() == 0);
        assert(x =~= y);
    } else {
        assert(x.len() == h.len() && y.len() == h.len());
        assert(x.contains(x[0]));
        assert(h.to_multiset().count(x[0]) > 0);
        assert(y.to_multiset().count(y[0]) > 0);
        assert(h.contains(x[0]) && h.contains(y[0]) && y.contains(x[0]) && x.contains(y[0]));
        let i = choose|i: int| 0 <= i < x.len() && x[i] == y[0];
        let j = choose|j: int| 0 <= j < y.len() && y[j] == x[0];
        assert(no_later(x[0], x[i]));
        assert(no_later(y[0], y[j]));
        let a = choose|a: int| 0 <= a < h.len() && h[a] == x[0];
        let b = choose|b: int| 0 <= b < h.len() && h[b] == y[0];
        assert(a == b) by {
            if a < b {
                assert(!(h[a].at() == h[b].at() && h[a].seq_no() == h[b].seq_no()));
            } else if b < a {
                assert(!(h[b].at() == h[a].at() && h[b].seq_no() == h[a].seq_no()));
            }
        }
        assert(x[0] == y[0]);
        let h2 = h.remove(a);
        to_multiset_remove(h, a);
        to_multiset_remove(x, 0);
        to_multiset_remove(y, 0);
        assert(x.remove(0) =~= x.drop_first());
        assert(y.remove(0) =~= y.drop_first());
        assert forall|p: int, q: int| 0 <= p < q < h2.len() implies !(#[trigger] h2[p].at()
            == #[trigger] h2[q].at() && h2[p].seq_no() == h2[q].seq_no()) by {
            let p0 = if p < a {
                p
            } else {
                p + 1
            };
            let q0 = if q < a {
                q
            } else {
                q + 1
            };
            assert(h2[p] == h[p0] && h2[q] == h[q0]);
        }
        assert forall|p: int, q: int| 0 <= p < q < x.drop_first().len() implies no_later(
            #[trigger] x.drop_first()[p],
            #[trigger] x.drop_first()[q],
        ) by {
            assert(x.drop_first()[p] == x[p + 1] && x.drop_first()[q] == x[q + 1]);
        }
        assert forall|p: int, q: int| 0 <= p < q < y.drop_first().len() implies no_later(
            #[trigger] y.drop_first()[p],
            #[trigger] y.drop_first()[q],
        ) by {
            assert(y.drop_first()[p] == y[p + 1] && y.drop_first()[q] == y[q + 1]);
        }
        lemma_time_order_unique(x.drop_first(), y.drop_first(), h2);
        assert(x =~= y) by {
            assert forall|k: int| 0 <= k < x.len() implies x[k] == y[k] by {
                if k > 0 {
                    assert(x[k] == x.drop_first()[k - 1]);
                    assert(y[k] == y.drop_first()[k - 1]);
                }
            }
        }
    }
}

} // verus!
