//! Stable ordering by time: what it means for a sequence to be sorted by a
//! timestamp while keeping the order of elements with the same timestamp.

use vstd::prelude::*;
use crate::model::{ts_le, Timestamp};

verus! {

/// Values that carry a timestamp to be ordered by.
pub trait Timed {
    spec fn spec_time(&self) -> Timestamp;

    fn time(&self) -> (r: Timestamp)
        ensures
            r == self.spec_time(),
    ;
}

/// The timestamp of a timed value, as a function.
pub open spec fn time_key<T: Timed>() -> spec_fn(T) -> Timestamp {
    |x: T| x.spec_time()
}

/// `a` may come before `b`: the earlier first, or the later first when
/// `latest_first` holds.
pub open spec fn in_order(latest_first: bool, a: Timestamp, b: Timestamp) -> bool {
    if latest_first {
        ts_le(b, a)
    } else {
        ts_le(a, b)
    }
}

/// Every element comes no later in the order than those after it.
pub open spec fn sorted_by_time<A>(s: Seq<A>, key: spec_fn(A) -> Timestamp, latest_first: bool) -> bool {
    forall|i: int, j: int| 0 <= i < j < s.len() ==> in_order(latest_first, #[trigger] key(s[i]), #[trigger] key(s[j]))
}

/// The elements with timestamp `t`.
pub open spec fn with_time<A>(key: spec_fn(A) -> Timestamp, t: Timestamp) -> spec_fn(A) -> bool {
    |a: A| key(a) == t
}

/// `r` holds, for every timestamp, the same elements with that timestamp as
/// `s`, in the same order.
pub open spec fn same_ties<A>(r: Seq<A>, s: Seq<A>, key: spec_fn(A) -> Timestamp) -> bool {
    forall|t: Timestamp| #[trigger] r.filter(with_time(key, t)) == s.filter(with_time(key, t))
}

/// `r` is `s` sorted by time, stably: elements with equal timestamps keep
/// their relative order.
pub open spec fn stable_sorted<A>(r: Seq<A>, s: Seq<A>, key: spec_fn(A) -> Timestamp, latest_first: bool) -> bool {
    sorted_by_time(r, key, latest_first) && same_ties(r, s, key)
}

/// Inserting `x` after every element that may precede it, and before every
/// element that may not, keeps the sequence sorted and puts `x` last among
/// the elements with its timestamp.
pub proof fn lemma_insert_sorted<A>(
    s: Seq<A>,
    x: A,
    p: int,
    key: spec_fn(A) -> Timestamp,
    latest_first: bool,
)
    requires
        sorted_by_time(s, key, latest_first),
        0 <= p <= s.len(),
        forall|i: int| 0 <= i < p ==> in_order(latest_first, #[trigger] key(s[i]), key(x)),
        forall|i: int| p <= i < s.len() ==> !in_order(latest_first, #[trigger] key(s[i]), key(x)),
    ensures
        sorted_by_time(s.insert(p, x), key, latest_first),
        forall|t: Timestamp| #[trigger] s.insert(p, x).filter(with_time(key, t)) == if key(x) == t {
            s.filter(with_time(key, t)).push(x)
        } else {
            s.filter(with_time(key, t))
        },
{
    let r = s.insert(p, x);
    assert forall|i: int, j: int| 0 <= i < j < r.len() implies in_order(
        latest_first,
        #[trigger] key(r[i]),
        #[trigger] key(r[j]),
    ) by {
        if j < p {
            assert(r[i] == s[i] && r[j] == s[j]);
        } else if j == p {
            assert(r[i] == s[i] && r[j] == x);
        } else if i < p {
            assert(r[i] == s[i] && r[j] == s[j - 1]);
            assert(in_order(latest_first, key(s[i]), key(s[j - 1])));
        } else if i == p {
            assert(r[i] == x && r[j] == s[j - 1]);
            assert(!in_order(latest_first, key(s[j - 1]), key(x)));
        } else {
            assert(r[i] == s[i - 1] && r[j] == s[j - 1]);
        }
    }
    let front = s.take(p);
    let back = s.skip(p);
    assert(s =~= front + back);
    assert(r =~= front + seq![x] + back);
    assert forall|t: Timestamp| #[trigger] s.insert(p, x).filter(with_time(key, t)) == if key(x)
        == t {
        s.filter(with_time(key, t)).push(x)
    } else {
        s.filter(with_time(key, t))
    } by {
        let f = with_time(key, t);
        Seq::filter_distributes_over_add(front, back, f);
        Seq::filter_distributes_over_add(front + seq![x], back, f);
        Seq::filter_distributes_over_add(front, seq![x], f);
        reveal_with_fuel(Seq::filter, 2);
        assert(seq![x].drop_last() =~= Seq::<A>::empty());
        if key(x) == t {
            assert forall|i: int| 0 <= i < back.len() implies !f(back[i]) by {
                assert(back[i] == s[p + i]);
            }
            assert(back.all(|a: A| !f(a)));
            back.lemma_all_neg_filter_empty(f);
            assert(back.filter(f) =~= Seq::<A>::empty());
            assert(seq![x].filter(f) =~= seq![x]);
            assert(r.filter(f) =~= front.filter(f).push(x));
            assert(s.filter(f) =~= front.filter(f));
        } else {
            assert(seq![x].filter(f) =~= Seq::<A>::empty());
            assert(r.filter(f) =~= s.filter(f));
        }
    }
}

/// Appending one more element of the input keeps the tie classes in step.
pub proof fn lemma_same_ties_step<A>(
    r: Seq<A>,
    s: Seq<A>,
    r2: Seq<A>,
    x: A,
    key: spec_fn(A) -> Timestamp,
)
    requires
        same_ties(r, s, key),
        forall|t: Timestamp| #[trigger] r2.filter(with_time(key, t)) == if key(x) == t {
            r.filter(with_time(key, t)).push(x)
        } else {
            r.filter(with_time(key, t))
        },
    ensures
        same_ties(r2, s.push(x), key),
{
    assert forall|t: Timestamp| #[trigger] r2.filter(with_time(key, t)) == s.push(x).filter(
        with_time(key, t),
    ) by {
        s.lemma_filter_push(x, with_time(key, t));
        assert(r.filter(with_time(key, t)) == s.filter(with_time(key, t)));
    }
}

/// Whether `y` may come before a value with time `t`.
fn may_precede<T: Timed>(y: &T, t: Timestamp, latest_first: bool) -> (r: bool)
    ensures
        r == in_order(latest_first, y.spec_time(), t),
{
    let u = y.time();
    if latest_first {
        t.le(&u)
    } else {
        u.le(&t)
    }
}

/// The elements of `v` in the opposite order.
pub fn reversed<T>(v: Vec<T>) -> (r: Vec<T>)
    ensures
        r@.len() == v@.len(),
        forall|i: int| 0 <= i < v@.len() ==> #[trigger] r@[i] == v@[v@.len() - 1 - i],
{
    let ghost all = v@;
    let mut src = v;
    let mut out: Vec<T> = Vec::new();
    while src.len() > 0
        invariant
            src@.len() + out@.len() == all.len(),
            src@ == all.take(src@.len() as int),
            forall|i: int| 0 <= i < out@.len() ==> #[trigger] out@[i] == all[all.len() - 1 - i],
        decreases src@.len(),
    {
        let ghost n = src@.len();
        let x = src.pop().unwrap();
        assert(x == all[n - 1]);
        out.push(x);
        assert(src@ =~= all.take(n - 1));
    }
    out
}

/// Sorts `items` by time, the latest first when `latest_first` holds and the
/// earliest first otherwise; items with the same time keep their order.
pub fn stable_sort_by_time<T: Timed>(items: Vec<T>, latest_first: bool) -> (r: Vec<T>)
    ensures
        stable_sorted(r@, items@, time_key::<T>(), latest_first),
{
    let ghost all = items@;
    let ghost key = time_key::<T>();
    // Items are taken from the end of the reversed vector, in their order.
    let mut rest = reversed(items);
    let mut out: Vec<T> = Vec::new();
    let ghost mut k: int = 0;
    assert(all.take(0) =~= Seq::<T>::empty());
    while rest.len() > 0
        invariant
            0 <= k <= all.len(),
            rest@.len() + k == all.len(),
            forall|i: int| 0 <= i < rest@.len() ==> #[trigger] rest@[i] == all[all.len() - 1 - i],
            sorted_by_time(out@, key, latest_first),
            same_ties(out@, all.take(k), key),
            key == time_key::<T>(),
        decreases rest@.len(),
    {
        let ghost n = rest@.len();
        let ghost before = rest@;
        let x = rest.pop().unwrap();
        assert(x == all[k]);
        assert(x == before[n - 1]);
        assert forall|i: int| 0 <= i < rest@.len() implies #[trigger] rest@[i] == all[all.len() - 1 - i] by {
            assert(rest@[i] == before[i]);
        }
        let t = x.time();
        let ghost outv = out@;
        // The place of `x`: after every item that may precede it. The
        // search starts at the end, where items already in order land.
        let mut p: usize = out.len();
        while p > 0 && !may_precede(&out[p - 1], t, latest_first)
            invariant
                p <= out@.len(),
                outv == out@,
                t == key(x),
                sorted_by_time(outv, key, latest_first),
                key == time_key::<T>(),
                forall|j: int| p <= j < outv.len() ==> !in_order(latest_first, #[trigger] key(outv[j]), key(x)),
            decreases p,
        {
            p = p - 1;
        }
        proof {
            assert forall|j: int| 0 <= j < p implies in_order(
                latest_first,
                #[trigger] key(outv[j]),
                key(x),
            ) by {
                assert(in_order(latest_first, key(outv[p - 1]), key(x)));
                assert(in_order(latest_first, key(outv[j]), key(outv[p - 1])) || j == p - 1);
            }
            lemma_insert_sorted(outv, x, p as int, key, latest_first);
            lemma_same_ties_step(outv, all.take(k), outv.insert(p as int, x), x, key);
            assert(all.take(k).push(x) =~= all.take(k + 1));
        }
        out.insert(p, x);
        proof {
            k = k + 1;
        }
    }
    assert(all.take(k) =~= all);
    out
}

} // verus!
