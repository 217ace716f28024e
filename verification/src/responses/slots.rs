//! Entries kept in increasing key order: the ordered maps of the stream
//! state, held as vectors of `(key, value)` pairs.

use vstd::prelude::*;

verus! {

/// Keys strictly increase along `s`: no key occurs twice and iteration
/// follows key order.
pub open spec fn sorted<V>(s: Seq<(u64, V)>) -> bool {
    forall|i: int, j: int| 0 <= i < j < s.len() ==> s[i].0 < s[j].0
}

/// Position of key `k` in `s`.
pub open spec fn index_of<V>(s: Seq<(u64, V)>, k: u64) -> Option<int> {
    if exists|i: int| 0 <= i < s.len() && s[i].0 == k {
        Some(choose|i: int| 0 <= i < s.len() && s[i].0 == k)
    } else {
        None
    }
}

/// Value stored under `k`.
pub open spec fn lookup<V>(s: Seq<(u64, V)>, k: u64) -> Option<V> {
    match index_of(s, k) {
        Some(i) => Some(s[i].1),
        None => None,
    }
}

/// Number of entries whose key is below `k`.
pub open spec fn rank<V>(s: Seq<(u64, V)>, k: u64) -> int {
    s.filter(|e: (u64, V)| e.0 < k).len() as int
}

/// `s` with `k` mapped to `v`: replaced in place when present, otherwise
/// inserted at its ordered position.
pub open spec fn put<V>(s: Seq<(u64, V)>, k: u64, v: V) -> Seq<(u64, V)> {
    match index_of(s, k) {
        Some(i) => s.update(i, (k, v)),
        None => s.insert(first_at_least(s, k), (k, v)),
    }
}

/// `s` with `k` mapped to `v` only when `k` is absent.
pub open spec fn put_absent<V>(s: Seq<(u64, V)>, k: u64, v: V) -> Seq<(u64, V)> {
    match index_of(s, k) {
        Some(_) => s,
        None => put(s, k, v),
    }
}

/// First index whose key is at least `k` (or the length).
pub open spec fn first_at_least<V>(s: Seq<(u64, V)>, k: u64) -> int {
    if exists|i: int| 0 <= i < s.len() && s[i].0 >= k {
        choose|i: int|
            0 <= i < s.len() && s[i].0 >= k && forall|j: int| 0 <= j < i ==> s[j].0 < k
    } else {
        s.len() as int
    }
}

/// In a sorted sequence the position of a key is unique.
pub proof fn lemma_index_unique<V>(s: Seq<(u64, V)>, k: u64, i: int)
    requires
        sorted(s),
        0 <= i < s.len(),
        s[i].0 == k,
    ensures
        index_of(s, k) == Some(i),
{
    let j = choose|j: int| 0 <= j < s.len() && s[j].0 == k;
    if j != i {
        if j < i {
            assert(s[j].0 < s[i].0);
        } else {
            assert(s[i].0 < s[j].0);
        }
    }
}

/// A missing key has no position.
pub proof fn lemma_absent<V>(s: Seq<(u64, V)>, k: u64)
    requires
        forall|i: int| 0 <= i < s.len() ==> s[i].0 != k,
    ensures
        index_of(s, k) is None,
{
}

/// The first position whose key is at least `k`.
pub proof fn lemma_first_at_least<V>(s: Seq<(u64, V)>, k: u64, p: int)
    requires
        sorted(s),
        0 <= p <= s.len(),
        forall|j: int| 0 <= j < p ==> s[j].0 < k,
        p < s.len() ==> s[p].0 >= k,
    ensures
        first_at_least(s, k) == p,
{
    if exists|i: int| 0 <= i < s.len() && s[i].0 >= k {
        let q = choose|i: int|
            0 <= i < s.len() && s[i].0 >= k && forall|j: int| 0 <= j < i ==> s[j].0 < k;
        assert(0 <= p < s.len() && s[p].0 >= k && forall|j: int| 0 <= j < p ==> s[j].0 < k);
        if q < p {
            assert(s[q].0 < k);
        } else if p < q {
            assert(s[p].0 < k);
        }
    }
}

/// Search result: `Ok(position)` of the key, or `Err(position)` where it
/// would be inserted.
pub fn search<V: DeepView>(v: &Vec<(u64, V)>, k: u64) -> (r: Result<usize, usize>)
    requires
        sorted(v.deep_view()),
    ensures
        match r {
            Ok(i) => i < v@.len() && v.deep_view()[i as int].0 == k && index_of(v.deep_view(), k)
                == Some(i as int),
            Err(p) => p <= v@.len() && index_of(v.deep_view(), k) is None && first_at_least(
                v.deep_view(),
                k,
            ) == p && (forall|j: int| 0 <= j < p ==> v.deep_view()[j].0 < k) && (forall|j: int|
                p <= j < v@.len() ==> v.deep_view()[j].0 > k),
        },
{
    let ghost d = v.deep_view();
    let mut i: usize = 0;
    while i < v.len()
        invariant
            i <= v@.len(),
            d == v.deep_view(),
            d.len() == v@.len(),
            sorted(d),
            forall|j: int| 0 <= j < i ==> d[j].0 < k,
        decreases v@.len() - i,
    {
        assert(d[i as int].0 == v@[i as int].0);
        if v[i].0 == k {
            proof {
                lemma_index_unique(d, k, i as int);
            }
            return Ok(i);
        }
        if v[i].0 > k {
            proof {
                assert forall|j: int| i <= j < d.len() implies d[j].0 > k by {
                    if j > i {
                        assert(d[i as int].0 < d[j].0);
                    }
                }
                lemma_absent(d, k);
                lemma_first_at_least(d, k, i as int);
            }
            return Err(i);
        }
        i += 1;
    }
    proof {
        lemma_absent(d, k);
        lemma_first_at_least(d, k, i as int);
    }
    Err(i)
}

/// Inserting at the ordered position keeps the entries sorted.
pub proof fn lemma_insert_sorted<V>(s: Seq<(u64, V)>, p: int, k: u64, v: V)
    requires
        sorted(s),
        0 <= p <= s.len(),
        forall|j: int| 0 <= j < p ==> s[j].0 < k,
        forall|j: int| p <= j < s.len() ==> s[j].0 > k,
    ensures
        sorted(s.insert(p, (k, v))),
{
    let t = s.insert(p, (k, v));
    assert forall|i: int, j: int| 0 <= i < j < t.len() implies t[i].0 < t[j].0 by {
        if i < p && j < p {
            assert(t[i] == s[i] && t[j] == s[j]);
        } else if i < p && j == p {
        } else if i < p {
            assert(t[j] == s[j - 1]);
        } else if i == p {
            assert(t[j] == s[j - 1]);
        } else {
            assert(t[i] == s[i - 1] && t[j] == s[j - 1]);
        }
    }
}

/// Replacing a value keeps the keys.
pub proof fn lemma_update_sorted<V>(s: Seq<(u64, V)>, i: int, v: V)
    requires
        sorted(s),
        0 <= i < s.len(),
    ensures
        sorted(s.update(i, (s[i].0, v))),
{
    let t = s.update(i, (s[i].0, v));
    assert forall|a: int, b: int| 0 <= a < b < t.len() implies t[a].0 < t[b].0 by {
        assert(t[a].0 == s[a].0 && t[b].0 == s[b].0);
    }
}

/// Deep view of a sequence of entries.
pub open spec fn deep<V: DeepView>(s: Seq<(u64, V)>) -> Seq<(u64, V::V)> {
    Seq::new(s.len(), |i: int| s[i].deep_view())
}

/// Replacing an entry commutes with the deep view.
proof fn lemma_deep_update<V: DeepView>(s: Seq<(u64, V)>, i: int, x: (u64, V))
    requires
        0 <= i < s.len(),
    ensures
        deep(s.update(i, x)) == deep(s).update(i, x.deep_view()),
{
    assert(deep(s.update(i, x)) =~= deep(s).update(i, x.deep_view()));
}

/// Inserting an entry commutes with the deep view.
proof fn lemma_deep_insert<V: DeepView>(s: Seq<(u64, V)>, i: int, x: (u64, V))
    requires
        0 <= i <= s.len(),
    ensures
        deep(s.insert(i, x)) == deep(s).insert(i, x.deep_view()),
{
    assert(deep(s.insert(i, x)) =~= deep(s).insert(i, x.deep_view()));
}

/// Sets `k` to `val`.
pub fn set_entry<V: DeepView>(v: &mut Vec<(u64, V)>, k: u64, val: V)
    requires
        sorted(old(v).deep_view()),
    ensures
        sorted(final(v).deep_view()),
        final(v).deep_view() == put(old(v).deep_view(), k, val.deep_view()),
{
    let ghost d = v.deep_view();
    let ghost dv = val.deep_view();
    match search(v, k) {
        Ok(i) => {
            proof {
                lemma_update_sorted(d, i as int, dv);
            }
            let ghost before = v@;
            v.set(i, (k, val));
            proof {
                lemma_deep_update(before, i as int, (k, val));
            }
        },
        Err(p) => {
            proof {
                lemma_insert_sorted(d, p as int, k, dv);
            }
            let ghost before = v@;
            v.insert(p, (k, val));
            proof {
                lemma_deep_insert(before, p as int, (k, val));
            }
        },
    }
}

/// Looks `k` up.
pub fn position<V: DeepView>(v: &Vec<(u64, V)>, k: u64) -> (r: Option<usize>)
    requires
        sorted(v.deep_view()),
    ensures
        match r {
            Some(i) => index_of(v.deep_view(), k) == Some(i as int) && i < v@.len(),
            None => index_of(v.deep_view(), k) is None,
        },
{
    match search(v, k) {
        Ok(i) => Some(i),
        Err(_) => None,
    }
}

} // verus!

verus! {

/// Index of the first element of `s` satisfying `f`, or the length when none
/// does.
pub open spec fn first_match<A>(s: Seq<A>, f: spec_fn(A) -> bool) -> int
    decreases s.len(),
{
    if s.len() == 0 {
        0
    } else if f(s[0]) {
        0
    } else {
        1 + first_match(s.drop_first(), f)
    }
}

/// `i` is the first match when every element before it fails and it either
/// matches or is the length.
pub proof fn lemma_first_match_is<A>(s: Seq<A>, f: spec_fn(A) -> bool, i: int)
    requires
        0 <= i <= s.len(),
        forall|j: int| 0 <= j < i ==> !f(s[j]),
        i < s.len() ==> f(s[i]),
    ensures
        first_match(s, f) == i,
    decreases s.len(),
{
    if s.len() > 0 && i > 0 {
        let t = s.drop_first();
        assert forall|j: int| 0 <= j < i - 1 implies !f(t[j]) by {
            assert(t[j] == s[j + 1]);
        }
        if i - 1 < t.len() {
            assert(t[i - 1] == s[i]);
        }
        lemma_first_match_is(t, f, i - 1);
        assert(!f(s[0]));
    }
}

} // verus!
