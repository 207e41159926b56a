//! Lookup by key in a vector of uniquely-keyed records, with the spec-level
//! view of such a vector as a partial map, and summation over records. All
//! persistent bridge state (vaults, balances, the three request tables) is
//! kept in this shape.

use vstd::prelude::*;

verus! {

/// A record addressed by a `u64` key.
pub trait Keyed: Sized {
    spec fn key(&self) -> u64;

    fn key_of(&self) -> (k: u64)
        ensures
            k == self.key(),
    ;
}

pub open spec fn keys_unique<T: Keyed>(s: Seq<T>) -> bool {
    forall|i: int, j: int| 0 <= i < j < s.len() ==> s[i].key() != s[j].key()
}

pub open spec fn has_key<T: Keyed>(s: Seq<T>, k: u64) -> bool {
    exists|i: int| 0 <= i < s.len() && s[i].key() == k
}

pub open spec fn index_of_key<T: Keyed>(s: Seq<T>, k: u64) -> int {
    choose|i: int| 0 <= i < s.len() && s[i].key() == k
}

/// The record with key `k`; meaningful only when `has_key(s, k)`.
pub open spec fn entry_of<T: Keyed>(s: Seq<T>, k: u64) -> T {
    s[index_of_key(s, k)]
}

/// With unique keys, the record at index `i` is the one `entry_of` gives for
/// its key.
pub proof fn lemma_entry_at<T: Keyed>(s: Seq<T>, i: int)
    requires
        keys_unique(s),
        0 <= i < s.len(),
    ensures
        has_key(s, s[i].key()),
        index_of_key(s, s[i].key()) == i,
        entry_of(s, s[i].key()) == s[i],
{
    assert(has_key(s, s[i].key()));
    let j = index_of_key(s, s[i].key());
    assert(0 <= j < s.len() && s[j].key() == s[i].key());
    if i != j {
        assert(false);
    }
}

/// Replacing the record at `i` by one with the same key changes the map view
/// at that key alone.
pub proof fn lemma_entry_update<T: Keyed>(s: Seq<T>, i: int, v: T)
    requires
        keys_unique(s),
        0 <= i < s.len(),
        v.key() == s[i].key(),
    ensures
        keys_unique(s.update(i, v)),
        forall|k: u64| has_key(s.update(i, v), k) <==> has_key(s, k),
        entry_of(s.update(i, v), v.key()) == v,
        forall|k: u64| k != v.key() && has_key(s, k)
            ==> entry_of(s.update(i, v), k) == entry_of(s, k),
{
    let t = s.update(i, v);
    assert forall|k: u64| has_key(t, k) implies has_key(s, k) by {
        let j = choose|j: int| 0 <= j < t.len() && t[j].key() == k;
        assert(s[if j == i { i } else { j }].key() == k);
    }
    assert forall|k: u64| has_key(s, k) implies has_key(t, k) by {
        let j = choose|j: int| 0 <= j < s.len() && s[j].key() == k;
        assert(t[j].key() == k);
    }
    lemma_entry_at(t, i);
    assert forall|k: u64| k != v.key() && has_key(s, k)
        implies entry_of(t, k) == entry_of(s, k) by {
        let j = index_of_key(s, k);
        assert(0 <= j < s.len() && s[j].key() == k);
        assert(j != i);
        assert(t[j] == s[j]);
        lemma_entry_at(t, j);
        lemma_entry_at(s, j);
    }
}

/// Appending a record with a fresh key adds exactly that key to the map view.
pub proof fn lemma_entry_push<T: Keyed>(s: Seq<T>, v: T)
    requires
        keys_unique(s),
        !has_key(s, v.key()),
    ensures
        keys_unique(s.push(v)),
        has_key(s.push(v), v.key()),
        entry_of(s.push(v), v.key()) == v,
        forall|k: u64| k != v.key() ==> (has_key(s.push(v), k) <==> has_key(s, k)),
        forall|k: u64| k != v.key() && has_key(s, k)
            ==> entry_of(s.push(v), k) == entry_of(s, k),
{
    let t = s.push(v);
    assert(t[s.len() as int] == v);
    assert forall|i: int, j: int| 0 <= i < j < t.len() implies t[i].key() != t[j].key() by {
        if j == s.len() as int {
            if t[i].key() == v.key() {
                assert(s[i].key() == v.key());
            }
        }
    }
    lemma_entry_at(t, s.len() as int);
    assert forall|k: u64| k != v.key() implies (has_key(t, k) <==> has_key(s, k)) by {
        if has_key(t, k) {
            let j = choose|j: int| 0 <= j < t.len() && t[j].key() == k;
            assert(s[j].key() == k);
        }
        if has_key(s, k) {
            let j = choose|j: int| 0 <= j < s.len() && s[j].key() == k;
            assert(t[j].key() == k);
        }
    }
    assert forall|k: u64| k != v.key() && has_key(s, k)
        implies entry_of(t, k) == entry_of(s, k) by {
        let j = index_of_key(s, k);
        assert(0 <= j < s.len() && s[j].key() == k);
        assert(t[j] == s[j]);
        lemma_entry_at(t, j);
        lemma_entry_at(s, j);
    }
}

/// Linear search for the record with key `k`.
pub fn find_by_key<T: Keyed>(v: &Vec<T>, k: u64) -> (r: Option<usize>)
    ensures
        match r {
            Some(i) => i < v.len() && v@[i as int].key() == k,
            None => !has_key(v@, k),
        },
{
    let mut i: usize = 0;
    while i < v.len()
        invariant
            i <= v.len(),
            forall|j: int| 0 <= j < i ==> v@[j].key() != k,
        decreases v.len() - i,
    {
        if v[i].key_of() == k {
            return Some(i);
        }
        i += 1;
    }
    None
}

/// Sum of `f` over a sequence of records.
pub open spec fn sum_by<T>(s: Seq<T>, f: spec_fn(T) -> int) -> int
    decreases s.len(),
{
    if s.len() == 0 {
        0
    } else {
        sum_by(s.drop_last(), f) + f(s.last())
    }
}

pub proof fn lemma_sum_push<T>(s: Seq<T>, v: T, f: spec_fn(T) -> int)
    ensures
        sum_by(s.push(v), f) == sum_by(s, f) + f(v),
{
    assert(s.push(v).drop_last() =~= s);
    assert(s.push(v).last() == v);
}

pub proof fn lemma_sum_update<T>(s: Seq<T>, i: int, v: T, f: spec_fn(T) -> int)
    requires
        0 <= i < s.len(),
    ensures
        sum_by(s.update(i, v), f) == sum_by(s, f) - f(s[i]) + f(v),
    decreases s.len(),
{
    let t = s.update(i, v);
    if i == s.len() - 1 {
        assert(t.drop_last() =~= s.drop_last());
        assert(t.last() == v);
        assert(s.last() == s[i]);
    } else {
        assert(t.drop_last() =~= s.drop_last().update(i, v));
        assert(t.last() == s.last());
        lemma_sum_update(s.drop_last(), i, v, f);
        assert(s.drop_last()[i] == s[i]);
    }
}

pub proof fn lemma_sum_take_succ<T>(s: Seq<T>, i: int, f: spec_fn(T) -> int)
    requires
        0 <= i < s.len(),
    ensures
        sum_by(s.take(i + 1), f) == sum_by(s.take(i), f) + f(s[i]),
{
    assert(s.take(i + 1).drop_last() =~= s.take(i));
    assert(s.take(i + 1).last() == s[i]);
}

/// With nonnegative summands, a prefix sum is at most the whole sum.
pub proof fn lemma_sum_take_bound<T>(s: Seq<T>, i: int, f: spec_fn(T) -> int)
    requires
        0 <= i <= s.len(),
        forall|j: int| 0 <= j < s.len() ==> f(#[trigger] s[j]) >= 0,
    ensures
        sum_by(s.take(i), f) <= sum_by(s, f),
    decreases s.len() - i,
{
    if i == s.len() {
        assert(s.take(i) =~= s);
    } else {
        lemma_sum_take_succ(s, i, f);
        lemma_sum_take_bound(s, i + 1, f);
    }
}

/// Every summand nonnegative makes the sum nonnegative.
pub proof fn lemma_sum_nonneg<T>(s: Seq<T>, f: spec_fn(T) -> int)
    requires
        forall|i: int| 0 <= i < s.len() ==> f(#[trigger] s[i]) >= 0,
    ensures
        sum_by(s, f) >= 0,
    decreases s.len(),
{
    if s.len() > 0 {
        assert(s.last() == s[s.len() - 1]);
        lemma_sum_nonneg(s.drop_last(), f);
    }
}

} // verus!
