//! Stable sorting by an integer key: the order as a spec (insertion sort)
//! and the positions of the items in that order.
use vstd::prelude::*;

verus! {

/// `x` inserted into `s` after every item whose key is not greater.
pub open spec fn insert_by_key<T>(s: Seq<T>, x: T, key: spec_fn(T) -> i64) -> Seq<T>
    decreases s.len(),
{
    if s.len() == 0 {
        seq![x]
    } else if key(s.last()) <= key(x) {
        s.push(x)
    } else {
        insert_by_key(s.drop_last(), x, key).push(s.last())
    }
}

/// The items in the order of a stable sort by `key`: items with equal keys
/// keep their order.
pub open spec fn sort_by_key<T>(s: Seq<T>, key: spec_fn(T) -> i64) -> Seq<T>
    decreases s.len(),
{
    if s.len() == 0 {
        Seq::empty()
    } else {
        insert_by_key(sort_by_key(s.drop_last(), key), s.last(), key)
    }
}

/// The items at the given positions.
pub open spec fn pick<T>(items: Seq<T>, idx: Seq<usize>) -> Seq<T> {
    Seq::new(idx.len(), |i: int| items[idx[i] as int])
}

pub proof fn lemma_insert_by_key_at<T>(s: Seq<T>, x: T, key: spec_fn(T) -> i64, j: int)
    requires
        0 <= j <= s.len(),
        forall|m: int| j <= m < s.len() ==> key(#[trigger] s[m]) > key(x),
        j == 0 || key(s[j - 1]) <= key(x),
    ensures
        insert_by_key(s, x, key) == s.insert(j, x),
    decreases s.len() - j,
{
    if j == s.len() {
        assert(s.insert(j, x) =~= s.push(x));
    } else {
        let t = s.drop_last();
        assert forall|m: int| j <= m < t.len() implies key(#[trigger] t[m]) > key(x) by {
            assert(t[m] == s[m]);
        }
        if j > 0 {
            assert(t[j - 1] == s[j - 1]);
        }
        lemma_insert_by_key_at(t, x, key, j);
        assert(t.insert(j, x).push(s.last()) =~= s.insert(j, x));
    }
}

pub proof fn lemma_insert_by_key_len<T>(s: Seq<T>, x: T, key: spec_fn(T) -> i64)
    ensures
        insert_by_key(s, x, key).len() == s.len() + 1,
    decreases s.len(),
{
    if s.len() > 0 && key(s.last()) > key(x) {
        lemma_insert_by_key_len(s.drop_last(), x, key);
    }
}

/// Sorting keeps the number of items.
pub proof fn lemma_sort_by_key_len<T>(s: Seq<T>, key: spec_fn(T) -> i64)
    ensures
        sort_by_key(s, key).len() == s.len(),
    decreases s.len(),
{
    if s.len() > 0 {
        lemma_sort_by_key_len(s.drop_last(), key);
        lemma_insert_by_key_len(sort_by_key(s.drop_last(), key), s.last(), key);
    }
}

/// The positions of the items, in the order of a stable sort by their keys;
/// `keys[i]` is the key of item `i`.
pub fn stable_order<T>(keys: &Vec<i64>, Ghost(items): Ghost<Seq<T>>, Ghost(key): Ghost<spec_fn(T) -> i64>) -> (r: Vec<usize>)
    requires
        keys@.len() == items.len(),
        forall|i: int| 0 <= i < items.len() ==> keys@[i] == key(#[trigger] items[i]),
    ensures
        forall|i: int| 0 <= i < r@.len() ==> r@[i] < items.len(),
        pick(items, r@) == sort_by_key(items, key),
{
    let mut out: Vec<usize> = Vec::new();
    let mut k: usize = 0;
    while k < keys.len()
        invariant
            k <= keys@.len(),
            keys@.len() == items.len(),
            forall|i: int| 0 <= i < items.len() ==> keys@[i] == key(#[trigger] items[i]),
            forall|i: int| 0 <= i < out@.len() ==> out@[i] < items.len(),
            pick(items, out@) == sort_by_key(items.take(k as int), key),
        decreases keys@.len() - k,
    {
        let kk = keys[k];
        let ghost x = items[k as int];
        let ghost before = pick(items, out@);
        let mut j: usize = out.len();
        while j > 0 && keys[out[j - 1]] > kk
            invariant
                j <= out@.len(),
                keys@.len() == items.len(),
                forall|i: int| 0 <= i < items.len() ==> keys@[i] == key(#[trigger] items[i]),
                forall|i: int| 0 <= i < out@.len() ==> out@[i] < items.len(),
                kk == key(x),
                before == pick(items, out@),
                forall|m: int| j <= m < out@.len() ==> key(#[trigger] before[m]) > kk,
            decreases j,
        {
            assert(before[j - 1] == items[out@[j - 1] as int]);
            j = j - 1;
        }
        proof {
            if j > 0 {
                assert(before[j - 1] == items[out@[j - 1] as int]);
            }
            lemma_insert_by_key_at(before, x, key, j as int);
            assert(items.take(k + 1).drop_last() =~= items.take(k as int));
            assert(items.take(k + 1).last() == x);
        }
        out.insert(j, k);
        assert(pick(items, out@) =~= before.insert(j as int, x));
        k = k + 1;
    }
    assert(items.take(items.len() as int) =~= items);
    out
}

} // verus!
