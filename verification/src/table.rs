//! Keyed tables kept as sequences of `(key, value)` pairs.
//!
//! A lookup finds the first pair with the key; removing a key drops every
//! pair with it; registering a key drops the old pairs and appends the new
//! one at the end.  Tables built only through these operations never hold a
//! key twice.
use vstd::prelude::*;

verus! {

/// `i` is the position of the first pair whose key is `k`.
pub open spec fn is_first_with_key<K, V>(s: Seq<(K, V)>, k: K, i: int) -> bool {
    &&& 0 <= i < s.len()
    &&& s[i].0 == k
    &&& forall|j: int| 0 <= j < i ==> s[j].0 != k
}

/// Some pair in `s` has key `k`.
pub open spec fn has_key<K, V>(s: Seq<(K, V)>, k: K) -> bool {
    exists|i: int| 0 <= i < s.len() && s[i].0 == k
}

/// Position of the first pair with key `k`, or -1 when there is none.
pub open spec fn first_with_key<K, V>(s: Seq<(K, V)>, k: K) -> int {
    if has_key(s, k) {
        choose|i: int| is_first_with_key(s, k, i)
    } else {
        -1
    }
}

/// The value stored under `k`, if any.
pub open spec fn lookup<K, V>(s: Seq<(K, V)>, k: K) -> Option<V> {
    if has_key(s, k) {
        Some(s[first_with_key(s, k)].1)
    } else {
        None
    }
}

/// `s` without any pair whose key is `k`, other pairs in their order.
pub open spec fn drop_key<K, V>(s: Seq<(K, V)>, k: K) -> Seq<(K, V)>
    decreases s.len(),
{
    if s.len() == 0 {
        s
    } else {
        let r = drop_key(s.drop_last(), k);
        if s.last().0 == k {
            r
        } else {
            r.push(s.last())
        }
    }
}

/// `s` with `v` registered under `k`.
pub open spec fn register<K, V>(s: Seq<(K, V)>, k: K, v: V) -> Seq<(K, V)> {
    drop_key(s, k).push((k, v))
}

/// No key occurs twice.
pub open spec fn keys_unique<K, V>(s: Seq<(K, V)>) -> bool {
    forall|i: int, j: int| 0 <= i < s.len() && 0 <= j < s.len() && i != j ==> s[i].0 != s[j].0
}

pub proof fn lemma_first_exists<K, V>(s: Seq<(K, V)>, k: K, i: int)
    requires
        0 <= i < s.len(),
        s[i].0 == k,
    ensures
        has_key(s, k),
        is_first_with_key(s, k, first_with_key(s, k)),
    decreases i,
{
    if exists|j: int| 0 <= j < i && s[j].0 == k {
        let j = choose|j: int| 0 <= j < i && s[j].0 == k;
        lemma_first_exists(s, k, j);
    } else {
        assert(is_first_with_key(s, k, i));
    }
}

/// There is only one first position.
pub proof fn lemma_first_unique<K, V>(s: Seq<(K, V)>, k: K, i: int)
    requires
        is_first_with_key(s, k, i),
    ensures
        first_with_key(s, k) == i,
{
    lemma_first_exists(s, k, i);
    let f = first_with_key(s, k);
    assert(is_first_with_key(s, k, f));
    if f < i {
        assert(s[f].0 != k);
    } else if i < f {
        assert(s[i].0 != k);
    }
}

pub proof fn lemma_drop_key_props<K, V>(s: Seq<(K, V)>, k: K)
    ensures
        !has_key(drop_key(s, k), k),
        drop_key(s, k).len() <= s.len(),
        forall|x: K| x != k ==> lookup(drop_key(s, k), x) == lookup(s, x),
        forall|x: K| x != k ==> (has_key(drop_key(s, k), x) <==> has_key(s, x)),
        forall|i: int| 0 <= i < drop_key(s, k).len() ==> s.contains(#[trigger] drop_key(s, k)[i]),
        keys_unique(s) ==> keys_unique(drop_key(s, k)),
    decreases s.len(),
{
    if s.len() > 0 {
        let p = s.drop_last();
        lemma_drop_key_props(p, k);
        let r = drop_key(p, k);
        assert forall|x: K| x != k implies lookup(drop_key(s, k), x) == lookup(s, x)
            && (has_key(drop_key(s, k), x) <==> has_key(s, x)) by {
            lemma_lookup_push(p, x, s.last());
            lemma_lookup_push(r, x, s.last());
            assert(s == p.push(s.last()));
        }
        assert forall|i: int| 0 <= i < drop_key(s, k).len() implies s.contains(#[trigger] drop_key(s, k)[i]) by {
            if i < r.len() {
                assert(drop_key(s, k)[i] == r[i]);
                assert(p.contains(r[i]));
                let j = choose|j: int| 0 <= j < p.len() && p[j] == r[i];
                assert(s[j] == r[i]);
            } else {
                assert(s[s.len() - 1] == s.last());
            }
        }
        if keys_unique(s) {
            assert(keys_unique(p));
            assert(keys_unique(r));
            if s.last().0 != k {
                assert forall|i: int| 0 <= i < r.len() implies r[i].0 != s.last().0 by {
                    assert(p.contains(r[i]));
                    let j = choose|j: int| 0 <= j < p.len() && p[j] == r[i];
                    assert(s[j] == p[j]);
                    assert(s[s.len() - 1] == s.last());
                }
            }
        }
        if has_key(drop_key(s, k), k) {
            let i = choose|i: int| 0 <= i < drop_key(s, k).len() && drop_key(s, k)[i].0 == k;
            if i < r.len() {
                assert(r[i] == drop_key(s, k)[i]);
            }
        }
    }
}

/// Looking up in a sequence with one more pair at the end.
pub proof fn lemma_lookup_push<K, V>(s: Seq<(K, V)>, k: K, e: (K, V))
    ensures
        has_key(s.push(e), k) <==> (has_key(s, k) || e.0 == k),
        lookup(s.push(e), k) == (if has_key(s, k) { lookup(s, k) } else if e.0 == k { Some(e.1) } else { None }),
{
    let t = s.push(e);
    if has_key(s, k) {
        let i = choose|i: int| 0 <= i < s.len() && s[i].0 == k;
        lemma_first_exists(s, k, i);
        let f = first_with_key(s, k);
        assert(is_first_with_key(t, k, f));
        lemma_first_unique(t, k, f);
    } else if e.0 == k {
        assert(is_first_with_key(t, k, s.len() as int));
        lemma_first_unique(t, k, s.len() as int);
    } else {
        if has_key(t, k) {
            let i = choose|i: int| 0 <= i < t.len() && t[i].0 == k;
            if i < s.len() {
                assert(s[i] == t[i]);
            }
        }
    }
}

/// Registering `k` makes the lookup give the new value and keeps the rest.
pub proof fn lemma_register<K, V>(s: Seq<(K, V)>, k: K, v: V)
    ensures
        lookup(register(s, k, v), k) == Some(v),
        forall|x: K| x != k ==> lookup(register(s, k, v), x) == lookup(s, x),
        keys_unique(s) ==> keys_unique(register(s, k, v)),
{
    lemma_drop_key_props(s, k);
    lemma_lookup_push(drop_key(s, k), k, (k, v));
    assert forall|x: K| x != k implies lookup(register(s, k, v), x) == lookup(s, x) by {
        lemma_lookup_push(drop_key(s, k), x, (k, v));
    }
    let d = drop_key(s, k);
    if keys_unique(s) {
        assert forall|i: int| 0 <= i < d.len() implies d[i].0 != k by {
            if d[i].0 == k {
                assert(has_key(d, k));
            }
        }
    }
}

/// The table with `f` applied to each value.
pub open spec fn map_vals<K, V, W>(s: Seq<(K, V)>, f: spec_fn(V) -> W) -> Seq<(K, W)> {
    s.map_values(|p: (K, V)| (p.0, f(p.1)))
}

/// Dropping a key commutes with mapping the values.
pub proof fn lemma_map_drop_key<K, V, W>(s: Seq<(K, V)>, k: K, f: spec_fn(V) -> W)
    ensures
        map_vals(drop_key(s, k), f) == drop_key(map_vals(s, f), k),
    decreases s.len(),
{
    if s.len() > 0 {
        lemma_map_drop_key(s.drop_last(), k, f);
        assert(map_vals(s, f).drop_last() =~= map_vals(s.drop_last(), f));
        assert(map_vals(drop_key(s.drop_last(), k).push(s.last()), f) =~= map_vals(drop_key(s.drop_last(), k), f).push(
            (s.last().0, f(s.last().1)),
        ));
    } else {
        assert(map_vals(s, f) =~= Seq::empty());
    }
}

/// Registering a key commutes with mapping the values.
pub proof fn lemma_map_register<K, V, W>(s: Seq<(K, V)>, k: K, v: V, f: spec_fn(V) -> W)
    ensures
        map_vals(register(s, k, v), f) == register(map_vals(s, f), k, f(v)),
{
    lemma_map_drop_key(s, k, f);
    assert(map_vals(drop_key(s, k).push((k, v)), f) =~= map_vals(drop_key(s, k), f).push((k, f(v))));
}

/// Mapping the values keeps the keys and so the first position of a key.
pub proof fn lemma_map_first<K, V, W>(s: Seq<(K, V)>, k: K, f: spec_fn(V) -> W)
    ensures
        has_key(map_vals(s, f), k) == has_key(s, k),
        first_with_key(map_vals(s, f), k) == first_with_key(s, k),
        lookup(map_vals(s, f), k) == (match lookup(s, k) {
            Some(v) => Some(f(v)),
            None => None,
        }),
{
    let t = map_vals(s, f);
    if has_key(s, k) {
        let i = choose|i: int| 0 <= i < s.len() && s[i].0 == k;
        lemma_first_exists(s, k, i);
        let fi = first_with_key(s, k);
        assert(t[fi].0 == k);
        assert forall|j: int| 0 <= j < fi implies t[j].0 != k by {
            assert(t[j].0 == s[j].0);
        }
        assert(is_first_with_key(t, k, fi));
        lemma_first_unique(t, k, fi);
    } else if has_key(t, k) {
        let i = choose|i: int| 0 <= i < t.len() && t[i].0 == k;
        assert(s[i].0 == t[i].0);
    }
}

/// Replacing the value of the first pair with key `k` makes the lookup of
/// `k` give the new value.
pub proof fn lemma_lookup_update_first<K, V>(s: Seq<(K, V)>, k: K, v: V)
    requires
        has_key(s, k),
    ensures
        lookup(s.update(first_with_key(s, k), (k, v)), k) == Some(v),
        first_with_key(s.update(first_with_key(s, k), (k, v)), k) == first_with_key(s, k),
{
    let i = choose|i: int| 0 <= i < s.len() && s[i].0 == k;
    lemma_first_exists(s, k, i);
    let f = first_with_key(s, k);
    let t = s.update(f, (k, v));
    assert(is_first_with_key(t, k, f));
    lemma_first_unique(t, k, f);
}

/// With keys unique, the pair at position `i` is the first with its key.
pub proof fn lemma_unique_first<K, V>(s: Seq<(K, V)>, i: int)
    requires
        keys_unique(s),
        0 <= i < s.len(),
    ensures
        first_with_key(s, s[i].0) == i,
        lookup(s, s[i].0) == Some(s[i].1),
{
    assert(is_first_with_key(s, s[i].0, i));
    lemma_first_unique(s, s[i].0, i);
}

/// Position of the first pair with key `k`.
pub fn find_key_u64<V>(s: &Vec<(u64, V)>, k: u64) -> (r: Option<usize>)
    ensures
        r is None <==> !has_key(s@, k),
        r matches Some(i) ==> is_first_with_key(s@, k, i as int) && first_with_key(s@, k) == i,
{
    let mut i: usize = 0;
    while i < s.len()
        invariant
            i <= s.len(),
            forall|j: int| 0 <= j < i ==> s@[j].0 != k,
        decreases s.len() - i,
    {
        if s[i].0 == k {
            proof {
                lemma_first_unique(s@, k, i as int);
            }
            return Some(i);
        }
        i = i + 1;
    }
    None
}

/// Removes every pair whose key is `k`.
pub fn remove_key_u64<V>(s: &mut Vec<(u64, V)>, k: u64)
    ensures
        final(s)@ == drop_key(old(s)@, k),
{
    let mut taken: Vec<(u64, V)> = Vec::new();
    std::mem::swap(s, &mut taken);
    let ghost orig = taken@;
    let mut kept: Vec<(u64, V)> = Vec::new();
    for e in it: taken.into_iter()
        invariant
            it.seq() == orig,
            kept@ == drop_key(orig.take(it.index() as int), k),
    {
        proof {
            let n = it.index() as int;
            assert(orig.take(n + 1).drop_last() == orig.take(n));
            assert(orig.take(n + 1).last() == e);
        }
        if e.0 != k {
            kept.push(e);
        }
    }
    assert(orig.take(orig.len() as int) == orig);
    *s = kept;
}

/// Position of the first pair with key `k`.
pub fn find_key_usize<V>(s: &Vec<(usize, V)>, k: usize) -> (r: Option<usize>)
    ensures
        r is None <==> !has_key(s@, k),
        r matches Some(i) ==> is_first_with_key(s@, k, i as int) && first_with_key(s@, k) == i,
{
    let mut i: usize = 0;
    while i < s.len()
        invariant
            i <= s.len(),
            forall|j: int| 0 <= j < i ==> s@[j].0 != k,
        decreases s.len() - i,
    {
        if s[i].0 == k {
            proof {
                lemma_first_unique(s@, k, i as int);
            }
            return Some(i);
        }
        i = i + 1;
    }
    None
}

/// Removes every pair whose key is `k`.
pub fn remove_key_usize<V>(s: &mut Vec<(usize, V)>, k: usize)
    ensures
        final(s)@ == drop_key(old(s)@, k),
{
    let mut taken: Vec<(usize, V)> = Vec::new();
    std::mem::swap(s, &mut taken);
    let ghost orig = taken@;
    let mut kept: Vec<(usize, V)> = Vec::new();
    for e in it: taken.into_iter()
        invariant
            it.seq() == orig,
            kept@ == drop_key(orig.take(it.index() as int), k),
    {
        proof {
            let n = it.index() as int;
            assert(orig.take(n + 1).drop_last() == orig.take(n));
            assert(orig.take(n + 1).last() == e);
        }
        if e.0 != k {
            kept.push(e);
        }
    }
    assert(orig.take(orig.len() as int) == orig);
    *s = kept;
}

/// Position of the first pair with key `k`.
pub fn find_key_u32<V>(s: &Vec<(u32, V)>, k: u32) -> (r: Option<usize>)
    ensures
        r is None <==> !has_key(s@, k),
        r matches Some(i) ==> is_first_with_key(s@, k, i as int) && first_with_key(s@, k) == i,
{
    let mut i: usize = 0;
    while i < s.len()
        invariant
            i <= s.len(),
            forall|j: int| 0 <= j < i ==> s@[j].0 != k,
        decreases s.len() - i,
    {
        if s[i].0 == k {
            proof {
                lemma_first_unique(s@, k, i as int);
            }
            return Some(i);
        }
        i = i + 1;
    }
    None
}

/// Removes every pair whose key is `k`.
pub fn remove_key_u32<V>(s: &mut Vec<(u32, V)>, k: u32)
    ensures
        final(s)@ == drop_key(old(s)@, k),
{
    let mut taken: Vec<(u32, V)> = Vec::new();
    std::mem::swap(s, &mut taken);
    let ghost orig = taken@;
    let mut kept: Vec<(u32, V)> = Vec::new();
    for e in it: taken.into_iter()
        invariant
            it.seq() == orig,
            kept@ == drop_key(orig.take(it.index() as int), k),
    {
        proof {
            let n = it.index() as int;
            assert(orig.take(n + 1).drop_last() == orig.take(n));
            assert(orig.take(n + 1).last() == e);
        }
        if e.0 != k {
            kept.push(e);
        }
    }
    assert(orig.take(orig.len() as int) == orig);
    *s = kept;
}

} // verus!
