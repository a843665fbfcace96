use vstd::prelude::*;

verus! {

/// Some entry of `s` has key `k`.
pub open spec fn has_key<T>(s: Seq<(Seq<char>, T)>, k: Seq<char>) -> bool {
    exists|i: int| 0 <= i < s.len() && #[trigger] s[i].0 == k
}

/// `i` is the first position of key `k` in `s`.
pub open spec fn is_first_index<T>(s: Seq<(Seq<char>, T)>, k: Seq<char>, i: int) -> bool {
    &&& 0 <= i < s.len()
    &&& s[i].0 == k
    &&& forall|j: int| 0 <= j < i ==> #[trigger] s[j].0 != k
}

/// The first position of key `k` in `s`, when it has one.
pub open spec fn key_index<T>(s: Seq<(Seq<char>, T)>, k: Seq<char>) -> int {
    choose|i: int| is_first_index(s, k, i)
}

/// The value stored under `k`: that of its first entry.
pub open spec fn lookup<T>(s: Seq<(Seq<char>, T)>, k: Seq<char>) -> Option<T> {
    if has_key(s, k) {
        Some(s[key_index(s, k)].1)
    } else {
        None
    }
}

/// Insertion that keeps order: the first entry with key `k` keeps its key and
/// place and takes value `v`; without such an entry, the pair is appended.
pub open spec fn assoc_insert<T>(s: Seq<(Seq<char>, T)>, k: Seq<char>, v: T) -> Seq<(Seq<char>, T)> {
    if has_key(s, k) {
        s.update(key_index(s, k), (s[key_index(s, k)].0, v))
    } else {
        s.push((k, v))
    }
}

/// Removal that keeps the order of the other entries.
pub open spec fn assoc_shift_remove<T>(s: Seq<(Seq<char>, T)>, k: Seq<char>) -> Seq<(Seq<char>, T)> {
    if has_key(s, k) {
        s.remove(key_index(s, k))
    } else {
        s
    }
}

/// Removal that moves the last entry into the freed place.
pub open spec fn assoc_swap_remove<T>(s: Seq<(Seq<char>, T)>, k: Seq<char>) -> Seq<(Seq<char>, T)> {
    if has_key(s, k) {
        s.update(key_index(s, k), s.last()).drop_last()
    } else {
        s
    }
}

/// No key occurs twice in `s`.
pub open spec fn unique_keys<T>(s: Seq<(Seq<char>, T)>) -> bool {
    forall|i: int, j: int|
        0 <= i < s.len() && 0 <= j < s.len() && i != j ==> #[trigger] s[i].0 != #[trigger] s[j].0
}

proof fn lemma_first_from<T>(s: Seq<(Seq<char>, T)>, k: Seq<char>, i: int)
    requires
        0 <= i < s.len(),
        s[i].0 == k,
    ensures
        exists|m: int| is_first_index(s, k, m),
    decreases i,
{
    if exists|j: int| 0 <= j < i && #[trigger] s[j].0 == k {
        let j = choose|j: int| 0 <= j < i && #[trigger] s[j].0 == k;
        lemma_first_from(s, k, j);
    } else {
        assert(is_first_index(s, k, i));
    }
}

/// When `k` occurs, `key_index` is its first position.
pub proof fn lemma_key_index<T>(s: Seq<(Seq<char>, T)>, k: Seq<char>)
    requires
        has_key(s, k),
    ensures
        is_first_index(s, k, key_index(s, k)),
{
    let i = choose|i: int| 0 <= i < s.len() && #[trigger] s[i].0 == k;
    lemma_first_from(s, k, i);
}

/// With unique keys, every position of `k` is its `key_index`.
pub proof fn lemma_unique_index<T>(s: Seq<(Seq<char>, T)>, k: Seq<char>, i: int)
    requires
        unique_keys(s),
        0 <= i < s.len(),
        s[i].0 == k,
    ensures
        has_key(s, k),
        key_index(s, k) == i,
        lookup(s, k) == Some(s[i].1),
{
    lemma_key_index(s, k);
}

/// A sequence that holds the entries of `s` with key `k2` where `s` holds them, and no
/// other, gives the same lookup of `k2`.
proof fn lemma_lookup_agree<T>(s: Seq<(Seq<char>, T)>, t: Seq<(Seq<char>, T)>, k2: Seq<char>)
    requires
        s.len() <= t.len(),
        forall|j: int| 0 <= j < s.len() ==> ((#[trigger] t[j]).0 == k2) == (s[j].0 == k2),
        forall|j: int| 0 <= j < s.len() && s[j].0 == k2 ==> #[trigger] t[j] == s[j],
        forall|j: int| s.len() <= j < t.len() ==> (#[trigger] t[j]).0 != k2,
    ensures
        has_key(t, k2) == has_key(s, k2),
        lookup(t, k2) == lookup(s, k2),
{
    assert(has_key(t, k2) == has_key(s, k2)) by {
        if has_key(s, k2) {
            let j = choose|j: int| 0 <= j < s.len() && #[trigger] s[j].0 == k2;
            assert(t[j].0 == k2);
        }
        if has_key(t, k2) {
            let j = choose|j: int| 0 <= j < t.len() && #[trigger] t[j].0 == k2;
            assert(s[j].0 == k2);
        }
    }
    if has_key(s, k2) {
        lemma_key_index(s, k2);
        lemma_key_index(t, k2);
        let a = key_index(s, k2);
        let b = key_index(t, k2);
        assert(a == b) by {
            if a < b { assert(t[a].0 == k2); }
            if b < a { assert(s[b].0 == k2); }
        }
    }
}

/// What a lookup gives after an insertion.
pub proof fn lemma_lookup_insert<T>(s: Seq<(Seq<char>, T)>, k: Seq<char>, v: T, k2: Seq<char>)
    ensures
        lookup(assoc_insert(s, k, v), k2) == if k2 == k { Some(v) } else { lookup(s, k2) },
        has_key(assoc_insert(s, k, v), k2) == (k2 == k || has_key(s, k2)),
{
    let t = assoc_insert(s, k, v);
    if has_key(s, k) {
        lemma_key_index(s, k);
        let i = key_index(s, k);
        assert(t[i].0 == k);
        if k2 == k {
            lemma_key_index(t, k);
            assert(is_first_index(t, k, i));
            assert(key_index(t, k) == i) by {
                let m = key_index(t, k);
                if m < i { assert(t[m] == s[m]); }
                if m > i { assert(t[i].0 == k); }
            }
        } else {
            lemma_lookup_agree(s, t, k2);
        }
    } else {
        let n = s.len() as int;
        assert(t[n].0 == k);
        if k2 == k {
            lemma_key_index(t, k);
            let m = key_index(t, k);
            assert(m == n) by {
                if m < n { assert(s[m].0 == k); }
            }
        } else {
            lemma_lookup_agree(s, t, k2);
        }
    }
}

/// Insertion keeps keys unique.
pub proof fn lemma_insert_unique<T>(s: Seq<(Seq<char>, T)>, k: Seq<char>, v: T)
    requires
        unique_keys(s),
    ensures
        unique_keys(assoc_insert(s, k, v)),
{
    let t = assoc_insert(s, k, v);
    if has_key(s, k) {
        lemma_key_index(s, k);
        assert forall|i: int, j: int| 0 <= i < t.len() && 0 <= j < t.len() && i != j implies #[trigger] t[i].0 != #[trigger] t[j].0 by {
            assert(t[i].0 == s[i].0);
            assert(t[j].0 == s[j].0);
        }
    } else {
        assert forall|i: int, j: int| 0 <= i < t.len() && 0 <= j < t.len() && i != j implies #[trigger] t[i].0 != #[trigger] t[j].0 by {
            if i < s.len() && j < s.len() {
                assert(t[i] == s[i] && t[j] == s[j]);
            } else if i < s.len() {
                assert(t[i] == s[i]);
            } else if j < s.len() {
                assert(t[j] == s[j]);
            }
        }
    }
}

/// Removing with `shift_remove` keeps keys unique; with unique keys the key is gone
/// and every other key keeps its value.
pub proof fn lemma_shift_remove<T>(s: Seq<(Seq<char>, T)>, k: Seq<char>, k2: Seq<char>)
    requires
        unique_keys(s),
    ensures
        unique_keys(assoc_shift_remove(s, k)),
        lookup(assoc_shift_remove(s, k), k2) == if k2 == k { None } else { lookup(s, k2) },
        has_key(assoc_shift_remove(s, k), k2) == (k2 != k && has_key(s, k2)),
{
    let t = assoc_shift_remove(s, k);
    if has_key(s, k) {
        lemma_key_index(s, k);
        let i = key_index(s, k);
        assert forall|a: int, b: int| 0 <= a < t.len() && 0 <= b < t.len() && a != b implies #[trigger] t[a].0 != #[trigger] t[b].0 by {
            let a2 = if a < i { a } else { a + 1 };
            let b2 = if b < i { b } else { b + 1 };
            assert(t[a] == s[a2] && t[b] == s[b2]);
        }
        assert(has_key(t, k2) == (k2 != k && has_key(s, k2))) by {
            if has_key(t, k2) {
                let j = choose|j: int| 0 <= j < t.len() && #[trigger] t[j].0 == k2;
                let j2 = if j < i { j } else { j + 1 };
                assert(t[j] == s[j2]);
                assert(j2 != i);
                lemma_unique_index(s, k2, j2);
            }
            if k2 != k && has_key(s, k2) {
                let j = choose|j: int| 0 <= j < s.len() && #[trigger] s[j].0 == k2;
                assert(j != i);
                let j2 = if j < i { j } else { j - 1 };
                assert(t[j2] == s[j]);
            }
        }
        if k2 != k && has_key(s, k2) {
            lemma_key_index(s, k2);
            let j = key_index(s, k2);
            assert(j != i);
            let j2 = if j < i { j } else { j - 1 };
            assert(t[j2] == s[j]);
            lemma_unique_index(t, k2, j2);
        }
    }
}

/// Removing with `swap_remove` keeps keys unique; with unique keys the key is gone
/// and every other key keeps its value.
pub proof fn lemma_swap_remove<T>(s: Seq<(Seq<char>, T)>, k: Seq<char>, k2: Seq<char>)
    requires
        unique_keys(s),
    ensures
        unique_keys(assoc_swap_remove(s, k)),
        lookup(assoc_swap_remove(s, k), k2) == if k2 == k { None } else { lookup(s, k2) },
        has_key(assoc_swap_remove(s, k), k2) == (k2 != k && has_key(s, k2)),
{
    let t = assoc_swap_remove(s, k);
    if has_key(s, k) {
        lemma_key_index(s, k);
        let i = key_index(s, k);
        let n = s.len() - 1;
        // position in s of the entry at position a of t
        assert forall|a: int, b: int| 0 <= a < t.len() && 0 <= b < t.len() && a != b implies #[trigger] t[a].0 != #[trigger] t[b].0 by {
            let a2 = if a == i { n } else { a };
            let b2 = if b == i { n } else { b };
            assert(t[a] == s[a2] && t[b] == s[b2]);
        }
        assert(has_key(t, k2) == (k2 != k && has_key(s, k2))) by {
            if has_key(t, k2) {
                let j = choose|j: int| 0 <= j < t.len() && #[trigger] t[j].0 == k2;
                let j2 = if j == i { n } else { j };
                assert(t[j] == s[j2]);
                assert(j2 != i);
            }
            if k2 != k && has_key(s, k2) {
                let j = choose|j: int| 0 <= j < s.len() && #[trigger] s[j].0 == k2;
                assert(j != i);
                let j2 = if j == n { i } else { j };
                assert(t[j2] == s[j]);
            }
        }
        if k2 != k && has_key(s, k2) {
            lemma_key_index(s, k2);
            let j = key_index(s, k2);
            assert(j != i);
            let j2 = if j == n { i } else { j };
            assert(t[j2] == s[j]);
            lemma_unique_index(t, k2, j2);
        }
    }
}

} // verus!
verus! {

/// `k` is a key of `s` and no key of `s` is below it.
pub open spec fn is_min_key<T>(s: Seq<(Seq<char>, T)>, k: Seq<char>) -> bool {
    &&& has_key(s, k)
    &&& forall|j: int| 0 <= j < s.len() ==> !crate::text::str_lt(#[trigger] s[j].0, k)
}

/// The smallest key of `s` in code-point order, or the empty string when `s` is empty.
pub open spec fn min_key<T>(s: Seq<(Seq<char>, T)>) -> Seq<char> {
    if exists|k: Seq<char>| is_min_key(s, k) {
        choose|k: Seq<char>| is_min_key(s, k)
    } else {
        Seq::empty()
    }
}

/// A smallest key is the smallest key.
pub proof fn lemma_min_key_unique<T>(s: Seq<(Seq<char>, T)>, k: Seq<char>)
    requires
        is_min_key(s, k),
    ensures
        min_key(s) == k,
{
    let m = min_key(s);
    assert(is_min_key(s, m));
    let i = choose|i: int| 0 <= i < s.len() && #[trigger] s[i].0 == k;
    let j = choose|j: int| 0 <= j < s.len() && #[trigger] s[j].0 == m;
    assert(!crate::text::str_lt(s[i].0, m));
    assert(!crate::text::str_lt(s[j].0, k));
    crate::text::lemma_str_lt_total(k, m);
}

/// An empty sequence has the empty string as its smallest key.
pub proof fn lemma_min_key_empty<T>(s: Seq<(Seq<char>, T)>)
    requires
        s.len() == 0,
    ensures
        min_key(s) == Seq::<char>::empty(),
{
}

} // verus!
verus! {

/// A non-empty sequence has a smallest key, and it is one of its keys.
pub proof fn lemma_min_key_exists<T>(s: Seq<(Seq<char>, T)>)
    requires
        s.len() > 0,
    ensures
        is_min_key(s, min_key(s)),
    decreases s.len(),
{
    if s.len() == 1 {
        crate::text::lemma_str_lt_irreflexive(s[0].0);
        assert(is_min_key(s, s[0].0));
    } else {
        let t = s.drop_last();
        lemma_min_key_exists(t);
        let m = min_key(t);
        let l = s.last().0;
        let i = choose|i: int| 0 <= i < t.len() && #[trigger] t[i].0 == m;
        assert(s[i].0 == m);
        if crate::text::str_lt(l, m) {
            assert forall|j: int| 0 <= j < s.len() implies !crate::text::str_lt(#[trigger] s[j].0, l) by {
                if j == s.len() - 1 {
                    crate::text::lemma_str_lt_irreflexive(l);
                } else {
                    assert(s[j] == t[j]);
                    if crate::text::str_lt(s[j].0, l) {
                        crate::text::lemma_str_lt_transitive(s[j].0, l, m);
                    }
                }
            }
            assert(s[s.len() - 1].0 == l);
            assert(is_min_key(s, l));
        } else {
            assert forall|j: int| 0 <= j < s.len() implies !crate::text::str_lt(#[trigger] s[j].0, m) by {
                if j < s.len() - 1 {
                    assert(s[j] == t[j]);
                }
            }
            assert(is_min_key(s, m));
        }
    }
}

} // verus!
