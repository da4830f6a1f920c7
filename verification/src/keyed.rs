use vstd::prelude::*;

use crate::vars::str_equal;

verus! {

/// Index of the first entry of an association list whose key has the given
/// characters, or -1 when no entry has them.
pub open spec fn keyed_first_index<T>(s: Seq<(String, T)>, k: Seq<char>) -> int
    decreases s.len(),
{
    if s.len() == 0 {
        -1
    } else if s[0].0@ == k {
        0
    } else {
        let r = keyed_first_index(s.drop_first(), k);
        if r < 0 {
            -1
        } else {
            r + 1
        }
    }
}

pub open spec fn keyed_has<T>(s: Seq<(String, T)>, k: Seq<char>) -> bool {
    keyed_first_index(s, k) >= 0
}

pub open spec fn keyed_at<T>(s: Seq<(String, T)>, k: Seq<char>) -> T {
    s[keyed_first_index(s, k)].1
}

/// No two entries share a key.
pub open spec fn keyed_unique<T>(s: Seq<(String, T)>) -> bool {
    forall|i: int, j: int| 0 <= i < j < s.len() ==> s[i].0@ != s[j].0@
}

/// The list after a write: an existing key is overwritten in place, a new
/// key is appended.
pub open spec fn keyed_insert<T>(s: Seq<(String, T)>, key: String, value: T) -> Seq<(String, T)> {
    if keyed_has(s, key@) {
        s.update(keyed_first_index(s, key@), (key, value))
    } else {
        s.push((key, value))
    }
}

/// What `keyed_first_index` finds: either -1 and no key matches, or the
/// first matching position.
pub proof fn lemma_keyed_first_props<T>(s: Seq<(String, T)>, k: Seq<char>)
    ensures
        keyed_first_index(s, k) == -1 <==> (forall|j: int| 0 <= j < s.len() ==> s[j].0@ != k),
        keyed_first_index(s, k) >= 0 ==> {
            &&& keyed_first_index(s, k) < s.len()
            &&& s[keyed_first_index(s, k)].0@ == k
            &&& forall|j: int| 0 <= j < keyed_first_index(s, k) ==> s[j].0@ != k
        },
    decreases s.len(),
{
    if s.len() > 0 && s[0].0@ != k {
        lemma_keyed_first_props(s.drop_first(), k);
        let r = keyed_first_index(s.drop_first(), k);
        if r >= 0 {
            assert(s[r + 1].0@ == s.drop_first()[r].0@);
            assert(forall|j: int|
                1 <= j < r + 1 ==> s[j].0@ == s.drop_first()[j - 1].0@ && s.drop_first()[j
                    - 1].0@ != k);
        } else {
            assert(forall|j: int|
                1 <= j < s.len() ==> s[j].0@ == s.drop_first()[j - 1].0@ && s.drop_first()[j
                    - 1].0@ != k);
        }
    }
}

/// A write keeps keys unique, finds the written key, and leaves every other
/// key bound as before.
pub proof fn lemma_keyed_insert<T>(s: Seq<(String, T)>, key: String, value: T)
    requires
        keyed_unique(s),
    ensures
        keyed_unique(keyed_insert(s, key, value)),
        keyed_has(keyed_insert(s, key, value), key@),
        keyed_at(keyed_insert(s, key, value), key@) == value,
        forall|k2: Seq<char>|
            k2 != key@ ==> keyed_has(keyed_insert(s, key, value), k2) == keyed_has(s, k2),
        forall|k2: Seq<char>|
            k2 != key@ && keyed_has(s, k2) ==> keyed_at(keyed_insert(s, key, value), k2)
                == keyed_at(s, k2),
{
    lemma_keyed_first_props(s, key@);
    let t = keyed_insert(s, key, value);
    if keyed_has(s, key@) {
        let i = keyed_first_index(s, key@);
        assert(t =~= s.update(i, (key, value)));
        lemma_keyed_update_first(s, key@, (key, value));
        assert(keyed_first_index(t, key@) == i);
        assert forall|k2: Seq<char>| k2 != key@ implies keyed_first_index(t, k2)
            == keyed_first_index(s, k2) && (keyed_has(s, k2) ==> keyed_at(t, k2) == keyed_at(
            s,
            k2,
        )) by {
            lemma_keyed_update_other(s, i, (key, value), k2);
            lemma_keyed_first_props(s, k2);
            if keyed_has(s, k2) {
                assert(keyed_first_index(s, k2) != i);
                assert(t[keyed_first_index(s, k2)] == s[keyed_first_index(s, k2)]);
            }
        }
    } else {
        assert(t =~= s.push((key, value)));
        lemma_keyed_push(s, (key, value), key@);
        assert forall|k2: Seq<char>| k2 != key@ implies keyed_first_index(t, k2)
            == keyed_first_index(s, k2) && (keyed_has(s, k2) ==> keyed_at(t, k2) == keyed_at(
            s,
            k2,
        )) by {
            lemma_keyed_push_other(s, (key, value), k2);
            lemma_keyed_first_props(s, k2);
            if keyed_has(s, k2) {
                assert(t[keyed_first_index(s, k2)] == s[keyed_first_index(s, k2)]);
            }
        }
    }
}

/// Updating the first match of `k` with an entry whose key is still `k`
/// leaves the first-match position unchanged.
proof fn lemma_keyed_update_first<T>(s: Seq<(String, T)>, k: Seq<char>, e: (String, T))
    requires
        keyed_has(s, k),
        e.0@ == k,
    ensures
        keyed_first_index(s.update(keyed_first_index(s, k), e), k) == keyed_first_index(s, k),
    decreases s.len(),
{
    lemma_keyed_first_props(s, k);
    let i = keyed_first_index(s, k);
    if i == 0 {
        assert(s.update(0, e)[0].0@ == k);
    } else {
        assert(s[0].0@ != k);
        let t = s.update(i, e);
        assert(t[0].0@ != k);
        assert(t.drop_first() =~= s.drop_first().update(i - 1, e));
        lemma_keyed_update_first(s.drop_first(), k, e);
    }
}

/// Updating position `i` with an entry keyed `e.0` does not move the first
/// match of any other key `k2`, provided `s[i]` did not carry `k2` either.
proof fn lemma_keyed_update_other<T>(s: Seq<(String, T)>, i: int, e: (String, T), k2: Seq<char>)
    requires
        0 <= i < s.len(),
        s[i].0@ != k2,
        e.0@ != k2,
    ensures
        keyed_first_index(s.update(i, e), k2) == keyed_first_index(s, k2),
    decreases s.len(),
{
    let t = s.update(i, e);
    if i == 0 {
        assert(t[0].0@ != k2 && s[0].0@ != k2);
        assert(t.drop_first() =~= s.drop_first());
    } else {
        if s[0].0@ == k2 {
            assert(t[0].0@ == k2);
        } else {
            assert(t[0].0@ != k2);
            assert(t.drop_first() =~= s.drop_first().update(i - 1, e));
            lemma_keyed_update_other(s.drop_first(), i - 1, e, k2);
        }
    }
}

/// Pushing an entry binds its own key only when it was absent.
proof fn lemma_keyed_push<T>(s: Seq<(String, T)>, e: (String, T), k: Seq<char>)
    requires
        !keyed_has(s, k),
        e.0@ == k,
    ensures
        keyed_first_index(s.push(e), k) == s.len(),
    decreases s.len(),
{
    lemma_keyed_first_props(s, k);
    if s.len() == 0 {
        assert(s.push(e)[0].0@ == k);
    } else {
        assert(s.push(e)[0] == s[0]);
        assert(s.push(e).drop_first() =~= s.drop_first().push(e));
        assert(!keyed_has(s.drop_first(), k)) by {
            lemma_keyed_first_props(s.drop_first(), k);
        }
        lemma_keyed_push(s.drop_first(), e, k);
    }
}

/// Pushing an entry with a different key does not move any first match.
proof fn lemma_keyed_push_other<T>(s: Seq<(String, T)>, e: (String, T), k2: Seq<char>)
    requires
        e.0@ != k2,
    ensures
        keyed_first_index(s.push(e), k2) == keyed_first_index(s, k2),
    decreases s.len(),
{
    if s.len() == 0 {
        assert(keyed_first_index(s, k2) == -1);
        assert(s.push(e)[0].0@ != k2);
        assert(s.push(e).drop_first() =~= Seq::<(String, T)>::empty());
        assert(keyed_first_index(Seq::<(String, T)>::empty(), k2) == -1);
        assert(keyed_first_index(s.push(e), k2) == -1);
    } else {
        if s[0].0@ == k2 {
            assert(s.push(e)[0].0@ == k2);
        } else {
            assert(s.push(e)[0].0@ != k2);
            assert(s.push(e).drop_first() =~= s.drop_first().push(e));
            lemma_keyed_push_other(s.drop_first(), e, k2);
        }
    }
}

/// Find the first entry with the given key.
pub fn keyed_find<T>(v: &Vec<(String, T)>, key: &str) -> (r: Option<usize>)
    ensures
        match r {
            Some(i) => keyed_first_index(v@, key@) == i as int,
            None => keyed_first_index(v@, key@) == -1,
        },
{
    proof {
        lemma_keyed_first_props(v@, key@);
    }
    let n = v.len();
    let mut i: usize = 0;
    while i < n
        invariant
            0 <= i <= n,
            n == v@.len(),
            forall|j: int| 0 <= j < i ==> v@[j].0@ != key@,
        decreases n - i,
    {
        if str_equal(v[i].0.as_str(), key) {
            proof {
                lemma_keyed_first_skip(v@, key@, i as int);
                assert(v@.skip(i as int)[0] == v@[i as int]);
            }
            return Some(i);
        }
        i += 1;
    }
    proof {
        lemma_keyed_first_props(v@, key@);
    }
    None
}

/// Relates a scan that has already ruled out the first `i` entries to the
/// first match of the whole list.
proof fn lemma_keyed_first_skip<T>(s: Seq<(String, T)>, k: Seq<char>, i: int)
    requires
        0 <= i <= s.len(),
        forall|j: int| 0 <= j < i ==> s[j].0@ != k,
    ensures
        keyed_first_index(s, k) == (if keyed_first_index(s.skip(i), k) < 0 {
            -1int
        } else {
            i + keyed_first_index(s.skip(i), k)
        }),
    decreases i,
{
    if i == 0 {
        assert(s.skip(0) =~= s);
    } else {
        assert(s[0].0@ != k);
        assert(s.drop_first() =~= s.skip(1));
        assert(s.skip(1).skip(i - 1) =~= s.skip(i));
        assert(forall|j: int| 0 <= j < i - 1 ==> s.skip(1)[j].0@ == s[j + 1].0@ && s[j + 1].0@ != k);
        lemma_keyed_first_skip(s.skip(1), k, i - 1);
    }
}

/// Overwrite the first entry with this key, or append a new one.
pub fn keyed_write<T>(v: &mut Vec<(String, T)>, key: String, value: T)
    ensures
        final(v)@ == keyed_insert(old(v)@, key, value),
{
    let found = keyed_find(v, key.as_str());
    proof {
        lemma_keyed_first_props(v@, key@);
    }
    match found {
        Some(i) => {
            v.remove(i);
            v.insert(i, (key, value));
            proof {
                let s = old(v)@;
                let idx = keyed_first_index(s, key@);
                assert(v@ == s.remove(idx).insert(idx, (key, value)));
                assert forall|j: int| 0 <= j < v@.len() implies v@[j] == s.update(
                    idx,
                    (key, value),
                )[j] by {
                    if j < idx {
                        assert(s.remove(idx)[j] == s[j]);
                    } else if j > idx {
                        assert(s.remove(idx)[j - 1] == s[j]);
                    }
                }
                assert(v@ =~= s.update(idx, (key, value)));
            }
        }
        None => {
            v.push((key, value));
        }
    }
}

} // verus!
