//! A list of keyed entries read as a map: the model behind the registry's
//! two tables, and the facts about it that their operations rest on.

use vstd::prelude::*;

verus! {

/// The map that sends each key of `keys` to the value at the same place in
/// `vals`.
pub open spec fn assoc_map<V>(keys: Seq<Seq<char>>, vals: Seq<V>) -> Map<Seq<char>, V> {
    Map::new(|k: Seq<char>| keys.contains(k), |k: Seq<char>| vals[keys.index_of(k)])
}

/// Where keys are distinct, the entry at place `i` is what the map holds
/// under the key at place `i`.
pub proof fn lemma_assoc_at<V>(keys: Seq<Seq<char>>, vals: Seq<V>, i: int)
    requires
        keys.no_duplicates(),
        0 <= i < keys.len(),
    ensures
        keys.contains(keys[i]),
        keys.index_of(keys[i]) == i,
        assoc_map(keys, vals).contains_key(keys[i]),
        assoc_map(keys, vals)[keys[i]] == vals[i],
{
    assert(keys.contains(keys[i]));
    let j = keys.index_of(keys[i]);
    assert(0 <= j < keys.len() && keys[j] == keys[i]);
}

/// The empty list is the empty map.
pub proof fn lemma_assoc_empty<V>()
    ensures
        assoc_map(Seq::<Seq<char>>::empty(), Seq::<V>::empty()) == Map::<Seq<char>, V>::empty(),
        Seq::<Seq<char>>::empty().no_duplicates(),
{
    assert(assoc_map(Seq::<Seq<char>>::empty(), Seq::<V>::empty()) =~= Map::<
        Seq<char>,
        V,
    >::empty());
}

/// Appending an entry under a new key inserts it into the map.
pub proof fn lemma_assoc_push<V>(keys: Seq<Seq<char>>, vals: Seq<V>, k: Seq<char>, v: V)
    requires
        keys.no_duplicates(),
        keys.len() == vals.len(),
        !keys.contains(k),
    ensures
        keys.push(k).no_duplicates(),
        assoc_map(keys.push(k), vals.push(v)) == assoc_map(keys, vals).insert(k, v),
{
    let keys2 = keys.push(k);
    let vals2 = vals.push(v);
    assert forall|i: int, j: int|
        0 <= i < keys2.len() && 0 <= j < keys2.len() && i != j implies keys2[i] != keys2[j] by {
        if i < keys.len() && j < keys.len() {
        } else if i < keys.len() {
            assert(keys[i] != k);
        } else {
            assert(keys[j] != k);
        }
    }
    let m2 = assoc_map(keys2, vals2);
    let m = assoc_map(keys, vals).insert(k, v);
    assert forall|x: Seq<char>| m2.contains_key(x) <==> m.contains_key(x) by {
        if keys2.contains(x) {
            let i = keys2.index_of(x);
            if i < keys.len() {
                assert(keys[i] == x);
            }
        }
        if keys.contains(x) {
            let i = keys.index_of(x);
            assert(keys2[i] == x);
        }
        if x == k {
            assert(keys2[keys.len() as int] == x);
        }
    }
    assert forall|x: Seq<char>| m2.contains_key(x) implies m2[x] == m[x] by {
        let i = keys2.index_of(x);
        lemma_assoc_at(keys2, vals2, i);
        if i < keys.len() {
            lemma_assoc_at(keys, vals, i);
        }
    }
    assert(m2 =~= m);
}

/// Replacing the value at place `i` replaces what the map holds under the
/// key at place `i`.
pub proof fn lemma_assoc_set<V>(keys: Seq<Seq<char>>, vals: Seq<V>, i: int, v: V)
    requires
        keys.no_duplicates(),
        keys.len() == vals.len(),
        0 <= i < keys.len(),
    ensures
        assoc_map(keys, vals.update(i, v)) == assoc_map(keys, vals).insert(keys[i], v),
{
    let m2 = assoc_map(keys, vals.update(i, v));
    let m = assoc_map(keys, vals).insert(keys[i], v);
    lemma_assoc_at(keys, vals, i);
    assert forall|x: Seq<char>| m2.contains_key(x) implies m2[x] == m[x] by {
        let j = keys.index_of(x);
        lemma_assoc_at(keys, vals, j);
    }
    assert(m2 =~= m);
}

/// Taking out the entry at place `i` removes its key from the map.
pub proof fn lemma_assoc_remove<V>(keys: Seq<Seq<char>>, vals: Seq<V>, i: int)
    requires
        keys.no_duplicates(),
        keys.len() == vals.len(),
        0 <= i < keys.len(),
    ensures
        keys.remove(i).no_duplicates(),
        assoc_map(keys.remove(i), vals.remove(i)) == assoc_map(keys, vals).remove(keys[i]),
{
    let keys2 = keys.remove(i);
    let vals2 = vals.remove(i);
    assert forall|a: int| 0 <= a < keys2.len() implies #[trigger] keys2[a] == keys[if a < i {
        a
    } else {
        a + 1
    }] && vals2[a] == vals[if a < i {
        a
    } else {
        a + 1
    }] by {}
    assert forall|a: int, b: int|
        0 <= a < keys2.len() && 0 <= b < keys2.len() && a != b implies keys2[a] != keys2[b] by {
        let _ = keys2[a];
        let _ = keys2[b];
    }
    let m2 = assoc_map(keys2, vals2);
    let m = assoc_map(keys, vals).remove(keys[i]);
    assert forall|x: Seq<char>| m2.contains_key(x) <==> m.contains_key(x) by {
        if keys2.contains(x) {
            let a = keys2.index_of(x);
            let _ = keys2[a];
            let src = if a < i {
                a
            } else {
                a + 1
            };
            assert(keys[src] == x);
        }
        if keys.contains(x) && x != keys[i] {
            let j = keys.index_of(x);
            let a = if j < i {
                j
            } else {
                j - 1
            };
            assert(keys2[a] == x);
        }
    }
    assert forall|x: Seq<char>| m2.contains_key(x) implies m2[x] == m[x] by {
        let a = keys2.index_of(x);
        lemma_assoc_at(keys2, vals2, a);
        let src = if a < i {
            a
        } else {
            a + 1
        };
        let _ = keys2[a];
        lemma_assoc_at(keys, vals, src);
    }
    assert(m2 =~= m);
}

} // verus!
