//! A table as a list of rows, each with its key, read as a map from keys to
//! rows. While no key occurs twice the map loses nothing of the list but
//! its order.
use vstd::prelude::*;

verus! {

/// Row `i` of `entries` exists and has key `key`.
pub open spec fn has_key<V>(entries: Seq<(Seq<char>, V)>, key: Seq<char>, i: int) -> bool {
    0 <= i < entries.len() && entries[i].0 == key
}

/// No key occurs in two rows.
pub open spec fn distinct_keys<V>(entries: Seq<(Seq<char>, V)>) -> bool {
    forall|i: int, j: int| 0 <= i < j < entries.len() ==> entries[i].0 != entries[j].0
}

/// The rows by their keys.
pub open spec fn as_map<V>(entries: Seq<(Seq<char>, V)>) -> Map<Seq<char>, V> {
    Map::new(
        |key: Seq<char>| exists|i: int| has_key(entries, key, i),
        |key: Seq<char>| entries[choose|i: int| has_key(entries, key, i)].1,
    )
}

/// A row is found under its own key.
pub proof fn lemma_lookup<V>(entries: Seq<(Seq<char>, V)>, i: int)
    requires
        distinct_keys(entries),
        0 <= i < entries.len(),
    ensures
        as_map(entries).contains_key(entries[i].0),
        as_map(entries)[entries[i].0] == entries[i].1,
{
    let key = entries[i].0;
    assert(has_key(entries, key, i));
    let j = choose|j: int| has_key(entries, key, j);
    assert(j == i) by {
        if j < i {
            assert(entries[j].0 != entries[i].0);
        } else if i < j {
            assert(entries[i].0 != entries[j].0);
        }
    }
}

/// A key that no row has is not in the map.
pub proof fn lemma_absent<V>(entries: Seq<(Seq<char>, V)>, key: Seq<char>)
    requires
        forall|j: int| 0 <= j < entries.len() ==> entries[j].0 != key,
    ensures
        !as_map(entries).contains_key(key),
{
    assert forall|i: int| !has_key(entries, key, i) by {}
}

/// Appending a row with a new key inserts it.
pub proof fn lemma_push<V>(entries: Seq<(Seq<char>, V)>, entry: (Seq<char>, V))
    requires
        distinct_keys(entries),
        forall|j: int| 0 <= j < entries.len() ==> entries[j].0 != entry.0,
    ensures
        distinct_keys(entries.push(entry)),
        as_map(entries.push(entry)) == as_map(entries).insert(entry.0, entry.1),
{
    let after = entries.push(entry);
    let n = entries.len() as int;
    assert(distinct_keys(after));
    assert forall|key: Seq<char>|
        as_map(after).contains_key(key) <==> #[trigger] as_map(entries).insert(
            entry.0,
            entry.1,
        ).contains_key(key) by {
        if as_map(after).contains_key(key) {
            let i = choose|i: int| has_key(after, key, i);
            if i < n {
                assert(has_key(entries, key, i));
            }
        }
        if key == entry.0 {
            assert(has_key(after, key, n));
        } else if as_map(entries).contains_key(key) {
            let i = choose|i: int| has_key(entries, key, i);
            assert(has_key(after, key, i));
        }
    }
    assert forall|key: Seq<char>| #[trigger]
        as_map(after).contains_key(key) implies as_map(after)[key] == as_map(entries).insert(
        entry.0,
        entry.1,
    )[key] by {
        let i = choose|i: int| has_key(after, key, i);
        lemma_lookup(after, i);
        if i < n {
            lemma_lookup(entries, i);
        }
    }
    assert(as_map(after) =~= as_map(entries).insert(entry.0, entry.1));
}

/// Writing a row over one with the same key replaces it.
pub proof fn lemma_update<V>(entries: Seq<(Seq<char>, V)>, i: int, entry: (Seq<char>, V))
    requires
        distinct_keys(entries),
        0 <= i < entries.len(),
        entries[i].0 == entry.0,
    ensures
        distinct_keys(entries.update(i, entry)),
        as_map(entries.update(i, entry)) == as_map(entries).insert(entry.0, entry.1),
{
    let after = entries.update(i, entry);
    assert(distinct_keys(after)) by {
        assert forall|a: int, b: int| 0 <= a < b < after.len() implies after[a].0 != after[b].0 by {
            assert(after[a].0 == entries[a].0);
            assert(after[b].0 == entries[b].0);
        }
    }
    assert forall|key: Seq<char>|
        as_map(after).contains_key(key) <==> #[trigger] as_map(entries).insert(
            entry.0,
            entry.1,
        ).contains_key(key) by {
        if as_map(after).contains_key(key) {
            let j = choose|j: int| has_key(after, key, j);
            assert(has_key(entries, key, j));
        }
        if key == entry.0 {
            assert(has_key(after, key, i));
        } else if as_map(entries).contains_key(key) {
            let j = choose|j: int| has_key(entries, key, j);
            assert(has_key(after, key, j));
        }
    }
    assert forall|key: Seq<char>| #[trigger]
        as_map(after).contains_key(key) implies as_map(after)[key] == as_map(entries).insert(
        entry.0,
        entry.1,
    )[key] by {
        let j = choose|j: int| has_key(after, key, j);
        lemma_lookup(after, j);
        lemma_lookup(entries, j);
    }
    assert(as_map(after) =~= as_map(entries).insert(entry.0, entry.1));
}

/// Taking a row out removes its key.
pub proof fn lemma_remove<V>(entries: Seq<(Seq<char>, V)>, i: int)
    requires
        distinct_keys(entries),
        0 <= i < entries.len(),
    ensures
        distinct_keys(entries.remove(i)),
        as_map(entries.remove(i)) == as_map(entries).remove(entries[i].0),
{
    let after = entries.remove(i);
    let gone = entries[i].0;
    assert forall|a: int| 0 <= a < after.len() implies after[a] == entries[if a < i {
        a
    } else {
        a + 1
    }] by {}
    assert(distinct_keys(after)) by {
        assert forall|a: int, b: int| 0 <= a < b < after.len() implies after[a].0 != after[b].0 by {
            let a0 = if a < i { a } else { a + 1 };
            let b0 = if b < i { b } else { b + 1 };
            assert(entries[a0].0 != entries[b0].0);
        }
    }
    assert forall|key: Seq<char>|
        as_map(after).contains_key(key) <==> #[trigger] as_map(entries).remove(gone).contains_key(
            key,
        ) by {
        if as_map(after).contains_key(key) {
            let a = choose|a: int| has_key(after, key, a);
            let a0 = if a < i { a } else { a + 1 };
            assert(has_key(entries, key, a0));
            if a0 < i {
                assert(entries[a0].0 != entries[i].0);
            } else {
                assert(entries[i].0 != entries[a0].0);
            }
        }
        if key != gone && as_map(entries).contains_key(key) {
            let j = choose|j: int| has_key(entries, key, j);
            let a = if j < i { j } else { j - 1 };
            assert(has_key(after, key, a));
        }
    }
    assert forall|key: Seq<char>| #[trigger]
        as_map(after).contains_key(key) implies as_map(after)[key] == as_map(entries).remove(
        gone,
    )[key] by {
        let a = choose|a: int| has_key(after, key, a);
        let a0 = if a < i { a } else { a + 1 };
        lemma_lookup(after, a);
        lemma_lookup(entries, a0);
    }
    assert(as_map(after) =~= as_map(entries).remove(gone));
}

} // verus!
