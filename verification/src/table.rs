//! Rows in a vector, seen as a map from each row's key to the row.

use vstd::prelude::*;

verus! {

/// Whether no two rows have the same key.
pub open spec fn distinct_keys<V>(rows: Seq<V>, key: spec_fn(V) -> u128) -> bool {
    forall|i: int, j: int| 0 <= i < j < rows.len() ==> key(#[trigger] rows[i]) != key(
        #[trigger] rows[j],
    )
}

/// Whether some row has the key.
pub open spec fn has_key<V>(rows: Seq<V>, key: spec_fn(V) -> u128, k: u128) -> bool {
    exists|i: int| 0 <= i < rows.len() && key(#[trigger] rows[i]) == k
}

/// The place of a row that has the key.
pub open spec fn place_of<V>(rows: Seq<V>, key: spec_fn(V) -> u128, k: u128) -> int {
    choose|i: int| 0 <= i < rows.len() && key(#[trigger] rows[i]) == k
}

/// The map from the keys of the rows to the rows.
pub open spec fn keyed<V>(rows: Seq<V>, key: spec_fn(V) -> u128) -> Map<u128, V> {
    Map::new(|k: u128| has_key(rows, key, k), |k: u128| rows[place_of(rows, key, k)])
}

/// Where keys are distinct, each row is the entry under its key.
pub proof fn row_is_entry<V>(rows: Seq<V>, key: spec_fn(V) -> u128, i: int)
    requires
        distinct_keys(rows, key),
        0 <= i < rows.len(),
    ensures
        keyed(rows, key).dom().contains(key(rows[i])),
        keyed(rows, key)[key(rows[i])] == rows[i],
{
    let k = key(rows[i]);
    assert(has_key(rows, key, k));
    let j = place_of(rows, key, k);
    if j < i {
        assert(key(rows[j]) != key(rows[i]));
    } else if i < j {
        assert(key(rows[i]) != key(rows[j]));
    }
}

/// Each entry is one of the rows.
pub proof fn entry_is_row<V>(rows: Seq<V>, key: spec_fn(V) -> u128, k: u128)
    requires
        keyed(rows, key).dom().contains(k),
    ensures
        0 <= place_of(rows, key, k) < rows.len(),
        key(rows[place_of(rows, key, k)]) == k,
        keyed(rows, key)[k] == rows[place_of(rows, key, k)],
{
    assert(has_key(rows, key, k));
}

/// A row appended under a fresh key is a new entry, and the keys stay
/// distinct.
pub proof fn push_is_insert<V>(rows: Seq<V>, key: spec_fn(V) -> u128, row: V)
    requires
        distinct_keys(rows, key),
        !has_key(rows, key, key(row)),
    ensures
        distinct_keys(rows.push(row), key),
        keyed(rows.push(row), key) == keyed(rows, key).insert(key(row), row),
{
    let longer = rows.push(row);
    let expected = keyed(rows, key).insert(key(row), row);
    assert forall|i: int, j: int| 0 <= i < j < longer.len() implies key(#[trigger] longer[i])
        != key(#[trigger] longer[j]) by {
        if j < rows.len() {
            assert(key(rows[i]) != key(rows[j]));
        } else {
            assert(key(rows[i]) != key(row));
        }
    }
    assert forall|k: u128| keyed(longer, key).dom().contains(k) <==> expected.dom().contains(
        k,
    ) by {
        if has_key(longer, key, k) {
            let i = place_of(longer, key, k);
            if i < rows.len() {
                assert(key(rows[i]) == k);
            }
        }
        if has_key(rows, key, k) {
            let i = place_of(rows, key, k);
            assert(key(longer[i]) == k);
        }
        if k == key(row) {
            assert(key(longer[rows.len() as int]) == k);
        }
    }
    assert forall|k: u128| keyed(longer, key).dom().contains(k) implies keyed(longer, key)[k]
        == expected[k] by {
        assert(has_key(longer, key, k));
        let i = place_of(longer, key, k);
        if k == key(row) {
            if i < rows.len() {
                assert(key(rows[i]) == k);
            }
        } else {
            assert(i < rows.len());
            assert(key(rows[i]) == k);
            row_is_entry(rows, key, i);
        }
    }
    assert(keyed(longer, key) =~= expected);
}

/// A row replaced by one with the same key replaces the entry, and the keys
/// stay distinct.
pub proof fn update_is_insert<V>(rows: Seq<V>, key: spec_fn(V) -> u128, i: int, row: V)
    requires
        distinct_keys(rows, key),
        0 <= i < rows.len(),
        key(rows[i]) == key(row),
    ensures
        distinct_keys(rows.update(i, row), key),
        keyed(rows.update(i, row), key) == keyed(rows, key).insert(key(row), row),
{
    let changed = rows.update(i, row);
    let expected = keyed(rows, key).insert(key(row), row);
    assert forall|a: int, b: int| 0 <= a < b < changed.len() implies key(#[trigger] changed[a])
        != key(#[trigger] changed[b]) by {
        assert(key(rows[a]) != key(rows[b]));
    }
    assert forall|k: u128| keyed(changed, key).dom().contains(k) <==> expected.dom().contains(
        k,
    ) by {
        if has_key(changed, key, k) {
            let j = place_of(changed, key, k);
            assert(key(rows[j]) == k);
        }
        if has_key(rows, key, k) {
            let j = place_of(rows, key, k);
            assert(key(changed[j]) == k);
        }
        if k == key(row) {
            assert(key(changed[i]) == k);
        }
    }
    assert forall|k: u128| keyed(changed, key).dom().contains(k) implies keyed(changed, key)[k]
        == expected[k] by {
        assert(has_key(changed, key, k));
        let j = place_of(changed, key, k);
        assert(key(rows[j]) == k);
        if k == key(row) {
            if j < i {
                assert(key(rows[j]) != key(rows[i]));
            } else if i < j {
                assert(key(rows[i]) != key(rows[j]));
            }
        } else {
            assert(j != i);
            row_is_entry(rows, key, j);
        }
    }
    assert(keyed(changed, key) =~= expected);
}

/// A row taken out takes its entry out, and the keys stay distinct.
pub proof fn remove_is_remove<V>(rows: Seq<V>, key: spec_fn(V) -> u128, i: int)
    requires
        distinct_keys(rows, key),
        0 <= i < rows.len(),
    ensures
        distinct_keys(rows.remove(i), key),
        keyed(rows.remove(i), key) == keyed(rows, key).remove(key(rows[i])),
{
    let shorter = rows.remove(i);
    let gone = key(rows[i]);
    let expected = keyed(rows, key).remove(gone);
    assert forall|a: int, b: int| 0 <= a < b < shorter.len() implies key(#[trigger] shorter[a])
        != key(#[trigger] shorter[b]) by {
        let a0 = if a < i {
            a
        } else {
            a + 1
        };
        let b0 = if b < i {
            b
        } else {
            b + 1
        };
        assert(shorter[a] == rows[a0] && shorter[b] == rows[b0]);
        assert(key(rows[a0]) != key(rows[b0]));
    }
    assert forall|k: u128| keyed(shorter, key).dom().contains(k) <==> expected.dom().contains(
        k,
    ) by {
        if has_key(shorter, key, k) {
            let j = place_of(shorter, key, k);
            let j0 = if j < i {
                j
            } else {
                j + 1
            };
            assert(shorter[j] == rows[j0]);
            assert(key(rows[j0]) == k);
            if j0 < i {
                assert(key(rows[j0]) != key(rows[i]));
            } else {
                assert(key(rows[i]) != key(rows[j0]));
            }
        }
        if has_key(rows, key, k) && k != gone {
            let j = place_of(rows, key, k);
            let j1 = if j < i {
                j
            } else {
                j - 1
            };
            assert(shorter[j1] == rows[j]);
            assert(key(shorter[j1]) == k);
        }
    }
    assert forall|k: u128| keyed(shorter, key).dom().contains(k) implies keyed(shorter, key)[k]
        == expected[k] by {
        assert(has_key(shorter, key, k));
        let j = place_of(shorter, key, k);
        let j0 = if j < i {
            j
        } else {
            j + 1
        };
        assert(shorter[j] == rows[j0]);
        row_is_entry(rows, key, j0);
    }
    assert(keyed(shorter, key) =~= expected);
}

} // verus!
