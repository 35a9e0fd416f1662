//! A collection of the document store, as the decisions of this crate see
//! it: rows in the order in which they were first written, each found again
//! by its natural key.
//!
//! The store itself is the caller's. This module says what the writes that
//! the crate plans do to a collection, and proves what they keep: no key
//! twice, and nothing changed by writing the same batch again.

use vstd::prelude::*;

verus! {

/// One stored document with the natural key it is found by.
pub struct Row<K, D> {
    pub key: K,
    pub document: D,
}

/// The position of the first row stored under `key`; the number of rows
/// where no row is.
pub open spec fn first_with<K, D>(rows: Seq<Row<K, D>>, key: K) -> int
    decreases rows.len(),
{
    if rows.len() == 0 || rows[0].key == key {
        0
    } else {
        1 + first_with(rows.drop_first(), key)
    }
}

/// Whether a row is stored under `key`.
pub open spec fn holds<K, D>(rows: Seq<Row<K, D>>, key: K) -> bool {
    first_with(rows, key) < rows.len()
}

/// Whether no two rows share a key.
pub open spec fn keys_unique<K, D>(rows: Seq<Row<K, D>>) -> bool {
    forall|i: int, j: int| 0 <= i < j < rows.len() ==> (#[trigger] rows[i]).key != (
    #[trigger] rows[j]).key
}

/// Whether two collections hold the same keys at the same positions.
pub open spec fn same_keys<K, D>(a: Seq<Row<K, D>>, b: Seq<Row<K, D>>) -> bool {
    &&& a.len() == b.len()
    &&& forall|i: int| 0 <= i < a.len() ==> (#[trigger] a[i]).key == (#[trigger] b[i]).key
}

/// The collection after an upsert of `row`: the first row under its key is
/// replaced as a whole; where there is none, `row` is added at the end.
pub open spec fn upserted<K, D>(rows: Seq<Row<K, D>>, row: Row<K, D>) -> Seq<Row<K, D>> {
    if holds(rows, row.key) {
        rows.update(first_with(rows, row.key), row)
    } else {
        rows.push(row)
    }
}

/// The collection after the upserts of `writes`, one after the other.
pub open spec fn written<K, D>(rows: Seq<Row<K, D>>, writes: Seq<Row<K, D>>) -> Seq<Row<K, D>>
    decreases writes.len(),
{
    if writes.len() == 0 {
        rows
    } else {
        upserted(written(rows, writes.drop_last()), writes.last())
    }
}

/// The collection after the rows of `batch` were added as new rows, with no
/// regard to the keys already there.
pub open spec fn inserted<K, D>(rows: Seq<Row<K, D>>, batch: Seq<Row<K, D>>) -> Seq<Row<K, D>> {
    rows + batch
}

/// The document that the last write of `writes` under `key` carries.
pub open spec fn last_write<K, D>(writes: Seq<Row<K, D>>, key: K) -> Option<D>
    decreases writes.len(),
{
    if writes.len() == 0 {
        None
    } else if writes.last().key == key {
        Some(writes.last().document)
    } else {
        last_write(writes.drop_last(), key)
    }
}

/// `rows` with, for every key that `writes` names, the first row under that
/// key holding the document of the last such write.
pub open spec fn settled<K, D>(rows: Seq<Row<K, D>>, writes: Seq<Row<K, D>>) -> Seq<Row<K, D>> {
    Seq::new(
        rows.len(),
        |i: int|
            match last_write(writes, rows[i].key) {
                Some(document) if i == first_with(rows, rows[i].key) => Row {
                    key: rows[i].key,
                    document,
                },
                _ => rows[i],
            },
    )
}

/// `first_with` finds a row under the key, and the first one.
pub proof fn lemma_first_with<K, D>(rows: Seq<Row<K, D>>, key: K)
    ensures
        0 <= first_with(rows, key) <= rows.len(),
        holds(rows, key) ==> rows[first_with(rows, key)].key == key,
        forall|j: int| 0 <= j < first_with(rows, key) ==> (#[trigger] rows[j]).key != key,
    decreases rows.len(),
{
    if rows.len() > 0 && rows[0].key != key {
        let rest = rows.drop_first();
        lemma_first_with(rest, key);
        assert forall|j: int| 0 <= j < first_with(rows, key) implies (#[trigger] rows[j]).key
            != key by {
            if j > 0 {
                assert(rest[j - 1] == rows[j]);
            }
        }
        if holds(rows, key) {
            assert(rest[first_with(rest, key)] == rows[first_with(rest, key) + 1]);
        }
    }
}

/// A position that holds `key`, with no row under `key` before it, is the
/// one `first_with` gives; so is the number of rows where none holds `key`.
pub proof fn lemma_first_with_is<K, D>(rows: Seq<Row<K, D>>, key: K, at: int)
    requires
        0 <= at <= rows.len(),
        at < rows.len() ==> rows[at].key == key,
        forall|j: int| 0 <= j < at ==> (#[trigger] rows[j]).key != key,
    ensures
        first_with(rows, key) == at,
{
    lemma_first_with(rows, key);
    let found = first_with(rows, key);
    if found < at {
        assert(rows[found].key != key);
    } else if at < found {
        assert(rows[at].key != key);
    }
}

/// Collections with the same keys at the same positions find every key at
/// the same position.
pub proof fn lemma_same_keys_first_with<K, D>(a: Seq<Row<K, D>>, b: Seq<Row<K, D>>, key: K)
    requires
        same_keys(a, b),
    ensures
        first_with(a, key) == first_with(b, key),
{
    lemma_first_with(a, key);
    let at = first_with(a, key);
    assert forall|j: int| 0 <= j < at implies (#[trigger] b[j]).key != key by {
        assert(a[j].key != key);
    }
    if at < a.len() {
        assert(a[at].key == b[at].key);
    }
    lemma_first_with_is(b, key, at);
}

/// An upsert leaves every key where it was, puts a new key at the end, and
/// afterwards the first row under the written key is the written row.
pub proof fn lemma_upserted<K, D>(rows: Seq<Row<K, D>>, row: Row<K, D>)
    ensures
        holds(rows, row.key) ==> same_keys(upserted(rows, row), rows),
        holds(upserted(rows, row), row.key),
        first_with(upserted(rows, row), row.key) == first_with(rows, row.key),
        upserted(rows, row)[first_with(rows, row.key)] == row,
        forall|key: K|
            holds(rows, key) ==> #[trigger] first_with(upserted(rows, row), key) == first_with(
                rows,
                key,
            ),
        forall|i: int|
            0 <= i < rows.len() && i != first_with(rows, row.key) ==> #[trigger] upserted(
                rows,
                row,
            )[i] == rows[i],
{
    let after = upserted(rows, row);
    let at = first_with(rows, row.key);
    lemma_first_with(rows, row.key);
    assert forall|j: int| 0 <= j < at implies (#[trigger] after[j]).key != row.key by {
        assert(rows[j].key != row.key);
    }
    lemma_first_with_is(after, row.key, at);
    assert forall|key: K| holds(rows, key) implies #[trigger] first_with(after, key) == first_with(
        rows,
        key,
    ) by {
        lemma_first_with(rows, key);
        let found = first_with(rows, key);
        assert forall|j: int| 0 <= j < found implies (#[trigger] after[j]).key != key by {
            assert(rows[j].key != key);
        }
        lemma_first_with_is(after, key, found);
    }
}

/// An upsert by natural key never makes a second row under a key.
pub proof fn law_upsert_keeps_keys_unique<K, D>(rows: Seq<Row<K, D>>, row: Row<K, D>)
    requires
        keys_unique(rows),
    ensures
        keys_unique(upserted(rows, row)),
{
    let after = upserted(rows, row);
    lemma_first_with(rows, row.key);
    lemma_upserted(rows, row);
    assert forall|i: int, j: int| 0 <= i < j < after.len() implies (#[trigger] after[i]).key != (
    #[trigger] after[j]).key by {
        if holds(rows, row.key) {
            assert(rows[i].key != rows[j].key);
        } else if j < rows.len() {
            assert(rows[i].key != rows[j].key);
        } else {
            assert(rows[i].key != row.key);
        }
    }
}

/// An upsert of a row that is stored already, as the first under its key,
/// changes nothing.
pub proof fn law_upsert_of_stored_row_is_noop<K, D>(rows: Seq<Row<K, D>>, row: Row<K, D>)
    requires
        holds(rows, row.key),
        rows[first_with(rows, row.key)] == row,
    ensures
        upserted(rows, row) == rows,
{
    lemma_first_with(rows, row.key);
    assert(upserted(rows, row) =~= rows);
}

/// A batch of upserts never makes a second row under a key.
pub proof fn law_writes_keep_keys_unique<K, D>(rows: Seq<Row<K, D>>, writes: Seq<Row<K, D>>)
    requires
        keys_unique(rows),
    ensures
        keys_unique(written(rows, writes)),
    decreases writes.len(),
{
    if writes.len() > 0 {
        law_writes_keep_keys_unique(rows, writes.drop_last());
        law_upsert_keeps_keys_unique(written(rows, writes.drop_last()), writes.last());
    }
}

/// After a batch of upserts every key of the batch is stored, and the first
/// row under it holds the document of the last write under that key.
pub proof fn lemma_written_holds_last<K, D>(rows: Seq<Row<K, D>>, writes: Seq<Row<K, D>>, key: K)
    ensures
        holds(rows, key) ==> holds(written(rows, writes), key),
        last_write(writes, key) matches Some(document) ==> {
            &&& holds(written(rows, writes), key)
            &&& written(rows, writes)[first_with(written(rows, writes), key)] == (Row {
                key,
                document,
            })
        },
    decreases writes.len(),
{
    if writes.len() > 0 {
        let before = written(rows, writes.drop_last());
        let row = writes.last();
        lemma_written_holds_last(rows, writes.drop_last(), key);
        lemma_upserted(before, row);
        lemma_first_with(before, row.key);
        lemma_first_with(before, key);
        if row.key != key && last_write(writes, key) is Some {
            assert(first_with(upserted(before, row), key) == first_with(before, key));
        }
    }
}

/// Every key that the writes name is stored after them.
pub proof fn lemma_written_holds_keys<K, D>(rows: Seq<Row<K, D>>, writes: Seq<Row<K, D>>, j: int)
    requires
        0 <= j < writes.len(),
    ensures
        holds(written(rows, writes), writes[j].key),
    decreases writes.len(),
{
    let before = written(rows, writes.drop_last());
    lemma_upserted(before, writes.last());
    if j < writes.len() - 1 {
        lemma_written_holds_keys(rows, writes.drop_last(), j);
        assert(writes.drop_last()[j] == writes[j]);
        assert(first_with(upserted(before, writes.last()), writes[j].key) == first_with(
            before,
            writes[j].key,
        ));
        if !holds(before, writes.last().key) {
            assert(upserted(before, writes.last()).len() == before.len() + 1);
        }
    }
}

/// Where every key of the writes is stored already, the writes add no row:
/// they leave each named key's first row with the document written last.
pub proof fn lemma_written_settles<K, D>(rows: Seq<Row<K, D>>, writes: Seq<Row<K, D>>)
    requires
        forall|j: int| 0 <= j < writes.len() ==> holds(rows, (#[trigger] writes[j]).key),
    ensures
        written(rows, writes) == settled(rows, writes),
    decreases writes.len(),
{
    if writes.len() == 0 {
        assert(settled(rows, writes) =~= rows);
    } else {
        let earlier = writes.drop_last();
        let row = writes.last();
        assert forall|j: int| 0 <= j < earlier.len() implies holds(
            rows,
            (#[trigger] earlier[j]).key,
        ) by {
            assert(earlier[j] == writes[j]);
        }
        lemma_written_settles(rows, earlier);
        let before = settled(rows, earlier);
        assert(same_keys(before, rows));
        lemma_same_keys_first_with(before, rows, row.key);
        lemma_first_with(rows, row.key);
        let at = first_with(rows, row.key);
        assert(holds(rows, writes[writes.len() - 1].key));
        assert(upserted(before, row) == before.update(at, row));
        assert(before.update(at, row) =~= settled(rows, writes));
    }
}

/// Writing a batch of upserts a second time changes nothing: no row is
/// added and no document differs.
pub proof fn law_writes_are_idempotent<K, D>(rows: Seq<Row<K, D>>, writes: Seq<Row<K, D>>)
    ensures
        written(written(rows, writes), writes) == written(rows, writes),
{
    let once = written(rows, writes);
    assert forall|j: int| 0 <= j < writes.len() implies holds(once, (#[trigger] writes[j]).key) by {
        lemma_written_holds_keys(rows, writes, j);
    }
    lemma_written_settles(once, writes);
    assert forall|i: int| 0 <= i < once.len() implies settled(once, writes)[i] == once[i] by {
        lemma_written_holds_last(rows, writes, once[i].key);
    }
    assert(settled(once, writes) =~= once);
}

} // verus!
