//! Laws of the store, stated over the model that the operations' contracts
//! use (`lookup`, `after_insert`, `after_remove`, `after_clear`, `size`).

use vstd::prelude::*;

use crate::model::{after_clear, after_insert, after_remove, lookup, size, Cell, Table};
use crate::statements::create_table_effect;
use crate::value::{option_cell, StoreValue};

verus! {

/// A read of a key just written gives back the value written.
pub proof fn lemma_get_after_insert(t: Table, key: Seq<char>, cell: Cell)
    ensures
        lookup(after_insert(t, key, cell), key) == Some(cell),
{
}

/// Writing one key leaves what every other key reads unchanged.
pub proof fn lemma_insert_keeps_other_keys(t: Table, key: Seq<char>, other: Seq<char>, cell: Cell)
    requires
        other != key,
    ensures
        lookup(after_insert(t, key, cell), other) == lookup(t, other),
{
}

/// A second write to a key replaces the first: only the last value stays.
pub proof fn lemma_insert_overwrites(t: Table, key: Seq<char>, first: Cell, second: Cell)
    ensures
        after_insert(after_insert(t, key, first), key, second) == after_insert(t, key, second),
{
    assert(after_insert(after_insert(t, key, first), key, second) =~= after_insert(t, key, second));
}

/// After a key is removed, reading it finds nothing.
pub proof fn lemma_get_after_remove(t: Table, key: Seq<char>)
    ensures
        lookup(after_remove(t, key), key) is None,
{
}

/// Removing one key leaves what every other key reads unchanged.
pub proof fn lemma_remove_keeps_other_keys(t: Table, key: Seq<char>, other: Seq<char>)
    requires
        other != key,
    ensures
        lookup(after_remove(t, key), other) == lookup(t, other),
{
}

/// Removing a key that was absent before it was inserted gives back the
/// table as it was: the removal undoes the insertion.
pub proof fn lemma_remove_undoes_insert(t: Table, key: Seq<char>, cell: Cell)
    requires
        !t.contains_key(key),
    ensures
        after_remove(after_insert(t, key, cell), key) == t,
{
    assert(after_remove(after_insert(t, key, cell), key) =~= t);
}

/// Removing an absent key changes nothing.
pub proof fn lemma_remove_absent_key(t: Table, key: Seq<char>)
    requires
        !t.contains_key(key),
    ensures
        after_remove(t, key) == t,
{
    assert(after_remove(t, key) =~= t);
}

/// After the store is cleared, no key reads a value and the store is empty.
pub proof fn lemma_clear_empties(t: Table, key: Seq<char>)
    ensures
        lookup(after_clear(t), key) is None,
        size(after_clear(t)) == 0,
{
    assert(after_clear(t).dom() =~= Set::<Seq<char>>::empty());
}

/// Inserting a new key adds one pair; overwriting a key adds none.
pub proof fn lemma_size_after_insert(t: Table, key: Seq<char>, cell: Cell)
    requires
        t.dom().finite(),
    ensures
        after_insert(t, key, cell).dom().finite(),
        size(after_insert(t, key, cell)) == size(t) + if t.contains_key(key) {
            0int
        } else {
            1int
        },
{
    if t.contains_key(key) {
        assert(after_insert(t, key, cell).dom() =~= t.dom());
    }
}

/// Removing a present key takes away one pair; removing an absent key
/// takes away none.
pub proof fn lemma_size_after_remove(t: Table, key: Seq<char>)
    requires
        t.dom().finite(),
    ensures
        after_remove(t, key).dom().finite(),
        size(after_remove(t, key)) == size(t) - if t.contains_key(key) {
            1int
        } else {
            0int
        },
{
    if !t.contains_key(key) {
        assert(after_remove(t, key).dom() =~= t.dom());
    }
}

/// A store is empty (its length is 0) exactly when no key reads a value.
pub proof fn lemma_empty_iff_no_key(t: Table)
    requires
        t.dom().finite(),
    ensures
        size(t) == 0 <==> (forall|key: Seq<char>| #[trigger] lookup(t, key) is None),
{
    if size(t) == 0 {
        t.dom().lemma_len0_is_empty();
    } else {
        let key = t.dom().choose();
        assert(t.dom().contains(key));
        assert(lookup(t, key) is Some);
    }
}

/// A key is contained exactly when reading it finds a value.
pub proof fn lemma_contains_iff_found(t: Table, key: Seq<char>)
    ensures
        t.contains_key(key) <==> lookup(t, key) is Some,
{
}

/// A string read back from a text cell equals the string written to it.
pub proof fn lemma_text_round_trip(read: String, written: &str)
    ensures
        read.cell() == <String as StoreValue>::ref_cell(written) <==> read@ == written@,
{
}

/// Bytes read back from a blob cell equal the bytes written to it.
pub proof fn lemma_blob_round_trip(read: Vec<u8>, written: &[u8])
    ensures
        read.cell() == <Vec<u8> as StoreValue>::ref_cell(written) <==> read@ == written@,
{
}

/// In a string store, reading a key right after writing a string to it
/// gives back that string.
pub proof fn lemma_text_read_after_write(t: Table, key: Seq<char>, written: &str, read: Option<String>)
    requires
        option_cell(read) == lookup(
            after_insert(t, key, <String as StoreValue>::ref_cell(written)),
            key,
        ),
    ensures
        read is Some,
        read->0@ == written@,
{
}

/// In a byte store, reading a key right after writing bytes to it gives
/// back those bytes.
pub proof fn lemma_blob_read_after_write(t: Table, key: Seq<char>, written: &[u8], read: Option<Vec<u8>>)
    requires
        option_cell(read) == lookup(
            after_insert(t, key, <Vec<u8> as StoreValue>::ref_cell(written)),
            key,
        ),
    ensures
        read is Some,
        read->0@ == written@,
{
}

/// Making sure the table exists neither recreates nor empties an existing
/// table, and doing it twice is the same as doing it once.
pub proof fn lemma_create_table_keeps_table(before: Option<Table>)
    ensures
        before is Some ==> create_table_effect(before) == before,
        create_table_effect(create_table_effect(before)) == create_table_effect(before),
{
}

/// Writing the same pair twice is the same as writing it once.
pub proof fn lemma_insert_idempotent(t: Table, key: Seq<char>, cell: Cell)
    ensures
        after_insert(after_insert(t, key, cell), key, cell) == after_insert(t, key, cell),
{
    assert(after_insert(after_insert(t, key, cell), key, cell) =~= after_insert(t, key, cell));
}

/// Writes to two different keys can be made in either order.
pub proof fn lemma_insert_commutes(t: Table, k1: Seq<char>, c1: Cell, k2: Seq<char>, c2: Cell)
    requires
        k1 != k2,
    ensures
        after_insert(after_insert(t, k1, c1), k2, c2) == after_insert(after_insert(t, k2, c2), k1, c1),
{
    assert(after_insert(after_insert(t, k1, c1), k2, c2) =~= after_insert(
        after_insert(t, k2, c2),
        k1,
        c1,
    ));
}

/// Clearing twice is the same as clearing once.
pub proof fn lemma_clear_idempotent(t: Table)
    ensures
        after_clear(after_clear(t)) == after_clear(t),
{
}

/// `is_empty` answers true exactly when `len` answers 0: both describe the
/// size of the same table.
pub proof fn lemma_is_empty_iff_len_zero(t: Table, empty: bool, len: int)
    requires
        empty == (size(t) == 0),
        len == size(t),
    ensures
        empty == (len == 0),
{
}

} // verus!
