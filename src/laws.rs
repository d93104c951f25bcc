use vstd::prelude::*;
use crate::error::PointsError;
use crate::model::{Column, ColumnType, FieldType, Points, Table, bit_set, bitmap_len};
use crate::render::{column_block, nullbits_text, points_head, points_text};

verus! {

/// In a well-formed batch of `n >= 1` tables with `m >= 1` columns each, the
/// database name, the tables, and each table's name and columns all read
/// without error, with `n` tables and `m` columns in each, and every column
/// name reads without error.
pub proof fn lemma_well_formed_batch_reads(p: Points, n: nat, m: nat)
    requires
        p.well_formed(),
        n >= 1,
        m >= 1,
        p.table_seq().len() == n,
        forall|i: int| 0 <= i < n ==> (#[trigger] p.table_seq()[i]).column_seq().len() == m,
    ensures
        p.db_result() is Ok,
        p.tables_result() is Ok,
        p.tables_result()->Ok_0.len() == n,
        forall|i: int| 0 <= i < n ==> {
            let t = #[trigger] p.tables_result()->Ok_0[i];
            &&& t.name_result() is Ok
            &&& t.columns_result() is Ok
            &&& t.columns_result()->Ok_0.len() == m
            &&& forall|j: int| 0 <= j < m ==> (#[trigger] t.columns_result()->Ok_0[j]).name_result() is Ok
        },
{
    assert forall|i: int| 0 <= i < n implies {
        let t = #[trigger] p.tables_result()->Ok_0[i];
        &&& t.name_result() is Ok
        &&& t.columns_result() is Ok
        &&& t.columns_result()->Ok_0.len() == m
        &&& forall|j: int| 0 <= j < m ==> (#[trigger] t.columns_result()->Ok_0[j]).name_result() is Ok
    } by {
        let t = p.table_seq()[i];
        assert(t.well_formed());
        assert forall|j: int| 0 <= j < m implies (#[trigger] t.columns_result()->Ok_0[j]).name_result() is Ok by {
            assert(t.column_seq()[j].well_formed());
        }
    }
}

/// Without a tables field, reading the tables fails with the missing-tables
/// error, while the database name reads as before.
pub proof fn lemma_missing_tables(p: Points)
    requires
        p.tables is None,
    ensures
        p.tables_result() == Err::<Seq<Table>, PointsError>(PointsError::PointsMissingTables),
        p.db is Some ==> p.db_result() == Ok::<Seq<char>, PointsError>(p.db->0@),
{
}

/// A field column of integers with `r` values and no other values reads its
/// `r` integers, and reads every other kind as an empty sequence, without
/// error.
pub proof fn lemma_integer_column_reads(c: Column, r: nat)
    requires
        c.column_type == ColumnType::Field,
        c.field_type == FieldType::Integer,
        c.col_values is Some,
        c.int_seq().len() == r,
        c.string_seq().len() == 0,
        c.bool_seq().len() == 0,
        c.float_seq().len() == 0,
        c.uint_seq().len() == 0,
    ensures
        c.values_result(c.int_seq()) is Ok,
        c.values_result(c.int_seq())->Ok_0.len() == r,
        c.values_result(c.string_seq()) == Ok::<Seq<String>, PointsError>(Seq::empty()),
        c.values_result(c.bool_seq()) == Ok::<Seq<bool>, PointsError>(Seq::empty()),
        c.values_result(c.float_seq()) == Ok::<Seq<u64>, PointsError>(Seq::empty()),
        c.values_result(c.uint_seq()) == Ok::<Seq<u64>, PointsError>(Seq::empty()),
{
    assert(c.string_seq() =~= Seq::empty());
    assert(c.bool_seq() =~= Seq::empty());
    assert(c.float_seq() =~= Seq::empty());
    assert(c.uint_seq() =~= Seq::empty());
}

/// Without a value container, every kind of value fails to read with the
/// missing-values error, and every kind counts zero values.
pub proof fn lemma_missing_container(c: Column)
    requires
        c.col_values is None,
    ensures
        c.values_result(c.string_seq()) == Err::<Seq<String>, PointsError>(PointsError::ColumnMissingValues),
        c.values_result(c.bool_seq()) == Err::<Seq<bool>, PointsError>(PointsError::ColumnMissingValues),
        c.values_result(c.int_seq()) == Err::<Seq<i64>, PointsError>(PointsError::ColumnMissingValues),
        c.values_result(c.float_seq()) == Err::<Seq<u64>, PointsError>(PointsError::ColumnMissingValues),
        c.values_result(c.uint_seq()) == Err::<Seq<u64>, PointsError>(PointsError::ColumnMissingValues),
        c.string_seq().len() == 0,
        c.bool_seq().len() == 0,
        c.int_seq().len() == 0,
        c.float_seq().len() == 0,
        c.uint_seq().len() == 0,
{
}

/// The null bitmap of a well-formed column reads without error, holds
/// `ceil(rows / 8)` bytes, and a set bit `i` names a row `i` that has a value
/// in the sub-vector of the declared kind.
pub proof fn lemma_null_bitmap_shape(c: Column)
    requires
        c.well_formed(),
    ensures
        c.nullbits_result() is Ok,
        c.nullbits_result()->Ok_0.len() == bitmap_len(c.row_count()),
        forall|i: int| #[trigger] bit_set(c.nullbits_result()->Ok_0, i) ==> 0 <= i < c.row_count(),
{
    let bits = c.nullbits_result()->Ok_0;
    assert forall|i: int| #[trigger] bit_set(bits, i) implies 0 <= i < c.row_count() by {
        if i >= c.row_count() {
            assert(!bit_set(c.nullbits->0@, i));
        }
    }
}

/// Rendering has no precondition and places placeholders for absent parts:
/// a batch without tables renders its head and a placeholder line, and a
/// column without a null bitmap renders the missing-bitmap error in its
/// place.
pub proof fn lemma_render_placeholders(p: Points, c: Column)
    ensures
        p.tables is None ==> points_text(p) == points_head(p) + "No tables\n"@,
        c.nullbits is None ==> nullbits_text(c.nullbits) == "Err(ColumnMissingNullbits)"@,
        c.nullbits is None ==> column_block(c).subrange(
            column_block(c).len() - "Err(ColumnMissingNullbits)\n"@.len(),
            column_block(c).len() as int,
        ) == "Err(ColumnMissingNullbits)"@ + "\n"@,
{
    if c.nullbits is None {
        let tail = "Err(ColumnMissingNullbits)"@ + "\n"@;
        reveal_strlit("Err(ColumnMissingNullbits)\n");
        reveal_strlit("Err(ColumnMissingNullbits)");
        reveal_strlit("\n");
        assert(column_block(c).subrange(
            column_block(c).len() - "Err(ColumnMissingNullbits)\n"@.len(),
            column_block(c).len() as int,
        ) =~= tail);
    }
}

} // verus!
