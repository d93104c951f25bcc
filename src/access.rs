use vstd::prelude::*;
use crate::error::PointsError;
use crate::model::{Column, Points, Table, present_seq};

verus! {

/// A borrowed string result, seen as its characters.
pub open spec fn str_view(r: Result<&str, PointsError>) -> Result<Seq<char>, PointsError> {
    match r {
        Ok(s) => Ok(s@),
        Err(e) => Err(e),
    }
}

/// A borrowed slice result, seen as its elements.
pub open spec fn slice_view<T>(r: Result<&[T], PointsError>) -> Result<Seq<T>, PointsError> {
    match r {
        Ok(s) => Ok(s@),
        Err(e) => Err(e),
    }
}

/// A required string field: its characters, or `e` when it is absent.
pub open spec fn required_str(v: Option<String>, e: PointsError) -> Result<Seq<char>, PointsError> {
    match v {
        Some(s) => Ok(s@),
        None => Err(e),
    }
}

/// A required sequence field: its elements, or `e` when it is absent.
pub open spec fn required_seq<T>(v: Option<Vec<T>>, e: PointsError) -> Result<Seq<T>, PointsError> {
    match v {
        Some(x) => Ok(x@),
        None => Err(e),
    }
}

fn required_str_exec(v: &Option<String>, e: PointsError) -> (r: Result<&str, PointsError>)
    ensures
        str_view(r) == required_str(*v, e),
{
    match v {
        Some(s) => Ok(s.as_str()),
        None => Err(e),
    }
}

fn required_slice<T>(v: &Option<Vec<T>>, e: PointsError) -> (r: Result<&[T], PointsError>)
    ensures
        slice_view(r) == required_seq(*v, e),
{
    match v {
        Some(x) => Ok(x.as_slice()),
        None => Err(e),
    }
}

fn optional_len<T>(v: &Option<Vec<T>>) -> (r: usize)
    ensures
        r == present_seq(*v).len(),
{
    match v {
        Some(x) => x.len(),
        None => 0,
    }
}

fn optional_slice<T>(v: &Option<Vec<T>>) -> (r: &[T])
    ensures
        r@ == present_seq(*v),
{
    match v {
        Some(x) => x.as_slice(),
        None => &[],
    }
}

impl Points {
    pub open spec fn db_result(self) -> Result<Seq<char>, PointsError> {
        required_str(self.db, PointsError::PointsMissingDatabaseName)
    }

    pub open spec fn tables_result(self) -> Result<Seq<Table>, PointsError> {
        required_seq(self.tables, PointsError::PointsMissingTables)
    }

    /// The database name; fails only when the name field is absent.
    pub fn db_ext(&self) -> (r: Result<&str, PointsError>)
        ensures
            str_view(r) == self.db_result(),
    {
        required_str_exec(&self.db, PointsError::PointsMissingDatabaseName)
    }

    /// The tables in order; fails only when the tables field is absent.
    pub fn tables_iter_ext(&self) -> (r: Result<&[Table], PointsError>)
        ensures
            slice_view(r) == self.tables_result(),
    {
        required_slice(&self.tables, PointsError::PointsMissingTables)
    }
}

impl Table {
    pub open spec fn name_result(self) -> Result<Seq<char>, PointsError> {
        required_str(self.tab, PointsError::TableMissingName)
    }

    pub open spec fn columns_result(self) -> Result<Seq<Column>, PointsError> {
        required_seq(self.columns, PointsError::TableMissingColumns)
    }

    /// The table name; fails only when the name field is absent.
    pub fn tab_ext(&self) -> (r: Result<&str, PointsError>)
        ensures
            str_view(r) == self.name_result(),
    {
        required_str_exec(&self.tab, PointsError::TableMissingName)
    }

    /// The columns in order; fails only when the columns field is absent.
    pub fn columns_iter_ext(&self) -> (r: Result<&[Column], PointsError>)
        ensures
            slice_view(r) == self.columns_result(),
    {
        required_slice(&self.columns, PointsError::TableMissingColumns)
    }
}

impl Column {
    pub open spec fn name_result(self) -> Result<Seq<char>, PointsError> {
        required_str(self.name, PointsError::ColumnMissingNames)
    }

    pub open spec fn nullbits_result(self) -> Result<Seq<u8>, PointsError> {
        required_seq(self.nullbits, PointsError::ColumnMissingNullbits)
    }

    /// The sub-vector `s` of the value container, or the missing-values
    /// error when the container itself is absent.
    pub open spec fn values_result<T>(self, s: Seq<T>) -> Result<Seq<T>, PointsError> {
        if self.col_values is Some {
            Ok(s)
        } else {
            Err(PointsError::ColumnMissingValues)
        }
    }

    /// The column name; fails only when the name field is absent.
    pub fn name_ext(&self) -> (r: Result<&str, PointsError>)
        ensures
            str_view(r) == self.name_result(),
    {
        required_str_exec(&self.name, PointsError::ColumnMissingNames)
    }

    /// The null bitmap; fails only when the bitmap field is absent.
    pub fn nullbit_ext(&self) -> (r: Result<&[u8], PointsError>)
        ensures
            slice_view(r) == self.nullbits_result(),
    {
        required_slice(&self.nullbits, PointsError::ColumnMissingNullbits)
    }

    /// Number of string values; 0 when the container or that sub-vector is absent.
    pub fn string_values_len(&self) -> (r: usize)
        ensures
            r == self.string_seq().len(),
    {
        match &self.col_values {
            Some(v) => optional_len(&v.string_value),
            None => 0,
        }
    }

    /// The string values; empty when only that sub-vector is absent.
    pub fn string_values(&self) -> (r: Result<&[String], PointsError>)
        ensures
            slice_view(r) == self.values_result(self.string_seq()),
    {
        match &self.col_values {
            Some(v) => Ok(optional_slice(&v.string_value)),
            None => Err(PointsError::ColumnMissingValues),
        }
    }

    /// Number of boolean values; 0 when the container or that sub-vector is absent.
    pub fn bool_values_len(&self) -> (r: usize)
        ensures
            r == self.bool_seq().len(),
    {
        match &self.col_values {
            Some(v) => optional_len(&v.bool_value),
            None => 0,
        }
    }

    /// The boolean values; empty when only that sub-vector is absent.
    pub fn bool_values(&self) -> (r: Result<&[bool], PointsError>)
        ensures
            slice_view(r) == self.values_result(self.bool_seq()),
    {
        match &self.col_values {
            Some(v) => Ok(optional_slice(&v.bool_value)),
            None => Err(PointsError::ColumnMissingValues),
        }
    }

    /// Number of signed integer values; 0 when the container or that sub-vector is absent.
    pub fn int_values_len(&self) -> (r: usize)
        ensures
            r == self.int_seq().len(),
    {
        match &self.col_values {
            Some(v) => optional_len(&v.int_value),
            None => 0,
        }
    }

    /// The signed integer values; empty when only that sub-vector is absent.
    pub fn int_values(&self) -> (r: Result<&[i64], PointsError>)
        ensures
            slice_view(r) == self.values_result(self.int_seq()),
    {
        match &self.col_values {
            Some(v) => Ok(optional_slice(&v.int_value)),
            None => Err(PointsError::ColumnMissingValues),
        }
    }

    /// Number of float values; 0 when the container or that sub-vector is absent.
    pub fn float_values_len(&self) -> (r: usize)
        ensures
            r == self.float_seq().len(),
    {
        match &self.col_values {
            Some(v) => optional_len(&v.float_value),
            None => 0,
        }
    }

    /// The float values as IEEE-754 bit patterns; empty when only that
    /// sub-vector is absent.
    pub fn float_values(&self) -> (r: Result<&[u64], PointsError>)
        ensures
            slice_view(r) == self.values_result(self.float_seq()),
    {
        match &self.col_values {
            Some(v) => Ok(optional_slice(&v.float_value)),
            None => Err(PointsError::ColumnMissingValues),
        }
    }

    /// Number of unsigned integer values; 0 when the container or that sub-vector is absent.
    pub fn uint_values_len(&self) -> (r: usize)
        ensures
            r == self.uint_seq().len(),
    {
        match &self.col_values {
            Some(v) => optional_len(&v.uint_value),
            None => 0,
        }
    }

    /// The unsigned integer values; empty when only that sub-vector is absent.
    pub fn uint_values(&self) -> (r: Result<&[u64], PointsError>)
        ensures
            slice_view(r) == self.values_result(self.uint_seq()),
    {
        match &self.col_values {
            Some(v) => Ok(optional_slice(&v.uint_value)),
            None => Err(PointsError::ColumnMissingValues),
        }
    }
}

} // verus!
