use vstd::prelude::*;

verus! {

/// Role of a column within its table.
#[derive(Debug, Clone, Copy, PartialEq, Eq, Structural)]
pub enum ColumnType {
    /// Identifies a series; always string-valued.
    Tag,
    /// Carries a measured value.
    Field,
}

/// Declared scalar kind of a column's values.
#[derive(Debug, Clone, Copy, PartialEq, Eq, Structural)]
pub enum FieldType {
    String,
    Integer,
    Unsigned,
    Float,
    Boolean,
}

/// One scalar of a column. A float is held as its IEEE-754 bit pattern.
#[derive(Debug, Clone, PartialEq)]
pub enum FieldValue {
    U64(u64),
    I64(i64),
    Str(Vec<u8>),
    F64(u64),
    Bool(bool),
}

/// The value container of a column: one sub-vector per scalar kind, of
/// which at most the declared kind's is meant to be populated. Float values
/// are held as IEEE-754 bit patterns.
#[derive(Debug, Clone)]
pub struct Values {
    pub float_value: Option<Vec<u64>>,
    pub int_value: Option<Vec<i64>>,
    pub uint_value: Option<Vec<u64>>,
    pub bool_value: Option<Vec<bool>>,
    pub string_value: Option<Vec<String>>,
}

/// A decoded column. `None` in a field means that the field is absent from
/// the buffer.
#[derive(Debug, Clone)]
pub struct Column {
    pub name: Option<String>,
    pub column_type: ColumnType,
    pub field_type: FieldType,
    pub col_values: Option<Values>,
    pub nullbits: Option<Vec<u8>>,
}

/// A decoded table.
#[derive(Debug, Clone)]
pub struct Table {
    pub tab: Option<String>,
    pub columns: Option<Vec<Column>>,
}

/// A decoded batch: one database name and its tables.
#[derive(Debug, Clone)]
pub struct Points {
    pub db: Option<String>,
    pub tables: Option<Vec<Table>>,
}

/// The elements of an optional sub-vector; an absent one has none.
pub open spec fn present_seq<T>(v: Option<Vec<T>>) -> Seq<T> {
    match v {
        Some(x) => x@,
        None => Seq::empty(),
    }
}

/// Bit `i` of a byte string: bit `i % 8` of byte `i / 8`, least significant
/// bit first.
pub open spec fn bit_set(bytes: Seq<u8>, i: int) -> bool {
    0 <= i < 8 * bytes.len() && (bytes[i / 8] >> ((i % 8) as u8)) & 1u8 == 1u8
}

/// Bytes needed for a bitmap of `rows` bits.
pub open spec fn bitmap_len(rows: nat) -> nat {
    (rows + 7) / 8
}

impl Column {
    pub open spec fn string_seq(self) -> Seq<String> {
        match self.col_values {
            Some(v) => present_seq(v.string_value),
            None => Seq::empty(),
        }
    }

    pub open spec fn bool_seq(self) -> Seq<bool> {
        match self.col_values {
            Some(v) => present_seq(v.bool_value),
            None => Seq::empty(),
        }
    }

    pub open spec fn int_seq(self) -> Seq<i64> {
        match self.col_values {
            Some(v) => present_seq(v.int_value),
            None => Seq::empty(),
        }
    }

    pub open spec fn float_seq(self) -> Seq<u64> {
        match self.col_values {
            Some(v) => present_seq(v.float_value),
            None => Seq::empty(),
        }
    }

    pub open spec fn uint_seq(self) -> Seq<u64> {
        match self.col_values {
            Some(v) => present_seq(v.uint_value),
            None => Seq::empty(),
        }
    }

    /// Number of rows: the length of the sub-vector of the declared kind.
    pub open spec fn row_count(self) -> nat {
        match self.field_type {
            FieldType::String => self.string_seq().len(),
            FieldType::Integer => self.int_seq().len(),
            FieldType::Unsigned => self.uint_seq().len(),
            FieldType::Float => self.float_seq().len(),
            FieldType::Boolean => self.bool_seq().len(),
        }
    }

    /// A column as an encoder writes it: every field present, a tag is
    /// string-valued, and the null bitmap holds one bit per row with the
    /// padding bits of its last byte clear.
    pub open spec fn well_formed(self) -> bool {
        &&& self.name is Some
        &&& self.col_values is Some
        &&& self.column_type == ColumnType::Tag ==> self.field_type == FieldType::String
        &&& self.nullbits is Some
        &&& self.nullbits->0@.len() == bitmap_len(self.row_count())
        &&& forall|i: int|
            self.row_count() <= i < 8 * self.nullbits->0@.len() ==> !#[trigger] bit_set(
                self.nullbits->0@,
                i,
            )
    }
}

impl Table {
    pub open spec fn column_seq(self) -> Seq<Column> {
        present_seq(self.columns)
    }

    /// Name and columns present, and every column well formed.
    pub open spec fn well_formed(self) -> bool {
        &&& self.tab is Some
        &&& self.columns is Some
        &&& forall|j: int| 0 <= j < self.column_seq().len() ==> #[trigger] self.column_seq()[j].well_formed()
    }
}

impl Points {
    pub open spec fn table_seq(self) -> Seq<Table> {
        present_seq(self.tables)
    }

    /// Database name and tables present, and every table well formed.
    pub open spec fn well_formed(self) -> bool {
        &&& self.db is Some
        &&& self.tables is Some
        &&& forall|i: int| 0 <= i < self.table_seq().len() ==> #[trigger] self.table_seq()[i].well_formed()
    }
}

} // verus!
