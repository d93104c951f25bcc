use vstd::prelude::*;
use crate::model::{Column, ColumnType, FieldType, Points, Table, Values};
use crate::text::{
    bool_list, bool_texts, byte_list, byte_texts, float_list, float_texts, int_list, int_texts,
    list_text, str_list, str_texts, uint_list, uint_texts,
};

verus! {

pub open spec fn column_type_text(t: ColumnType) -> Seq<char> {
    match t {
        ColumnType::Tag => "Tag"@,
        ColumnType::Field => "Field"@,
    }
}

pub open spec fn field_type_text(t: FieldType) -> Seq<char> {
    match t {
        FieldType::String => "String"@,
        FieldType::Integer => "Integer"@,
        FieldType::Unsigned => "Unsigned"@,
        FieldType::Float => "Float"@,
        FieldType::Boolean => "Boolean"@,
    }
}

/// The characters of a present name, else the placeholder.
pub open spec fn name_or(v: Option<String>, placeholder: Seq<char>) -> Seq<char> {
    match v {
        Some(s) => s@,
        None => placeholder,
    }
}

pub open spec fn some_text(inner: Seq<char>) -> Seq<char> {
    "Some("@ + inner + ")"@
}

pub open spec fn float_vec_text(v: Option<Vec<u64>>) -> Seq<char> {
    match v {
        Some(x) => some_text(list_text(float_texts(x@))),
        None => "None"@,
    }
}

pub open spec fn int_vec_text(v: Option<Vec<i64>>) -> Seq<char> {
    match v {
        Some(x) => some_text(list_text(int_texts(x@))),
        None => "None"@,
    }
}

pub open spec fn uint_vec_text(v: Option<Vec<u64>>) -> Seq<char> {
    match v {
        Some(x) => some_text(list_text(uint_texts(x@))),
        None => "None"@,
    }
}

pub open spec fn bool_vec_text(v: Option<Vec<bool>>) -> Seq<char> {
    match v {
        Some(x) => some_text(list_text(bool_texts(x@))),
        None => "None"@,
    }
}

pub open spec fn str_vec_text(v: Option<Vec<String>>) -> Seq<char> {
    match v {
        Some(x) => some_text(list_text(str_texts(x@))),
        None => "None"@,
    }
}

/// The whole value container, every sub-vector in a fixed order.
pub open spec fn values_text(v: Values) -> Seq<char> {
    "Values { float_value: "@ + float_vec_text(v.float_value) + ", int_value: "@
        + int_vec_text(v.int_value) + ", uint_value: "@ + uint_vec_text(v.uint_value)
        + ", bool_value: "@ + bool_vec_text(v.bool_value) + ", string_value: "@
        + str_vec_text(v.string_value) + " }"@
}

pub open spec fn container_text(v: Option<Values>) -> Seq<char> {
    match v {
        Some(x) => some_text(values_text(x)),
        None => "None"@,
    }
}

pub open spec fn nullbits_text(v: Option<Vec<u8>>) -> Seq<char> {
    match v {
        Some(b) => "Ok("@ + list_text(byte_texts(b@)) + ")"@,
        None => "Err(ColumnMissingNullbits)"@,
    }
}

/// One column: name, role, declared type, value container and bitmap,
/// each on its own line.
pub open spec fn column_block(c: Column) -> Seq<char> {
    "\nColumn: "@ + name_or(c.name, "{!BAD_COLUMN_NAME}"@) + "\nColumn Type: "@
        + column_type_text(c.column_type) + "\n"@ + "\nField Type: "@ + field_type_text(
        c.field_type,
    ) + "\n"@ + "\nColumn Value: "@ + container_text(c.col_values) + "\n"@ + "\nNullBits: "@
        + nullbits_text(c.nullbits) + "\n"@
}

pub open spec fn columns_text(cs: Seq<Column>) -> Seq<char>
    decreases cs.len(),
{
    if cs.len() == 0 {
        Seq::empty()
    } else {
        columns_text(cs.drop_last()) + column_block(cs.last())
    }
}

/// The columns of a table, or a placeholder line when they are absent.
pub open spec fn table_body(t: Table) -> Seq<char> {
    match t.columns {
        Some(cs) => columns_text(cs@),
        None => "{!BAD_TABLE_POINTS}\n"@,
    }
}

pub open spec fn table_block(t: Table) -> Seq<char> {
    "Table: "@ + name_or(t.tab, "{!BAD_TABLE_NAME}"@) + table_body(t) + "\n"@
        + "------------------------------\n"@
}

pub open spec fn tables_text(ts: Seq<Table>) -> Seq<char>
    decreases ts.len(),
{
    if ts.len() == 0 {
        Seq::empty()
    } else {
        tables_text(ts.drop_last()) + table_block(ts.last())
    }
}

pub open spec fn points_head(p: Points) -> Seq<char> {
    "==============================\n"@ + "Database: "@ + name_or(p.db, "{!BAD_DB_NAME}"@)
        + "\n"@ + "------------------------------\n"@
}

/// The whole batch: a banner, the database name, then each table, or a
/// placeholder line when the tables are absent.
pub open spec fn points_text(p: Points) -> Seq<char> {
    points_head(p) + match p.tables {
        Some(ts) => tables_text(ts@),
        None => "No tables\n"@,
    }
}

fn append_name_or(s: &mut String, v: &Option<String>, placeholder: &str)
    ensures
        final(s)@ == old(s)@ + name_or(*v, placeholder@),
{
    match v {
        Some(n) => s.append(n.as_str()),
        None => s.append(placeholder),
    }
}

fn append_some(s: &mut String, inner: String)
    ensures
        final(s)@ == old(s)@ + some_text(inner@),
{
    s.append("Some(");
    s.append(inner.as_str());
    s.append(")");
    assert(final(s)@ =~= old(s)@ + some_text(inner@));
}

fn values_string(v: &Values) -> (r: String)
    ensures
        r@ == values_text(*v),
{
    let mut s = String::from_str("Values { float_value: ");
    match &v.float_value {
        Some(x) => append_some(&mut s, float_list(x.as_slice())),
        None => s.append("None"),
    }
    s.append(", int_value: ");
    match &v.int_value {
        Some(x) => append_some(&mut s, int_list(x.as_slice())),
        None => s.append("None"),
    }
    s.append(", uint_value: ");
    match &v.uint_value {
        Some(x) => append_some(&mut s, uint_list(x.as_slice())),
        None => s.append("None"),
    }
    s.append(", bool_value: ");
    match &v.bool_value {
        Some(x) => append_some(&mut s, bool_list(x.as_slice())),
        None => s.append("None"),
    }
    s.append(", string_value: ");
    match &v.string_value {
        Some(x) => append_some(&mut s, str_list(x.as_slice())),
        None => s.append("None"),
    }
    s.append(" }");
    assert(s@ =~= values_text(*v));
    s
}

impl Column {
    /// Renders this column as a block of lines; absent fields show a
    /// placeholder and never stop the rendering.
    pub fn render(&self) -> (r: String)
        ensures
            r@ == column_block(*self),
    {
        let mut s = String::from_str("\nColumn: ");
        append_name_or(&mut s, &self.name, "{!BAD_COLUMN_NAME}");
        s.append("\nColumn Type: ");
        match self.column_type {
            ColumnType::Tag => s.append("Tag"),
            ColumnType::Field => s.append("Field"),
        }
        s.append("\n");
        s.append("\nField Type: ");
        match self.field_type {
            FieldType::String => s.append("String"),
            FieldType::Integer => s.append("Integer"),
            FieldType::Unsigned => s.append("Unsigned"),
            FieldType::Float => s.append("Float"),
            FieldType::Boolean => s.append("Boolean"),
        }
        s.append("\n");
        s.append("\nColumn Value: ");
        match &self.col_values {
            Some(v) => append_some(&mut s, values_string(v)),
            None => s.append("None"),
        }
        s.append("\n");
        s.append("\nNullBits: ");
        match &self.nullbits {
            Some(b) => {
                s.append("Ok(");
                let t = byte_list(b.as_slice());
                s.append(t.as_str());
                s.append(")");
            },
            None => s.append("Err(ColumnMissingNullbits)"),
        }
        s.append("\n");
        assert(s@ =~= column_block(*self));
        s
    }
}

impl Table {
    /// Renders the columns of this table in order, or a placeholder line
    /// when the columns are absent.
    pub fn render(&self) -> (r: String)
        ensures
            r@ == table_body(*self),
    {
        match &self.columns {
            None => String::from_str("{!BAD_TABLE_POINTS}\n"),
            Some(cs) => {
                let mut s = String::new();
                let mut i: usize = 0;
                while i < cs.len()
                    invariant
                        i <= cs@.len(),
                        s@ == columns_text(cs@.take(i as int)),
                    decreases cs.len() - i,
                {
                    let t = cs[i].render();
                    s.append(t.as_str());
                    assert(cs@.take(i + 1).drop_last() =~= cs@.take(i as int));
                    i += 1;
                }
                assert(cs@.take(cs@.len() as int) =~= cs@);
                s
            },
        }
    }
}

impl Points {
    /// Renders the whole batch. It never fails: every absent field shows a
    /// placeholder and the rendering goes on.
    pub fn render(&self) -> (r: String)
        ensures
            r@ == points_text(*self),
    {
        let mut s = String::from_str("==============================\n");
        s.append("Database: ");
        append_name_or(&mut s, &self.db, "{!BAD_DB_NAME}");
        s.append("\n");
        s.append("------------------------------\n");
        let ghost head = s@;
        assert(head =~= points_head(*self));
        match &self.tables {
            None => s.append("No tables\n"),
            Some(ts) => {
                let mut i: usize = 0;
                while i < ts.len()
                    invariant
                        i <= ts@.len(),
                        s@ == head + tables_text(ts@.take(i as int)),
                    decreases ts.len() - i,
                {
                    let t = &ts[i];
                    let ghost before = s@;
                    s.append("Table: ");
                    append_name_or(&mut s, &t.tab, "{!BAD_TABLE_NAME}");
                    let body = t.render();
                    s.append(body.as_str());
                    s.append("\n");
                    s.append("------------------------------\n");
                    assert(ts@.take(i + 1).drop_last() =~= ts@.take(i as int));
                    assert(s@ =~= before + table_block(*t));
                    assert(s@ =~= head + tables_text(ts@.take(i + 1)));
                    i += 1;
                }
                assert(ts@.take(ts@.len() as int) =~= ts@);
            },
        }
        assert(s@ =~= points_text(*self));
        s
    }
}

} // verus!
