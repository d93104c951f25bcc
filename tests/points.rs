use protos::error::PointsError;
use protos::model::{Column, ColumnType, FieldType, FieldValue, Points, Table, Values};
use protos::transport::DEFAULT_GRPC_SERVER_MESSAGE_LEN;

fn empty_values() -> Values {
    Values {
        float_value: None,
        int_value: None,
        uint_value: None,
        bool_value: None,
        string_value: None,
    }
}

fn column(name: &str, column_type: ColumnType, field_type: FieldType, values: Values) -> Column {
    Column {
        name: Some(name.to_string()),
        column_type,
        field_type,
        col_values: Some(values),
        nullbits: Some(vec![255, 3]),
    }
}

fn string_column(name: &str, column_type: ColumnType, v: &str) -> Column {
    let mut values = empty_values();
    values.string_value = Some(vec![v.to_string(); 10]);
    column(name, column_type, FieldType::String, values)
}

fn int_column(name: &str, v: i64, rows: usize) -> Column {
    let mut values = empty_values();
    values.int_value = Some(vec![v; rows]);
    column(name, ColumnType::Field, FieldType::Integer, values)
}

fn float_column(name: &str, v: f64) -> Column {
    let mut values = empty_values();
    values.float_value = Some(vec![v.to_bits(); 10]);
    column(name, ColumnType::Field, FieldType::Float, values)
}

fn scenario() -> Points {
    Points {
        db: Some("test_database".to_string()),
        tables: Some(vec![Table {
            tab: Some("test_table".to_string()),
            columns: Some(vec![
                string_column("ta", ColumnType::Tag, "1111"),
                string_column("tb", ColumnType::Tag, "22222"),
                int_column("i1", 2, 10),
                float_column("f2", 2.0),
                string_column("s3", ColumnType::Field, "111111"),
            ]),
        }]),
    }
}

fn repeat(item: &str, n: usize) -> String {
    vec![item; n].join(", ")
}

fn expected_scenario() -> String {
    let strings = |v: &str| {
        format!(
            "Some(Values {{ float_value: None, int_value: None, uint_value: None, bool_value: None, string_value: Some([{}]) }})",
            repeat(&format!("\"{}\"", v), 10)
        )
    };
    let block = |name: &str, role: &str, kind: &str, value: String| {
        format!(
            "\nColumn: {}\nColumn Type: {}\n\nField Type: {}\n\nColumn Value: {}\n\nNullBits: Ok([255, 3])\n",
            name, role, kind, value
        )
    };
    let mut s = String::new();
    s.push_str("==============================\nDatabase: test_database\n------------------------------\n");
    s.push_str("Table: test_table");
    s.push_str(&block("ta", "Tag", "String", strings("1111")));
    s.push_str(&block("tb", "Tag", "String", strings("22222")));
    s.push_str(&block(
        "i1",
        "Field",
        "Integer",
        format!(
            "Some(Values {{ float_value: None, int_value: Some([{}]), uint_value: None, bool_value: None, string_value: None }})",
            repeat("2", 10)
        ),
    ));
    s.push_str(&block(
        "f2",
        "Field",
        "Float",
        format!(
            "Some(Values {{ float_value: Some([{}]), int_value: None, uint_value: None, bool_value: None, string_value: None }})",
            repeat("0x4000000000000000", 10)
        ),
    ));
    s.push_str(&block("s3", "Field", "String", strings("111111")));
    s.push_str("\n------------------------------\n");
    s
}

#[test]
fn render_const_points_scenario() {
    let points = scenario();
    let first = points.render();
    assert_eq!(first, expected_scenario());
    let second = points.render();
    assert_eq!(first, second);
}

#[test]
fn scenario_shape_reads() {
    let points = scenario();
    assert_eq!(points.db_ext().unwrap(), "test_database");
    let tables = points.tables_iter_ext().unwrap();
    assert_eq!(tables.len(), 1);
    assert_eq!(tables[0].tab_ext().unwrap(), "test_table");
    let columns = tables[0].columns_iter_ext().unwrap();
    let names: Vec<&str> = columns.iter().map(|c| c.name_ext().unwrap()).collect();
    assert_eq!(names, vec!["ta", "tb", "i1", "f2", "s3"]);
    assert_eq!(columns[0].nullbit_ext().unwrap(), &[255u8, 3][..]);
}

#[test]
fn batch_counts_tables_and_columns() {
    let table = |name: &str| Table {
        tab: Some(name.to_string()),
        columns: Some(vec![int_column("a", 1, 3), int_column("b", 2, 3)]),
    };
    let points = Points {
        db: Some("db".to_string()),
        tables: Some(vec![table("t1"), table("t2"), table("t3")]),
    };
    let tables = points.tables_iter_ext().unwrap();
    assert_eq!(tables.len(), 3);
    for t in tables {
        assert!(t.tab_ext().is_ok());
        let cols = t.columns_iter_ext().unwrap();
        assert_eq!(cols.len(), 2);
        for c in cols {
            assert!(c.name_ext().is_ok());
        }
    }
}

#[test]
fn missing_tables_keeps_database_name() {
    let points = Points { db: Some("db0".to_string()), tables: None };
    assert!(matches!(points.tables_iter_ext(), Err(PointsError::PointsMissingTables)));
    assert_eq!(points.db_ext().unwrap(), "db0");
}

#[test]
fn missing_database_name() {
    let points = Points { db: None, tables: Some(vec![]) };
    assert!(matches!(points.db_ext(), Err(PointsError::PointsMissingDatabaseName)));
    assert_eq!(points.tables_iter_ext().unwrap().len(), 0);
}

#[test]
fn empty_database_name_is_valid() {
    let points = Points { db: Some(String::new()), tables: Some(vec![]) };
    assert_eq!(points.db_ext().unwrap(), "");
}

#[test]
fn table_missing_name_and_columns() {
    let table = Table { tab: None, columns: None };
    assert!(matches!(table.tab_ext(), Err(PointsError::TableMissingName)));
    assert!(matches!(table.columns_iter_ext(), Err(PointsError::TableMissingColumns)));
    let empty = Table { tab: Some("t".to_string()), columns: Some(vec![]) };
    assert_eq!(empty.columns_iter_ext().unwrap().len(), 0);
}

#[test]
fn integer_column_reads_only_its_kind() {
    let c = int_column("i1", -7, 4);
    assert_eq!(c.int_values_len(), 4);
    assert_eq!(c.string_values_len(), 0);
    assert_eq!(c.bool_values_len(), 0);
    assert_eq!(c.float_values_len(), 0);
    assert_eq!(c.uint_values_len(), 0);
    assert_eq!(c.int_values().unwrap(), &[-7i64, -7, -7, -7][..]);
    assert_eq!(c.string_values().unwrap().len(), 0);
    assert_eq!(c.bool_values().unwrap().len(), 0);
    assert_eq!(c.float_values().unwrap().len(), 0);
    assert_eq!(c.uint_values().unwrap().len(), 0);
}

#[test]
fn other_kinds_read_their_values() {
    let mut values = empty_values();
    values.bool_value = Some(vec![true, false]);
    values.uint_value = Some(vec![u64::MAX]);
    values.float_value = Some(vec![1.5f64.to_bits()]);
    values.string_value = Some(vec!["x".to_string()]);
    let c = column("m", ColumnType::Field, FieldType::Boolean, values);
    assert_eq!(c.bool_values().unwrap(), &[true, false][..]);
    assert_eq!(c.uint_values().unwrap(), &[u64::MAX][..]);
    assert_eq!(f64::from_bits(c.float_values().unwrap()[0]), 1.5);
    assert_eq!(c.string_values().unwrap(), &["x".to_string()][..]);
    assert_eq!(c.bool_values_len(), 2);
    assert_eq!(c.uint_values_len(), 1);
    assert_eq!(c.float_values_len(), 1);
    assert_eq!(c.string_values_len(), 1);
}

#[test]
fn missing_container_fails_values_and_counts_zero() {
    let c = Column {
        name: Some("c".to_string()),
        column_type: ColumnType::Field,
        field_type: FieldType::Integer,
        col_values: None,
        nullbits: Some(vec![]),
    };
    assert!(matches!(c.string_values(), Err(PointsError::ColumnMissingValues)));
    assert!(matches!(c.bool_values(), Err(PointsError::ColumnMissingValues)));
    assert!(matches!(c.int_values(), Err(PointsError::ColumnMissingValues)));
    assert!(matches!(c.float_values(), Err(PointsError::ColumnMissingValues)));
    assert!(matches!(c.uint_values(), Err(PointsError::ColumnMissingValues)));
    assert_eq!(c.string_values_len(), 0);
    assert_eq!(c.bool_values_len(), 0);
    assert_eq!(c.int_values_len(), 0);
    assert_eq!(c.float_values_len(), 0);
    assert_eq!(c.uint_values_len(), 0);
}

#[test]
fn column_missing_name_and_nullbits() {
    let c = Column {
        name: None,
        column_type: ColumnType::Tag,
        field_type: FieldType::String,
        col_values: None,
        nullbits: None,
    };
    assert!(matches!(c.name_ext(), Err(PointsError::ColumnMissingNames)));
    assert!(matches!(c.nullbit_ext(), Err(PointsError::ColumnMissingNullbits)));
}

#[test]
fn null_bitmap_length_matches_rows() {
    for rows in [0usize, 1, 7, 8, 9, 10, 16, 17] {
        let mut c = int_column("i", 1, rows);
        let bytes = (rows + 7) / 8;
        let mut bits = vec![0u8; bytes];
        for i in 0..rows {
            bits[i / 8] |= 1 << (i % 8);
        }
        c.nullbits = Some(bits);
        let read = c.nullbit_ext().unwrap();
        assert_eq!(read.len(), bytes);
        for i in 0..8 * read.len() {
            if (read[i / 8] >> (i % 8)) & 1 == 1 {
                assert!(i < c.int_values_len());
            }
        }
    }
}

#[test]
fn render_without_tables() {
    let points = Points { db: None, tables: None };
    assert_eq!(
        points.render(),
        "==============================\nDatabase: {!BAD_DB_NAME}\n------------------------------\nNo tables\n"
    );
}

#[test]
fn render_placeholders_for_table_and_column() {
    let bare = Column {
        name: None,
        column_type: ColumnType::Field,
        field_type: FieldType::Unsigned,
        col_values: None,
        nullbits: None,
    };
    assert_eq!(
        bare.render(),
        "\nColumn: {!BAD_COLUMN_NAME}\nColumn Type: Field\n\nField Type: Unsigned\n\nColumn Value: None\n\nNullBits: Err(ColumnMissingNullbits)\n"
    );
    let no_columns = Table { tab: None, columns: None };
    assert_eq!(no_columns.render(), "{!BAD_TABLE_POINTS}\n");
    let points = Points {
        db: Some("d".to_string()),
        tables: Some(vec![no_columns, Table { tab: Some("t".to_string()), columns: Some(vec![bare]) }]),
    };
    let text = points.render();
    assert!(text.contains("Table: {!BAD_TABLE_NAME}{!BAD_TABLE_POINTS}\n\n------------------------------\n"));
    assert!(text.ends_with("NullBits: Err(ColumnMissingNullbits)\n\n------------------------------\n"));
}

#[test]
fn render_scalar_texts() {
    let mut values = empty_values();
    values.int_value = Some(vec![-12, 0, i64::MIN]);
    values.uint_value = Some(vec![u64::MAX, 5]);
    values.bool_value = Some(vec![true, false]);
    values.float_value = Some(vec![0, 255]);
    values.string_value = Some(vec!["a\"b".to_string(), String::new()]);
    let mut c = column("v", ColumnType::Field, FieldType::Integer, values);
    c.nullbits = Some(vec![0, 128]);
    assert_eq!(
        c.render(),
        "\nColumn: v\nColumn Type: Field\n\nField Type: Integer\n\nColumn Value: Some(Values { float_value: Some([0x0, 0xff]), int_value: Some([-12, 0, -9223372036854775808]), uint_value: Some([18446744073709551615, 5]), bool_value: Some([true, false]), string_value: Some([\"a\\\"b\", \"\"]) })\n\nNullBits: Ok([0, 128])\n"
    );
}

#[test]
fn render_empty_vectors() {
    let mut values = empty_values();
    values.bool_value = Some(vec![]);
    let mut c = column("e", ColumnType::Field, FieldType::Boolean, values);
    c.nullbits = Some(vec![]);
    assert!(c.render().contains("bool_value: Some([]),"));
    assert!(c.render().ends_with("NullBits: Ok([])\n"));
}

#[test]
fn error_messages() {
    assert_eq!(
        PointsError::PointsMissingDatabaseName.message(),
        "Flatbuffers 'Points' missing database name (db)"
    );
    assert_eq!(
        PointsError::PointsMissingTables.message(),
        "Flatbuffers 'Points' missing tables data (tables)"
    );
    assert_eq!(PointsError::TableMissingName.message(), "Flatbuffers 'Table' missing table name (tab)");
    assert_eq!(
        PointsError::TableMissingColumns.message(),
        "Flatbuffers 'Table' missing points data (points)"
    );
    assert_eq!(PointsError::PointMissingTags.message(), "Flatbuffers 'Point' missing tags data (tags)");
    assert_eq!(PointsError::ColumnMissingValues.message(), "Flatbuffers 'Column' missing values");
    assert_eq!(PointsError::ColumnMissingNames.message(), "Flatbuffers 'Column' missing names");
    assert_eq!(PointsError::ColumnMissingNullbits.message(), "Flatbuffers 'Column' missing nullbits");
    assert_eq!(PointsError::Points { msg: "custom".to_string() }.message(), "custom");
}

#[test]
fn default_message_cap_is_100_mib() {
    assert_eq!(DEFAULT_GRPC_SERVER_MESSAGE_LEN, 104_857_600);
}

#[test]
fn field_value_variants() {
    let v = FieldValue::F64(2.0f64.to_bits());
    assert_eq!(v.clone(), FieldValue::F64(0x4000000000000000));
    assert_ne!(FieldValue::I64(1), FieldValue::U64(1));
    assert_eq!(FieldValue::Str(b"ab".to_vec()), FieldValue::Str(vec![97, 98]));
    assert_ne!(FieldValue::Bool(true), FieldValue::Bool(false));
}
