use vstd::prelude::*;

verus! {

/// Structural errors found while reading a decoded batch.
#[derive(Debug, Clone)]
pub enum PointsError {
    /// A caller-built diagnostic; never raised by the accessors.
    Points { msg: String },
    PointsMissingDatabaseName,
    PointsMissingTables,
    TableMissingName,
    TableMissingColumns,
    PointMissingTags,
    ColumnMissingValues,
    ColumnMissingNames,
    ColumnMissingNullbits,
}

/// The human-readable text of each error.
pub open spec fn error_message(e: PointsError) -> Seq<char> {
    match e {
        PointsError::Points { msg } => msg@,
        PointsError::PointsMissingDatabaseName => "Flatbuffers 'Points' missing database name (db)"@,
        PointsError::PointsMissingTables => "Flatbuffers 'Points' missing tables data (tables)"@,
        PointsError::TableMissingName => "Flatbuffers 'Table' missing table name (tab)"@,
        PointsError::TableMissingColumns => "Flatbuffers 'Table' missing points data (points)"@,
        PointsError::PointMissingTags => "Flatbuffers 'Point' missing tags data (tags)"@,
        PointsError::ColumnMissingValues => "Flatbuffers 'Column' missing values"@,
        PointsError::ColumnMissingNames => "Flatbuffers 'Column' missing names"@,
        PointsError::ColumnMissingNullbits => "Flatbuffers 'Column' missing nullbits"@,
    }
}

impl PointsError {
    /// The message shown to users for this error.
    pub fn message(&self) -> (r: String)
        ensures
            r@ == error_message(*self),
    {
        match self {
            PointsError::Points { msg } => msg.clone(),
            PointsError::PointsMissingDatabaseName => String::from_str(
                "Flatbuffers 'Points' missing database name (db)",
            ),
            PointsError::PointsMissingTables => String::from_str(
                "Flatbuffers 'Points' missing tables data (tables)",
            ),
            PointsError::TableMissingName => String::from_str(
                "Flatbuffers 'Table' missing table name (tab)",
            ),
            PointsError::TableMissingColumns => String::from_str(
                "Flatbuffers 'Table' missing points data (points)",
            ),
            PointsError::PointMissingTags => String::from_str(
                "Flatbuffers 'Point' missing tags data (tags)",
            ),
            PointsError::ColumnMissingValues => String::from_str(
                "Flatbuffers 'Column' missing values",
            ),
            PointsError::ColumnMissingNames => String::from_str(
                "Flatbuffers 'Column' missing names",
            ),
            PointsError::ColumnMissingNullbits => String::from_str(
                "Flatbuffers 'Column' missing nullbits",
            ),
        }
    }
}

} // verus!
