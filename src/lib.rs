//! Validated accessors over a decoded columnar point batch: a database name,
//! its tables, and each table's typed columns with their null bitmaps, plus
//! a diagnostic renderer that never fails on malformed input.

pub mod error;
pub mod model;
pub mod access;
pub mod text;
pub mod render;
pub mod laws;
pub mod transport;
