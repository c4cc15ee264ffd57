//! Reader and bulk converter for the World of Warcraft client-side tabular
//! database files (`WDBC` and later signatures).
//!
//! A table file stores one fixed-width table as a binary header, a body of
//! equal-width rows, and a pooled string block addressed by byte offsets.
//! The column layout is supplied separately by a versioned definition text.
//! This crate parses both, decodes every row into typed values, and derives
//! the SQL statements that load the table into a relational database.
//!
//! The texture-header module sits beside the table reader, as the file
//! family ships together; it shares the crate's byte-level utilities.

pub mod blp;
pub mod catalog;
pub mod dbd;
pub mod driver;
pub mod error;
pub mod game_build;
pub mod record;
pub mod sql;
pub mod stringblock;
pub mod text;
pub mod types;
pub mod wdb;
