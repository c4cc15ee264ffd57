use vstd::prelude::*;

verus! {

/// Everything that can go wrong while reading a table file, selecting a
/// definition, or deriving SQL from it.
///
/// The variants that carry a `String` keep a human-readable detail message;
/// contracts in this crate constrain only the variant, never the message.
#[derive(Debug, Clone)]
pub enum Error {
    /// The binary header was malformed (bad magic, inconsistent sizes).
    InvalidHeader(String),
    /// A byte offset pointed outside the buffer it indexes.
    OutOfBounds(String),
    /// Bytes could not be decoded into the requested value.
    TypeConversion(String),
    /// A table name has no entry in the definition catalog, or a field
    /// references a column that the definition does not declare.
    SchemaValidation(String),
    /// No build block of the definition matched the target build.
    NoFieldsForBuild,
    /// A definition cannot be turned into a SQL table (unsupported base
    /// type, or a field without a matching column).
    SqliteTableDefinition(String),
    /// Any other failure, described by the message.
    GenericError(String),
}

} // verus!
