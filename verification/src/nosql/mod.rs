//! Document databases: errors, and query documents for MongoDB.

pub mod mongo;

use vstd::prelude::*;
use vstd::string::*;
use crate::database::ast::SchemaOverview;
use crate::database::query::Query;
use crate::json::JsonValue;

verus! {

/// Errors of a document database backend.
#[derive(Debug, Clone)]
pub enum NoSqlError {
    Connection(String),
    Query(String),
    NotFound(String),
    Schema(String),
    Unsupported(String),
}

/// The message of a document database error.
pub open spec fn spec_nosql_error_message(e: NoSqlError) -> Seq<char> {
    match e {
        NoSqlError::Connection(m) => "Connection error: "@ + m@,
        NoSqlError::Query(m) => "Query error: "@ + m@,
        NoSqlError::NotFound(m) => "Not found: "@ + m@,
        NoSqlError::Schema(m) => "Schema error: "@ + m@,
        NoSqlError::Unsupported(m) => "Unsupported operation: "@ + m@,
    }
}

impl NoSqlError {
    /// The message of this error.
    pub fn message(&self) -> (r: String)
        ensures
            r@ == spec_nosql_error_message(*self),
    {
        let (prefix, m) = match self {
            NoSqlError::Connection(m) => ("Connection error: ", m),
            NoSqlError::Query(m) => ("Query error: ", m),
            NoSqlError::NotFound(m) => ("Not found: ", m),
            NoSqlError::Schema(m) => ("Schema error: ", m),
            NoSqlError::Unsupported(m) => ("Unsupported operation: ", m),
        };
        let mut r = String::from_str(prefix);
        r.append(m.as_str());
        r
    }
}

/// An item of a document collection.
pub type Item = JsonValue;

/// The primary key of an item.
pub type PrimaryKey = JsonValue;

/// A document database backend: it stores items directly rather than rows.
pub trait DataBackend {
    /// Inserts items; returns their keys.
    fn create(&self, collection: &str, data: Vec<Item>) -> Result<Vec<PrimaryKey>, NoSqlError>;

    /// The items a query selects.
    fn read(&self, collection: &str, query: &Query) -> Result<Vec<Item>, NoSqlError>;

    /// Sets `data` on the items with the given keys; returns the keys.
    fn update(&self, collection: &str, keys: &[PrimaryKey], data: Item) -> Result<Vec<PrimaryKey>, NoSqlError>;

    /// Deletes the items with the given keys; returns the keys.
    fn delete(&self, collection: &str, keys: &[PrimaryKey]) -> Result<Vec<PrimaryKey>, NoSqlError>;

    /// The collections the database holds.
    fn introspect_schema(&self) -> Result<SchemaOverview, NoSqlError>;

    /// Whether the backend runs transactions.
    fn supports_transactions(&self) -> bool;

    /// Whether the backend follows relations itself.
    fn supports_relations(&self) -> bool;
}

} // verus!
