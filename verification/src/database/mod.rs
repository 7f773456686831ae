//! SQL databases: dialects, bound values, errors, and the query pipeline.

pub mod ast;
pub mod inspector;
pub mod migrations;
pub mod placeholders;
pub mod query;
pub mod run_ast;
pub mod schema;
pub mod schema_apply;
pub mod seeds;
pub mod sql;

use vstd::prelude::*;
use vstd::string::*;
use crate::json::{Json, JsonValue};
use crate::text::{chars_of, starts_with, is_prefix, sub_chars, split_chars, split_on};

verus! {

/// The SQL dialect spoken by a connection.
#[derive(Debug, Clone, Copy, PartialEq, Eq, Hash, Structural)]
pub enum Dialect {
    Postgres,
    MySQL,
    SQLite,
    MSSQL,
    Oracle,
    CockroachDB,
}

/// The display name of a dialect.
pub open spec fn spec_dialect_name(d: Dialect) -> Seq<char> {
    match d {
        Dialect::Postgres => "postgres"@,
        Dialect::MySQL => "mysql"@,
        Dialect::SQLite => "sqlite"@,
        Dialect::MSSQL => "mssql"@,
        Dialect::Oracle => "oracle"@,
        Dialect::CockroachDB => "cockroachdb"@,
    }
}

/// `name` quoted as an identifier in dialect `d`.
pub open spec fn quote(d: Dialect, name: Seq<char>) -> Seq<char> {
    match d {
        Dialect::MySQL => seq!['`'] + name + seq!['`'],
        Dialect::MSSQL => seq!['['] + name + seq![']'],
        _ => seq!['"'] + name + seq!['"'],
    }
}

impl Dialect {
    /// The display name of this dialect (e.g. `postgres`).
    pub fn name(&self) -> (r: &'static str)
        ensures
            r@ == spec_dialect_name(*self),
    {
        match self {
            Dialect::Postgres => "postgres",
            Dialect::MySQL => "mysql",
            Dialect::SQLite => "sqlite",
            Dialect::MSSQL => "mssql",
            Dialect::Oracle => "oracle",
            Dialect::CockroachDB => "cockroachdb",
        }
    }

    /// Quotes an identifier for this dialect: backticks for MySQL, square
    /// brackets for MSSQL, double quotes otherwise.
    pub fn quote_identifier(&self, name: &str) -> (r: String)
        ensures
            r@ == quote(*self, name@),
    {
        proof {
            reveal_strlit("`");
            reveal_strlit("[");
            reveal_strlit("]");
            reveal_strlit("\"");
        }
        match self {
            Dialect::MySQL => {
                let mut r = String::from_str("`");
                r.append(name);
                r.append("`");
                r
            },
            Dialect::MSSQL => {
                let mut r = String::from_str("[");
                r.append(name);
                r.append("]");
                r
            },
            _ => {
                let mut r = String::from_str("\"");
                r.append(name);
                r.append("\"");
                r
            },
        }
    }
}

/// A value bound to a statement parameter. Floating-point numbers travel as
/// their canonical decimal text.
#[derive(Debug)]
pub enum SqlValue {
    Null,
    Bool(bool),
    Int(i64),
    Float(String),
    Text(String),
    Json(JsonValue),
    Bytes(Vec<u8>),
}

/// Mathematical view of a bound value.
pub enum SqlSpec {
    Null,
    Bool(bool),
    Int(int),
    Float(Seq<char>),
    Text(Seq<char>),
    Json(Json),
    Bytes(Seq<u8>),
}

impl SqlValue {
    pub open spec fn view(&self) -> SqlSpec {
        match self {
            SqlValue::Null => SqlSpec::Null,
            SqlValue::Bool(b) => SqlSpec::Bool(*b),
            SqlValue::Int(i) => SqlSpec::Int(*i as int),
            SqlValue::Float(t) => SqlSpec::Float(t@),
            SqlValue::Text(t) => SqlSpec::Text(t@),
            SqlValue::Json(v) => SqlSpec::Json(v@),
            SqlValue::Bytes(b) => SqlSpec::Bytes(b@),
        }
    }
}

/// Views of a list of bound values.
pub open spec fn sql_views(v: Seq<SqlValue>) -> Seq<SqlSpec> {
    Seq::new(v.len(), |i: int| v[i].view())
}

/// Errors reported by a database backend.
#[derive(Debug, Clone)]
pub enum DatabaseError {
    Connection(String),
    Query(String),
    Migration(String),
    Schema(String),
    Transaction(String),
    NotSupported(String),
}

/// The message of a database error.
pub open spec fn spec_database_error_message(e: DatabaseError) -> Seq<char> {
    match e {
        DatabaseError::Connection(m) => "Connection error: "@ + m@,
        DatabaseError::Query(m) => "Query error: "@ + m@,
        DatabaseError::Migration(m) => "Migration error: "@ + m@,
        DatabaseError::Schema(m) => "Schema error: "@ + m@,
        DatabaseError::Transaction(m) => "Transaction error: "@ + m@,
        DatabaseError::NotSupported(m) => "Not supported: "@ + m@,
    }
}

impl DatabaseError {
    /// The message of this error.
    pub fn message(&self) -> (r: String)
        ensures
            r@ == spec_database_error_message(*self),
    {
        let (prefix, m) = match self {
            DatabaseError::Connection(m) => ("Connection error: ", m),
            DatabaseError::Query(m) => ("Query error: ", m),
            DatabaseError::Migration(m) => ("Migration error: ", m),
            DatabaseError::Schema(m) => ("Schema error: ", m),
            DatabaseError::Transaction(m) => ("Transaction error: ", m),
            DatabaseError::NotSupported(m) => ("Not supported: ", m),
        };
        let mut r = String::from_str(prefix);
        r.append(m.as_str());
        r
    }
}

/// Errors of running a query AST.
#[derive(Debug, Clone)]
pub enum RunAstError {
    Database(DatabaseError),
    Ast(String),
}

/// The message of an AST run error.
pub open spec fn spec_run_ast_error_message(e: RunAstError) -> Seq<char> {
    match e {
        RunAstError::Database(d) => "Database error: "@ + spec_database_error_message(d),
        RunAstError::Ast(m) => "AST error: "@ + m@,
    }
}

impl RunAstError {
    /// The message of this error.
    pub fn message(&self) -> (r: String)
        ensures
            r@ == spec_run_ast_error_message(*self),
    {
        match self {
            RunAstError::Database(d) => {
                let mut r = String::from_str("Database error: ");
                let m = d.message();
                r.append(m.as_str());
                r
            },
            RunAstError::Ast(m) => {
                let mut r = String::from_str("AST error: ");
                r.append(m.as_str());
                r
            },
        }
    }
}

/// The dialect named by the scheme of a database URL, if any.
pub open spec fn spec_detect_dialect(url: Seq<char>) -> Option<Dialect> {
    if is_prefix("postgres://"@, url) || is_prefix("postgresql://"@, url) {
        Some(Dialect::Postgres)
    } else if is_prefix("mysql://"@, url) {
        Some(Dialect::MySQL)
    } else if is_prefix("sqlite://"@, url) || is_prefix("sqlite:"@, url) {
        Some(Dialect::SQLite)
    } else if is_prefix("mssql://"@, url) {
        Some(Dialect::MSSQL)
    } else {
        None
    }
}

/// The text before the first `://` of `url` (the whole URL when there is none).
pub open spec fn scheme_of(url: Seq<char>) -> Seq<char>
    decreases url.len(),
{
    if url.len() == 0 {
        url
    } else if is_prefix("://"@, url) {
        seq![]
    } else {
        seq![url[0]] + scheme_of(url.skip(1))
    }
}

/// Picks the dialect from a database URL's scheme; an unknown scheme is a
/// connection error naming it.
pub fn detect_dialect(url: &str) -> (r: Result<Dialect, DatabaseError>)
    ensures
        r is Ok <==> spec_detect_dialect(url@) is Some,
        r is Ok ==> spec_detect_dialect(url@) == Some(r->Ok_0),
        r is Err ==> r->Err_0 is Connection,
        r is Err ==> r->Err_0->Connection_0@ == "Unsupported database URL scheme: "@ + scheme_of(url@),
{
    let u = chars_of(url);
    let pg = starts_with(&u, &chars_of("postgres://"));
    let pgl = starts_with(&u, &chars_of("postgresql://"));
    let my = starts_with(&u, &chars_of("mysql://"));
    let lite = starts_with(&u, &chars_of("sqlite://"));
    let lite_short = starts_with(&u, &chars_of("sqlite:"));
    let ms = starts_with(&u, &chars_of("mssql://"));
    if pg || pgl {
        Ok(Dialect::Postgres)
    } else if my {
        Ok(Dialect::MySQL)
    } else if lite || lite_short {
        Ok(Dialect::SQLite)
    } else if ms {
        Ok(Dialect::MSSQL)
    } else {
        let sep = chars_of("://");
        let mut scheme = String::new();
        let mut i: usize = 0;
        assert(u@.skip(0) =~= u@);
        assert(scheme@ =~= Seq::<char>::empty());
        loop
            invariant
                i <= u@.len(),
                sep@ == "://"@,
                scheme@ + scheme_of(u@.skip(i as int)) == scheme_of(u@),
            ensures
                scheme@ == scheme_of(u@),
            decreases u@.len() - i,
        {
            if i >= u.len() {
                assert(u@.skip(i as int) =~= Seq::<char>::empty());
                assert(scheme@ =~= scheme_of(u@));
                break;
            }
            let rest = sub_chars(&u, i, u.len());
            assert(rest@ =~= u@.skip(i as int));
            if starts_with(&rest, &sep) {
                assert(scheme_of(u@.skip(i as int)) == Seq::<char>::empty());
                assert(scheme@ =~= scheme_of(u@));
                break;
            }
            crate::text::push_char(&mut scheme, u[i]);
            proof {
                assert(u@.skip(i as int).skip(1) =~= u@.skip(i as int + 1));
                assert(scheme_of(u@.skip(i as int)) == seq![u@[i as int]] + scheme_of(u@.skip(i as int + 1)));
                assert(scheme@ + scheme_of(u@.skip(i as int + 1)) =~= scheme_of(u@));
            }
            i = i + 1;
        }
        let mut m = String::from_str("Unsupported database URL scheme: ");
        m.append(scheme.as_str());
        Err(DatabaseError::Connection(m))
    }
}

/// A row of a result set: column names and values.
pub type ResultRow = Vec<(String, JsonValue)>;

/// A SQL database connection pool of one dialect.
pub trait DatabaseBackend {
    /// Runs a statement; the number of rows it touched.
    fn execute(&self, sql: &str, bindings: &[SqlValue]) -> Result<u64, DatabaseError>;

    /// Runs a query; its rows.
    fn query(&self, sql: &str, bindings: &[SqlValue]) -> Result<Vec<ResultRow>, DatabaseError>;

    /// Starts a transaction.
    fn begin_transaction(&self) -> Result<Box<dyn Transaction>, DatabaseError>;

    /// The dialect spoken.
    fn dialect(&self) -> Dialect;
}

/// A transaction in progress.
pub trait Transaction {
    /// Runs a statement in the transaction.
    fn execute(&mut self, sql: &str, bindings: &[SqlValue]) -> Result<u64, DatabaseError>;

    /// Runs a query in the transaction.
    fn query(&mut self, sql: &str, bindings: &[SqlValue]) -> Result<Vec<ResultRow>, DatabaseError>;

    /// Makes the transaction's work permanent.
    fn commit(self: Box<Self>) -> Result<(), DatabaseError>;

    /// Discards the transaction's work.
    fn rollback(self: Box<Self>) -> Result<(), DatabaseError>;
}

} // verus!
