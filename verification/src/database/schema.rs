//! Column types: how database column types map to field types, and back.

use vstd::prelude::*;
use vstd::string::*;
use crate::text::{chars_of, contains_chars, has_sub, spec_to_lowercase, spec_to_uppercase, str_eq, to_lowercase, to_uppercase};
use super::Dialect;

verus! {

/// The type of a field of a collection.
#[derive(Debug, Clone, Copy, PartialEq, Eq, Structural)]
pub enum FieldType {
    String,
    Text,
    Integer,
    BigInteger,
    Float,
    Decimal,
    Boolean,
    Date,
    Time,
    DateTime,
    Timestamp,
    Json,
    Uuid,
    Hash,
    Csv,
    Binary,
    Alias,
    Geometry,
    GeometryPoint,
    GeometryLineString,
    GeometryPolygon,
    GeometryMultiPoint,
    GeometryMultiLineString,
    GeometryMultiPolygon,
    Unknown,
}

/// Field type of a database column type (any dialect), by its lower-case name.
pub open spec fn spec_map_db_type(db_type: Seq<char>) -> FieldType {
    let t = spec_to_lowercase(db_type);
    if t == "int"@ || t == "integer"@ || t == "int4"@ || t == "mediumint"@ {
        FieldType::Integer
    } else if t == "bigint"@ || t == "int8"@ {
        FieldType::BigInteger
    } else if t == "smallint"@ || t == "int2"@ || t == "tinyint"@ {
        FieldType::Integer
    } else if t == "serial"@ || t == "serial4"@ {
        FieldType::Integer
    } else if t == "bigserial"@ || t == "serial8"@ {
        FieldType::BigInteger
    } else if t == "float"@ || t == "float4"@ || t == "real"@ {
        FieldType::Float
    } else if t == "double"@ || t == "double precision"@ || t == "float8"@ {
        FieldType::Float
    } else if t == "decimal"@ || t == "numeric"@ || t == "money"@ {
        FieldType::Decimal
    } else if t == "boolean"@ || t == "bool"@ || t == "bit"@ {
        FieldType::Boolean
    } else if t == "varchar"@ || t == "character varying"@ || t == "nvarchar"@ || t == "char"@ || t == "character"@ || t == "nchar"@ {
        FieldType::String
    } else if t == "text"@ || t == "mediumtext"@ || t == "longtext"@ || t == "tinytext"@ || t == "ntext"@ || t == "clob"@ {
        FieldType::Text
    } else if t == "date"@ {
        FieldType::Date
    } else if t == "time"@ || t == "time without time zone"@ || t == "time with time zone"@ {
        FieldType::Time
    } else if t == "datetime"@ || t == "datetime2"@ || t == "smalldatetime"@ {
        FieldType::DateTime
    } else if t == "timestamp"@ || t == "timestamp without time zone"@ || t == "timestamp with time zone"@ || t == "timestamptz"@ {
        FieldType::Timestamp
    } else if t == "json"@ || t == "jsonb"@ {
        FieldType::Json
    } else if t == "uuid"@ || t == "uniqueidentifier"@ {
        FieldType::Uuid
    } else if t == "bytea"@ || t == "binary"@ || t == "varbinary"@ || t == "blob"@ || t == "mediumblob"@ || t == "longblob"@ || t == "image"@ {
        FieldType::Binary
    } else if t == "geometry"@ || t == "geography"@ {
        FieldType::Geometry
    } else if t == "point"@ {
        FieldType::GeometryPoint
    } else if t == "linestring"@ {
        FieldType::GeometryLineString
    } else if t == "polygon"@ {
        FieldType::GeometryPolygon
    } else if t == "multipoint"@ {
        FieldType::GeometryMultiPoint
    } else if t == "multilinestring"@ {
        FieldType::GeometryMultiLineString
    } else if t == "multipolygon"@ {
        FieldType::GeometryMultiPolygon
    } else {
        FieldType::Unknown
    }
}

/// Maps a database column type to a field type; unknown types map to `Unknown`.
pub fn map_db_type_to_field_type(db_type: &str, dialect: Dialect) -> (r: FieldType)
    ensures
        r == spec_map_db_type(db_type@),
{
    let lower = to_lowercase(db_type);
    let t = lower.as_str();
    if str_eq(t, "int") || str_eq(t, "integer") || str_eq(t, "int4") || str_eq(t, "mediumint") {
        FieldType::Integer
    } else if str_eq(t, "bigint") || str_eq(t, "int8") {
        FieldType::BigInteger
    } else if str_eq(t, "smallint") || str_eq(t, "int2") || str_eq(t, "tinyint") {
        FieldType::Integer
    } else if str_eq(t, "serial") || str_eq(t, "serial4") {
        FieldType::Integer
    } else if str_eq(t, "bigserial") || str_eq(t, "serial8") {
        FieldType::BigInteger
    } else if str_eq(t, "float") || str_eq(t, "float4") || str_eq(t, "real") {
        FieldType::Float
    } else if str_eq(t, "double") || str_eq(t, "double precision") || str_eq(t, "float8") {
        FieldType::Float
    } else if str_eq(t, "decimal") || str_eq(t, "numeric") || str_eq(t, "money") {
        FieldType::Decimal
    } else if str_eq(t, "boolean") || str_eq(t, "bool") || str_eq(t, "bit") {
        FieldType::Boolean
    } else if str_eq(t, "varchar") || str_eq(t, "character varying") || str_eq(t, "nvarchar") || str_eq(t, "char") || str_eq(t, "character") || str_eq(t, "nchar") {
        FieldType::String
    } else if str_eq(t, "text") || str_eq(t, "mediumtext") || str_eq(t, "longtext") || str_eq(t, "tinytext") || str_eq(t, "ntext") || str_eq(t, "clob") {
        FieldType::Text
    } else if str_eq(t, "date") {
        FieldType::Date
    } else if str_eq(t, "time") || str_eq(t, "time without time zone") || str_eq(t, "time with time zone") {
        FieldType::Time
    } else if str_eq(t, "datetime") || str_eq(t, "datetime2") || str_eq(t, "smalldatetime") {
        FieldType::DateTime
    } else if str_eq(t, "timestamp") || str_eq(t, "timestamp without time zone") || str_eq(t, "timestamp with time zone") || str_eq(t, "timestamptz") {
        FieldType::Timestamp
    } else if str_eq(t, "json") || str_eq(t, "jsonb") {
        FieldType::Json
    } else if str_eq(t, "uuid") || str_eq(t, "uniqueidentifier") {
        FieldType::Uuid
    } else if str_eq(t, "bytea") || str_eq(t, "binary") || str_eq(t, "varbinary") || str_eq(t, "blob") || str_eq(t, "mediumblob") || str_eq(t, "longblob") || str_eq(t, "image") {
        FieldType::Binary
    } else if str_eq(t, "geometry") || str_eq(t, "geography") {
        FieldType::Geometry
    } else if str_eq(t, "point") {
        FieldType::GeometryPoint
    } else if str_eq(t, "linestring") {
        FieldType::GeometryLineString
    } else if str_eq(t, "polygon") {
        FieldType::GeometryPolygon
    } else if str_eq(t, "multipoint") {
        FieldType::GeometryMultiPoint
    } else if str_eq(t, "multilinestring") {
        FieldType::GeometryMultiLineString
    } else if str_eq(t, "multipolygon") {
        FieldType::GeometryMultiPolygon
    } else {
        FieldType::Unknown
    }
}

/// Fallback by PostgreSQL `udt_name` for data types not listed by name.
pub open spec fn spec_pg_udt_type(udt: Seq<char>) -> FieldType {
    if udt == "uuid"@ {
        FieldType::Uuid
    } else if udt == "bool"@ {
        FieldType::Boolean
    } else if udt == "int4"@ || udt == "int2"@ || udt == "serial"@ {
        FieldType::Integer
    } else if udt == "int8"@ || udt == "bigserial"@ {
        FieldType::BigInteger
    } else if udt == "float4"@ {
        FieldType::Float
    } else if udt == "float8"@ || udt == "numeric"@ {
        FieldType::Decimal
    } else if udt == "json"@ || udt == "jsonb"@ {
        FieldType::Json
    } else if udt == "timestamptz"@ || udt == "timestamp"@ {
        FieldType::Timestamp
    } else {
        FieldType::String
    }
}

/// Fallback by PostgreSQL `udt_name` (already lower-case).
fn pg_udt_fallback(udt: &str) -> (r: FieldType)
    ensures
        r == spec_pg_udt_type(udt@),
{
    if str_eq(udt, "uuid") {
        FieldType::Uuid
    } else if str_eq(udt, "bool") {
        FieldType::Boolean
    } else if str_eq(udt, "int4") || str_eq(udt, "int2") || str_eq(udt, "serial") {
        FieldType::Integer
    } else if str_eq(udt, "int8") || str_eq(udt, "bigserial") {
        FieldType::BigInteger
    } else if str_eq(udt, "float4") {
        FieldType::Float
    } else if str_eq(udt, "float8") || str_eq(udt, "numeric") {
        FieldType::Decimal
    } else if str_eq(udt, "json") || str_eq(udt, "jsonb") {
        FieldType::Json
    } else if str_eq(udt, "timestamptz") || str_eq(udt, "timestamp") {
        FieldType::Timestamp
    } else {
        FieldType::String
    }
}

/// Field type of a PostgreSQL column from its `data_type` and `udt_name`.
pub open spec fn spec_pg_type(data_type: Seq<char>, udt_name: Seq<char>) -> FieldType {
    let dt = spec_to_lowercase(data_type);
    if dt == "integer"@ || dt == "int4"@ || dt == "smallint"@ || dt == "int2"@ || dt == "serial"@ {
        FieldType::Integer
    } else if dt == "bigint"@ || dt == "int8"@ || dt == "bigserial"@ {
        FieldType::BigInteger
    } else if dt == "real"@ || dt == "float4"@ {
        FieldType::Float
    } else if dt == "double precision"@ || dt == "float8"@ || dt == "numeric"@ || dt == "decimal"@ {
        FieldType::Decimal
    } else if dt == "boolean"@ || dt == "bool"@ {
        FieldType::Boolean
    } else if dt == "character varying"@ || dt == "varchar"@ {
        FieldType::String
    } else if dt == "text"@ {
        FieldType::Text
    } else if dt == "uuid"@ {
        FieldType::Uuid
    } else if dt == "json"@ || dt == "jsonb"@ {
        FieldType::Json
    } else if dt == "date"@ {
        FieldType::Date
    } else if dt == "time"@ || dt == "time without time zone"@ || dt == "time with time zone"@ {
        FieldType::Time
    } else if dt == "timestamp"@ || dt == "timestamp without time zone"@ || dt == "timestamp with time zone"@ {
        FieldType::Timestamp
    } else if dt == "bytea"@ {
        FieldType::String
    } else {
        spec_pg_udt_type(spec_to_lowercase(udt_name))
    }
}

/// Maps a PostgreSQL column type; unlisted types go by `udt_name`, else `String`.
pub fn pg_type_to_field_type(data_type: &str, udt_name: &str) -> (r: FieldType)
    ensures
        r == spec_pg_type(data_type@, udt_name@),
{
    let lower = to_lowercase(data_type);
    let dt = lower.as_str();
    let ulower = to_lowercase(udt_name);
    let udt = ulower.as_str();
    if str_eq(dt, "integer") || str_eq(dt, "int4") || str_eq(dt, "smallint") || str_eq(dt, "int2") || str_eq(dt, "serial") {
        FieldType::Integer
    } else if str_eq(dt, "bigint") || str_eq(dt, "int8") || str_eq(dt, "bigserial") {
        FieldType::BigInteger
    } else if str_eq(dt, "real") || str_eq(dt, "float4") {
        FieldType::Float
    } else if str_eq(dt, "double precision") || str_eq(dt, "float8") || str_eq(dt, "numeric") || str_eq(dt, "decimal") {
        FieldType::Decimal
    } else if str_eq(dt, "boolean") || str_eq(dt, "bool") {
        FieldType::Boolean
    } else if str_eq(dt, "character varying") || str_eq(dt, "varchar") {
        FieldType::String
    } else if str_eq(dt, "text") {
        FieldType::Text
    } else if str_eq(dt, "uuid") {
        FieldType::Uuid
    } else if str_eq(dt, "json") || str_eq(dt, "jsonb") {
        FieldType::Json
    } else if str_eq(dt, "date") {
        FieldType::Date
    } else if str_eq(dt, "time") || str_eq(dt, "time without time zone") || str_eq(dt, "time with time zone") {
        FieldType::Time
    } else if str_eq(dt, "timestamp") || str_eq(dt, "timestamp without time zone") || str_eq(dt, "timestamp with time zone") {
        FieldType::Timestamp
    } else if str_eq(dt, "bytea") {
        FieldType::String
    } else {
        pg_udt_fallback(udt)
    }
}

/// Field type of a MySQL column type.
pub open spec fn spec_mysql_type(data_type: Seq<char>) -> FieldType {
    let t = spec_to_lowercase(data_type);
    if t == "int"@ || t == "integer"@ || t == "tinyint"@ || t == "smallint"@ || t == "mediumint"@ {
        FieldType::Integer
    } else if t == "bigint"@ {
        FieldType::BigInteger
    } else if t == "float"@ {
        FieldType::Float
    } else if t == "double"@ || t == "decimal"@ || t == "numeric"@ {
        FieldType::Decimal
    } else if t == "boolean"@ || t == "bool"@ {
        FieldType::Boolean
    } else if t == "varchar"@ || t == "char"@ {
        FieldType::String
    } else if t == "text"@ || t == "tinytext"@ || t == "mediumtext"@ || t == "longtext"@ {
        FieldType::Text
    } else if t == "json"@ {
        FieldType::Json
    } else if t == "date"@ {
        FieldType::Date
    } else if t == "time"@ {
        FieldType::Time
    } else if t == "datetime"@ || t == "timestamp"@ {
        FieldType::DateTime
    } else {
        FieldType::String
    }
}

/// Maps a MySQL column type; unlisted types map to `String`.
pub fn mysql_type_to_field_type(data_type: &str) -> (r: FieldType)
    ensures
        r == spec_mysql_type(data_type@),
{
    let lower = to_lowercase(data_type);
    let t = lower.as_str();
    if str_eq(t, "int") || str_eq(t, "integer") || str_eq(t, "tinyint") || str_eq(t, "smallint") || str_eq(t, "mediumint") {
        FieldType::Integer
    } else if str_eq(t, "bigint") {
        FieldType::BigInteger
    } else if str_eq(t, "float") {
        FieldType::Float
    } else if str_eq(t, "double") || str_eq(t, "decimal") || str_eq(t, "numeric") {
        FieldType::Decimal
    } else if str_eq(t, "boolean") || str_eq(t, "bool") {
        FieldType::Boolean
    } else if str_eq(t, "varchar") || str_eq(t, "char") {
        FieldType::String
    } else if str_eq(t, "text") || str_eq(t, "tinytext") || str_eq(t, "mediumtext") || str_eq(t, "longtext") {
        FieldType::Text
    } else if str_eq(t, "json") {
        FieldType::Json
    } else if str_eq(t, "date") {
        FieldType::Date
    } else if str_eq(t, "time") {
        FieldType::Time
    } else if str_eq(t, "datetime") || str_eq(t, "timestamp") {
        FieldType::DateTime
    } else {
        FieldType::String
    }
}

/// Field type of an MSSQL column type.
pub open spec fn spec_mssql_type(data_type: Seq<char>) -> FieldType {
    let t = spec_to_lowercase(data_type);
    if t == "int"@ || t == "smallint"@ || t == "tinyint"@ {
        FieldType::Integer
    } else if t == "bigint"@ {
        FieldType::BigInteger
    } else if t == "float"@ || t == "real"@ {
        FieldType::Float
    } else if t == "decimal"@ || t == "numeric"@ || t == "money"@ || t == "smallmoney"@ {
        FieldType::Decimal
    } else if t == "bit"@ {
        FieldType::Boolean
    } else if t == "varchar"@ || t == "nvarchar"@ || t == "char"@ || t == "nchar"@ {
        FieldType::String
    } else if t == "text"@ || t == "ntext"@ {
        FieldType::Text
    } else if t == "date"@ {
        FieldType::Date
    } else if t == "time"@ {
        FieldType::Time
    } else if t == "datetime"@ || t == "datetime2"@ || t == "smalldatetime"@ || t == "datetimeoffset"@ {
        FieldType::DateTime
    } else if t == "uniqueidentifier"@ {
        FieldType::Uuid
    } else {
        FieldType::String
    }
}

/// Maps an MSSQL column type; unlisted types map to `String`.
pub fn mssql_type_to_field_type(data_type: &str) -> (r: FieldType)
    ensures
        r == spec_mssql_type(data_type@),
{
    let lower = to_lowercase(data_type);
    let t = lower.as_str();
    if str_eq(t, "int") || str_eq(t, "smallint") || str_eq(t, "tinyint") {
        FieldType::Integer
    } else if str_eq(t, "bigint") {
        FieldType::BigInteger
    } else if str_eq(t, "float") || str_eq(t, "real") {
        FieldType::Float
    } else if str_eq(t, "decimal") || str_eq(t, "numeric") || str_eq(t, "money") || str_eq(t, "smallmoney") {
        FieldType::Decimal
    } else if str_eq(t, "bit") {
        FieldType::Boolean
    } else if str_eq(t, "varchar") || str_eq(t, "nvarchar") || str_eq(t, "char") || str_eq(t, "nchar") {
        FieldType::String
    } else if str_eq(t, "text") || str_eq(t, "ntext") {
        FieldType::Text
    } else if str_eq(t, "date") {
        FieldType::Date
    } else if str_eq(t, "time") {
        FieldType::Time
    } else if str_eq(t, "datetime") || str_eq(t, "datetime2") || str_eq(t, "smalldatetime") || str_eq(t, "datetimeoffset") {
        FieldType::DateTime
    } else if str_eq(t, "uniqueidentifier") {
        FieldType::Uuid
    } else {
        FieldType::String
    }
}

/// Field type of an SQLite declared column type, by the words its upper-case
/// form contains (SQLite's type affinity rules, checked in this order).
pub open spec fn spec_sqlite_type(col_type: Seq<char>) -> FieldType {
    let ct = spec_to_uppercase(col_type);
    if has_sub(ct, "INT"@) {
        FieldType::Integer
    } else if has_sub(ct, "REAL"@) || has_sub(ct, "FLOAT"@) || has_sub(ct, "DOUBLE"@) {
        FieldType::Float
    } else if has_sub(ct, "BOOL"@) {
        FieldType::Boolean
    } else if has_sub(ct, "TEXT"@) || has_sub(ct, "CHAR"@) || has_sub(ct, "CLOB"@) {
        FieldType::Text
    } else if has_sub(ct, "BLOB"@) {
        FieldType::String
    } else if has_sub(ct, "DATE"@) && has_sub(ct, "TIME"@) {
        FieldType::DateTime
    } else if has_sub(ct, "DATE"@) {
        FieldType::Date
    } else if has_sub(ct, "TIME"@) {
        FieldType::Time
    } else if has_sub(ct, "JSON"@) {
        FieldType::Json
    } else if has_sub(ct, "UUID"@) {
        FieldType::Uuid
    } else {
        FieldType::String
    }
}

/// Maps an SQLite declared column type.
pub fn sqlite_type_to_field_type(col_type: &str) -> (r: FieldType)
    ensures
        r == spec_sqlite_type(col_type@),
{
    let upper = to_uppercase(col_type);
    let c = chars_of(upper.as_str());
    if contains_chars(&c, &chars_of("INT")) {
        FieldType::Integer
    } else if contains_chars(&c, &chars_of("REAL")) || contains_chars(&c, &chars_of("FLOAT")) || contains_chars(&c, &chars_of("DOUBLE")) {
        FieldType::Float
    } else if contains_chars(&c, &chars_of("BOOL")) {
        FieldType::Boolean
    } else if contains_chars(&c, &chars_of("TEXT")) || contains_chars(&c, &chars_of("CHAR")) || contains_chars(&c, &chars_of("CLOB")) {
        FieldType::Text
    } else if contains_chars(&c, &chars_of("BLOB")) {
        FieldType::String
    } else if contains_chars(&c, &chars_of("DATE")) && contains_chars(&c, &chars_of("TIME")) {
        FieldType::DateTime
    } else if contains_chars(&c, &chars_of("DATE")) {
        FieldType::Date
    } else if contains_chars(&c, &chars_of("TIME")) {
        FieldType::Time
    } else if contains_chars(&c, &chars_of("JSON")) {
        FieldType::Json
    } else if contains_chars(&c, &chars_of("UUID")) {
        FieldType::Uuid
    } else {
        FieldType::String
    }
}

/// The default SQL column type for a field type.
pub open spec fn spec_field_type_sql(ft: FieldType) -> Seq<char> {
    match ft {
        FieldType::Integer => "integer"@,
        FieldType::BigInteger => "bigint"@,
        FieldType::Float | FieldType::Decimal => "real"@,
        FieldType::Boolean => "boolean"@,
        FieldType::String | FieldType::Hash | FieldType::Csv => "varchar(255)"@,
        FieldType::Text => "text"@,
        FieldType::Date => "date"@,
        FieldType::Time => "time"@,
        FieldType::DateTime | FieldType::Timestamp => "timestamp"@,
        FieldType::Json => "jsonb"@,
        FieldType::Uuid => "uuid"@,
        FieldType::Binary => "bytea"@,
        FieldType::Geometry | FieldType::GeometryPoint | FieldType::GeometryLineString | FieldType::GeometryPolygon | FieldType::GeometryMultiPoint | FieldType::GeometryMultiLineString | FieldType::GeometryMultiPolygon => "geometry"@,
        FieldType::Alias | FieldType::Unknown => "text"@,
    }
}

/// The default SQL column type for a field type.
pub fn field_type_to_sql(ft: &FieldType) -> (r: String)
    ensures
        r@ == spec_field_type_sql(*ft),
{
    let s: &str = match ft {
        FieldType::Integer => "integer",
        FieldType::BigInteger => "bigint",
        FieldType::Float | FieldType::Decimal => "real",
        FieldType::Boolean => "boolean",
        FieldType::String | FieldType::Hash | FieldType::Csv => "varchar(255)",
        FieldType::Text => "text",
        FieldType::Date => "date",
        FieldType::Time => "time",
        FieldType::DateTime | FieldType::Timestamp => "timestamp",
        FieldType::Json => "jsonb",
        FieldType::Uuid => "uuid",
        FieldType::Binary => "bytea",
        FieldType::Geometry | FieldType::GeometryPoint | FieldType::GeometryLineString | FieldType::GeometryPolygon | FieldType::GeometryMultiPoint | FieldType::GeometryMultiLineString | FieldType::GeometryMultiPolygon => "geometry",
        FieldType::Alias | FieldType::Unknown => "text",
    };
    String::from_str(s)
}

/// The MySQL type names, in any case, and the field types they introspect as:
/// the integer types are `Integer`, `bigint` is `BigInteger`, `float` is
/// `Float`, `double`/`decimal`/`numeric` are `Decimal`, `boolean`/`bool` are
/// `Boolean`, `varchar`/`char` are `String`, the text types are `Text`,
/// `json` is `Json`, `date` is `Date`, `time` is `Time`,
/// `datetime`/`timestamp` are `DateTime`; any other type is `String`.
pub proof fn lemma_mysql_type_table(data_type: Seq<char>)
    ensures
        spec_to_lowercase(data_type) == "int"@ ==> spec_mysql_type(data_type) == FieldType::Integer,
        spec_to_lowercase(data_type) == "integer"@ ==> spec_mysql_type(data_type) == FieldType::Integer,
        spec_to_lowercase(data_type) == "tinyint"@ ==> spec_mysql_type(data_type) == FieldType::Integer,
        spec_to_lowercase(data_type) == "smallint"@ ==> spec_mysql_type(data_type) == FieldType::Integer,
        spec_to_lowercase(data_type) == "mediumint"@ ==> spec_mysql_type(data_type) == FieldType::Integer,
        spec_to_lowercase(data_type) == "bigint"@ ==> spec_mysql_type(data_type) == FieldType::BigInteger,
        spec_to_lowercase(data_type) == "float"@ ==> spec_mysql_type(data_type) == FieldType::Float,
        spec_to_lowercase(data_type) == "double"@ ==> spec_mysql_type(data_type) == FieldType::Decimal,
        spec_to_lowercase(data_type) == "decimal"@ ==> spec_mysql_type(data_type) == FieldType::Decimal,
        spec_to_lowercase(data_type) == "numeric"@ ==> spec_mysql_type(data_type) == FieldType::Decimal,
        spec_to_lowercase(data_type) == "boolean"@ ==> spec_mysql_type(data_type) == FieldType::Boolean,
        spec_to_lowercase(data_type) == "bool"@ ==> spec_mysql_type(data_type) == FieldType::Boolean,
        spec_to_lowercase(data_type) == "varchar"@ ==> spec_mysql_type(data_type) == FieldType::String,
        spec_to_lowercase(data_type) == "char"@ ==> spec_mysql_type(data_type) == FieldType::String,
        spec_to_lowercase(data_type) == "text"@ ==> spec_mysql_type(data_type) == FieldType::Text,
        spec_to_lowercase(data_type) == "tinytext"@ ==> spec_mysql_type(data_type) == FieldType::Text,
        spec_to_lowercase(data_type) == "mediumtext"@ ==> spec_mysql_type(data_type) == FieldType::Text,
        spec_to_lowercase(data_type) == "longtext"@ ==> spec_mysql_type(data_type) == FieldType::Text,
        spec_to_lowercase(data_type) == "json"@ ==> spec_mysql_type(data_type) == FieldType::Json,
        spec_to_lowercase(data_type) == "date"@ ==> spec_mysql_type(data_type) == FieldType::Date,
        spec_to_lowercase(data_type) == "time"@ ==> spec_mysql_type(data_type) == FieldType::Time,
        spec_to_lowercase(data_type) == "datetime"@ ==> spec_mysql_type(data_type) == FieldType::DateTime,
        spec_to_lowercase(data_type) == "timestamp"@ ==> spec_mysql_type(data_type) == FieldType::DateTime,
        (spec_to_lowercase(data_type) != "int"@ && spec_to_lowercase(data_type) != "integer"@ && spec_to_lowercase(data_type) != "tinyint"@ && spec_to_lowercase(data_type) != "smallint"@ && spec_to_lowercase(data_type) != "mediumint"@ && spec_to_lowercase(data_type) != "bigint"@ && spec_to_lowercase(data_type) != "float"@ && spec_to_lowercase(data_type) != "double"@ && spec_to_lowercase(data_type) != "decimal"@ && spec_to_lowercase(data_type) != "numeric"@ && spec_to_lowercase(data_type) != "boolean"@ && spec_to_lowercase(data_type) != "bool"@ && spec_to_lowercase(data_type) != "varchar"@ && spec_to_lowercase(data_type) != "char"@ && spec_to_lowercase(data_type) != "text"@ && spec_to_lowercase(data_type) != "tinytext"@ && spec_to_lowercase(data_type) != "mediumtext"@ && spec_to_lowercase(data_type) != "longtext"@ && spec_to_lowercase(data_type) != "json"@ && spec_to_lowercase(data_type) != "date"@ && spec_to_lowercase(data_type) != "time"@ && spec_to_lowercase(data_type) != "datetime"@ && spec_to_lowercase(data_type) != "timestamp"@) ==> spec_mysql_type(data_type) == FieldType::String,
{
    reveal_strlit("bigint");
    assert("bigint"@.len() == 6);
    reveal_strlit("bool");
    assert("bool"@.len() == 4);
    reveal_strlit("boolean");
    assert("boolean"@.len() == 7);
    reveal_strlit("char");
    assert("char"@.len() == 4);
    reveal_strlit("date");
    assert("date"@.len() == 4);
    reveal_strlit("datetime");
    assert("datetime"@.len() == 8);
    reveal_strlit("decimal");
    assert("decimal"@.len() == 7);
    reveal_strlit("double");
    assert("double"@.len() == 6);
    reveal_strlit("float");
    assert("float"@.len() == 5);
    reveal_strlit("int");
    assert("int"@.len() == 3);
    reveal_strlit("integer");
    assert("integer"@.len() == 7);
    reveal_strlit("json");
    assert("json"@.len() == 4);
    reveal_strlit("longtext");
    assert("longtext"@.len() == 8);
    reveal_strlit("mediumint");
    assert("mediumint"@.len() == 9);
    reveal_strlit("mediumtext");
    assert("mediumtext"@.len() == 10);
    reveal_strlit("numeric");
    assert("numeric"@.len() == 7);
    reveal_strlit("smallint");
    assert("smallint"@.len() == 8);
    reveal_strlit("text");
    assert("text"@.len() == 4);
    reveal_strlit("time");
    assert("time"@.len() == 4);
    reveal_strlit("timestamp");
    assert("timestamp"@.len() == 9);
    reveal_strlit("tinyint");
    assert("tinyint"@.len() == 7);
    reveal_strlit("tinytext");
    assert("tinytext"@.len() == 8);
    reveal_strlit("varchar");
    assert("varchar"@.len() == 7);
    assert("integer"@[0] != "tinyint"@[0]);
    assert("integer"@[0] != "decimal"@[0]);
    assert("integer"@[0] != "numeric"@[0]);
    assert("integer"@[0] != "boolean"@[0]);
    assert("integer"@[0] != "varchar"@[0]);
    assert("tinyint"@[0] != "decimal"@[0]);
    assert("tinyint"@[0] != "numeric"@[0]);
    assert("tinyint"@[0] != "boolean"@[0]);
    assert("tinyint"@[0] != "varchar"@[0]);
    assert("smallint"@[0] != "tinytext"@[0]);
    assert("smallint"@[0] != "longtext"@[0]);
    assert("smallint"@[0] != "datetime"@[0]);
    assert("mediumint"@[0] != "timestamp"@[0]);
    assert("bigint"@[0] != "double"@[0]);
    assert("decimal"@[0] != "numeric"@[0]);
    assert("decimal"@[0] != "boolean"@[0]);
    assert("decimal"@[0] != "varchar"@[0]);
    assert("numeric"@[0] != "boolean"@[0]);
    assert("numeric"@[0] != "varchar"@[0]);
    assert("boolean"@[0] != "varchar"@[0]);
    assert("bool"@[0] != "char"@[0]);
    assert("bool"@[0] != "text"@[0]);
    assert("bool"@[0] != "json"@[0]);
    assert("bool"@[0] != "date"@[0]);
    assert("bool"@[0] != "time"@[0]);
    assert("char"@[0] != "text"@[0]);
    assert("char"@[0] != "json"@[0]);
    assert("char"@[0] != "date"@[0]);
    assert("char"@[0] != "time"@[0]);
    assert("text"@[0] != "json"@[0]);
    assert("text"@[0] != "date"@[0]);
    assert("text"@[1] != "time"@[1]);
    assert("tinytext"@[0] != "longtext"@[0]);
    assert("tinytext"@[0] != "datetime"@[0]);
    assert("longtext"@[0] != "datetime"@[0]);
    assert("json"@[0] != "date"@[0]);
    assert("json"@[0] != "time"@[0]);
    assert("date"@[0] != "time"@[0]);
}

/// The SQL Server type names, in any case, and the field types they
/// introspect as: `int`/`smallint`/`tinyint` are `Integer`, `bigint` is
/// `BigInteger`, `float`/`real` are `Float`, the exact numeric and money
/// types are `Decimal`, `bit` is `Boolean`, the character types are
/// `String`, `text`/`ntext` are `Text`, `date` is `Date`, `time` is `Time`,
/// the date-time types are `DateTime`, `uniqueidentifier` is `Uuid`; any
/// other type is `String`.
pub proof fn lemma_mssql_type_table(data_type: Seq<char>)
    ensures
        spec_to_lowercase(data_type) == "int"@ ==> spec_mssql_type(data_type) == FieldType::Integer,
        spec_to_lowercase(data_type) == "smallint"@ ==> spec_mssql_type(data_type) == FieldType::Integer,
        spec_to_lowercase(data_type) == "tinyint"@ ==> spec_mssql_type(data_type) == FieldType::Integer,
        spec_to_lowercase(data_type) == "bigint"@ ==> spec_mssql_type(data_type) == FieldType::BigInteger,
        spec_to_lowercase(data_type) == "float"@ ==> spec_mssql_type(data_type) == FieldType::Float,
        spec_to_lowercase(data_type) == "real"@ ==> spec_mssql_type(data_type) == FieldType::Float,
        spec_to_lowercase(data_type) == "decimal"@ ==> spec_mssql_type(data_type) == FieldType::Decimal,
        spec_to_lowercase(data_type) == "numeric"@ ==> spec_mssql_type(data_type) == FieldType::Decimal,
        spec_to_lowercase(data_type) == "money"@ ==> spec_mssql_type(data_type) == FieldType::Decimal,
        spec_to_lowercase(data_type) == "smallmoney"@ ==> spec_mssql_type(data_type) == FieldType::Decimal,
        spec_to_lowercase(data_type) == "bit"@ ==> spec_mssql_type(data_type) == FieldType::Boolean,
        spec_to_lowercase(data_type) == "varchar"@ ==> spec_mssql_type(data_type) == FieldType::String,
        spec_to_lowercase(data_type) == "nvarchar"@ ==> spec_mssql_type(data_type) == FieldType::String,
        spec_to_lowercase(data_type) == "char"@ ==> spec_mssql_type(data_type) == FieldType::String,
        spec_to_lowercase(data_type) == "nchar"@ ==> spec_mssql_type(data_type) == FieldType::String,
        spec_to_lowercase(data_type) == "text"@ ==> spec_mssql_type(data_type) == FieldType::Text,
        spec_to_lowercase(data_type) == "ntext"@ ==> spec_mssql_type(data_type) == FieldType::Text,
        spec_to_lowercase(data_type) == "date"@ ==> spec_mssql_type(data_type) == FieldType::Date,
        spec_to_lowercase(data_type) == "time"@ ==> spec_mssql_type(data_type) == FieldType::Time,
        spec_to_lowercase(data_type) == "datetime"@ ==> spec_mssql_type(data_type) == FieldType::DateTime,
        spec_to_lowercase(data_type) == "datetime2"@ ==> spec_mssql_type(data_type) == FieldType::DateTime,
        spec_to_lowercase(data_type) == "smalldatetime"@ ==> spec_mssql_type(data_type) == FieldType::DateTime,
        spec_to_lowercase(data_type) == "datetimeoffset"@ ==> spec_mssql_type(data_type) == FieldType::DateTime,
        spec_to_lowercase(data_type) == "uniqueidentifier"@ ==> spec_mssql_type(data_type) == FieldType::Uuid,
        (spec_to_lowercase(data_type) != "int"@ && spec_to_lowercase(data_type) != "smallint"@ && spec_to_lowercase(data_type) != "tinyint"@ && spec_to_lowercase(data_type) != "bigint"@ && spec_to_lowercase(data_type) != "float"@ && spec_to_lowercase(data_type) != "real"@ && spec_to_lowercase(data_type) != "decimal"@ && spec_to_lowercase(data_type) != "numeric"@ && spec_to_lowercase(data_type) != "money"@ && spec_to_lowercase(data_type) != "smallmoney"@ && spec_to_lowercase(data_type) != "bit"@ && spec_to_lowercase(data_type) != "varchar"@ && spec_to_lowercase(data_type) != "nvarchar"@ && spec_to_lowercase(data_type) != "char"@ && spec_to_lowercase(data_type) != "nchar"@ && spec_to_lowercase(data_type) != "text"@ && spec_to_lowercase(data_type) != "ntext"@ && spec_to_lowercase(data_type) != "date"@ && spec_to_lowercase(data_type) != "time"@ && spec_to_lowercase(data_type) != "datetime"@ && spec_to_lowercase(data_type) != "datetime2"@ && spec_to_lowercase(data_type) != "smalldatetime"@ && spec_to_lowercase(data_type) != "datetimeoffset"@ && spec_to_lowercase(data_type) != "uniqueidentifier"@) ==> spec_mssql_type(data_type) == FieldType::String,
{
    reveal_strlit("bigint");
    assert("bigint"@.len() == 6);
    reveal_strlit("bit");
    assert("bit"@.len() == 3);
    reveal_strlit("char");
    assert("char"@.len() == 4);
    reveal_strlit("date");
    assert("date"@.len() == 4);
    reveal_strlit("datetime");
    assert("datetime"@.len() == 8);
    reveal_strlit("datetime2");
    assert("datetime2"@.len() == 9);
    reveal_strlit("datetimeoffset");
    assert("datetimeoffset"@.len() == 14);
    reveal_strlit("decimal");
    assert("decimal"@.len() == 7);
    reveal_strlit("float");
    assert("float"@.len() == 5);
    reveal_strlit("int");
    assert("int"@.len() == 3);
    reveal_strlit("money");
    assert("money"@.len() == 5);
    reveal_strlit("nchar");
    assert("nchar"@.len() == 5);
    reveal_strlit("ntext");
    assert("ntext"@.len() == 5);
    reveal_strlit("numeric");
    assert("numeric"@.len() == 7);
    reveal_strlit("nvarchar");
    assert("nvarchar"@.len() == 8);
    reveal_strlit("real");
    assert("real"@.len() == 4);
    reveal_strlit("smalldatetime");
    assert("smalldatetime"@.len() == 13);
    reveal_strlit("smallint");
    assert("smallint"@.len() == 8);
    reveal_strlit("smallmoney");
    assert("smallmoney"@.len() == 10);
    reveal_strlit("text");
    assert("text"@.len() == 4);
    reveal_strlit("time");
    assert("time"@.len() == 4);
    reveal_strlit("tinyint");
    assert("tinyint"@.len() == 7);
    reveal_strlit("uniqueidentifier");
    assert("uniqueidentifier"@.len() == 16);
    reveal_strlit("varchar");
    assert("varchar"@.len() == 7);
    assert("int"@[0] != "bit"@[0]);
    assert("smallint"@[0] != "nvarchar"@[0]);
    assert("smallint"@[0] != "datetime"@[0]);
    assert("tinyint"@[0] != "decimal"@[0]);
    assert("tinyint"@[0] != "numeric"@[0]);
    assert("tinyint"@[0] != "varchar"@[0]);
    assert("float"@[0] != "money"@[0]);
    assert("float"@[0] != "nchar"@[0]);
    assert("float"@[0] != "ntext"@[0]);
    assert("real"@[0] != "char"@[0]);
    assert("real"@[0] != "text"@[0]);
    assert("real"@[0] != "date"@[0]);
    assert("real"@[0] != "time"@[0]);
    assert("decimal"@[0] != "numeric"@[0]);
    assert("decimal"@[0] != "varchar"@[0]);
    assert("numeric"@[0] != "varchar"@[0]);
    assert("money"@[0] != "nchar"@[0]);
    assert("money"@[0] != "ntext"@[0]);
    assert("nvarchar"@[0] != "datetime"@[0]);
    assert("char"@[0] != "text"@[0]);
    assert("char"@[0] != "date"@[0]);
    assert("char"@[0] != "time"@[0]);
    assert("nchar"@[1] != "ntext"@[1]);
    assert("text"@[0] != "date"@[0]);
    assert("text"@[1] != "time"@[1]);
    assert("date"@[0] != "time"@[0]);
}

/// The PostgreSQL type names, in any case, and the field types they
/// introspect as: the integer types are `Integer`, the eight-byte integers
/// `BigInteger`, `real`/`float4` `Float`, the double and exact numeric types
/// `Decimal`, `boolean`/`bool` `Boolean`, the character types and `bytea`
/// `String`, `text` `Text`, `uuid` `Uuid`, `json`/`jsonb` `Json`, `date`
/// `Date`, the time types `Time` and the timestamp types `Timestamp`. A data
/// type not listed goes by its `udt_name` (`uuid`, `bool`, `int4`/`int2`/
/// `serial`, `int8`/`bigserial`, `float4`, `float8`/`numeric`,
/// `json`/`jsonb`, `timestamptz`/`timestamp`), and is `String` otherwise.
pub proof fn lemma_pg_type_table(data_type: Seq<char>, udt_name: Seq<char>)
    ensures
        spec_to_lowercase(data_type) == "integer"@ ==> spec_pg_type(data_type, udt_name) == FieldType::Integer,
        spec_to_lowercase(data_type) == "int4"@ ==> spec_pg_type(data_type, udt_name) == FieldType::Integer,
        spec_to_lowercase(data_type) == "smallint"@ ==> spec_pg_type(data_type, udt_name) == FieldType::Integer,
        spec_to_lowercase(data_type) == "int2"@ ==> spec_pg_type(data_type, udt_name) == FieldType::Integer,
        spec_to_lowercase(data_type) == "serial"@ ==> spec_pg_type(data_type, udt_name) == FieldType::Integer,
        spec_to_lowercase(data_type) == "bigint"@ ==> spec_pg_type(data_type, udt_name) == FieldType::BigInteger,
        spec_to_lowercase(data_type) == "int8"@ ==> spec_pg_type(data_type, udt_name) == FieldType::BigInteger,
        spec_to_lowercase(data_type) == "bigserial"@ ==> spec_pg_type(data_type, udt_name) == FieldType::BigInteger,
        spec_to_lowercase(data_type) == "real"@ ==> spec_pg_type(data_type, udt_name) == FieldType::Float,
        spec_to_lowercase(data_type) == "float4"@ ==> spec_pg_type(data_type, udt_name) == FieldType::Float,
        spec_to_lowercase(data_type) == "double precision"@ ==> spec_pg_type(data_type, udt_name) == FieldType::Decimal,
        spec_to_lowercase(data_type) == "float8"@ ==> spec_pg_type(data_type, udt_name) == FieldType::Decimal,
        spec_to_lowercase(data_type) == "numeric"@ ==> spec_pg_type(data_type, udt_name) == FieldType::Decimal,
        spec_to_lowercase(data_type) == "decimal"@ ==> spec_pg_type(data_type, udt_name) == FieldType::Decimal,
        spec_to_lowercase(data_type) == "boolean"@ ==> spec_pg_type(data_type, udt_name) == FieldType::Boolean,
        spec_to_lowercase(data_type) == "bool"@ ==> spec_pg_type(data_type, udt_name) == FieldType::Boolean,
        spec_to_lowercase(data_type) == "character varying"@ ==> spec_pg_type(data_type, udt_name) == FieldType::String,
        spec_to_lowercase(data_type) == "varchar"@ ==> spec_pg_type(data_type, udt_name) == FieldType::String,
        spec_to_lowercase(data_type) == "text"@ ==> spec_pg_type(data_type, udt_name) == FieldType::Text,
        spec_to_lowercase(data_type) == "uuid"@ ==> spec_pg_type(data_type, udt_name) == FieldType::Uuid,
        spec_to_lowercase(data_type) == "json"@ ==> spec_pg_type(data_type, udt_name) == FieldType::Json,
        spec_to_lowercase(data_type) == "jsonb"@ ==> spec_pg_type(data_type, udt_name) == FieldType::Json,
        spec_to_lowercase(data_type) == "date"@ ==> spec_pg_type(data_type, udt_name) == FieldType::Date,
        spec_to_lowercase(data_type) == "time"@ ==> spec_pg_type(data_type, udt_name) == FieldType::Time,
        spec_to_lowercase(data_type) == "time without time zone"@ ==> spec_pg_type(data_type, udt_name) == FieldType::Time,
        spec_to_lowercase(data_type) == "time with time zone"@ ==> spec_pg_type(data_type, udt_name) == FieldType::Time,
        spec_to_lowercase(data_type) == "timestamp"@ ==> spec_pg_type(data_type, udt_name) == FieldType::Timestamp,
        spec_to_lowercase(data_type) == "timestamp without time zone"@ ==> spec_pg_type(data_type, udt_name) == FieldType::Timestamp,
        spec_to_lowercase(data_type) == "timestamp with time zone"@ ==> spec_pg_type(data_type, udt_name) == FieldType::Timestamp,
        spec_to_lowercase(data_type) == "bytea"@ ==> spec_pg_type(data_type, udt_name) == FieldType::String,
        (spec_to_lowercase(data_type) != "integer"@ && spec_to_lowercase(data_type) != "int4"@ && spec_to_lowercase(data_type) != "smallint"@ && spec_to_lowercase(data_type) != "int2"@ && spec_to_lowercase(data_type) != "serial"@ && spec_to_lowercase(data_type) != "bigint"@ && spec_to_lowercase(data_type) != "int8"@ && spec_to_lowercase(data_type) != "bigserial"@ && spec_to_lowercase(data_type) != "real"@ && spec_to_lowercase(data_type) != "float4"@ && spec_to_lowercase(data_type) != "double precision"@ && spec_to_lowercase(data_type) != "float8"@ && spec_to_lowercase(data_type) != "numeric"@ && spec_to_lowercase(data_type) != "decimal"@ && spec_to_lowercase(data_type) != "boolean"@ && spec_to_lowercase(data_type) != "bool"@ && spec_to_lowercase(data_type) != "character varying"@ && spec_to_lowercase(data_type) != "varchar"@ && spec_to_lowercase(data_type) != "text"@ && spec_to_lowercase(data_type) != "uuid"@ && spec_to_lowercase(data_type) != "json"@ && spec_to_lowercase(data_type) != "jsonb"@ && spec_to_lowercase(data_type) != "date"@ && spec_to_lowercase(data_type) != "time"@ && spec_to_lowercase(data_type) != "time without time zone"@ && spec_to_lowercase(data_type) != "time with time zone"@ && spec_to_lowercase(data_type) != "timestamp"@ && spec_to_lowercase(data_type) != "timestamp without time zone"@ && spec_to_lowercase(data_type) != "timestamp with time zone"@ && spec_to_lowercase(data_type) != "bytea"@) && spec_to_lowercase(udt_name) == "uuid"@ ==> spec_pg_type(data_type, udt_name) == FieldType::Uuid,
        (spec_to_lowercase(data_type) != "integer"@ && spec_to_lowercase(data_type) != "int4"@ && spec_to_lowercase(data_type) != "smallint"@ && spec_to_lowercase(data_type) != "int2"@ && spec_to_lowercase(data_type) != "serial"@ && spec_to_lowercase(data_type) != "bigint"@ && spec_to_lowercase(data_type) != "int8"@ && spec_to_lowercase(data_type) != "bigserial"@ && spec_to_lowercase(data_type) != "real"@ && spec_to_lowercase(data_type) != "float4"@ && spec_to_lowercase(data_type) != "double precision"@ && spec_to_lowercase(data_type) != "float8"@ && spec_to_lowercase(data_type) != "numeric"@ && spec_to_lowercase(data_type) != "decimal"@ && spec_to_lowercase(data_type) != "boolean"@ && spec_to_lowercase(data_type) != "bool"@ && spec_to_lowercase(data_type) != "character varying"@ && spec_to_lowercase(data_type) != "varchar"@ && spec_to_lowercase(data_type) != "text"@ && spec_to_lowercase(data_type) != "uuid"@ && spec_to_lowercase(data_type) != "json"@ && spec_to_lowercase(data_type) != "jsonb"@ && spec_to_lowercase(data_type) != "date"@ && spec_to_lowercase(data_type) != "time"@ && spec_to_lowercase(data_type) != "time without time zone"@ && spec_to_lowercase(data_type) != "time with time zone"@ && spec_to_lowercase(data_type) != "timestamp"@ && spec_to_lowercase(data_type) != "timestamp without time zone"@ && spec_to_lowercase(data_type) != "timestamp with time zone"@ && spec_to_lowercase(data_type) != "bytea"@) && spec_to_lowercase(udt_name) == "bool"@ ==> spec_pg_type(data_type, udt_name) == FieldType::Boolean,
        (spec_to_lowercase(data_type) != "integer"@ && spec_to_lowercase(data_type) != "int4"@ && spec_to_lowercase(data_type) != "smallint"@ && spec_to_lowercase(data_type) != "int2"@ && spec_to_lowercase(data_type) != "serial"@ && spec_to_lowercase(data_type) != "bigint"@ && spec_to_lowercase(data_type) != "int8"@ && spec_to_lowercase(data_type) != "bigserial"@ && spec_to_lowercase(data_type) != "real"@ && spec_to_lowercase(data_type) != "float4"@ && spec_to_lowercase(data_type) != "double precision"@ && spec_to_lowercase(data_type) != "float8"@ && spec_to_lowercase(data_type) != "numeric"@ && spec_to_lowercase(data_type) != "decimal"@ && spec_to_lowercase(data_type) != "boolean"@ && spec_to_lowercase(data_type) != "bool"@ && spec_to_lowercase(data_type) != "character varying"@ && spec_to_lowercase(data_type) != "varchar"@ && spec_to_lowercase(data_type) != "text"@ && spec_to_lowercase(data_type) != "uuid"@ && spec_to_lowercase(data_type) != "json"@ && spec_to_lowercase(data_type) != "jsonb"@ && spec_to_lowercase(data_type) != "date"@ && spec_to_lowercase(data_type) != "time"@ && spec_to_lowercase(data_type) != "time without time zone"@ && spec_to_lowercase(data_type) != "time with time zone"@ && spec_to_lowercase(data_type) != "timestamp"@ && spec_to_lowercase(data_type) != "timestamp without time zone"@ && spec_to_lowercase(data_type) != "timestamp with time zone"@ && spec_to_lowercase(data_type) != "bytea"@) && spec_to_lowercase(udt_name) == "int4"@ ==> spec_pg_type(data_type, udt_name) == FieldType::Integer,
        (spec_to_lowercase(data_type) != "integer"@ && spec_to_lowercase(data_type) != "int4"@ && spec_to_lowercase(data_type) != "smallint"@ && spec_to_lowercase(data_type) != "int2"@ && spec_to_lowercase(data_type) != "serial"@ && spec_to_lowercase(data_type) != "bigint"@ && spec_to_lowercase(data_type) != "int8"@ && spec_to_lowercase(data_type) != "bigserial"@ && spec_to_lowercase(data_type) != "real"@ && spec_to_lowercase(data_type) != "float4"@ && spec_to_lowercase(data_type) != "double precision"@ && spec_to_lowercase(data_type) != "float8"@ && spec_to_lowercase(data_type) != "numeric"@ && spec_to_lowercase(data_type) != "decimal"@ && spec_to_lowercase(data_type) != "boolean"@ && spec_to_lowercase(data_type) != "bool"@ && spec_to_lowercase(data_type) != "character varying"@ && spec_to_lowercase(data_type) != "varchar"@ && spec_to_lowercase(data_type) != "text"@ && spec_to_lowercase(data_type) != "uuid"@ && spec_to_lowercase(data_type) != "json"@ && spec_to_lowercase(data_type) != "jsonb"@ && spec_to_lowercase(data_type) != "date"@ && spec_to_lowercase(data_type) != "time"@ && spec_to_lowercase(data_type) != "time without time zone"@ && spec_to_lowercase(data_type) != "time with time zone"@ && spec_to_lowercase(data_type) != "timestamp"@ && spec_to_lowercase(data_type) != "timestamp without time zone"@ && spec_to_lowercase(data_type) != "timestamp with time zone"@ && spec_to_lowercase(data_type) != "bytea"@) && spec_to_lowercase(udt_name) == "int2"@ ==> spec_pg_type(data_type, udt_name) == FieldType::Integer,
        (spec_to_lowercase(data_type) != "integer"@ && spec_to_lowercase(data_type) != "int4"@ && spec_to_lowercase(data_type) != "smallint"@ && spec_to_lowercase(data_type) != "int2"@ && spec_to_lowercase(data_type) != "serial"@ && spec_to_lowercase(data_type) != "bigint"@ && spec_to_lowercase(data_type) != "int8"@ && spec_to_lowercase(data_type) != "bigserial"@ && spec_to_lowercase(data_type) != "real"@ && spec_to_lowercase(data_type) != "float4"@ && spec_to_lowercase(data_type) != "double precision"@ && spec_to_lowercase(data_type) != "float8"@ && spec_to_lowercase(data_type) != "numeric"@ && spec_to_lowercase(data_type) != "decimal"@ && spec_to_lowercase(data_type) != "boolean"@ && spec_to_lowercase(data_type) != "bool"@ && spec_to_lowercase(data_type) != "character varying"@ && spec_to_lowercase(data_type) != "varchar"@ && spec_to_lowercase(data_type) != "text"@ && spec_to_lowercase(data_type) != "uuid"@ && spec_to_lowercase(data_type) != "json"@ && spec_to_lowercase(data_type) != "jsonb"@ && spec_to_lowercase(data_type) != "date"@ && spec_to_lowercase(data_type) != "time"@ && spec_to_lowercase(data_type) != "time without time zone"@ && spec_to_lowercase(data_type) != "time with time zone"@ && spec_to_lowercase(data_type) != "timestamp"@ && spec_to_lowercase(data_type) != "timestamp without time zone"@ && spec_to_lowercase(data_type) != "timestamp with time zone"@ && spec_to_lowercase(data_type) != "bytea"@) && spec_to_lowercase(udt_name) == "serial"@ ==> spec_pg_type(data_type, udt_name) == FieldType::Integer,
        (spec_to_lowercase(data_type) != "integer"@ && spec_to_lowercase(data_type) != "int4"@ && spec_to_lowercase(data_type) != "smallint"@ && spec_to_lowercase(data_type) != "int2"@ && spec_to_lowercase(data_type) != "serial"@ && spec_to_lowercase(data_type) != "bigint"@ && spec_to_lowercase(data_type) != "int8"@ && spec_to_lowercase(data_type) != "bigserial"@ && spec_to_lowercase(data_type) != "real"@ && spec_to_lowercase(data_type) != "float4"@ && spec_to_lowercase(data_type) != "double precision"@ && spec_to_lowercase(data_type) != "float8"@ && spec_to_lowercase(data_type) != "numeric"@ && spec_to_lowercase(data_type) != "decimal"@ && spec_to_lowercase(data_type) != "boolean"@ && spec_to_lowercase(data_type) != "bool"@ && spec_to_lowercase(data_type) != "character varying"@ && spec_to_lowercase(data_type) != "varchar"@ && spec_to_lowercase(data_type) != "text"@ && spec_to_lowercase(data_type) != "uuid"@ && spec_to_lowercase(data_type) != "json"@ && spec_to_lowercase(data_type) != "jsonb"@ && spec_to_lowercase(data_type) != "date"@ && spec_to_lowercase(data_type) != "time"@ && spec_to_lowercase(data_type) != "time without time zone"@ && spec_to_lowercase(data_type) != "time with time zone"@ && spec_to_lowercase(data_type) != "timestamp"@ && spec_to_lowercase(data_type) != "timestamp without time zone"@ && spec_to_lowercase(data_type) != "timestamp with time zone"@ && spec_to_lowercase(data_type) != "bytea"@) && spec_to_lowercase(udt_name) == "int8"@ ==> spec_pg_type(data_type, udt_name) == FieldType::BigInteger,
        (spec_to_lowercase(data_type) != "integer"@ && spec_to_lowercase(data_type) != "int4"@ && spec_to_lowercase(data_type) != "smallint"@ && spec_to_lowercase(data_type) != "int2"@ && spec_to_lowercase(data_type) != "serial"@ && spec_to_lowercase(data_type) != "bigint"@ && spec_to_lowercase(data_type) != "int8"@ && spec_to_lowercase(data_type) != "bigserial"@ && spec_to_lowercase(data_type) != "real"@ && spec_to_lowercase(data_type) != "float4"@ && spec_to_lowercase(data_type) != "double precision"@ && spec_to_lowercase(data_type) != "float8"@ && spec_to_lowercase(data_type) != "numeric"@ && spec_to_lowercase(data_type) != "decimal"@ && spec_to_lowercase(data_type) != "boolean"@ && spec_to_lowercase(data_type) != "bool"@ && spec_to_lowercase(data_type) != "character varying"@ && spec_to_lowercase(data_type) != "varchar"@ && spec_to_lowercase(data_type) != "text"@ && spec_to_lowercase(data_type) != "uuid"@ && spec_to_lowercase(data_type) != "json"@ && spec_to_lowercase(data_type) != "jsonb"@ && spec_to_lowercase(data_type) != "date"@ && spec_to_lowercase(data_type) != "time"@ && spec_to_lowercase(data_type) != "time without time zone"@ && spec_to_lowercase(data_type) != "time with time zone"@ && spec_to_lowercase(data_type) != "timestamp"@ && spec_to_lowercase(data_type) != "timestamp without time zone"@ && spec_to_lowercase(data_type) != "timestamp with time zone"@ && spec_to_lowercase(data_type) != "bytea"@) && spec_to_lowercase(udt_name) == "bigserial"@ ==> spec_pg_type(data_type, udt_name) == FieldType::BigInteger,
        (spec_to_lowercase(data_type) != "integer"@ && spec_to_lowercase(data_type) != "int4"@ && spec_to_lowercase(data_type) != "smallint"@ && spec_to_lowercase(data_type) != "int2"@ && spec_to_lowercase(data_type) != "serial"@ && spec_to_lowercase(data_type) != "bigint"@ && spec_to_lowercase(data_type) != "int8"@ && spec_to_lowercase(data_type) != "bigserial"@ && spec_to_lowercase(data_type) != "real"@ && spec_to_lowercase(data_type) != "float4"@ && spec_to_lowercase(data_type) != "double precision"@ && spec_to_lowercase(data_type) != "float8"@ && spec_to_lowercase(data_type) != "numeric"@ && spec_to_lowercase(data_type) != "decimal"@ && spec_to_lowercase(data_type) != "boolean"@ && spec_to_lowercase(data_type) != "bool"@ && spec_to_lowercase(data_type) != "character varying"@ && spec_to_lowercase(data_type) != "varchar"@ && spec_to_lowercase(data_type) != "text"@ && spec_to_lowercase(data_type) != "uuid"@ && spec_to_lowercase(data_type) != "json"@ && spec_to_lowercase(data_type) != "jsonb"@ && spec_to_lowercase(data_type) != "date"@ && spec_to_lowercase(data_type) != "time"@ && spec_to_lowercase(data_type) != "time without time zone"@ && spec_to_lowercase(data_type) != "time with time zone"@ && spec_to_lowercase(data_type) != "timestamp"@ && spec_to_lowercase(data_type) != "timestamp without time zone"@ && spec_to_lowercase(data_type) != "timestamp with time zone"@ && spec_to_lowercase(data_type) != "bytea"@) && spec_to_lowercase(udt_name) == "float4"@ ==> spec_pg_type(data_type, udt_name) == FieldType::Float,
        (spec_to_lowercase(data_type) != "integer"@ && spec_to_lowercase(data_type) != "int4"@ && spec_to_lowercase(data_type) != "smallint"@ && spec_to_lowercase(data_type) != "int2"@ && spec_to_lowercase(data_type) != "serial"@ && spec_to_lowercase(data_type) != "bigint"@ && spec_to_lowercase(data_type) != "int8"@ && spec_to_lowercase(data_type) != "bigserial"@ && spec_to_lowercase(data_type) != "real"@ && spec_to_lowercase(data_type) != "float4"@ && spec_to_lowercase(data_type) != "double precision"@ && spec_to_lowercase(data_type) != "float8"@ && spec_to_lowercase(data_type) != "numeric"@ && spec_to_lowercase(data_type) != "decimal"@ && spec_to_lowercase(data_type) != "boolean"@ && spec_to_lowercase(data_type) != "bool"@ && spec_to_lowercase(data_type) != "character varying"@ && spec_to_lowercase(data_type) != "varchar"@ && spec_to_lowercase(data_type) != "text"@ && spec_to_lowercase(data_type) != "uuid"@ && spec_to_lowercase(data_type) != "json"@ && spec_to_lowercase(data_type) != "jsonb"@ && spec_to_lowercase(data_type) != "date"@ && spec_to_lowercase(data_type) != "time"@ && spec_to_lowercase(data_type) != "time without time zone"@ && spec_to_lowercase(data_type) != "time with time zone"@ && spec_to_lowercase(data_type) != "timestamp"@ && spec_to_lowercase(data_type) != "timestamp without time zone"@ && spec_to_lowercase(data_type) != "timestamp with time zone"@ && spec_to_lowercase(data_type) != "bytea"@) && spec_to_lowercase(udt_name) == "float8"@ ==> spec_pg_type(data_type, udt_name) == FieldType::Decimal,
        (spec_to_lowercase(data_type) != "integer"@ && spec_to_lowercase(data_type) != "int4"@ && spec_to_lowercase(data_type) != "smallint"@ && spec_to_lowercase(data_type) != "int2"@ && spec_to_lowercase(data_type) != "serial"@ && spec_to_lowercase(data_type) != "bigint"@ && spec_to_lowercase(data_type) != "int8"@ && spec_to_lowercase(data_type) != "bigserial"@ && spec_to_lowercase(data_type) != "real"@ && spec_to_lowercase(data_type) != "float4"@ && spec_to_lowercase(data_type) != "double precision"@ && spec_to_lowercase(data_type) != "float8"@ && spec_to_lowercase(data_type) != "numeric"@ && spec_to_lowercase(data_type) != "decimal"@ && spec_to_lowercase(data_type) != "boolean"@ && spec_to_lowercase(data_type) != "bool"@ && spec_to_lowercase(data_type) != "character varying"@ && spec_to_lowercase(data_type) != "varchar"@ && spec_to_lowercase(data_type) != "text"@ && spec_to_lowercase(data_type) != "uuid"@ && spec_to_lowercase(data_type) != "json"@ && spec_to_lowercase(data_type) != "jsonb"@ && spec_to_lowercase(data_type) != "date"@ && spec_to_lowercase(data_type) != "time"@ && spec_to_lowercase(data_type) != "time without time zone"@ && spec_to_lowercase(data_type) != "time with time zone"@ && spec_to_lowercase(data_type) != "timestamp"@ && spec_to_lowercase(data_type) != "timestamp without time zone"@ && spec_to_lowercase(data_type) != "timestamp with time zone"@ && spec_to_lowercase(data_type) != "bytea"@) && spec_to_lowercase(udt_name) == "numeric"@ ==> spec_pg_type(data_type, udt_name) == FieldType::Decimal,
        (spec_to_lowercase(data_type) != "integer"@ && spec_to_lowercase(data_type) != "int4"@ && spec_to_lowercase(data_type) != "smallint"@ && spec_to_lowercase(data_type) != "int2"@ && spec_to_lowercase(data_type) != "serial"@ && spec_to_lowercase(data_type) != "bigint"@ && spec_to_lowercase(data_type) != "int8"@ && spec_to_lowercase(data_type) != "bigserial"@ && spec_to_lowercase(data_type) != "real"@ && spec_to_lowercase(data_type) != "float4"@ && spec_to_lowercase(data_type) != "double precision"@ && spec_to_lowercase(data_type) != "float8"@ && spec_to_lowercase(data_type) != "numeric"@ && spec_to_lowercase(data_type) != "decimal"@ && spec_to_lowercase(data_type) != "boolean"@ && spec_to_lowercase(data_type) != "bool"@ && spec_to_lowercase(data_type) != "character varying"@ && spec_to_lowercase(data_type) != "varchar"@ && spec_to_lowercase(data_type) != "text"@ && spec_to_lowercase(data_type) != "uuid"@ && spec_to_lowercase(data_type) != "json"@ && spec_to_lowercase(data_type) != "jsonb"@ && spec_to_lowercase(data_type) != "date"@ && spec_to_lowercase(data_type) != "time"@ && spec_to_lowercase(data_type) != "time without time zone"@ && spec_to_lowercase(data_type) != "time with time zone"@ && spec_to_lowercase(data_type) != "timestamp"@ && spec_to_lowercase(data_type) != "timestamp without time zone"@ && spec_to_lowercase(data_type) != "timestamp with time zone"@ && spec_to_lowercase(data_type) != "bytea"@) && spec_to_lowercase(udt_name) == "json"@ ==> spec_pg_type(data_type, udt_name) == FieldType::Json,
        (spec_to_lowercase(data_type) != "integer"@ && spec_to_lowercase(data_type) != "int4"@ && spec_to_lowercase(data_type) != "smallint"@ && spec_to_lowercase(data_type) != "int2"@ && spec_to_lowercase(data_type) != "serial"@ && spec_to_lowercase(data_type) != "bigint"@ && spec_to_lowercase(data_type) != "int8"@ && spec_to_lowercase(data_type) != "bigserial"@ && spec_to_lowercase(data_type) != "real"@ && spec_to_lowercase(data_type) != "float4"@ && spec_to_lowercase(data_type) != "double precision"@ && spec_to_lowercase(data_type) != "float8"@ && spec_to_lowercase(data_type) != "numeric"@ && spec_to_lowercase(data_type) != "decimal"@ && spec_to_lowercase(data_type) != "boolean"@ && spec_to_lowercase(data_type) != "bool"@ && spec_to_lowercase(data_type) != "character varying"@ && spec_to_lowercase(data_type) != "varchar"@ && spec_to_lowercase(data_type) != "text"@ && spec_to_lowercase(data_type) != "uuid"@ && spec_to_lowercase(data_type) != "json"@ && spec_to_lowercase(data_type) != "jsonb"@ && spec_to_lowercase(data_type) != "date"@ && spec_to_lowercase(data_type) != "time"@ && spec_to_lowercase(data_type) != "time without time zone"@ && spec_to_lowercase(data_type) != "time with time zone"@ && spec_to_lowercase(data_type) != "timestamp"@ && spec_to_lowercase(data_type) != "timestamp without time zone"@ && spec_to_lowercase(data_type) != "timestamp with time zone"@ && spec_to_lowercase(data_type) != "bytea"@) && spec_to_lowercase(udt_name) == "jsonb"@ ==> spec_pg_type(data_type, udt_name) == FieldType::Json,
        (spec_to_lowercase(data_type) != "integer"@ && spec_to_lowercase(data_type) != "int4"@ && spec_to_lowercase(data_type) != "smallint"@ && spec_to_lowercase(data_type) != "int2"@ && spec_to_lowercase(data_type) != "serial"@ && spec_to_lowercase(data_type) != "bigint"@ && spec_to_lowercase(data_type) != "int8"@ && spec_to_lowercase(data_type) != "bigserial"@ && spec_to_lowercase(data_type) != "real"@ && spec_to_lowercase(data_type) != "float4"@ && spec_to_lowercase(data_type) != "double precision"@ && spec_to_lowercase(data_type) != "float8"@ && spec_to_lowercase(data_type) != "numeric"@ && spec_to_lowercase(data_type) != "decimal"@ && spec_to_lowercase(data_type) != "boolean"@ && spec_to_lowercase(data_type) != "bool"@ && spec_to_lowercase(data_type) != "character varying"@ && spec_to_lowercase(data_type) != "varchar"@ && spec_to_lowercase(data_type) != "text"@ && spec_to_lowercase(data_type) != "uuid"@ && spec_to_lowercase(data_type) != "json"@ && spec_to_lowercase(data_type) != "jsonb"@ && spec_to_lowercase(data_type) != "date"@ && spec_to_lowercase(data_type) != "time"@ && spec_to_lowercase(data_type) != "time without time zone"@ && spec_to_lowercase(data_type) != "time with time zone"@ && spec_to_lowercase(data_type) != "timestamp"@ && spec_to_lowercase(data_type) != "timestamp without time zone"@ && spec_to_lowercase(data_type) != "timestamp with time zone"@ && spec_to_lowercase(data_type) != "bytea"@) && spec_to_lowercase(udt_name) == "timestamptz"@ ==> spec_pg_type(data_type, udt_name) == FieldType::Timestamp,
        (spec_to_lowercase(data_type) != "integer"@ && spec_to_lowercase(data_type) != "int4"@ && spec_to_lowercase(data_type) != "smallint"@ && spec_to_lowercase(data_type) != "int2"@ && spec_to_lowercase(data_type) != "serial"@ && spec_to_lowercase(data_type) != "bigint"@ && spec_to_lowercase(data_type) != "int8"@ && spec_to_lowercase(data_type) != "bigserial"@ && spec_to_lowercase(data_type) != "real"@ && spec_to_lowercase(data_type) != "float4"@ && spec_to_lowercase(data_type) != "double precision"@ && spec_to_lowercase(data_type) != "float8"@ && spec_to_lowercase(data_type) != "numeric"@ && spec_to_lowercase(data_type) != "decimal"@ && spec_to_lowercase(data_type) != "boolean"@ && spec_to_lowercase(data_type) != "bool"@ && spec_to_lowercase(data_type) != "character varying"@ && spec_to_lowercase(data_type) != "varchar"@ && spec_to_lowercase(data_type) != "text"@ && spec_to_lowercase(data_type) != "uuid"@ && spec_to_lowercase(data_type) != "json"@ && spec_to_lowercase(data_type) != "jsonb"@ && spec_to_lowercase(data_type) != "date"@ && spec_to_lowercase(data_type) != "time"@ && spec_to_lowercase(data_type) != "time without time zone"@ && spec_to_lowercase(data_type) != "time with time zone"@ && spec_to_lowercase(data_type) != "timestamp"@ && spec_to_lowercase(data_type) != "timestamp without time zone"@ && spec_to_lowercase(data_type) != "timestamp with time zone"@ && spec_to_lowercase(data_type) != "bytea"@) && spec_to_lowercase(udt_name) == "timestamp"@ ==> spec_pg_type(data_type, udt_name) == FieldType::Timestamp,
        (spec_to_lowercase(data_type) != "integer"@ && spec_to_lowercase(data_type) != "int4"@ && spec_to_lowercase(data_type) != "smallint"@ && spec_to_lowercase(data_type) != "int2"@ && spec_to_lowercase(data_type) != "serial"@ && spec_to_lowercase(data_type) != "bigint"@ && spec_to_lowercase(data_type) != "int8"@ && spec_to_lowercase(data_type) != "bigserial"@ && spec_to_lowercase(data_type) != "real"@ && spec_to_lowercase(data_type) != "float4"@ && spec_to_lowercase(data_type) != "double precision"@ && spec_to_lowercase(data_type) != "float8"@ && spec_to_lowercase(data_type) != "numeric"@ && spec_to_lowercase(data_type) != "decimal"@ && spec_to_lowercase(data_type) != "boolean"@ && spec_to_lowercase(data_type) != "bool"@ && spec_to_lowercase(data_type) != "character varying"@ && spec_to_lowercase(data_type) != "varchar"@ && spec_to_lowercase(data_type) != "text"@ && spec_to_lowercase(data_type) != "uuid"@ && spec_to_lowercase(data_type) != "json"@ && spec_to_lowercase(data_type) != "jsonb"@ && spec_to_lowercase(data_type) != "date"@ && spec_to_lowercase(data_type) != "time"@ && spec_to_lowercase(data_type) != "time without time zone"@ && spec_to_lowercase(data_type) != "time with time zone"@ && spec_to_lowercase(data_type) != "timestamp"@ && spec_to_lowercase(data_type) != "timestamp without time zone"@ && spec_to_lowercase(data_type) != "timestamp with time zone"@ && spec_to_lowercase(data_type) != "bytea"@) && (spec_to_lowercase(udt_name) != "uuid"@ && spec_to_lowercase(udt_name) != "bool"@ && spec_to_lowercase(udt_name) != "int4"@ && spec_to_lowercase(udt_name) != "int2"@ && spec_to_lowercase(udt_name) != "serial"@ && spec_to_lowercase(udt_name) != "int8"@ && spec_to_lowercase(udt_name) != "bigserial"@ && spec_to_lowercase(udt_name) != "float4"@ && spec_to_lowercase(udt_name) != "float8"@ && spec_to_lowercase(udt_name) != "numeric"@ && spec_to_lowercase(udt_name) != "json"@ && spec_to_lowercase(udt_name) != "jsonb"@ && spec_to_lowercase(udt_name) != "timestamptz"@ && spec_to_lowercase(udt_name) != "timestamp"@) ==> spec_pg_type(data_type, udt_name) == FieldType::String,
{
    reveal_strlit("bigint");
    assert("bigint"@.len() == 6);
    reveal_strlit("bigserial");
    assert("bigserial"@.len() == 9);
    reveal_strlit("bool");
    assert("bool"@.len() == 4);
    reveal_strlit("boolean");
    assert("boolean"@.len() == 7);
    reveal_strlit("bytea");
    assert("bytea"@.len() == 5);
    reveal_strlit("character varying");
    assert("character varying"@.len() == 17);
    reveal_strlit("date");
    assert("date"@.len() == 4);
    reveal_strlit("decimal");
    assert("decimal"@.len() == 7);
    reveal_strlit("double precision");
    assert("double precision"@.len() == 16);
    reveal_strlit("float4");
    assert("float4"@.len() == 6);
    reveal_strlit("float8");
    assert("float8"@.len() == 6);
    reveal_strlit("int2");
    assert("int2"@.len() == 4);
    reveal_strlit("int4");
    assert("int4"@.len() == 4);
    reveal_strlit("int8");
    assert("int8"@.len() == 4);
    reveal_strlit("integer");
    assert("integer"@.len() == 7);
    reveal_strlit("json");
    assert("json"@.len() == 4);
    reveal_strlit("jsonb");
    assert("jsonb"@.len() == 5);
    reveal_strlit("numeric");
    assert("numeric"@.len() == 7);
    reveal_strlit("real");
    assert("real"@.len() == 4);
    reveal_strlit("serial");
    assert("serial"@.len() == 6);
    reveal_strlit("smallint");
    assert("smallint"@.len() == 8);
    reveal_strlit("text");
    assert("text"@.len() == 4);
    reveal_strlit("time");
    assert("time"@.len() == 4);
    reveal_strlit("time with time zone");
    assert("time with time zone"@.len() == 19);
    reveal_strlit("time without time zone");
    assert("time without time zone"@.len() == 22);
    reveal_strlit("timestamp");
    assert("timestamp"@.len() == 9);
    reveal_strlit("timestamp with time zone");
    assert("timestamp with time zone"@.len() == 24);
    reveal_strlit("timestamp without time zone");
    assert("timestamp without time zone"@.len() == 27);
    reveal_strlit("timestamptz");
    assert("timestamptz"@.len() == 11);
    reveal_strlit("uuid");
    assert("uuid"@.len() == 4);
    reveal_strlit("varchar");
    assert("varchar"@.len() == 7);
    assert("integer"@[0] != "numeric"@[0]);
    assert("integer"@[0] != "decimal"@[0]);
    assert("integer"@[0] != "boolean"@[0]);
    assert("integer"@[0] != "varchar"@[0]);
    assert("int4"@[3] != "int2"@[3]);
    assert("int4"@[3] != "int8"@[3]);
    assert("int4"@[0] != "real"@[0]);
    assert("int4"@[0] != "bool"@[0]);
    assert("int4"@[0] != "text"@[0]);
    assert("int4"@[0] != "uuid"@[0]);
    assert("int4"@[0] != "json"@[0]);
    assert("int4"@[0] != "date"@[0]);
    assert("int4"@[0] != "time"@[0]);
    assert("int2"@[3] != "int8"@[3]);
    assert("int2"@[0] != "real"@[0]);
    assert("int2"@[0] != "bool"@[0]);
    assert("int2"@[0] != "text"@[0]);
    assert("int2"@[0] != "uuid"@[0]);
    assert("int2"@[0] != "json"@[0]);
    assert("int2"@[0] != "date"@[0]);
    assert("int2"@[0] != "time"@[0]);
    assert("serial"@[0] != "bigint"@[0]);
    assert("serial"@[0] != "float4"@[0]);
    assert("serial"@[0] != "float8"@[0]);
    assert("bigint"@[0] != "float4"@[0]);
    assert("bigint"@[0] != "float8"@[0]);
    assert("int8"@[0] != "real"@[0]);
    assert("int8"@[0] != "bool"@[0]);
    assert("int8"@[0] != "text"@[0]);
    assert("int8"@[0] != "uuid"@[0]);
    assert("int8"@[0] != "json"@[0]);
    assert("int8"@[0] != "date"@[0]);
    assert("int8"@[0] != "time"@[0]);
    assert("bigserial"@[0] != "timestamp"@[0]);
    assert("real"@[0] != "bool"@[0]);
    assert("real"@[0] != "text"@[0]);
    assert("real"@[0] != "uuid"@[0]);
    assert("real"@[0] != "json"@[0]);
    assert("real"@[0] != "date"@[0]);
    assert("real"@[0] != "time"@[0]);
    assert("float4"@[5] != "float8"@[5]);
    assert("numeric"@[0] != "decimal"@[0]);
    assert("numeric"@[0] != "boolean"@[0]);
    assert("numeric"@[0] != "varchar"@[0]);
    assert("decimal"@[0] != "boolean"@[0]);
    assert("decimal"@[0] != "varchar"@[0]);
    assert("boolean"@[0] != "varchar"@[0]);
    assert("bool"@[0] != "text"@[0]);
    assert("bool"@[0] != "uuid"@[0]);
    assert("bool"@[0] != "json"@[0]);
    assert("bool"@[0] != "date"@[0]);
    assert("bool"@[0] != "time"@[0]);
    assert("text"@[0] != "uuid"@[0]);
    assert("text"@[0] != "json"@[0]);
    assert("text"@[0] != "date"@[0]);
    assert("text"@[1] != "time"@[1]);
    assert("uuid"@[0] != "json"@[0]);
    assert("uuid"@[0] != "date"@[0]);
    assert("uuid"@[0] != "time"@[0]);
    assert("json"@[0] != "date"@[0]);
    assert("json"@[0] != "time"@[0]);
    assert("jsonb"@[0] != "bytea"@[0]);
    assert("date"@[0] != "time"@[0]);
    assert("uuid"@[0] != "bool"@[0]);
    assert("uuid"@[0] != "int4"@[0]);
    assert("uuid"@[0] != "int2"@[0]);
    assert("uuid"@[0] != "int8"@[0]);
    assert("uuid"@[0] != "json"@[0]);
    assert("bool"@[0] != "int4"@[0]);
    assert("bool"@[0] != "int2"@[0]);
    assert("bool"@[0] != "int8"@[0]);
    assert("bool"@[0] != "json"@[0]);
    assert("int4"@[3] != "int2"@[3]);
    assert("int4"@[3] != "int8"@[3]);
    assert("int4"@[0] != "json"@[0]);
    assert("int2"@[3] != "int8"@[3]);
    assert("int2"@[0] != "json"@[0]);
    assert("serial"@[0] != "float4"@[0]);
    assert("serial"@[0] != "float8"@[0]);
    assert("int8"@[0] != "json"@[0]);
    assert("bigserial"@[0] != "timestamp"@[0]);
    assert("float4"@[5] != "float8"@[5]);
}

} // verus!
