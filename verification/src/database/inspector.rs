//! Schema introspection: the catalogue queries of each dialect, and how
//! their rows become collections, fields and relations.

use vstd::prelude::*;
use vstd::string::*;
use crate::json::{members_view, obj_get, Json, JsonValue};
use crate::text::{chars_of, contains_chars, has_sub, parse_i64, parse_i64_spec, spec_to_uppercase, str_eq, to_uppercase};
use super::schema::{
    mssql_type_to_field_type, mysql_type_to_field_type, pg_type_to_field_type, spec_mssql_type, spec_mysql_type,
    spec_pg_type, spec_sqlite_type, sqlite_type_to_field_type, FieldType,
};
use super::{DatabaseError, Dialect};

verus! {

broadcast use vstd::std_specs::vec::group_vec_axioms;

/// A row as the backend returns it: column names and values.
pub type Row = Vec<(String, JsonValue)>;

/// What introspection learns of a column.
#[derive(Debug)]
pub struct FieldInfo {
    pub field: String,
    pub default_value: Option<JsonValue>,
    pub nullable: bool,
    pub generated: bool,
    pub field_type: FieldType,
    pub db_type: Option<String>,
    pub precision: Option<i32>,
    pub scale: Option<i32>,
    pub searchable: bool,
}

/// Mathematical view of a column's information.
pub struct FieldInfoView {
    pub field: Seq<char>,
    pub default_value: Option<Json>,
    pub nullable: bool,
    pub generated: bool,
    pub field_type: FieldType,
    pub db_type: Option<Seq<char>>,
    pub precision: Option<i32>,
    pub scale: Option<i32>,
    pub searchable: bool,
}

impl FieldInfo {
    pub open spec fn view(&self) -> FieldInfoView {
        FieldInfoView {
            field: self.field@,
            default_value: match self.default_value {
                Some(v) => Some(v@),
                None => None,
            },
            nullable: self.nullable,
            generated: self.generated,
            field_type: self.field_type,
            db_type: match self.db_type {
                Some(t) => Some(t@),
                None => None,
            },
            precision: self.precision,
            scale: self.scale,
            searchable: self.searchable,
        }
    }
}

/// A foreign key, as the relation it stands for.
#[derive(Debug)]
pub struct ForeignKeyRelation {
    pub collection: String,
    pub field: String,
    pub related_collection: String,
    pub related_field: String,
    pub constraint_name: Option<String>,
}

/// Member `key` of a row.
pub open spec fn row_get(row: Row, key: Seq<char>) -> Option<Json> {
    obj_get(members_view(row@), key)
}

/// The text of member `key` of a row, or `d` when it is missing or not a string.
pub open spec fn row_text(row: Row, key: Seq<char>, d: Seq<char>) -> Seq<char> {
    match row_get(row, key) {
        Some(Json::Str(s)) => s,
        _ => d,
    }
}

/// Member `key` of a row as a 32-bit integer: an integer that fits 64
/// signed bits, truncated to 32.
pub open spec fn row_i32(row: Row, key: Seq<char>) -> Option<i32> {
    match row_get(row, key) {
        Some(v) => match v.as_i64() {
            Some(n) => Some(n as i32),
            None => None,
        },
        None => None,
    }
}

/// Whether a field type is one that text search covers.
pub open spec fn is_searchable(t: FieldType) -> bool {
    t == FieldType::String || t == FieldType::Text
}

fn row_get_exec<'a>(row: &'a Row, key: &str) -> (r: Option<&'a JsonValue>)
    ensures
        match r {
            Some(v) => row_get(*row, key@) == Some(v@),
            None => row_get(*row, key@) is None,
        },
{
    crate::json::member_get(row, key)
}

/// The text of member `key` of a row, or `d`.
pub fn row_text_exec(row: &Row, key: &str, d: &str) -> (r: String)
    ensures
        r@ == row_text(*row, key@, d@),
{
    match row_get_exec(row, key) {
        Some(JsonValue::String(s)) => s.clone(),
        _ => String::from_str(d),
    }
}

fn row_i32_exec(row: &Row, key: &str) -> (r: Option<i32>)
    ensures
        r == row_i32(*row, key@),
{
    match row_get_exec(row, key) {
        Some(v) => match v.as_i64() {
            Some(n) => Some(n as i32),
            None => None,
        },
        None => None,
    }
}

fn copy_opt(o: Option<&JsonValue>) -> (r: Option<JsonValue>)
    ensures
        match (o, r) {
            (Some(a), Some(b)) => b@ == a@,
            (None, None) => true,
            _ => false,
        },
{
    match o {
        Some(v) => Some(v.copy()),
        None => None,
    }
}

fn searchable_exec(t: FieldType) -> (r: bool)
    ensures
        r == is_searchable(t),
{
    t == FieldType::String || t == FieldType::Text
}

/// The catalogue query that lists the tables of a dialect (each row names
/// one table), or the dialect's refusal.
pub open spec fn tables_sql(d: Dialect) -> Option<Seq<char>> {
    match d {
        Dialect::Postgres | Dialect::CockroachDB => Some("SELECT table_name FROM information_schema.tables WHERE table_schema = 'public' AND table_type = 'BASE TABLE' ORDER BY table_name"@),
        Dialect::MySQL => Some("SELECT TABLE_NAME as table_name FROM information_schema.TABLES WHERE TABLE_SCHEMA = DATABASE() AND TABLE_TYPE = 'BASE TABLE'"@),
        Dialect::SQLite => Some("SELECT name FROM sqlite_master WHERE type='table' AND name NOT LIKE 'sqlite_%' ORDER BY name"@),
        Dialect::MSSQL => Some("SELECT TABLE_NAME as table_name FROM INFORMATION_SCHEMA.TABLES WHERE TABLE_TYPE = 'BASE TABLE' AND TABLE_SCHEMA = 'dbo'"@),
        Dialect::Oracle => None,
    }
}

/// The query that lists the tables to introspect; Oracle is not supported.
pub fn introspection_tables_query(d: Dialect) -> (r: Result<&'static str, DatabaseError>)
    ensures
        match tables_sql(d) {
            Some(q) => r matches Ok(x) && x@ == q,
            None => r matches Err(DatabaseError::NotSupported(m)) && m@ == "Oracle introspection not yet implemented"@,
        },
{
    match d {
        Dialect::Postgres | Dialect::CockroachDB => Ok("SELECT table_name FROM information_schema.tables WHERE table_schema = 'public' AND table_type = 'BASE TABLE' ORDER BY table_name"),
        Dialect::MySQL => Ok("SELECT TABLE_NAME as table_name FROM information_schema.TABLES WHERE TABLE_SCHEMA = DATABASE() AND TABLE_TYPE = 'BASE TABLE'"),
        Dialect::SQLite => Ok("SELECT name FROM sqlite_master WHERE type='table' AND name NOT LIKE 'sqlite_%' ORDER BY name"),
        Dialect::MSSQL => Ok("SELECT TABLE_NAME as table_name FROM INFORMATION_SCHEMA.TABLES WHERE TABLE_TYPE = 'BASE TABLE' AND TABLE_SCHEMA = 'dbo'"),
        Dialect::Oracle => Err(DatabaseError::NotSupported(String::from_str("Oracle introspection not yet implemented"))),
    }
}

/// The table a row of the table listing names (`name` for SQLite,
/// `table_name` otherwise); empty names are skipped.
pub fn listed_table(row: &Row, d: Dialect) -> (r: Option<String>)
    ensures
        ({
            let t = row_text(*row, if d == Dialect::SQLite { "name"@ } else { "table_name"@ }, ""@);
            if t.len() == 0 { r is None } else { r matches Some(x) && x@ == t }
        }),
{
    let key = if d == Dialect::SQLite { "name" } else { "table_name" };
    let t = row_text_exec(row, key, "");
    if t.as_str().is_empty() {
        None
    } else {
        Some(t)
    }
}

/// The PostgreSQL query for the columns of table `$1`.
pub fn pg_columns_query() -> (r: &'static str)
    ensures
        r@ == "SELECT column_name, data_type, column_default, is_nullable, character_maximum_length, numeric_precision, numeric_scale, udt_name FROM information_schema.columns WHERE table_schema = 'public' AND table_name = $1 ORDER BY ordinal_position"@,
{
    "SELECT column_name, data_type, column_default, is_nullable, character_maximum_length, numeric_precision, numeric_scale, udt_name FROM information_schema.columns WHERE table_schema = 'public' AND table_name = $1 ORDER BY ordinal_position"
}

/// The PostgreSQL query for the primary-key column of table `$1`.
pub fn pg_primary_key_query() -> (r: &'static str)
    ensures
        r@ == "SELECT kcu.column_name FROM information_schema.table_constraints tc JOIN information_schema.key_column_usage kcu ON tc.constraint_name = kcu.constraint_name AND tc.table_schema = kcu.table_schema WHERE tc.constraint_type = 'PRIMARY KEY' AND tc.table_schema = 'public' AND tc.table_name = $1 LIMIT 1"@,
{
    "SELECT kcu.column_name FROM information_schema.table_constraints tc JOIN information_schema.key_column_usage kcu ON tc.constraint_name = kcu.constraint_name AND tc.table_schema = kcu.table_schema WHERE tc.constraint_type = 'PRIMARY KEY' AND tc.table_schema = 'public' AND tc.table_name = $1 LIMIT 1"
}

/// The PostgreSQL query for the foreign keys of the public schema.
pub fn pg_relations_query() -> (r: &'static str)
    ensures
        r@ == "SELECT tc.table_name AS from_table, kcu.column_name AS from_column, ccu.table_name AS to_table, ccu.column_name AS to_column FROM information_schema.table_constraints AS tc JOIN information_schema.key_column_usage AS kcu ON tc.constraint_name = kcu.constraint_name AND tc.table_schema = kcu.table_schema JOIN information_schema.constraint_column_usage AS ccu ON ccu.constraint_name = tc.constraint_name AND ccu.table_schema = tc.table_schema WHERE tc.constraint_type = 'FOREIGN KEY' AND tc.table_schema = 'public'"@,
{
    "SELECT tc.table_name AS from_table, kcu.column_name AS from_column, ccu.table_name AS to_table, ccu.column_name AS to_column FROM information_schema.table_constraints AS tc JOIN information_schema.key_column_usage AS kcu ON tc.constraint_name = kcu.constraint_name AND tc.table_schema = kcu.table_schema JOIN information_schema.constraint_column_usage AS ccu ON ccu.constraint_name = tc.constraint_name AND ccu.table_schema = tc.table_schema WHERE tc.constraint_type = 'FOREIGN KEY' AND tc.table_schema = 'public'"
}

/// The MySQL query for the columns of table `$1`.
pub fn mysql_columns_query() -> (r: &'static str)
    ensures
        r@ == "SELECT COLUMN_NAME as column_name, DATA_TYPE as data_type, COLUMN_DEFAULT as column_default, IS_NULLABLE as is_nullable, COLUMN_KEY as column_key, EXTRA as extra, NUMERIC_PRECISION as numeric_precision, NUMERIC_SCALE as numeric_scale FROM information_schema.COLUMNS WHERE TABLE_SCHEMA = DATABASE() AND TABLE_NAME = $1 ORDER BY ORDINAL_POSITION"@,
{
    "SELECT COLUMN_NAME as column_name, DATA_TYPE as data_type, COLUMN_DEFAULT as column_default, IS_NULLABLE as is_nullable, COLUMN_KEY as column_key, EXTRA as extra, NUMERIC_PRECISION as numeric_precision, NUMERIC_SCALE as numeric_scale FROM information_schema.COLUMNS WHERE TABLE_SCHEMA = DATABASE() AND TABLE_NAME = $1 ORDER BY ORDINAL_POSITION"
}

/// The MSSQL query for the columns of table `$1`.
pub fn mssql_columns_query() -> (r: &'static str)
    ensures
        r@ == "SELECT COLUMN_NAME as column_name, DATA_TYPE as data_type, IS_NULLABLE as is_nullable, COLUMN_DEFAULT as column_default FROM INFORMATION_SCHEMA.COLUMNS WHERE TABLE_NAME = $1 AND TABLE_SCHEMA = 'dbo' ORDER BY ORDINAL_POSITION"@,
{
    "SELECT COLUMN_NAME as column_name, DATA_TYPE as data_type, IS_NULLABLE as is_nullable, COLUMN_DEFAULT as column_default FROM INFORMATION_SCHEMA.COLUMNS WHERE TABLE_NAME = $1 AND TABLE_SCHEMA = 'dbo' ORDER BY ORDINAL_POSITION"
}

/// The SQLite query for the columns of `table`: `PRAGMA table_info("table")`.
pub fn sqlite_columns_query(table: &str) -> (r: String)
    ensures
        r@ == "PRAGMA table_info(\""@ + table@ + "\")"@,
{
    let mut r = String::from_str("PRAGMA table_info(\"");
    r.append(table);
    r.append("\")");
    r
}

/// Whether a column default makes the column generated: a sequence
/// (`nextval(`) or a generated UUID (`gen_random_uuid`).
pub open spec fn pg_generated(default: Option<Json>) -> bool {
    match default {
        Some(Json::Str(s)) => has_sub(s, "nextval("@) || has_sub(s, "gen_random_uuid"@),
        _ => false,
    }
}

/// A PostgreSQL column row as field information: nullable when
/// `is_nullable` is `YES`; the default kept when it is not null; generated
/// when the default draws from a sequence or generates a UUID; typed by data
/// type and `udt_name` (which is also the database type); searchable when
/// its data type alone maps to a text type.
pub open spec fn pg_field_spec(col: Row) -> FieldInfoView {
    let data_type = row_text(col, "data_type"@, ""@);
    let udt = row_text(col, "udt_name"@, ""@);
    let default = row_get(col, "column_default"@);
    FieldInfoView {
        field: row_text(col, "column_name"@, ""@),
        default_value: match default {
            Some(v) => if v is Null { None } else { Some(v) },
            None => None,
        },
        nullable: row_text(col, "is_nullable"@, "NO"@) == "YES"@,
        generated: pg_generated(default),
        field_type: spec_pg_type(data_type, udt),
        db_type: Some(udt),
        precision: row_i32(col, "numeric_precision"@),
        scale: row_i32(col, "numeric_scale"@),
        searchable: is_searchable(spec_pg_type(data_type, ""@)),
    }
}

/// Field information of a PostgreSQL column row.
pub fn pg_field(col: &Row) -> (r: FieldInfo)
    ensures
        r.view() == pg_field_spec(*col),
{
    let name = row_text_exec(col, "column_name", "");
    let data_type = row_text_exec(col, "data_type", "");
    let udt = row_text_exec(col, "udt_name", "");
    let nullable = str_eq(row_text_exec(col, "is_nullable", "NO").as_str(), "YES");
    let default = row_get_exec(col, "column_default");
    let generated = match default {
        Some(JsonValue::String(s)) => {
            let cs = chars_of(s.as_str());
            contains_chars(&cs, &chars_of("nextval(")) || contains_chars(&cs, &chars_of("gen_random_uuid"))
        },
        _ => false,
    };
    let default_value = match default {
        Some(v) => if v.is_null() { None } else { Some(v.copy()) },
        None => None,
    };
    let field_type = pg_type_to_field_type(data_type.as_str(), udt.as_str());
    let searchable = searchable_exec(pg_type_to_field_type(data_type.as_str(), ""));
    proof {
        reveal_strlit("");
    }
    FieldInfo {
        field: name,
        default_value,
        nullable,
        generated,
        field_type,
        db_type: Some(udt),
        precision: row_i32_exec(col, "numeric_precision"),
        scale: row_i32_exec(col, "numeric_scale"),
        searchable,
    }
}

/// The primary key of a PostgreSQL table: the column the key query found,
/// `id` when it found none or an empty name.
pub open spec fn pg_primary_key_spec(pk_rows: Seq<Row>) -> Seq<char> {
    let pk = if pk_rows.len() > 0 { row_text(pk_rows[0], "column_name"@, "id"@) } else { ""@ };
    if pk.len() == 0 { "id"@ } else { pk }
}

/// The primary key of a PostgreSQL table from the rows of the key query.
pub fn pg_primary_key(pk_rows: &Vec<Row>) -> (r: String)
    ensures
        r@ == pg_primary_key_spec(pk_rows@),
{
    proof {
        reveal_strlit("");
    }
    let pk = if pk_rows.len() > 0 { row_text_exec(&pk_rows[0], "column_name", "id") } else { String::new() };
    if pk.as_str().is_empty() {
        String::from_str("id")
    } else {
        pk
    }
}

/// A PostgreSQL foreign-key row as a relation: from table and column to
/// table and column.
pub fn pg_relation(row: &Row) -> (r: ForeignKeyRelation)
    ensures
        r.collection@ == row_text(*row, "from_table"@, ""@),
        r.field@ == row_text(*row, "from_column"@, ""@),
        r.related_collection@ == row_text(*row, "to_table"@, ""@),
        r.related_field@ == row_text(*row, "to_column"@, ""@),
        r.constraint_name is None,
{
    ForeignKeyRelation {
        collection: row_text_exec(row, "from_table", ""),
        field: row_text_exec(row, "from_column", ""),
        related_collection: row_text_exec(row, "to_table", ""),
        related_field: row_text_exec(row, "to_column", ""),
        constraint_name: None,
    }
}

/// A MySQL column row as field information: nullable when `is_nullable` is
/// `YES`; the default as given; generated when `extra` mentions
/// `auto_increment`; typed by its data type, which is also the database type.
pub open spec fn mysql_field_spec(col: Row) -> FieldInfoView {
    let data_type = row_text(col, "data_type"@, ""@);
    FieldInfoView {
        field: row_text(col, "column_name"@, ""@),
        default_value: row_get(col, "column_default"@),
        nullable: row_text(col, "is_nullable"@, "NO"@) == "YES"@,
        generated: has_sub(row_text(col, "extra"@, ""@), "auto_increment"@),
        field_type: spec_mysql_type(data_type),
        db_type: Some(data_type),
        precision: row_i32(col, "numeric_precision"@),
        scale: row_i32(col, "numeric_scale"@),
        searchable: is_searchable(spec_mysql_type(data_type)),
    }
}

/// Field information of a MySQL column row.
pub fn mysql_field(col: &Row) -> (r: FieldInfo)
    ensures
        r.view() == mysql_field_spec(*col),
{
    let data_type = row_text_exec(col, "data_type", "");
    let extra = chars_of(row_text_exec(col, "extra", "").as_str());
    let field_type = mysql_type_to_field_type(data_type.as_str());
    FieldInfo {
        field: row_text_exec(col, "column_name", ""),
        default_value: copy_opt(row_get_exec(col, "column_default")),
        nullable: str_eq(row_text_exec(col, "is_nullable", "NO").as_str(), "YES"),
        generated: contains_chars(&extra, &chars_of("auto_increment")),
        field_type,
        db_type: Some(data_type),
        precision: row_i32_exec(col, "numeric_precision"),
        scale: row_i32_exec(col, "numeric_scale"),
        searchable: searchable_exec(field_type),
    }
}

/// Whether a MySQL column row is part of the primary key (`column_key` is `PRI`).
pub fn mysql_is_primary(col: &Row) -> (r: bool)
    ensures
        r == (row_text(*col, "column_key"@, ""@) == "PRI"@),
{
    str_eq(row_text_exec(col, "column_key", "").as_str(), "PRI")
}

/// A number member of a SQLite pragma row, 0 when missing or not an integer.
pub open spec fn pragma_int(col: Row, key: Seq<char>) -> int {
    match row_get(col, key) {
        Some(v) => match v.as_i64() {
            Some(n) => n,
            None => 0,
        },
        None => 0,
    }
}

/// A SQLite `table_info` row as field information: nullable unless
/// `notnull`; the default as given (`dflt_value`); generated when it is a
/// key column whose type mentions `INTEGER`; typed by its declared type,
/// which is also the database type.
pub open spec fn sqlite_field_spec(col: Row) -> FieldInfoView {
    let col_type = row_text(col, "type"@, ""@);
    FieldInfoView {
        field: row_text(col, "name"@, ""@),
        default_value: row_get(col, "dflt_value"@),
        nullable: pragma_int(col, "notnull"@) == 0,
        generated: pragma_int(col, "pk"@) != 0 && has_sub(spec_to_uppercase(col_type), "INTEGER"@),
        field_type: spec_sqlite_type(col_type),
        db_type: Some(col_type),
        precision: None,
        scale: None,
        searchable: is_searchable(spec_sqlite_type(col_type)),
    }
}

fn pragma_int_exec(col: &Row, key: &str) -> (r: i64)
    ensures
        r == pragma_int(*col, key@),
{
    match row_get_exec(col, key) {
        Some(v) => match v.as_i64() {
            Some(n) => n,
            None => 0,
        },
        None => 0,
    }
}

/// Field information of a SQLite `table_info` row.
pub fn sqlite_field(col: &Row) -> (r: FieldInfo)
    ensures
        r.view() == sqlite_field_spec(*col),
{
    let col_type = row_text_exec(col, "type", "");
    let upper = chars_of(to_uppercase(col_type.as_str()).as_str());
    let is_pk = pragma_int_exec(col, "pk") != 0;
    let field_type = sqlite_type_to_field_type(col_type.as_str());
    FieldInfo {
        field: row_text_exec(col, "name", ""),
        default_value: copy_opt(row_get_exec(col, "dflt_value")),
        nullable: pragma_int_exec(col, "notnull") == 0,
        generated: is_pk && contains_chars(&upper, &chars_of("INTEGER")),
        field_type,
        db_type: Some(col_type),
        precision: None,
        scale: None,
        searchable: searchable_exec(field_type),
    }
}

/// Whether a SQLite `table_info` row is a key column.
pub fn sqlite_is_primary(col: &Row) -> (r: bool)
    ensures
        r == (pragma_int(*col, "pk"@) != 0),
{
    pragma_int_exec(col, "pk") != 0
}

/// An MSSQL column row as field information: nullable when `is_nullable`
/// is `YES`; the default as given; never generated; typed by its data type,
/// which is also the database type.
pub open spec fn mssql_field_spec(col: Row) -> FieldInfoView {
    let data_type = row_text(col, "data_type"@, ""@);
    FieldInfoView {
        field: row_text(col, "column_name"@, ""@),
        default_value: row_get(col, "column_default"@),
        nullable: row_text(col, "is_nullable"@, "NO"@) == "YES"@,
        generated: false,
        field_type: spec_mssql_type(data_type),
        db_type: Some(data_type),
        precision: None,
        scale: None,
        searchable: is_searchable(spec_mssql_type(data_type)),
    }
}

/// Field information of an MSSQL column row.
pub fn mssql_field(col: &Row) -> (r: FieldInfo)
    ensures
        r.view() == mssql_field_spec(*col),
{
    let data_type = row_text_exec(col, "data_type", "");
    let field_type = mssql_type_to_field_type(data_type.as_str());
    FieldInfo {
        field: row_text_exec(col, "column_name", ""),
        default_value: copy_opt(row_get_exec(col, "column_default")),
        nullable: str_eq(row_text_exec(col, "is_nullable", "NO").as_str(), "YES"),
        generated: false,
        field_type,
        db_type: Some(data_type),
        precision: None,
        scale: None,
        searchable: searchable_exec(field_type),
    }
}

/// The primary key of a table whose columns are marked: the first marked
/// column whose name is not empty, `id` when there is none.
pub open spec fn marked_primary_key(names: Seq<Seq<char>>, marked: Seq<bool>) -> Seq<char>
    decreases names.len(),
{
    if names.len() == 0 || marked.len() != names.len() {
        "id"@
    } else if marked[0] && names[0].len() > 0 {
        names[0]
    } else {
        marked_primary_key(names.skip(1), marked.skip(1))
    }
}

/// The primary key of a table from its columns (names and key marks, in
/// column order): the first marked column with a name, else `id`.
pub fn primary_key_of(names: &Vec<String>, marked: &Vec<bool>) -> (r: String)
    requires
        names@.len() == marked@.len(),
    ensures
        r@ == marked_primary_key(crate::text::views(names@), marked@),
{
    let ghost nv = crate::text::views(names@);
    let mut i: usize = 0;
    assert(nv.skip(0) =~= nv);
    assert(marked@.skip(0) =~= marked@);
    while i < names.len()
        invariant
            nv == crate::text::views(names@),
            names@.len() == marked@.len(),
            i <= names@.len(),
            marked_primary_key(nv, marked@) == marked_primary_key(nv.skip(i as int), marked@.skip(i as int)),
        decreases names@.len() - i,
    {
        proof {
            assert(nv.skip(i as int).skip(1) =~= nv.skip(i as int + 1));
            assert(marked@.skip(i as int).skip(1) =~= marked@.skip(i as int + 1));
            assert(nv.skip(i as int)[0] == names@[i as int]@);
        }
        if marked[i] && !names[i].as_str().is_empty() {
            return names[i].clone();
        }
        i = i + 1;
    }
    assert(nv.skip(names@.len() as int).len() == 0);
    String::from_str("id")
}

/// Views of a list of field informations.
pub open spec fn field_views(v: Seq<FieldInfo>) -> Seq<FieldInfoView> {
    Seq::new(v.len(), |i: int| v[i].view())
}

/// Fields keyed by name, as they are added: a field replaces the one of the
/// same name in its place, else it is appended.
pub open spec fn put_field(fs: Seq<FieldInfoView>, f: FieldInfoView) -> Seq<FieldInfoView>
    decreases fs.len(),
{
    if fs.len() == 0 {
        seq![f]
    } else if fs[0].field == f.field {
        fs.update(0, f)
    } else {
        seq![fs[0]] + put_field(fs.skip(1), f)
    }
}

proof fn lemma_put_field_at(fs: Seq<FieldInfoView>, f: FieldInfoView, k: int)
    requires
        0 <= k < fs.len(),
        fs[k].field == f.field,
        forall|j: int| 0 <= j < k ==> #[trigger] fs[j].field != f.field,
    ensures
        put_field(fs, f) == fs.update(k, f),
    decreases fs.len(),
{
    if k > 0 {
        assert forall|j: int| 0 <= j < k - 1 implies #[trigger] fs.skip(1)[j].field != f.field by {
            assert(fs.skip(1)[j] == fs[j + 1]);
        }
        lemma_put_field_at(fs.skip(1), f, k - 1);
        assert(seq![fs[0]] + fs.skip(1).update(k - 1, f) =~= fs.update(k, f));
    }
}

proof fn lemma_put_field_absent(fs: Seq<FieldInfoView>, f: FieldInfoView)
    requires
        forall|j: int| 0 <= j < fs.len() ==> #[trigger] fs[j].field != f.field,
    ensures
        put_field(fs, f) == fs.push(f),
    decreases fs.len(),
{
    if fs.len() > 0 {
        assert forall|j: int| 0 <= j < fs.len() - 1 implies #[trigger] fs.skip(1)[j].field != f.field by {
            assert(fs.skip(1)[j] == fs[j + 1]);
        }
        lemma_put_field_absent(fs.skip(1), f);
        assert(seq![fs[0]] + fs.skip(1).push(f) =~= fs.push(f));
    }
}

/// Adds a column's information to a table's fields, replacing the field of
/// the same name.
pub fn insert_field(fields: &mut Vec<FieldInfo>, f: FieldInfo)
    ensures
        field_views(final(fields)@) == put_field(field_views(old(fields)@), f.view()),
{
    let ghost f0 = field_views(fields@);
    let ghost fv = f.view();
    let mut i: usize = 0;
    while i < fields.len()
        invariant
            f0 == field_views(fields@),
            fv == f.view(),
            i <= fields@.len(),
            forall|j: int| 0 <= j < i ==> #[trigger] f0[j].field != fv.field,
        ensures
            i <= fields@.len(),
            forall|j: int| 0 <= j < i ==> #[trigger] f0[j].field != fv.field,
            i < fields@.len() ==> f0[i as int].field == fv.field,
        decreases fields@.len() - i,
    {
        assert(f0[i as int].field == fields@[i as int].field@);
        if str_eq(fields[i].field.as_str(), f.field.as_str()) {
            break;
        }
        i = i + 1;
    }
    if i < fields.len() {
        proof {
            lemma_put_field_at(f0, fv, i as int);
        }
        fields.set(i, f);
        assert(field_views(fields@) =~= f0.update(i as int, fv));
    } else {
        proof {
            lemma_put_field_absent(f0, fv);
        }
        fields.push(f);
        assert(field_views(fields@) =~= f0.push(fv));
    }
}

/// What introspection learns of a table.
#[derive(Debug)]
pub struct CollectionInfo {
    pub collection: String,
    pub primary: String,
    pub fields: Vec<FieldInfo>,
    pub is_singleton: bool,
    pub accountability: Option<String>,
}

/// A table's information: its fields and primary key, not a singleton,
/// with full accountability (`all`).
pub fn collection_info(table: String, primary: String, fields: Vec<FieldInfo>) -> (r: CollectionInfo)
    ensures
        r.collection@ == table@,
        r.primary@ == primary@,
        field_views(r.fields@) == field_views(fields@),
        !r.is_singleton,
        r.accountability matches Some(a) && a@ == "all"@,
{
    CollectionInfo { collection: table, primary, fields, is_singleton: false, accountability: Some(String::from_str("all")) }
}

/// A column as the schema snapshot query reports it.
#[derive(Debug)]
pub struct ColumnInfo {
    pub table_name: String,
    pub column_name: String,
    pub data_type: String,
    pub default_value: Option<JsonValue>,
    pub is_nullable: bool,
    pub is_generated: bool,
    pub is_primary_key: bool,
    pub numeric_precision: Option<i32>,
    pub numeric_scale: Option<i32>,
}

/// A foreign key as the schema snapshot query reports it.
#[derive(Debug)]
pub struct ForeignKeyInfo {
    pub table_name: String,
    pub column_name: String,
    pub foreign_table_name: String,
    pub foreign_column_name: String,
    pub constraint_name: Option<String>,
}

/// The snapshot query that lists the tables of a dialect.
pub fn snapshot_tables_query(d: Dialect) -> (r: &'static str)
    ensures
        r@ == (match d {
            Dialect::Postgres | Dialect::CockroachDB => "SELECT table_name as name FROM information_schema.tables WHERE table_schema = 'public' AND table_type = 'BASE TABLE' ORDER BY table_name"@,
            Dialect::MySQL => "SELECT table_name as name FROM information_schema.tables WHERE table_schema = DATABASE() AND table_type = 'BASE TABLE' ORDER BY table_name"@,
            Dialect::SQLite => "SELECT name FROM sqlite_master WHERE type = 'table' AND name NOT LIKE 'sqlite_%' ORDER BY name"@,
            Dialect::MSSQL => "SELECT TABLE_NAME as name FROM INFORMATION_SCHEMA.TABLES WHERE TABLE_TYPE = 'BASE TABLE' ORDER BY TABLE_NAME"@,
            Dialect::Oracle => "SELECT table_name as name FROM user_tables ORDER BY table_name"@,
        }),
{
    match d {
        Dialect::Postgres | Dialect::CockroachDB => "SELECT table_name as name FROM information_schema.tables WHERE table_schema = 'public' AND table_type = 'BASE TABLE' ORDER BY table_name",
        Dialect::MySQL => "SELECT table_name as name FROM information_schema.tables WHERE table_schema = DATABASE() AND table_type = 'BASE TABLE' ORDER BY table_name",
        Dialect::SQLite => "SELECT name FROM sqlite_master WHERE type = 'table' AND name NOT LIKE 'sqlite_%' ORDER BY name",
        Dialect::MSSQL => "SELECT TABLE_NAME as name FROM INFORMATION_SCHEMA.TABLES WHERE TABLE_TYPE = 'BASE TABLE' ORDER BY TABLE_NAME",
        Dialect::Oracle => "SELECT table_name as name FROM user_tables ORDER BY table_name",
    }
}

/// The snapshot query that lists the columns of every table.
pub fn snapshot_columns_query(d: Dialect) -> (r: &'static str)
    ensures
        r@ == (match d {
            Dialect::Postgres | Dialect::CockroachDB => "SELECT c.table_name, c.column_name, c.data_type, c.column_default as default_value, CASE WHEN c.is_nullable = 'YES' THEN 'true' ELSE 'false' END as is_nullable, CASE WHEN c.is_generated != 'NEVER' THEN 'true' ELSE 'false' END as is_generated, c.numeric_precision::text, c.numeric_scale::text, CASE WHEN pk.column_name IS NOT NULL THEN 'true' ELSE 'false' END as is_primary_key FROM information_schema.columns c LEFT JOIN ( SELECT kcu.table_name, kcu.column_name FROM information_schema.table_constraints tc JOIN information_schema.key_column_usage kcu ON tc.constraint_name = kcu.constraint_name WHERE tc.constraint_type = 'PRIMARY KEY' AND tc.table_schema = 'public' ) pk ON c.table_name = pk.table_name AND c.column_name = pk.column_name WHERE c.table_schema = 'public' ORDER BY c.table_name, c.ordinal_position"@,
            Dialect::SQLite => "SELECT '' as table_name, '' as column_name, '' as data_type, NULL as default_value, 'false' as is_nullable, 'false' as is_generated, NULL as numeric_precision, NULL as numeric_scale, 'false' as is_primary_key WHERE 0"@,
            _ => "SELECT c.TABLE_NAME as table_name, c.COLUMN_NAME as column_name, c.DATA_TYPE as data_type, c.COLUMN_DEFAULT as default_value, CASE WHEN c.IS_NULLABLE = 'YES' THEN 'true' ELSE 'false' END as is_nullable, 'false' as is_generated, CAST(c.NUMERIC_PRECISION AS CHAR) as numeric_precision, CAST(c.NUMERIC_SCALE AS CHAR) as numeric_scale, CASE WHEN pk.COLUMN_NAME IS NOT NULL THEN 'true' ELSE 'false' END as is_primary_key FROM INFORMATION_SCHEMA.COLUMNS c LEFT JOIN ( SELECT ku.TABLE_NAME, ku.COLUMN_NAME FROM INFORMATION_SCHEMA.TABLE_CONSTRAINTS tc JOIN INFORMATION_SCHEMA.KEY_COLUMN_USAGE ku ON tc.CONSTRAINT_NAME = ku.CONSTRAINT_NAME WHERE tc.CONSTRAINT_TYPE = 'PRIMARY KEY' ) pk ON c.TABLE_NAME = pk.TABLE_NAME AND c.COLUMN_NAME = pk.COLUMN_NAME ORDER BY c.TABLE_NAME, c.ORDINAL_POSITION"@,
        }),
{
    match d {
        Dialect::Postgres | Dialect::CockroachDB => "SELECT c.table_name, c.column_name, c.data_type, c.column_default as default_value, CASE WHEN c.is_nullable = 'YES' THEN 'true' ELSE 'false' END as is_nullable, CASE WHEN c.is_generated != 'NEVER' THEN 'true' ELSE 'false' END as is_generated, c.numeric_precision::text, c.numeric_scale::text, CASE WHEN pk.column_name IS NOT NULL THEN 'true' ELSE 'false' END as is_primary_key FROM information_schema.columns c LEFT JOIN ( SELECT kcu.table_name, kcu.column_name FROM information_schema.table_constraints tc JOIN information_schema.key_column_usage kcu ON tc.constraint_name = kcu.constraint_name WHERE tc.constraint_type = 'PRIMARY KEY' AND tc.table_schema = 'public' ) pk ON c.table_name = pk.table_name AND c.column_name = pk.column_name WHERE c.table_schema = 'public' ORDER BY c.table_name, c.ordinal_position",
        Dialect::SQLite => "SELECT '' as table_name, '' as column_name, '' as data_type, NULL as default_value, 'false' as is_nullable, 'false' as is_generated, NULL as numeric_precision, NULL as numeric_scale, 'false' as is_primary_key WHERE 0",
        _ => "SELECT c.TABLE_NAME as table_name, c.COLUMN_NAME as column_name, c.DATA_TYPE as data_type, c.COLUMN_DEFAULT as default_value, CASE WHEN c.IS_NULLABLE = 'YES' THEN 'true' ELSE 'false' END as is_nullable, 'false' as is_generated, CAST(c.NUMERIC_PRECISION AS CHAR) as numeric_precision, CAST(c.NUMERIC_SCALE AS CHAR) as numeric_scale, CASE WHEN pk.COLUMN_NAME IS NOT NULL THEN 'true' ELSE 'false' END as is_primary_key FROM INFORMATION_SCHEMA.COLUMNS c LEFT JOIN ( SELECT ku.TABLE_NAME, ku.COLUMN_NAME FROM INFORMATION_SCHEMA.TABLE_CONSTRAINTS tc JOIN INFORMATION_SCHEMA.KEY_COLUMN_USAGE ku ON tc.CONSTRAINT_NAME = ku.CONSTRAINT_NAME WHERE tc.CONSTRAINT_TYPE = 'PRIMARY KEY' ) pk ON c.TABLE_NAME = pk.TABLE_NAME AND c.COLUMN_NAME = pk.COLUMN_NAME ORDER BY c.TABLE_NAME, c.ORDINAL_POSITION",
    }
}

/// The snapshot query that lists the foreign keys.
pub fn snapshot_foreign_keys_query(d: Dialect) -> (r: &'static str)
    ensures
        r@ == (match d {
            Dialect::Postgres | Dialect::CockroachDB => "SELECT kcu.table_name, kcu.column_name, ccu.table_name as foreign_table_name, ccu.column_name as foreign_column_name, tc.constraint_name FROM information_schema.table_constraints tc JOIN information_schema.key_column_usage kcu ON tc.constraint_name = kcu.constraint_name JOIN information_schema.constraint_column_usage ccu ON ccu.constraint_name = tc.constraint_name WHERE tc.constraint_type = 'FOREIGN KEY' AND tc.table_schema = 'public'"@,
            Dialect::SQLite => "SELECT '' as table_name, '' as column_name, '' as foreign_table_name, '' as foreign_column_name, '' as constraint_name WHERE 0"@,
            _ => "SELECT kcu.TABLE_NAME as table_name, kcu.COLUMN_NAME as column_name, kcu.REFERENCED_TABLE_NAME as foreign_table_name, kcu.REFERENCED_COLUMN_NAME as foreign_column_name, kcu.CONSTRAINT_NAME as constraint_name FROM INFORMATION_SCHEMA.KEY_COLUMN_USAGE kcu WHERE kcu.REFERENCED_TABLE_NAME IS NOT NULL"@,
        }),
{
    match d {
        Dialect::Postgres | Dialect::CockroachDB => "SELECT kcu.table_name, kcu.column_name, ccu.table_name as foreign_table_name, ccu.column_name as foreign_column_name, tc.constraint_name FROM information_schema.table_constraints tc JOIN information_schema.key_column_usage kcu ON tc.constraint_name = kcu.constraint_name JOIN information_schema.constraint_column_usage ccu ON ccu.constraint_name = tc.constraint_name WHERE tc.constraint_type = 'FOREIGN KEY' AND tc.table_schema = 'public'",
        Dialect::SQLite => "SELECT '' as table_name, '' as column_name, '' as foreign_table_name, '' as foreign_column_name, '' as constraint_name WHERE 0",
        _ => "SELECT kcu.TABLE_NAME as table_name, kcu.COLUMN_NAME as column_name, kcu.REFERENCED_TABLE_NAME as foreign_table_name, kcu.REFERENCED_COLUMN_NAME as foreign_column_name, kcu.CONSTRAINT_NAME as constraint_name FROM INFORMATION_SCHEMA.KEY_COLUMN_USAGE kcu WHERE kcu.REFERENCED_TABLE_NAME IS NOT NULL",
    }
}

/// A flag member reported as the text `true`.
pub open spec fn row_flag(row: Row, key: Seq<char>) -> bool {
    row_get(row, key) == Some(Json::Str("true"@))
}

/// A number member reported as text, read as a 32-bit integer the way
/// `i32::from_str` reads it.
pub open spec fn row_parsed_i32(row: Row, key: Seq<char>) -> Option<i32> {
    match row_get(row, key) {
        Some(Json::Str(s)) => match parse_i64_spec(s) {
            Some(n) => if i32::MIN <= n <= i32::MAX { Some(n as i32) } else { None },
            None => None,
        },
        _ => None,
    }
}

fn row_flag_exec(row: &Row, key: &str) -> (r: bool)
    ensures
        r == row_flag(*row, key@),
{
    match row_get_exec(row, key) {
        Some(JsonValue::String(s)) => str_eq(s.as_str(), "true"),
        _ => false,
    }
}

fn row_parsed_i32_exec(row: &Row, key: &str) -> (r: Option<i32>)
    ensures
        r == row_parsed_i32(*row, key@),
{
    match row_get_exec(row, key) {
        Some(JsonValue::String(s)) => {
            let cs = chars_of(s.as_str());
            match parse_i64(&cs) {
                Some(n) => if -2147483648 <= n && n <= 2147483647 { Some(n as i32) } else { None },
                None => None,
            }
        },
        _ => None,
    }
}

/// A row of the snapshot column query.
pub fn column_info(row: &Row) -> (r: ColumnInfo)
    ensures
        r.table_name@ == row_text(*row, "table_name"@, ""@),
        r.column_name@ == row_text(*row, "column_name"@, ""@),
        r.data_type@ == row_text(*row, "data_type"@, ""@),
        (match (r.default_value, row_get(*row, "default_value"@)) {
            (Some(a), Some(b)) => a@ == b,
            (None, None) => true,
            _ => false,
        }),
        r.is_nullable == row_flag(*row, "is_nullable"@),
        r.is_generated == row_flag(*row, "is_generated"@),
        r.is_primary_key == row_flag(*row, "is_primary_key"@),
        r.numeric_precision == row_parsed_i32(*row, "numeric_precision"@),
        r.numeric_scale == row_parsed_i32(*row, "numeric_scale"@),
{
    ColumnInfo {
        table_name: row_text_exec(row, "table_name", ""),
        column_name: row_text_exec(row, "column_name", ""),
        data_type: row_text_exec(row, "data_type", ""),
        default_value: copy_opt(row_get_exec(row, "default_value")),
        is_nullable: row_flag_exec(row, "is_nullable"),
        is_generated: row_flag_exec(row, "is_generated"),
        is_primary_key: row_flag_exec(row, "is_primary_key"),
        numeric_precision: row_parsed_i32_exec(row, "numeric_precision"),
        numeric_scale: row_parsed_i32_exec(row, "numeric_scale"),
    }
}

/// A row of the snapshot foreign-key query.
pub fn foreign_key_info(row: &Row) -> (r: ForeignKeyInfo)
    ensures
        r.table_name@ == row_text(*row, "table_name"@, ""@),
        r.column_name@ == row_text(*row, "column_name"@, ""@),
        r.foreign_table_name@ == row_text(*row, "foreign_table_name"@, ""@),
        r.foreign_column_name@ == row_text(*row, "foreign_column_name"@, ""@),
        match r.constraint_name {
            Some(c) => row_get(*row, "constraint_name"@) == Some(Json::Str(c@)),
            None => !(row_get(*row, "constraint_name"@) matches Some(Json::Str(_))),
        },
{
    let constraint_name = match row_get_exec(row, "constraint_name") {
        Some(JsonValue::String(s)) => Some(s.clone()),
        _ => None,
    };
    ForeignKeyInfo {
        table_name: row_text_exec(row, "table_name", ""),
        column_name: row_text_exec(row, "column_name", ""),
        foreign_table_name: row_text_exec(row, "foreign_table_name", ""),
        foreign_column_name: row_text_exec(row, "foreign_column_name", ""),
        constraint_name,
    }
}

/// The field information of a snapshot column: typed through the dialect's
/// type map, with the column's data type as the database type.
pub open spec fn snapshot_field(c: ColumnInfo, d: Dialect) -> FieldInfoView {
    FieldInfoView {
        field: c.column_name@,
        default_value: match c.default_value {
            Some(v) => Some(v@),
            None => None,
        },
        nullable: c.is_nullable,
        generated: c.is_generated,
        field_type: super::schema::spec_map_db_type(c.data_type@),
        db_type: Some(c.data_type@),
        precision: c.numeric_precision,
        scale: c.numeric_scale,
        searchable: is_searchable(super::schema::spec_map_db_type(c.data_type@)),
    }
}

/// The fields of table `t`: its columns in order, keyed by name.
pub open spec fn table_fields(cols: Seq<ColumnInfo>, t: Seq<char>, d: Dialect) -> Seq<FieldInfoView>
    decreases cols.len(),
{
    if cols.len() == 0 {
        seq![]
    } else {
        let r = table_fields(cols.drop_last(), t, d);
        if cols.last().table_name@ == t { put_field(r, snapshot_field(cols.last(), d)) } else { r }
    }
}

/// The primary key of table `t`: its first column marked as key, else `id`.
pub open spec fn table_primary(cols: Seq<ColumnInfo>, t: Seq<char>) -> Seq<char>
    decreases cols.len(),
{
    if cols.len() == 0 {
        "id"@
    } else if cols[0].table_name@ == t && cols[0].is_primary_key {
        cols[0].column_name@
    } else {
        table_primary(cols.skip(1), t)
    }
}

/// The collection of table `t` in a schema snapshot.
pub fn snapshot_collection(t: &str, cols: &Vec<ColumnInfo>, d: Dialect) -> (r: CollectionInfo)
    ensures
        r.collection@ == t@,
        r.primary@ == table_primary(cols@, t@),
        field_views(r.fields@) == table_fields(cols@, t@, d),
        !r.is_singleton,
        r.accountability matches Some(a) && a@ == "all"@,
{
    let mut fields: Vec<FieldInfo> = Vec::new();
    let mut primary: Option<String> = None;
    let mut i: usize = 0;
    assert(cols@.take(0) =~= Seq::<ColumnInfo>::empty());
    assert(field_views(fields@) =~= Seq::<FieldInfoView>::empty());
    assert(cols@.skip(0) =~= cols@);
    while i < cols.len()
        invariant
            i <= cols@.len(),
            field_views(fields@) == table_fields(cols@.take(i as int), t@, d),
            match primary {
                Some(p) => p@ == table_primary(cols@, t@),
                None => table_primary(cols@, t@) == table_primary(cols@.skip(i as int), t@),
            },
        decreases cols@.len() - i,
    {
        proof {
            assert(cols@.take(i as int + 1).drop_last() =~= cols@.take(i as int));
            assert(cols@.take(i as int + 1).last() == cols@[i as int]);
            assert(cols@.skip(i as int).skip(1) =~= cols@.skip(i as int + 1));
            assert(cols@.skip(i as int)[0] == cols@[i as int]);
        }
        let c = &cols[i];
        if str_eq(c.table_name.as_str(), t) {
            if primary.is_none() && c.is_primary_key {
                primary = Some(c.column_name.clone());
            }
            let ft = super::schema::map_db_type_to_field_type(c.data_type.as_str(), d);
            let f = FieldInfo {
                field: c.column_name.clone(),
                default_value: copy_opt(match &c.default_value {
                    Some(v) => Some(v),
                    None => None,
                }),
                nullable: c.is_nullable,
                generated: c.is_generated,
                field_type: ft,
                db_type: Some(c.data_type.clone()),
                precision: c.numeric_precision,
                scale: c.numeric_scale,
                searchable: searchable_exec(ft),
            };
            assert(f.view() == snapshot_field(cols@[i as int], d));
            insert_field(&mut fields, f);
        }
        i = i + 1;
    }
    assert(cols@.take(cols@.len() as int) =~= cols@);
    let primary = match primary {
        Some(p) => p,
        None => String::from_str("id"),
    };
    collection_info(String::from_str(t), primary, fields)
}

/// The relation a snapshot foreign key stands for.
pub fn snapshot_relation(fk: &ForeignKeyInfo) -> (r: ForeignKeyRelation)
    ensures
        r.collection@ == fk.table_name@,
        r.field@ == fk.column_name@,
        r.related_collection@ == fk.foreign_table_name@,
        r.related_field@ == fk.foreign_column_name@,
        crate::database::query::opt_view(r.constraint_name) == crate::database::query::opt_view(fk.constraint_name),
{
    ForeignKeyRelation {
        collection: fk.table_name.clone(),
        field: fk.column_name.clone(),
        related_collection: fk.foreign_table_name.clone(),
        related_field: fk.foreign_column_name.clone(),
        constraint_name: crate::database::query::copy_opt_string(&fk.constraint_name),
    }
}

/// The names of a list of collections.
pub open spec fn collection_names(v: Seq<CollectionInfo>) -> Seq<Seq<char>> {
    Seq::new(v.len(), |i: int| v[i].collection@)
}

/// Adds a table's information to the schema, replacing the collection of
/// the same name in its place, else appending it.
pub fn insert_collection(cols: &mut Vec<CollectionInfo>, c: CollectionInfo)
    ensures
        ({
            let before = collection_names(old(cols)@);
            match crate::search::first_where(before, |n: Seq<char>| n == c.collection@) {
                Some(k) => final(cols)@ == old(cols)@.update(k, c),
                None => final(cols)@ == old(cols)@.push(c),
            }
        }),
{
    let ghost before = collection_names(cols@);
    let ghost p = |n: Seq<char>| n == c.collection@;
    let mut i: usize = 0;
    while i < cols.len()
        invariant
            before == collection_names(cols@),
            p == (|n: Seq<char>| n == c.collection@),
            i <= cols@.len(),
            forall|j: int| 0 <= j < i ==> !p(#[trigger] before[j]),
        ensures
            i <= cols@.len(),
            forall|j: int| 0 <= j < i ==> !p(#[trigger] before[j]),
            i < cols@.len() ==> p(before[i as int]),
        decreases cols@.len() - i,
    {
        assert(before[i as int] == cols@[i as int].collection@);
        if str_eq(cols[i].collection.as_str(), c.collection.as_str()) {
            break;
        }
        i = i + 1;
    }
    if i < cols.len() {
        proof {
            crate::search::lemma_first_where_found(before, p, i as int);
        }
        cols.set(i, c);
    } else {
        proof {
            crate::search::lemma_first_where_none(before, p);
        }
        cols.push(c);
    }
}

} // verus!
