use nexus::database::inspector::{
    collection_info, column_info, foreign_key_info, insert_collection, insert_field, introspection_tables_query,
    listed_table, mssql_field, mysql_field, mysql_is_primary, pg_field, pg_primary_key, pg_relation, primary_key_of,
    snapshot_collection, snapshot_relation, sqlite_columns_query, sqlite_field, sqlite_is_primary, Row,
};
use nexus::database::schema::FieldType;
use nexus::database::{DatabaseError, Dialect};
use nexus::json::{JsonNumber, JsonValue};

fn row(members: Vec<(&str, JsonValue)>) -> Row {
    members.into_iter().map(|(k, v)| (k.to_string(), v)).collect()
}

fn s(t: &str) -> JsonValue {
    JsonValue::String(t.to_string())
}

fn num(n: u64) -> JsonValue {
    JsonValue::Number(JsonNumber::PosInt(n))
}

#[test]
fn tables_to_introspect() {
    assert!(introspection_tables_query(Dialect::Postgres).unwrap().starts_with("SELECT table_name FROM information_schema.tables"));
    match introspection_tables_query(Dialect::Oracle) {
        Err(DatabaseError::NotSupported(m)) => assert_eq!(m, "Oracle introspection not yet implemented"),
        _ => panic!("Expected not supported"),
    }
    assert_eq!(listed_table(&row(vec![("name", s("posts"))]), Dialect::SQLite), Some("posts".to_string()));
    assert_eq!(listed_table(&row(vec![("name", s("posts"))]), Dialect::MySQL), None);
    assert_eq!(listed_table(&row(vec![("table_name", s(""))]), Dialect::MySQL), None);
    assert_eq!(sqlite_columns_query("a b"), "PRAGMA table_info(\"a b\")");
}

#[test]
fn postgres_columns() {
    let f = pg_field(&row(vec![
        ("column_name", s("id")),
        ("data_type", s("integer")),
        ("udt_name", s("int4")),
        ("is_nullable", s("NO")),
        ("column_default", s("nextval('posts_id_seq'::regclass)")),
        ("numeric_precision", num(32)),
    ]));
    assert_eq!(f.field, "id");
    assert!(f.generated && !f.nullable && !f.searchable);
    assert_eq!(f.field_type, FieldType::Integer);
    assert_eq!(f.db_type.as_deref(), Some("int4"));
    assert_eq!(f.precision, Some(32));
    assert!(f.default_value.is_some());
    let g = pg_field(&row(vec![("column_name", s("title")), ("data_type", s("text")), ("is_nullable", s("YES")), ("column_default", JsonValue::Null)]));
    assert!(g.nullable && g.searchable && g.default_value.is_none() && !g.generated);
    assert_eq!(pg_primary_key(&vec![row(vec![("column_name", s("uuid"))])]), "uuid");
    assert_eq!(pg_primary_key(&vec![row(vec![("column_name", s(""))])]), "id");
    assert_eq!(pg_primary_key(&vec![]), "id");
    let r = pg_relation(&row(vec![("from_table", s("posts")), ("from_column", s("author")), ("to_table", s("users")), ("to_column", s("id"))]));
    assert_eq!((r.collection.as_str(), r.field.as_str(), r.related_collection.as_str(), r.related_field.as_str()), ("posts", "author", "users", "id"));
}

#[test]
fn mysql_sqlite_and_mssql_columns() {
    let col = row(vec![("column_name", s("id")), ("data_type", s("bigint")), ("column_key", s("PRI")), ("extra", s("auto_increment"))]);
    let f = mysql_field(&col);
    assert!(f.generated && mysql_is_primary(&col));
    assert_eq!(f.field_type, FieldType::BigInteger);
    let col = row(vec![("name", s("id")), ("type", s("integer")), ("notnull", num(1)), ("pk", num(1))]);
    let f = sqlite_field(&col);
    assert!(f.generated && !f.nullable && sqlite_is_primary(&col));
    let f = mssql_field(&row(vec![("column_name", s("name")), ("data_type", s("nvarchar")), ("is_nullable", s("YES"))]));
    assert!(f.nullable && f.searchable && !f.generated);
    let names = vec!["".to_string(), "a".to_string(), "b".to_string()];
    assert_eq!(primary_key_of(&names, &vec![true, false, true]), "b");
    assert_eq!(primary_key_of(&names, &vec![false, false, false]), "id");
}

#[test]
fn fields_and_collections_are_keyed_by_name() {
    let mut fields = Vec::new();
    insert_field(&mut fields, pg_field(&row(vec![("column_name", s("a")), ("data_type", s("text"))])));
    insert_field(&mut fields, pg_field(&row(vec![("column_name", s("b")), ("data_type", s("text"))])));
    insert_field(&mut fields, pg_field(&row(vec![("column_name", s("a")), ("data_type", s("integer"))])));
    assert_eq!(fields.len(), 2);
    assert_eq!(fields[0].field_type, FieldType::Integer);
    let c = collection_info("posts".to_string(), "id".to_string(), fields);
    assert_eq!(c.accountability.as_deref(), Some("all"));
    let mut cols = Vec::new();
    insert_collection(&mut cols, c);
    insert_collection(&mut cols, collection_info("users".to_string(), "id".to_string(), vec![]));
    insert_collection(&mut cols, collection_info("posts".to_string(), "uuid".to_string(), vec![]));
    assert_eq!(cols.len(), 2);
    assert_eq!(cols[0].primary, "uuid");
}

#[test]
fn snapshot_rows_become_a_schema() {
    let cols = vec![
        column_info(&row(vec![("table_name", s("posts")), ("column_name", s("id")), ("data_type", s("int")), ("is_primary_key", s("true")), ("numeric_precision", s("32"))])),
        column_info(&row(vec![("table_name", s("users")), ("column_name", s("id")), ("data_type", s("uuid")), ("is_primary_key", s("true"))])),
        column_info(&row(vec![("table_name", s("posts")), ("column_name", s("title")), ("data_type", s("varchar")), ("is_nullable", s("true"))])),
    ];
    assert_eq!(cols[0].numeric_precision, Some(32));
    let c = snapshot_collection("posts", &cols, Dialect::Postgres);
    assert_eq!(c.primary, "id");
    assert_eq!(c.fields.len(), 2);
    assert!(c.fields[1].searchable && c.fields[1].nullable);
    let empty = snapshot_collection("tags", &cols, Dialect::Postgres);
    assert_eq!(empty.primary, "id");
    assert!(empty.fields.is_empty());
    let fk = foreign_key_info(&row(vec![("table_name", s("posts")), ("column_name", s("author")), ("foreign_table_name", s("users")), ("foreign_column_name", s("id")), ("constraint_name", s("fk1"))]));
    let r = snapshot_relation(&fk);
    assert_eq!(r.constraint_name.as_deref(), Some("fk1"));
    assert_eq!(r.related_collection, "users");
}
