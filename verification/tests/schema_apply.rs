use nexus::database::inspector::{collection_info, CollectionInfo, FieldInfo};
use nexus::database::schema::FieldType;
use nexus::database::schema_apply::{column_definition, create_table_statement, schema_apply_statements};
use nexus::database::Dialect;
use nexus::json::{JsonNumber, JsonValue};

fn field(name: &str, ft: FieldType, nullable: bool) -> FieldInfo {
    FieldInfo {
        field: name.to_string(),
        default_value: None,
        nullable,
        generated: false,
        field_type: ft,
        db_type: None,
        precision: None,
        scale: None,
        searchable: true,
    }
}

fn table(name: &str, fields: Vec<FieldInfo>) -> CollectionInfo {
    collection_info(name.to_string(), "id".to_string(), fields)
}

#[test]
fn column_definitions() {
    let mut status = field("status", FieldType::String, true);
    status.default_value = Some(JsonValue::String("draft".to_string()));
    assert_eq!(column_definition(Dialect::Postgres, &status, "id"), "\"status\" varchar(255) DEFAULT 'draft'");

    let mut count = field("count", FieldType::Integer, false);
    count.default_value = Some(JsonValue::Number(JsonNumber::PosInt(0)));
    assert_eq!(column_definition(Dialect::MySQL, &count, "id"), "`count` integer NOT NULL DEFAULT 0");

    let mut id = field("id", FieldType::Uuid, false);
    id.db_type = Some("char(36)".to_string());
    id.default_value = Some(JsonValue::Null);
    assert_eq!(column_definition(Dialect::MSSQL, &id, "id"), "[id] char(36) NOT NULL PRIMARY KEY");
}

#[test]
fn create_table_lists_columns() {
    let t = table("tags", vec![field("id", FieldType::Integer, false), field("label", FieldType::Text, true)]);
    assert_eq!(create_table_statement(Dialect::Postgres, &t), "CREATE TABLE \"tags\" (\"id\" integer NOT NULL PRIMARY KEY, \"label\" text)");
}

#[test]
fn apply_creates_adds_and_drops() {
    let current = vec![
        table("articles", vec![
            field("id", FieldType::Integer, false),
            field("title", FieldType::String, true),
            field("legacy", FieldType::Text, true),
        ]),
        table("old", vec![field("id", FieldType::Integer, false)]),
        table("directus_users", vec![field("id", FieldType::Uuid, false)]),
    ];
    let target = vec![
        table("articles", vec![
            field("id", FieldType::Integer, false),
            field("title", FieldType::String, true),
            field("body", FieldType::Text, false),
        ]),
        table("tags", vec![field("id", FieldType::Integer, false)]),
    ];
    let statements = schema_apply_statements(&current, &target, Dialect::Postgres);
    assert_eq!(statements, vec![
        "CREATE TABLE \"tags\" (\"id\" integer NOT NULL PRIMARY KEY)".to_string(),
        "ALTER TABLE \"articles\" ADD COLUMN \"body\" text NOT NULL".to_string(),
        "DROP TABLE IF EXISTS \"old\"".to_string(),
        "ALTER TABLE \"articles\" DROP COLUMN \"legacy\"".to_string(),
    ]);
}

#[test]
fn apply_to_same_schema_is_empty() {
    let s = vec![
        table("articles", vec![field("id", FieldType::Integer, false), field("title", FieldType::String, true)]),
        table("tags", vec![field("id", FieldType::Integer, false)]),
    ];
    let again = vec![
        table("articles", vec![field("id", FieldType::Integer, false), field("title", FieldType::String, true)]),
        table("tags", vec![field("id", FieldType::Integer, false)]),
    ];
    assert!(schema_apply_statements(&s, &again, Dialect::SQLite).is_empty());
}
