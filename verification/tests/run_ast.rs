use nexus::database::ast::{AstNode, ChildNode, FieldNode, RelationType, RelationalNode, RootNode};
use nexus::database::query::{Filter, Query};
use nexus::database::run_ast::{
    a2o_collections, a2o_keys_exec, build_a2o_query, build_o2m_query, collect_parent_keys, merge_a2o,
    merge_o2m_children, restructure_row, root_of, value_to_string, ColumnMapping,
};
use nexus::database::{Dialect, RunAstError, SqlValue};
use nexus::json::{write_json, JsonNumber, JsonValue};

fn text(v: &JsonValue) -> String {
    let mut t = String::new();
    write_json(v, &mut t);
    t
}

fn obj(members: Vec<(&str, JsonValue)>) -> JsonValue {
    JsonValue::Object(members.into_iter().map(|(k, v)| (k.to_string(), v)).collect())
}

fn row(members: Vec<(&str, JsonValue)>) -> Vec<(String, JsonValue)> {
    members.into_iter().map(|(k, v)| (k.to_string(), v)).collect()
}

fn s(t: &str) -> JsonValue {
    JsonValue::String(t.to_string())
}

fn num(n: u64) -> JsonValue {
    JsonValue::Number(JsonNumber::PosInt(n))
}

fn field(name: &str) -> ChildNode {
    ChildNode::Field(FieldNode { name: name.to_string(), alias: None })
}

fn comments_relation(children: Vec<ChildNode>) -> RelationalNode {
    RelationalNode {
        name: "comments".to_string(),
        field_key: "article_id".to_string(),
        parent_key: "id".to_string(),
        relation_type: RelationType::OneToMany,
        children,
        query: Query::empty(),
    }
}

#[test]
fn strings_key_by_their_text_and_other_values_by_json() {
    assert_eq!(value_to_string(&s("abc")), "abc");
    assert_eq!(value_to_string(&num(42)), "42");
    assert_eq!(value_to_string(&JsonValue::Null), "null");
    assert_eq!(value_to_string(&JsonValue::Bool(true)), "true");
}

#[test]
fn parent_keys_skip_missing_and_null() {
    let items = vec![
        obj(vec![("id", num(1))]),
        obj(vec![("title", s("x"))]),
        obj(vec![("id", JsonValue::Null)]),
        obj(vec![("id", num(3))]),
    ];
    let keys = collect_parent_keys(&items, "id");
    assert_eq!(keys.len(), 2);
    assert_eq!(text(&keys[0]), "1");
    assert_eq!(text(&keys[1]), "3");
}

#[test]
fn o2m_query_selects_foreign_key_and_scales_limit() {
    let mut rel = comments_relation(vec![field("body")]);
    rel.query.sort = Some(vec!["-created".to_string(), "id".to_string()]);
    rel.query.limit = Some(2);
    rel.query.filter = Some(Filter::Field(vec![(
        "approved".to_string(),
        obj(vec![("_eq", JsonValue::Bool(true))]),
    )]));
    let pks = vec![num(1), num(2), num(3)];
    let (sql, binds) = build_o2m_query(&rel, &pks, Dialect::Postgres).unwrap();
    assert_eq!(
        sql,
        "SELECT \"article_id\", \"body\" FROM \"comments\" WHERE \"article_id\" IN ($1, $2, $3) AND \"comments\".\"approved\" = $4 ORDER BY \"created\" DESC, \"id\" ASC LIMIT 6"
    );
    assert_eq!(binds.len(), 4);
    assert!(matches!(binds[0], SqlValue::Int(1)));
    assert!(matches!(binds[3], SqlValue::Bool(true)));
}

#[test]
fn o2m_query_without_fields_selects_everything() {
    let rel = comments_relation(vec![field("article_id"), field("body")]);
    let (sql, _) = build_o2m_query(&rel, &vec![num(7)], Dialect::MySQL).unwrap();
    assert_eq!(sql, "SELECT `article_id`, `body` FROM `comments` WHERE `article_id` IN ($1)");
    let rel = comments_relation(vec![]);
    let (sql, _) = build_o2m_query(&rel, &vec![num(7)], Dialect::MySQL).unwrap();
    assert_eq!(sql, "SELECT * FROM `comments` WHERE `article_id` IN ($1)");
}

#[test]
fn o2m_children_are_grouped_under_their_parent() {
    let mut items = vec![
        obj(vec![("id", num(1))]),
        obj(vec![("id", num(2))]),
        obj(vec![("id", num(1))]),
        s("not an object"),
    ];
    let rows = vec![
        row(vec![("article_id", num(1)), ("body", s("a"))]),
        row(vec![("article_id", num(2)), ("body", s("b"))]),
        row(vec![("article_id", num(1)), ("body", s("c"))]),
    ];
    merge_o2m_children(&mut items, "comments", "id", "article_id", &rows);
    assert_eq!(
        text(&items[0]),
        "{\"id\":1,\"comments\":[{\"article_id\":1,\"body\":\"a\"},{\"article_id\":1,\"body\":\"c\"}]}"
    );
    assert_eq!(text(&items[1]), "{\"id\":2,\"comments\":[{\"article_id\":2,\"body\":\"b\"}]}");
    assert_eq!(text(&items[2]), "{\"id\":1,\"comments\":[]}");
    assert_eq!(text(&items[3]), "\"not an object\"");
}

#[test]
fn rows_are_nested_by_relation() {
    let cols = vec![
        ColumnMapping::Direct { column: "id".to_string(), output: "id".to_string() },
        ColumnMapping::Nested {
            column: "author__name".to_string(),
            relation: "author".to_string(),
            field: "name".to_string(),
        },
        ColumnMapping::Nested {
            column: "editor__name".to_string(),
            relation: "editor".to_string(),
            field: "name".to_string(),
        },
    ];
    let r = row(vec![
        ("id", num(1)),
        ("author__name", s("Ann")),
        ("editor__name", JsonValue::Null),
        ("extra", JsonValue::Bool(false)),
    ]);
    let out = restructure_row(&r, &cols);
    assert_eq!(text(&out), "{\"id\":1,\"author\":{\"name\":\"Ann\"},\"editor\":null,\"extra\":false}");
}

#[test]
fn direct_mapping_falls_back_to_the_output_name() {
    let cols = vec![ColumnMapping::Direct { column: "t__x".to_string(), output: "x".to_string() }];
    let out = restructure_row(&row(vec![("x", num(5))]), &cols);
    assert_eq!(text(&out), "{\"x\":5}");
    let out = restructure_row(&row(vec![("t__x", num(6)), ("x", num(5))]), &cols);
    assert_eq!(text(&out), "{\"x\":6}");
}

#[test]
fn any_to_one_references_are_grouped_by_collection() {
    let items = vec![
        obj(vec![("item", num(1)), ("collection", s("pages"))]),
        obj(vec![("item", num(2)), ("collection", s("posts"))]),
        obj(vec![("item", num(3)), ("collection", s("pages"))]),
        obj(vec![("item", JsonValue::Null), ("collection", s("files"))]),
        obj(vec![("item", num(4)), ("collection", s(""))]),
    ];
    let cols = a2o_collections(&items, "collection", "item");
    assert_eq!(cols, vec!["pages".to_string(), "posts".to_string()]);
    let keys = a2o_keys_exec(&items, "collection", "item", "pages");
    assert_eq!(keys.len(), 2);
    assert_eq!(text(&keys[1]), "3");
    let (sql, binds) = build_a2o_query("pages", &keys, Dialect::Postgres);
    assert_eq!(sql, "SELECT * FROM \"pages\" WHERE \"id\" IN ($1, $2)");
    assert_eq!(binds.len(), 2);
}

#[test]
fn any_to_one_rows_are_merged_into_their_items() {
    let mut items = vec![
        obj(vec![("item", num(1)), ("collection", s("pages"))]),
        obj(vec![("item", num(9)), ("collection", s("pages"))]),
        obj(vec![("item", num(1)), ("collection", s("posts"))]),
    ];
    let rows = vec![
        row(vec![("id", num(1)), ("title", s("old"))]),
        row(vec![("id", num(1)), ("title", s("Home"))]),
    ];
    merge_a2o(&mut items, "target", "collection", "item", "pages", &rows);
    assert_eq!(
        text(&items[0]),
        "{\"item\":1,\"collection\":\"pages\",\"target\":{\"id\":1,\"title\":\"Home\"}}"
    );
    assert_eq!(text(&items[1]), "{\"item\":9,\"collection\":\"pages\"}");
    assert_eq!(text(&items[2]), "{\"item\":1,\"collection\":\"posts\"}");
}

#[test]
fn only_a_root_node_can_be_run() {
    let root = AstNode::Root(RootNode { name: "a".to_string(), children: vec![], query: Query::empty() });
    assert!(root_of(&root).is_ok());
    let other = AstNode::O2M(comments_relation(vec![]));
    match root_of(&other) {
        Err(e @ RunAstError::Ast(_)) => assert_eq!(e.message(), "AST error: run_ast expects a Root node"),
        _ => panic!("Expected an AST error"),
    }
}
