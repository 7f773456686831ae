use nexus::database::ast::{
    get_ast_from_query, parse_function_field, AstBuildError, AstNode, ChildNode, CollectionOverview, FieldOverview,
    Relation, RelationMeta, RelationType, SchemaOverview,
};
use nexus::database::migrations::{applied_migrations_query, applied_versions, get_all_migrations, migration_sql, pending_migrations, split_statements};
use nexus::database::query::{Filter, Query};
use nexus::database::run_ast::{build_root_query, ColumnMapping};
use nexus::database::schema::{
    field_type_to_sql, map_db_type_to_field_type, mssql_type_to_field_type, mysql_type_to_field_type,
    pg_type_to_field_type, sqlite_type_to_field_type, FieldType,
};
use nexus::database::sql::{build_filter_sql, build_operator_sql, checked_filter_width, value_to_sql_value};
use nexus::database::{detect_dialect, DatabaseError, Dialect, SqlValue};
use nexus::json::{JsonNumber, JsonValue};

fn field(name: &str) -> FieldOverview {
    FieldOverview { field: name.to_string(), alias: false }
}

fn test_schema() -> SchemaOverview {
    let articles = CollectionOverview {
        collection: "articles".into(),
        primary: "id".into(),
        fields: vec![field("id"), field("title"), field("author")],
    };
    let users = CollectionOverview {
        collection: "users".into(),
        primary: "id".into(),
        fields: vec![field("id"), field("name")],
    };
    let relations = vec![Relation {
        collection: "articles".into(),
        field: "author".into(),
        related_collection: Some("users".into()),
        meta: Some(RelationMeta {
            many_field: "author".into(),
            one_collection: Some("users".into()),
            one_field: None,
            one_collection_field: None,
            one_allowed_collections: None,
        }),
    }];
    SchemaOverview { collections: vec![articles, users], relations }
}

fn query_with_fields(fields: Vec<&str>) -> Query {
    let mut q = Query::empty();
    q.fields = Some(fields.into_iter().map(|f| f.to_string()).collect());
    q
}

#[test]
fn test_flat_fields() {
    let schema = test_schema();
    let query = query_with_fields(vec!["id", "title"]);
    let ast = get_ast_from_query("articles", &query, &schema).unwrap();
    match ast {
        AstNode::Root(root) => {
            assert_eq!(root.children.len(), 2);
        }
        _ => panic!("Expected Root"),
    }
}

#[test]
fn test_m2o_field() {
    let schema = test_schema();
    let query = query_with_fields(vec!["id", "author.name"]);
    let ast = get_ast_from_query("articles", &query, &schema).unwrap();
    match ast {
        AstNode::Root(root) => {
            assert_eq!(root.children.len(), 2);
            let nested = root.children.iter().find(|c| matches!(c, ChildNode::Nested(_)));
            assert!(nested.is_some());
        }
        _ => panic!("Expected Root"),
    }
}

#[test]
fn test_wildcard() {
    let schema = test_schema();
    let query = query_with_fields(vec!["*"]);
    let ast = get_ast_from_query("articles", &query, &schema).unwrap();
    match ast {
        AstNode::Root(root) => {
            assert!(root.children.len() >= 3);
        }
        _ => panic!("Expected Root"),
    }
}

#[test]
fn unknown_collection_is_an_error() {
    let schema = test_schema();
    let query = Query::empty();
    match get_ast_from_query("nope", &query, &schema) {
        Err(AstBuildError::CollectionNotFound(c)) => assert_eq!(c, "nope"),
        _ => panic!("Expected CollectionNotFound"),
    }
}

#[test]
fn nested_fields_of_one_relation_are_merged() {
    let schema = test_schema();
    let query = query_with_fields(vec!["author.name", "author.id", "count(comments)"]);
    let ast = get_ast_from_query("articles", &query, &schema).unwrap();
    match ast {
        AstNode::Root(root) => {
            assert_eq!(root.children.len(), 2);
            match &root.children[0] {
                ChildNode::Nested(n) => match n.as_ref() {
                    AstNode::M2O(r) => {
                        assert_eq!(r.name, "author");
                        assert_eq!(r.field_key, "author");
                        assert_eq!(r.parent_key, "id");
                        assert_eq!(r.relation_type, RelationType::ManyToOne);
                        assert_eq!(r.children.len(), 2);
                    }
                    _ => panic!("Expected M2O"),
                },
                _ => panic!("Expected nested"),
            }
            match &root.children[1] {
                ChildNode::FunctionField(f) => {
                    assert_eq!(f.function, "count");
                    assert_eq!(f.name, "comments");
                    assert_eq!(f.alias.as_deref(), Some("count(comments)"));
                }
                _ => panic!("Expected function field"),
            }
        }
        _ => panic!("Expected Root"),
    }
}

#[test]
fn a_relation_named_twice_gives_one_nested_child() {
    let schema = test_schema();
    let query = query_with_fields(vec!["author.name", "id", "author.id"]);
    let ast = get_ast_from_query("articles", &query, &schema).unwrap();
    match ast {
        AstNode::Root(root) => {
            let nested: Vec<&ChildNode> = root.children.iter().filter(|c| matches!(c, ChildNode::Nested(_))).collect();
            assert_eq!(nested.len(), 1);
            assert_eq!(root.children.len(), 2);
            match nested[0] {
                ChildNode::Nested(n) => match n.as_ref() {
                    AstNode::M2O(r) => {
                        assert_eq!(r.name, "author");
                        assert_eq!(r.children.len(), 2);
                    }
                    _ => panic!("Expected M2O"),
                },
                _ => panic!("Expected nested"),
            }
        }
        _ => panic!("Expected Root"),
    }
}

#[test]
fn function_field_syntax() {
    assert_eq!(parse_function_field("count(comments)"), Some(("count".to_string(), "comments".to_string())));
    assert_eq!(parse_function_field("sum()"), None);
    assert_eq!(parse_function_field("title"), None);
    assert_eq!(parse_function_field(")x("), None);
}

fn obj(members: Vec<(&str, JsonValue)>) -> JsonValue {
    JsonValue::Object(members.into_iter().map(|(k, v)| (k.to_string(), v)).collect())
}

fn s(t: &str) -> JsonValue {
    JsonValue::String(t.to_string())
}

fn num(n: u64) -> JsonValue {
    JsonValue::Number(JsonNumber::PosInt(n))
}

#[test]
fn operator_clauses_and_parameters() {
    let mut idx = 1usize;
    let (c, b) = build_operator_sql("\"t\".\"a\"", "_eq", &num(5), &mut idx).unwrap();
    assert_eq!(c, "\"t\".\"a\" = $1");
    assert!(matches!(b.as_slice(), [SqlValue::Int(5)]));
    assert_eq!(idx, 2);

    let (c, b) = build_operator_sql("\"t\".\"a\"", "_eq", &JsonValue::Null, &mut idx).unwrap();
    assert_eq!(c, "\"t\".\"a\" IS NULL");
    assert!(b.is_empty());
    assert_eq!(idx, 2);

    let arr = JsonValue::Array(vec![num(1), num(2), num(3)]);
    let (c, b) = build_operator_sql("x", "_in", &arr, &mut idx).unwrap();
    assert_eq!(c, "x IN ($2, $3, $4)");
    assert!(matches!(b.as_slice(), [SqlValue::Int(1), SqlValue::Int(2), SqlValue::Int(3)]));
    assert_eq!(idx, 5);

    let (c, b) = build_operator_sql("x", "_contains", &s("ab"), &mut idx).unwrap();
    assert_eq!(c, "x LIKE $5");
    match b.as_slice() {
        [SqlValue::Text(t)] => assert_eq!(t, "%ab%"),
        _ => panic!("Expected text"),
    }
    let between = JsonValue::Array(vec![num(1), num(9)]);
    let (c, b) = build_operator_sql("x", "_between", &between, &mut idx).unwrap();
    assert_eq!(c, "x BETWEEN $6 AND $7");
    assert!(matches!(b.as_slice(), [SqlValue::Int(1), SqlValue::Int(9)]));
    let (c, _) = build_operator_sql("x", "_empty", &JsonValue::Bool(true), &mut idx).unwrap();
    assert_eq!(c, "(x IS NULL OR x = '')");
    assert!(build_operator_sql("x", "_nope", &num(1), &mut idx).is_none());
    assert!(build_operator_sql("x", "_in", &num(1), &mut idx).is_none());
    assert_eq!(idx, 8);
}

#[test]
fn big_integers_bind_as_floats() {
    match value_to_sql_value(&num(u64::MAX)) {
        SqlValue::Float(t) => assert_eq!(t, "18446744073709551615"),
        _ => panic!("Expected float"),
    }
    assert!(matches!(value_to_sql_value(&JsonValue::Number(JsonNumber::NegInt(-3))), SqlValue::Int(-3)));
}

#[test]
fn filter_groups_number_parameters_in_order() {
    let f = Filter::Or(vec![
        Filter::Field(vec![("status".to_string(), obj(vec![("_eq", s("published"))]))]),
        Filter::And(vec![
            Filter::Field(vec![("views".to_string(), obj(vec![("_gt", num(10)), ("_lt", num(20))]))]),
            Filter::And(vec![]),
        ]),
    ]);
    let (sql, binds, next) = build_filter_sql(&f, Dialect::Postgres, "posts", 1).unwrap();
    assert_eq!(
        sql,
        "(\"posts\".\"status\" = $1 OR (\"posts\".\"views\" > $2 AND \"posts\".\"views\" < $3))"
    );
    assert_eq!(binds.len(), 3);
    assert_eq!(next, 4);
}

#[test]
fn root_query_with_join_sort_and_limit() {
    let schema = test_schema();
    let mut query = query_with_fields(vec!["id", "author.name"]);
    query.sort = Some(vec!["-id".to_string()]);
    query.limit = Some(5);
    let ast = get_ast_from_query("articles", &query, &schema).unwrap();
    let root = match ast {
        AstNode::Root(r) => r,
        _ => panic!("Expected Root"),
    };
    let (sql, binds, cols) = build_root_query(&root, Dialect::MySQL).unwrap();
    assert_eq!(
        sql,
        "SELECT `articles`.`id`, `author`.`name` AS `author__name` FROM `articles` LEFT JOIN `author` AS `author` ON `articles`.`author` = `author`.`id` ORDER BY `articles`.`id` DESC LIMIT 5"
    );
    assert!(binds.is_empty());
    assert_eq!(cols.len(), 2);
    match &cols[1] {
        ColumnMapping::Nested { column, relation, field } => {
            assert_eq!(column, "author__name");
            assert_eq!(relation, "author");
            assert_eq!(field, "name");
        }
        _ => panic!("Expected nested mapping"),
    }
}

#[test]
fn root_query_defaults() {
    let schema = test_schema();
    let query = query_with_fields(vec![]);
    let ast = get_ast_from_query("articles", &query, &schema).unwrap();
    let root = match ast {
        AstNode::Root(r) => r,
        _ => panic!("Expected Root"),
    };
    let (sql, _, _) = build_root_query(&root, Dialect::SQLite).unwrap();
    assert_eq!(sql, "SELECT \"articles\".* FROM \"articles\" LIMIT 100");
}

#[test]
fn dialects_from_urls() {
    assert_eq!(detect_dialect("postgres://u@h/db").unwrap(), Dialect::Postgres);
    assert_eq!(detect_dialect("postgresql://h/db").unwrap(), Dialect::Postgres);
    assert_eq!(detect_dialect("mysql://h/db").unwrap(), Dialect::MySQL);
    assert_eq!(detect_dialect("sqlite::memory:").unwrap(), Dialect::SQLite);
    assert_eq!(detect_dialect("mssql://h").unwrap(), Dialect::MSSQL);
    match detect_dialect("redis://h") {
        Err(DatabaseError::Connection(m)) => assert_eq!(m, "Unsupported database URL scheme: redis"),
        _ => panic!("Expected connection error"),
    }
    assert_eq!(Dialect::MSSQL.quote_identifier("a"), "[a]");
    assert_eq!(Dialect::CockroachDB.name(), "cockroachdb");
}

#[test]
fn migrations_are_listed_in_order_and_split() {
    let all = get_all_migrations();
    assert_eq!(all.len(), 15);
    assert_eq!(all[0].version, "20240101A");
    assert_eq!(all[0].name, "Create Roles Table");
    assert_eq!(all[14].version, "20240101O");
    let applied = vec!["20240101A".to_string(), "20240101C".to_string()];
    let pending = pending_migrations(&all, &applied);
    assert_eq!(pending.len(), 13);
    assert_eq!(pending[0], 1);
    assert_eq!(pending[1], 3);
    let stmts = split_statements(" CREATE TABLE a (x int);\n ; CREATE TABLE b (y int) ;  ");
    assert_eq!(stmts, vec!["CREATE TABLE a (x int)".to_string(), "CREATE TABLE b (y int)".to_string()]);
    assert!(migration_sql(&all[0], Dialect::Oracle).contains("UUID PRIMARY KEY"));
}

#[test]
fn column_types_map_to_field_types() {
    assert_eq!(map_db_type_to_field_type("VARCHAR", Dialect::MySQL), FieldType::String);
    assert_eq!(map_db_type_to_field_type("timestamptz", Dialect::Postgres), FieldType::Timestamp);
    assert_eq!(map_db_type_to_field_type("whatever", Dialect::Postgres), FieldType::Unknown);
    assert_eq!(pg_type_to_field_type("USER-DEFINED", "uuid"), FieldType::Uuid);
    assert_eq!(pg_type_to_field_type("ARRAY", "_text"), FieldType::String);
    assert_eq!(mysql_type_to_field_type("DATETIME"), FieldType::DateTime);
    assert_eq!(mssql_type_to_field_type("uniqueidentifier"), FieldType::Uuid);
    assert_eq!(sqlite_type_to_field_type("big integer"), FieldType::Integer);
    assert_eq!(sqlite_type_to_field_type("datetime"), FieldType::DateTime);
    assert_eq!(sqlite_type_to_field_type("blob"), FieldType::String);
    assert_eq!(field_type_to_sql(&FieldType::GeometryPoint), "geometry");
}

#[test]
fn applied_versions_are_read_from_rows() {
    assert_eq!(applied_migrations_query(), "SELECT version FROM nexus_migrations ORDER BY version");
    let rows = vec![
        vec![("version".to_string(), s("0001"))],
        vec![("name".to_string(), s("x"))],
        vec![("version".to_string(), num(2))],
        vec![("version".to_string(), s("0003"))],
    ];
    assert_eq!(applied_versions(&rows), vec!["0001".to_string(), "0003".to_string()]);
}

#[test]
fn in_binds_every_value() {
    let f = Filter::Field(vec![(
        "id".to_string(),
        obj(vec![("_in", JsonValue::Array(vec![num(1), num(2)]))]),
    )]);
    let (sql, binds, next) = build_filter_sql(&f, Dialect::Postgres, "posts", 1).unwrap();
    assert_eq!(sql, "\"posts\".\"id\" IN ($1, $2)");
    assert!(matches!(binds.as_slice(), [SqlValue::Int(1), SqlValue::Int(2)]));
    assert_eq!(next, 3);
}

#[test]
fn group_by_comes_before_order_and_limit() {
    let schema = test_schema();
    let mut query = query_with_fields(vec!["id"]);
    query.group = Some(vec!["author".to_string()]);
    query.sort = Some(vec!["id".to_string()]);
    query.offset = Some(10);
    let ast = get_ast_from_query("articles", &query, &schema).unwrap();
    let root = match ast {
        AstNode::Root(r) => r,
        _ => panic!("Expected Root"),
    };
    let (sql, _, _) = build_root_query(&root, Dialect::Postgres).unwrap();
    assert_eq!(
        sql,
        "SELECT \"articles\".\"id\" FROM \"articles\" GROUP BY \"articles\".\"author\" ORDER BY \"articles\".\"id\" ASC LIMIT 100 OFFSET 10"
    );
}

#[test]
fn filter_width_counts_parameter_room() {
    let f = Filter::Or(vec![
        Filter::Field(vec![("status".to_string(), obj(vec![("_eq", s("x")), ("_in", JsonValue::Array(vec![num(1), num(2), num(3)]))]))]),
        Filter::Field(vec![("plain".to_string(), s("ignored"))]),
    ]);
    assert_eq!(checked_filter_width(&f), Some(4));
    assert_eq!(checked_filter_width(&Filter::And(vec![])), Some(0));
}

#[test]
fn clauses_without_placeholders_fit_at_the_last_parameter() {
    let mut idx = usize::MAX;
    let (c, b) = build_operator_sql("x", "_eq", &JsonValue::Null, &mut idx).unwrap();
    assert_eq!(c, "x IS NULL");
    assert!(b.is_empty());
    assert_eq!(idx, usize::MAX);
}

#[test]
fn a_second_run_finds_nothing_pending() {
    let all = get_all_migrations();
    let first = pending_migrations(&all, &vec![]);
    assert_eq!(first.len(), all.len());
    let applied: Vec<String> = first.iter().map(|&i| all[i].version.clone()).collect();
    assert!(pending_migrations(&all, &applied).is_empty());
}

fn placeholder_numbers(sql: &str) -> Vec<usize> {
    let cs: Vec<char> = sql.chars().collect();
    let mut out = Vec::new();
    let mut i = 0;
    while i < cs.len() {
        if cs[i] == '$' {
            let mut j = i + 1;
            let mut n = 0usize;
            while j < cs.len() && cs[j].is_ascii_digit() {
                n = n * 10 + cs[j].to_digit(10).unwrap() as usize;
                j += 1;
            }
            out.push(n);
            i = j;
        } else {
            i += 1;
        }
    }
    out
}

#[test]
fn filter_placeholders_run_in_order_with_their_bindings() {
    let f = Filter::And(vec![
        Filter::Field(vec![
            ("a".to_string(), obj(vec![("_between", JsonValue::Array(vec![num(1), num(9)])), ("_null", JsonValue::Bool(true))])),
            ("b".to_string(), obj(vec![("_in", JsonValue::Array(vec![num(3), num(4), num(5)]))])),
        ]),
        Filter::Or(vec![Filter::Field(vec![("c".to_string(), obj(vec![("_contains", s("x")), ("_eq", num(7))]))])]),
    ]);
    let (sql, binds, next) = build_filter_sql(&f, Dialect::Postgres, "t", 4).unwrap();
    assert_eq!(placeholder_numbers(&sql), (4..next).collect::<Vec<_>>());
    assert_eq!(binds.len(), next - 4);
    assert!(matches!(binds[0], SqlValue::Int(1)));
    assert!(matches!(binds[1], SqlValue::Int(9)));
    assert!(matches!(binds[4], SqlValue::Int(5)));
    assert!(matches!(binds[6], SqlValue::Int(7)));
}
