use nexus::database::query::{Filter, Query};
use nexus::json::{JsonNumber, JsonValue};
use nexus::nosql::mongo::{filter_to_bson, find_plan, id_filter, json_to_bson, ops_to_bson, schema_of_collections, Bson};
use nexus::nosql::NoSqlError;

fn show(b: &Bson) -> String {
    match b {
        Bson::Null => "null".to_string(),
        Bson::Boolean(x) => x.to_string(),
        Bson::Int32(i) => format!("{}i32", i),
        Bson::Int64(i) => format!("{}", i),
        Bson::Double(JsonNumber::PosInt(u)) => format!("{}f", u),
        Bson::Double(JsonNumber::NegInt(i)) => format!("{}f", i),
        Bson::Double(JsonNumber::Float(t)) => format!("{}f", t),
        Bson::String(s) => format!("'{}'", s),
        Bson::ObjectId(s) => format!("oid({})", s),
        Bson::Array(a) => format!("[{}]", a.iter().map(show).collect::<Vec<_>>().join(",")),
        Bson::Document(d) => show_doc(d),
    }
}

fn show_doc(d: &[(String, Bson)]) -> String {
    format!("{{{}}}", d.iter().map(|(k, v)| format!("{}:{}", k, show(v))).collect::<Vec<_>>().join(","))
}

fn ops(members: Vec<(&str, JsonValue)>) -> Vec<(String, JsonValue)> {
    members.into_iter().map(|(k, v)| (k.to_string(), v)).collect()
}

fn s(t: &str) -> JsonValue {
    JsonValue::String(t.to_string())
}

fn num(n: u64) -> JsonValue {
    JsonValue::Number(JsonNumber::PosInt(n))
}

fn cond(members: Vec<(&str, JsonValue)>) -> String {
    match ops_to_bson(&ops(members)) {
        Ok(b) => show(&b),
        Err(e) => panic!("{}", e.message()),
    }
}

#[test]
fn json_values_become_bson() {
    assert_eq!(show(&json_to_bson(&num(5))), "5");
    assert_eq!(show(&json_to_bson(&num(u64::MAX))), "18446744073709551615f");
    assert_eq!(show(&json_to_bson(&JsonValue::Number(JsonNumber::Float("1.5".to_string())))), "1.5f");
    assert_eq!(show(&json_to_bson(&s("507f1f77bcf86cd799439011"))), "oid(507f1f77bcf86cd799439011)");
    assert_eq!(show(&json_to_bson(&s("507f1f77bcf86cd79943901z"))), "'507f1f77bcf86cd79943901z'");
    let obj = JsonValue::Object(ops(vec![("a", num(1)), ("b", JsonValue::Array(vec![JsonValue::Null])), ("a", num(2))]));
    assert_eq!(show(&json_to_bson(&obj)), "{a:2,b:[null]}");
}

#[test]
fn a_lone_eq_matches_its_value() {
    assert_eq!(cond(vec![("_eq", s("x"))]), "'x'");
    assert_eq!(cond(vec![("_eq", JsonValue::Null)]), "null");
    assert_eq!(cond(vec![("_gt", num(1)), ("_eq", num(3))]), "3");
    assert_eq!(cond(vec![("_eq", JsonValue::Null), ("_gt", num(1))]), "{$eq:null,$gt:1}");
}

#[test]
fn comparison_and_set_operators() {
    assert_eq!(cond(vec![("_gte", num(1)), ("_lt", num(9)), ("_neq", num(4))]), "{$gte:1,$lt:9,$ne:4}");
    assert_eq!(cond(vec![("_in", JsonValue::Array(vec![num(1), num(2)])), ("_nin", num(3))]), "{$in:[1,2]}");
    assert_eq!(cond(vec![("_null", JsonValue::Bool(true)), ("_nnull", JsonValue::Bool(true))]), "{$eq:null,$ne:null}");
    assert_eq!(cond(vec![("_between", JsonValue::Array(vec![num(1), num(5)])), ("_x", num(0))]), "{$gte:1,$lte:5}");
    assert_eq!(cond(vec![("_nbetween", JsonValue::Array(vec![num(1), num(5)])), ("_gt", num(0))]), "{$not:{$gte:1,$lte:5}}");
}

#[test]
fn text_operators_escape_their_operand() {
    assert_eq!(cond(vec![("_contains", s("a.b")), ("_lt", num(1))]), "{$regex:'a\\.b',$lt:1}");
    assert_eq!(cond(vec![("_icontains", s("x")), ("_lt", num(1))]), "{$regex:'x',$options:'i',$lt:1}");
    assert_eq!(cond(vec![("_ncontains", s("(a)"))]), "{$not:{$regex:'\\(a\\)'}}");
    assert_eq!(cond(vec![("_istarts_with", s("a+"))]), "{$regex:'^a\\+',$options:'i'}");
    assert_eq!(cond(vec![("_ends_with", num(3))]), "{$regex:'$'}");
    assert_eq!(cond(vec![("_regex", s("^a.*"))]), "{$regex:'^a.*'}");
}

#[test]
fn empty_operators() {
    assert_eq!(cond(vec![("_empty", JsonValue::Bool(true)), ("_gt", num(1))]), "{$in:[null,'']}");
    assert_eq!(cond(vec![("_empty", JsonValue::Bool(false))]), "{$nin:[null,'']}");
    assert_eq!(cond(vec![("_nempty", JsonValue::Bool(true))]), "{$nin:[null,'']}");
    assert_eq!(cond(vec![("_nempty", s("no"))]), "{$in:[null,'']}");
}

#[test]
fn filters_become_documents() {
    let f = Filter::Or(vec![
        Filter::Field(ops(vec![("status", JsonValue::Object(ops(vec![("_eq", s("draft"))]))), ("skip", num(1))])),
        Filter::And(vec![]),
    ]);
    let d = filter_to_bson(&f).unwrap();
    assert_eq!(show_doc(&d), "{$or:[{status:'draft'},{}]}");
    assert_eq!(show_doc(&filter_to_bson(&Filter::And(vec![])).unwrap()), "{}");
}

#[test]
fn reads_are_paged_and_sorted() {
    let mut q = Query::empty();
    q.limit = Some(10);
    q.offset = Some(20);
    q.sort = Some(vec!["-date".to_string(), "title".to_string()]);
    let p = find_plan(&q);
    assert_eq!(p.limit, Some(10));
    assert_eq!(p.skip, Some(20));
    assert_eq!(show_doc(&p.sort.unwrap()), "{date:-1i32,title:1i32}");
    let p = find_plan(&Query::empty());
    assert!(p.limit.is_none() && p.skip.is_none() && p.sort.is_none());
}

#[test]
fn items_are_found_by_id() {
    assert_eq!(show_doc(&id_filter(&s("507f1f77bcf86cd799439011"))), "{_id:oid(507f1f77bcf86cd799439011)}");
    assert_eq!(show_doc(&id_filter(&s("abc"))), "{_id:'abc'}");
    assert_eq!(show_doc(&id_filter(&num(3))), "{_id:''}");
}

#[test]
fn collections_form_the_schema() {
    let s = schema_of_collections(&vec!["a".to_string(), "b".to_string()]);
    assert_eq!(s.collections.len(), 2);
    assert_eq!(s.collections[1].collection, "b");
    assert_eq!(s.collections[1].primary, "_id");
    assert!(s.relations.is_empty());
    assert_eq!(NoSqlError::Unsupported("x".to_string()).message(), "Unsupported operation: x");
}

#[test]
fn unknown_operators_change_nothing() {
    assert_eq!(cond(vec![("_gt", num(1)), ("_bogus", num(5))]), cond(vec![("_gt", num(1))]));
    assert_eq!(cond(vec![("_whatever", s("x")), ("_eq", s("a"))]), cond(vec![("_eq", s("a"))]));
    assert_eq!(cond(vec![("_whatever", s("x"))]), cond(vec![]));
}
