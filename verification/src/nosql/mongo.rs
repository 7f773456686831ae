//! MongoDB query documents: JSON values as BSON, item filters as filter
//! documents, and the sort and paging options of a read.

use vstd::prelude::*;
use vstd::string::*;
use crate::database::ast::{CollSpec, CollectionOverview, SchemaOverview, SchemaSpec};
use crate::database::query::{Filter, FilterSpec, Query};
use crate::text::{chars_of, string_of, sub_chars, views};
use crate::json::{member_get, members_view, obj_get, Json, JsonNumber, JsonValue, Num};
use crate::text::str_eq;
use super::NoSqlError;

verus! {

broadcast use vstd::std_specs::vec::group_vec_axioms;

/// A BSON value as a query document holds it. `Double` keeps the JSON number
/// whose floating-point value it is; `ObjectId` keeps the 24 hexadecimal
/// digits of the id.
#[derive(Debug)]
pub enum Bson {
    Null,
    Boolean(bool),
    Int32(i32),
    Int64(i64),
    Double(JsonNumber),
    String(String),
    ObjectId(String),
    Array(Vec<Bson>),
    Document(Vec<(String, Bson)>),
}

/// Mathematical BSON value.
pub enum BsonV {
    Null,
    Boolean(bool),
    Int32(int),
    Int64(int),
    Double(Num),
    Str(Seq<char>),
    ObjectId(Seq<char>),
    Array(Seq<BsonV>),
    Document(Seq<(Seq<char>, BsonV)>),
}

impl Bson {
    pub open spec fn view(&self) -> BsonV
        decreases self,
    {
        match self {
            Bson::Null => BsonV::Null,
            Bson::Boolean(b) => BsonV::Boolean(*b),
            Bson::Int32(i) => BsonV::Int32(*i as int),
            Bson::Int64(i) => BsonV::Int64(*i as int),
            Bson::Double(n) => BsonV::Double(n.view()),
            Bson::String(s) => BsonV::Str(s@),
            Bson::ObjectId(s) => BsonV::ObjectId(s@),
            Bson::Array(v) => BsonV::Array(Seq::new(v.len() as nat, |i: int| if 0 <= i < v.len() { v[i].view() } else { BsonV::Null })),
            Bson::Document(d) => BsonV::Document(Seq::new(d.len() as nat, |i: int| if 0 <= i < d.len() { (d[i].0@, d[i].1.view()) } else { (Seq::empty(), BsonV::Null) })),
        }
    }
}

/// The members of a document, as views.
pub open spec fn doc_view(d: Seq<(String, Bson)>) -> Seq<(Seq<char>, BsonV)> {
    Seq::new(d.len(), |i: int| (d[i].0@, d[i].1.view()))
}

/// The view of a document value is its members' views.
pub proof fn lemma_document_view(d: &Vec<(String, Bson)>)
    ensures
        Bson::Document(*d).view() == BsonV::Document(doc_view(d@)),
{
    assert(Bson::Document(*d).view()->Document_0 =~= doc_view(d@));
}

/// The view of an array value is its items' views.
proof fn lemma_bson_array_view(a: &Vec<Bson>)
    ensures
        Bson::Array(*a).view() == BsonV::Array(Seq::new(a@.len(), |i: int| a@[i].view())),
{
    assert(Bson::Array(*a).view()->Array_0 =~= Seq::new(a@.len(), |i: int| a@[i].view()));
}

/// `d` with `key` set to `v`, as a document insert does it: the member with
/// that key keeps its place and takes the new value, else the member is appended.
pub open spec fn doc_set(d: Seq<(Seq<char>, BsonV)>, key: Seq<char>, v: BsonV) -> Seq<(Seq<char>, BsonV)>
    decreases d.len(),
{
    if d.len() == 0 {
        seq![(key, v)]
    } else if d[0].0 == key {
        d.update(0, (key, v))
    } else {
        seq![d[0]] + doc_set(d.skip(1), key, v)
    }
}

proof fn lemma_doc_set_at(d: Seq<(Seq<char>, BsonV)>, key: Seq<char>, v: BsonV, k: int)
    requires
        0 <= k < d.len(),
        d[k].0 == key,
        forall|j: int| 0 <= j < k ==> #[trigger] d[j].0 != key,
    ensures
        doc_set(d, key, v) == d.update(k, (key, v)),
    decreases d.len(),
{
    if k > 0 {
        assert forall|j: int| 0 <= j < k - 1 implies #[trigger] d.skip(1)[j].0 != key by {
            assert(d.skip(1)[j] == d[j + 1]);
        }
        lemma_doc_set_at(d.skip(1), key, v, k - 1);
        assert(seq![d[0]] + d.skip(1).update(k - 1, (key, v)) =~= d.update(k, (key, v)));
    }
}

proof fn lemma_doc_set_absent(d: Seq<(Seq<char>, BsonV)>, key: Seq<char>, v: BsonV)
    requires
        forall|j: int| 0 <= j < d.len() ==> #[trigger] d[j].0 != key,
    ensures
        doc_set(d, key, v) == d.push((key, v)),
    decreases d.len(),
{
    if d.len() > 0 {
        assert forall|j: int| 0 <= j < d.len() - 1 implies #[trigger] d.skip(1)[j].0 != key by {
            assert(d.skip(1)[j] == d[j + 1]);
        }
        lemma_doc_set_absent(d.skip(1), key, v);
        assert(seq![d[0]] + d.skip(1).push((key, v)) =~= d.push((key, v)));
    }
}

/// Inserts member `key` into a document.
pub fn doc_insert(d: &mut Vec<(String, Bson)>, key: String, v: Bson)
    ensures
        doc_view(final(d)@) == doc_set(doc_view(old(d)@), key@, v.view()),
{
    let ghost d0 = doc_view(d@);
    let mut i: usize = 0;
    while i < d.len()
        invariant
            d0 == doc_view(d@),
            i <= d@.len(),
            forall|j: int| 0 <= j < i ==> #[trigger] d0[j].0 != key@,
        ensures
            i <= d@.len(),
            forall|j: int| 0 <= j < i ==> #[trigger] d0[j].0 != key@,
            i < d@.len() ==> d0[i as int].0 == key@,
        decreases d@.len() - i,
    {
        if str_eq(d[i].0.as_str(), key.as_str()) {
            break;
        }
        i = i + 1;
    }
    if i < d.len() {
        proof {
            lemma_doc_set_at(d0, key@, v.view(), i as int);
        }
        let ghost kv = key@;
        let ghost vv = v.view();
        d.set(i, (key, v));
        assert(doc_view(d@) =~= d0.update(i as int, (kv, vv)));
    } else {
        proof {
            lemma_doc_set_absent(d0, key@, v.view());
        }
        let ghost kv = key@;
        let ghost vv = v.view();
        d.push((key, v));
        assert(doc_view(d@) =~= d0.push((kv, vv)));
    }
}

/// Whether a character has a meaning of its own in a regular expression.
pub open spec fn is_regex_meta(c: char) -> bool {
    c == '\\' || c == '.' || c == '+' || c == '*' || c == '?' || c == '(' || c == ')' || c == '|'
        || c == '[' || c == ']' || c == '{' || c == '}' || c == '^' || c == '$' || c == '#'
        || c == '&' || c == '-' || c == '~'
}

/// The text with a backslash before each regular expression meta character.
pub open spec fn regex_escaped(s: Seq<char>) -> Seq<char>
    decreases s.len(),
{
    if s.len() == 0 {
        seq![]
    } else {
        regex_escaped(s.drop_last()) + if is_regex_meta(s.last()) { seq!['\\', s.last()] } else { seq![s.last()] }
    }
}

/// `regex::escape`: the text with a backslash before each meta character
/// (`\ . + * ? ( ) | [ ] { } ^ $ # & - ~`), so that it matches literally.
#[verifier::external_body]
fn regex_escape(s: &str) -> (r: String)
    ensures
        r@ == regex_escaped(s@),
{
    regex::escape(s)
}

/// Whether a character is a hexadecimal digit (either case).
pub open spec fn is_hex_digit(c: char) -> bool {
    ('0' <= c && c <= '9') || ('a' <= c && c <= 'f') || ('A' <= c && c <= 'F')
}

/// Whether a text is an object id: 24 hexadecimal digits.
pub open spec fn object_id_text(s: Seq<char>) -> bool {
    s.len() == 24 && forall|i: int| 0 <= i < 24 ==> is_hex_digit(#[trigger] s[i])
}

/// `bson::oid::ObjectId::parse_str`: it succeeds exactly on texts of 24
/// hexadecimal digits (twelve bytes in hexadecimal, digits in either case).
#[verifier::external_body]
fn is_object_id(s: &str) -> (r: bool)
    ensures
        r == object_id_text(s@),
{
    bson::oid::ObjectId::parse_str(s).is_ok()
}

/// The BSON form of a JSON value: integers that fit 64 signed bits as
/// `Int64`, other numbers as `Double`, object-id texts as `ObjectId`, arrays
/// item by item, objects member by member (a later member of the same name
/// replacing the earlier one's value).
pub open spec fn bson_of(v: Json) -> BsonV
    decreases v,
{
    match v {
        Json::Null => BsonV::Null,
        Json::Bool(b) => BsonV::Boolean(b),
        Json::Number(Num::PosInt(u)) => if u <= i64::MAX { BsonV::Int64(u as int) } else { BsonV::Double(Num::PosInt(u)) },
        Json::Number(Num::NegInt(i)) => BsonV::Int64(i),
        Json::Number(Num::Float(t)) => BsonV::Double(Num::Float(t)),
        Json::Str(s) => if object_id_text(s) { BsonV::ObjectId(s) } else { BsonV::Str(s) },
        Json::Arr(a) => BsonV::Array(bson_arr(a)),
        Json::Obj(m) => BsonV::Document(bson_doc(m)),
    }
}

/// The BSON forms of array items.
pub open spec fn bson_arr(a: Seq<Json>) -> Seq<BsonV>
    decreases a,
{
    Seq::new(a.len(), |i: int| if 0 <= i < a.len() { bson_of(a[i]) } else { BsonV::Null })
}

/// The document of an object's members, inserted in order.
pub open spec fn bson_doc(m: Seq<(Seq<char>, Json)>) -> Seq<(Seq<char>, BsonV)>
    decreases m,
{
    if m.len() == 0 {
        seq![]
    } else {
        doc_set(bson_doc(m.drop_last()), m.last().0, bson_of(m.last().1))
    }
}

/// Converts a JSON value to BSON.
pub fn json_to_bson(val: &JsonValue) -> (r: Bson)
    ensures
        r.view() == bson_of(val@),
    decreases val,
{
    match val {
        JsonValue::Null => Bson::Null,
        JsonValue::Bool(b) => Bson::Boolean(*b),
        JsonValue::Number(n) => match n {
            JsonNumber::PosInt(u) => {
                if *u <= 9223372036854775807u64 {
                    Bson::Int64(*u as i64)
                } else {
                    Bson::Double(n.copy())
                }
            },
            JsonNumber::NegInt(i) => Bson::Int64(*i),
            JsonNumber::Float(_) => Bson::Double(n.copy()),
        },
        JsonValue::String(s) => {
            if is_object_id(s.as_str()) {
                Bson::ObjectId(s.clone())
            } else {
                Bson::String(s.clone())
            }
        },
        JsonValue::Array(v) => {
            let ghost av = val@->Arr_0;
            let mut out: Vec<Bson> = Vec::new();
            let mut i: usize = 0;
            while i < v.len()
                invariant
                    av == val@->Arr_0,
                    av.len() == v@.len(),
                    forall|k: int| 0 <= k < v@.len() ==> #[trigger] av[k] == v@[k]@,
                    i <= v@.len(),
                    out@.len() == i,
                    forall|k: int| 0 <= k < i ==> #[trigger] out@[k].view() == bson_of(v@[k]@),
                    forall|k: int| 0 <= k < v@.len() ==> decreases_to!(*val => v@[k]),
                decreases v@.len() - i,
            {
                out.push(json_to_bson(&v[i]));
                i = i + 1;
            }
            proof {
                lemma_bson_array_view(&out);
                assert(Seq::new(out@.len(), |k: int| out@[k].view()) =~= bson_arr(av));
            }
            Bson::Array(out)
        },
        JsonValue::Object(m) => {
            let ghost mv = members_view(m@);
            assert(val@ == Json::Obj(mv)) by {
                assert(val@->Obj_0 =~= mv);
            }
            let mut doc: Vec<(String, Bson)> = Vec::new();
            let mut i: usize = 0;
            assert(mv.take(0) =~= Seq::<(Seq<char>, Json)>::empty());
            assert(doc_view(doc@) =~= Seq::<(Seq<char>, BsonV)>::empty());
            while i < m.len()
                invariant
                    mv == members_view(m@),
                    i <= m@.len(),
                    doc_view(doc@) == bson_doc(mv.take(i as int)),
                    forall|k: int| 0 <= k < m@.len() ==> decreases_to!(*val => m@[k].1),
                decreases m@.len() - i,
            {
                proof {
                    assert(mv.take(i as int + 1).drop_last() =~= mv.take(i as int));
                    assert(mv.take(i as int + 1).last() == (m@[i as int].0@, m@[i as int].1@));
                }
                let b = json_to_bson(&m[i].1);
                doc_insert(&mut doc, m[i].0.clone(), b);
                i = i + 1;
            }
            assert(mv.take(m@.len() as int) =~= mv);
            proof {
                lemma_document_view(&doc);
            }
            Bson::Document(doc)
        },
    }
}

/// What one operator does to the document being built: it adds members,
/// or it decides the whole result.
pub enum OpStep {
    Next(Seq<(Seq<char>, BsonV)>),
    Done(BsonV),
}

/// The text of a string operand; other operands read as the empty text.
pub open spec fn text_or_empty(v: Json) -> Seq<char> {
    match v {
        Json::Str(s) => s,
        _ => ""@,
    }
}

/// Whether an operand is `true` (anything else reads as false).
pub open spec fn is_true(v: Json) -> bool {
    v == Json::Bool(true)
}

/// The list `[null, ""]`.
pub open spec fn null_or_empty() -> BsonV {
    BsonV::Array(seq![BsonV::Null, BsonV::Str(""@)])
}

/// `$regex` set to `pattern`, and `$options: "i"` when case is ignored.
pub open spec fn regex_member(d: Seq<(Seq<char>, BsonV)>, pattern: Seq<char>, ignore_case: bool) -> OpStep {
    let d1 = doc_set(d, "$regex"@, BsonV::Str(pattern));
    if ignore_case { OpStep::Next(doc_set(d1, "$options"@, BsonV::Str("i"@))) } else { OpStep::Next(d1) }
}

/// One filter operator as MongoDB query operators.
pub open spec fn op_step(d: Seq<(Seq<char>, BsonV)>, op: Seq<char>, v: Json) -> OpStep {
    let t = regex_escaped(text_or_empty(v));
    if op == "_eq"@ {
        if v is Null { OpStep::Next(doc_set(d, "$eq"@, BsonV::Null)) } else { OpStep::Done(bson_of(v)) }
    } else if op == "_neq"@ {
        OpStep::Next(doc_set(d, "$ne"@, bson_of(v)))
    } else if op == "_lt"@ {
        OpStep::Next(doc_set(d, "$lt"@, bson_of(v)))
    } else if op == "_lte"@ {
        OpStep::Next(doc_set(d, "$lte"@, bson_of(v)))
    } else if op == "_gt"@ {
        OpStep::Next(doc_set(d, "$gt"@, bson_of(v)))
    } else if op == "_gte"@ {
        OpStep::Next(doc_set(d, "$gte"@, bson_of(v)))
    } else if op == "_in"@ {
        match v {
            Json::Arr(a) => OpStep::Next(doc_set(d, "$in"@, BsonV::Array(bson_arr(a)))),
            _ => OpStep::Next(d),
        }
    } else if op == "_nin"@ {
        match v {
            Json::Arr(a) => OpStep::Next(doc_set(d, "$nin"@, BsonV::Array(bson_arr(a)))),
            _ => OpStep::Next(d),
        }
    } else if op == "_null"@ {
        if is_true(v) { OpStep::Next(doc_set(d, "$eq"@, BsonV::Null)) } else { OpStep::Next(doc_set(d, "$ne"@, BsonV::Null)) }
    } else if op == "_nnull"@ {
        if is_true(v) { OpStep::Next(doc_set(d, "$ne"@, BsonV::Null)) } else { OpStep::Next(doc_set(d, "$eq"@, BsonV::Null)) }
    } else if op == "_contains"@ {
        regex_member(d, t, false)
    } else if op == "_icontains"@ {
        regex_member(d, t, true)
    } else if op == "_ncontains"@ {
        OpStep::Next(doc_set(d, "$not"@, BsonV::Document(seq![("$regex"@, BsonV::Str(t))])))
    } else if op == "_starts_with"@ {
        regex_member(d, "^"@ + t, false)
    } else if op == "_istarts_with"@ {
        regex_member(d, "^"@ + t, true)
    } else if op == "_ends_with"@ {
        regex_member(d, t + "$"@, false)
    } else if op == "_iends_with"@ {
        regex_member(d, t + "$"@, true)
    } else if op == "_between"@ {
        match v {
            Json::Arr(a) => if a.len() == 2 {
                OpStep::Next(doc_set(doc_set(d, "$gte"@, bson_of(a[0])), "$lte"@, bson_of(a[1])))
            } else {
                OpStep::Next(d)
            },
            _ => OpStep::Next(d),
        }
    } else if op == "_nbetween"@ {
        match v {
            Json::Arr(a) => if a.len() == 2 {
                OpStep::Done(BsonV::Document(seq![("$not"@, BsonV::Document(seq![("$gte"@, bson_of(a[0])), ("$lte"@, bson_of(a[1]))]))]))
            } else {
                OpStep::Next(d)
            },
            _ => OpStep::Next(d),
        }
    } else if op == "_empty"@ {
        if is_true(v) {
            OpStep::Done(BsonV::Document(seq![("$in"@, null_or_empty())]))
        } else {
            OpStep::Next(doc_set(d, "$nin"@, null_or_empty()))
        }
    } else if op == "_nempty"@ {
        if is_true(v) {
            OpStep::Next(doc_set(d, "$nin"@, null_or_empty()))
        } else {
            OpStep::Done(BsonV::Document(seq![("$in"@, null_or_empty())]))
        }
    } else if op == "_regex"@ {
        OpStep::Next(doc_set(d, "$regex"@, BsonV::Str(text_or_empty(v))))
    } else {
        OpStep::Next(d)
    }
}

/// The operators taken in order from document `d`: the first that decides
/// the result gives it, else the document built.
pub open spec fn ops_fold(ops: Seq<(Seq<char>, Json)>, d: Seq<(Seq<char>, BsonV)>) -> BsonV
    decreases ops.len(),
{
    if ops.len() == 0 {
        BsonV::Document(d)
    } else {
        match op_step(d, ops[0].0, ops[0].1) {
            OpStep::Done(b) => b,
            OpStep::Next(d2) => ops_fold(ops.skip(1), d2),
        }
    }
}

/// The MongoDB condition of one field's operators: a lone `_eq` matches its
/// value directly; otherwise the operators in order.
pub open spec fn ops_bson(ops: Seq<(Seq<char>, Json)>) -> BsonV {
    if ops.len() == 1 && obj_get(ops, "_eq"@) is Some {
        bson_of(obj_get(ops, "_eq"@)->Some_0)
    } else {
        ops_fold(ops, seq![])
    }
}

/// A string operand's text, or the empty text.
fn operand_text(v: &JsonValue) -> (r: &str)
    ensures
        r@ == text_or_empty(v@),
{
    proof {
        reveal_strlit("");
    }
    match v {
        JsonValue::String(s) => s.as_str(),
        _ => "",
    }
}

/// Sets `$regex` (and `$options: "i"` when case is ignored).
fn insert_regex(d: &mut Vec<(String, Bson)>, pattern: String, ignore_case: bool)
    ensures
        regex_member(doc_view(old(d)@), pattern@, ignore_case) == OpStep::Next(doc_view(final(d)@)),
{
    doc_insert(d, String::from_str("$regex"), Bson::String(pattern));
    if ignore_case {
        doc_insert(d, String::from_str("$options"), Bson::String(String::from_str("i")));
    }
}

/// The list `[null, ""]`.
fn null_or_empty_exec() -> (r: Bson)
    ensures
        r.view() == null_or_empty(),
{
    let v = vec![Bson::Null, Bson::String(String::from_str(""))];
    proof {
        lemma_bson_array_view(&v);
        assert(Seq::new(v@.len(), |i: int| v@[i].view()) =~= seq![BsonV::Null, BsonV::Str(""@)]);
    }
    Bson::Array(v)
}

/// The BSON forms of a list of values.
fn bson_list(a: &Vec<JsonValue>) -> (r: Bson)
    ensures
        r.view() == BsonV::Array(bson_arr(Seq::new(a@.len(), |i: int| a@[i]@))),
{
    let mut out: Vec<Bson> = Vec::new();
    let mut i: usize = 0;
    while i < a.len()
        invariant
            i <= a@.len(),
            out@.len() == i,
            forall|k: int| 0 <= k < i ==> #[trigger] out@[k].view() == bson_of(a@[k]@),
        decreases a@.len() - i,
    {
        out.push(json_to_bson(&a[i]));
        i = i + 1;
    }
    proof {
        lemma_bson_array_view(&out);
        assert(Seq::new(out@.len(), |k: int| out@[k].view()) =~= bson_arr(Seq::new(a@.len(), |i: int| a@[i]@)));
    }
    Bson::Array(out)
}

/// The items of an array value.
proof fn lemma_arr_items(v: &JsonValue, a: &Vec<JsonValue>)
    requires
        *v == JsonValue::Array(*a),
    ensures
        v@ == Json::Arr(Seq::new(a@.len(), |i: int| a@[i]@)),
{
    assert(v@->Arr_0 =~= Seq::new(a@.len(), |i: int| a@[i]@));
}

/// Converts one field's filter operators to a MongoDB condition.
pub fn ops_to_bson(ops: &Vec<(String, JsonValue)>) -> (r: Result<Bson, NoSqlError>)
    ensures
        r is Ok,
        r->Ok_0.view() == ops_bson(members_view(ops@)),
{
    let ghost ov = members_view(ops@);
    if ops.len() == 1 {
        match member_get(ops, "_eq") {
            Some(v) => {
                return Ok(json_to_bson(v));
            },
            None => {},
        }
    }
    let mut doc: Vec<(String, Bson)> = Vec::new();
    let mut i: usize = 0;
    assert(ov.skip(0) =~= ov);
    assert(doc_view(doc@) =~= Seq::<(Seq<char>, BsonV)>::empty());
    while i < ops.len()
        invariant
            ov == members_view(ops@),
            i <= ops@.len(),
            ops_bson(ov) == ops_fold(ov.skip(i as int), doc_view(doc@)),
        decreases ops@.len() - i,
    {
        let ghost d0 = doc_view(doc@);
        let ghost rest = ov.skip(i as int);
        proof {
            assert(rest[0] == (ops@[i as int].0@, ops@[i as int].1@));
            assert(rest.skip(1) =~= ov.skip(i as int + 1));
        }
        let op = ops[i].0.as_str();
        let v = &ops[i].1;
        let t = regex_escape(operand_text(v));
        let flag = match v {
            JsonValue::Bool(b) => *b,
            _ => false,
        };
        assert(flag == is_true(v@));
        if str_eq(op, "_eq") {
            if v.is_null() {
                doc_insert(&mut doc, String::from_str("$eq"), Bson::Null);
            } else {
                return Ok(json_to_bson(v));
            }
        } else if str_eq(op, "_neq") {
            doc_insert(&mut doc, String::from_str("$ne"), json_to_bson(v));
        } else if str_eq(op, "_lt") {
            doc_insert(&mut doc, String::from_str("$lt"), json_to_bson(v));
        } else if str_eq(op, "_lte") {
            doc_insert(&mut doc, String::from_str("$lte"), json_to_bson(v));
        } else if str_eq(op, "_gt") {
            doc_insert(&mut doc, String::from_str("$gt"), json_to_bson(v));
        } else if str_eq(op, "_gte") {
            doc_insert(&mut doc, String::from_str("$gte"), json_to_bson(v));
        } else if str_eq(op, "_in") || str_eq(op, "_nin") {
            match v {
                JsonValue::Array(a) => {
                    proof {
                        lemma_arr_items(v, a);
                    }
                    let key = if str_eq(op, "_in") { String::from_str("$in") } else { String::from_str("$nin") };
                    doc_insert(&mut doc, key, bson_list(a));
                },
                _ => {},
            }
        } else if str_eq(op, "_null") {
            if flag {
                doc_insert(&mut doc, String::from_str("$eq"), Bson::Null);
            } else {
                doc_insert(&mut doc, String::from_str("$ne"), Bson::Null);
            }
        } else if str_eq(op, "_nnull") {
            if flag {
                doc_insert(&mut doc, String::from_str("$ne"), Bson::Null);
            } else {
                doc_insert(&mut doc, String::from_str("$eq"), Bson::Null);
            }
        } else if str_eq(op, "_contains") {
            insert_regex(&mut doc, t, false);
        } else if str_eq(op, "_icontains") {
            insert_regex(&mut doc, t, true);
        } else if str_eq(op, "_ncontains") {
            let mut inner: Vec<(String, Bson)> = Vec::new();
            let ghost tv = t@;
            inner.push((String::from_str("$regex"), Bson::String(t)));
            proof {
                lemma_document_view(&inner);
                assert(doc_view(inner@) =~= seq![("$regex"@, BsonV::Str(tv))]);
            }
            doc_insert(&mut doc, String::from_str("$not"), Bson::Document(inner));
        } else if str_eq(op, "_starts_with") {
            let mut p = String::from_str("^");
            p.append(t.as_str());
            insert_regex(&mut doc, p, false);
        } else if str_eq(op, "_istarts_with") {
            let mut p = String::from_str("^");
            p.append(t.as_str());
            insert_regex(&mut doc, p, true);
        } else if str_eq(op, "_ends_with") {
            let mut p = t;
            p.append("$");
            insert_regex(&mut doc, p, false);
        } else if str_eq(op, "_iends_with") {
            let mut p = t;
            p.append("$");
            insert_regex(&mut doc, p, true);
        } else if str_eq(op, "_between") || str_eq(op, "_nbetween") {
            match v {
                JsonValue::Array(a) => {
                    proof {
                        lemma_arr_items(v, a);
                    }
                    if a.len() == 2 {
                        let lo = json_to_bson(&a[0]);
                        let hi = json_to_bson(&a[1]);
                        if str_eq(op, "_between") {
                            doc_insert(&mut doc, String::from_str("$gte"), lo);
                            doc_insert(&mut doc, String::from_str("$lte"), hi);
                        } else {
                            let ghost lv = lo.view();
                            let ghost hv = hi.view();
                            let inner = vec![(String::from_str("$gte"), lo), (String::from_str("$lte"), hi)];
                            proof {
                                lemma_document_view(&inner);
                                assert(doc_view(inner@) =~= seq![("$gte"@, lv), ("$lte"@, hv)]);
                            }
                            let outer = vec![(String::from_str("$not"), Bson::Document(inner))];
                            proof {
                                lemma_document_view(&outer);
                                assert(doc_view(outer@) =~= seq![("$not"@, BsonV::Document(doc_view(inner@)))]);
                            }
                            return Ok(Bson::Document(outer));
                        }
                    }
                },
                _ => {},
            }
        } else if str_eq(op, "_empty") || str_eq(op, "_nempty") {
            let whole = if str_eq(op, "_empty") { flag } else { !flag };
            if whole {
                let outer = vec![(String::from_str("$in"), null_or_empty_exec())];
                proof {
                    lemma_document_view(&outer);
                    assert(doc_view(outer@) =~= seq![("$in"@, null_or_empty())]);
                }
                return Ok(Bson::Document(outer));
            } else {
                doc_insert(&mut doc, String::from_str("$nin"), null_or_empty_exec());
            }
        } else if str_eq(op, "_regex") {
            doc_insert(&mut doc, String::from_str("$regex"), Bson::String(String::from_str(operand_text(v))));
        }
        proof {
            assert(op_step(d0, ops@[i as int].0@, ops@[i as int].1@) == OpStep::Next(doc_view(doc@)));
            assert(ops_fold(rest, d0) == ops_fold(rest.skip(1), doc_view(doc@)));
        }
        i = i + 1;
    }
    assert(ov.skip(ops@.len() as int) =~= Seq::<(Seq<char>, Json)>::empty());
    proof {
        lemma_document_view(&doc);
    }
    Ok(Bson::Document(doc))
}

/// The filter document of a filter: `$and` / `$or` of the parts' documents
/// (an empty document for an empty group), or, for a field map, each field
/// whose operators form an object with its condition.
pub open spec fn filter_doc(f: FilterSpec) -> Seq<(Seq<char>, BsonV)>
    decreases f,
{
    match f {
        FilterSpec::And(fs) => if fs.len() == 0 { seq![] } else { seq![("$and"@, BsonV::Array(filter_docs(fs)))] },
        FilterSpec::Or(fs) => if fs.len() == 0 { seq![] } else { seq![("$or"@, BsonV::Array(filter_docs(fs)))] },
        FilterSpec::Field(fm) => field_doc(fm),
    }
}

/// The documents of a list of filters.
pub open spec fn filter_docs(fs: Seq<FilterSpec>) -> Seq<BsonV>
    decreases fs,
{
    Seq::new(fs.len(), |i: int| if 0 <= i < fs.len() { BsonV::Document(filter_doc(fs[i])) } else { BsonV::Null })
}

/// The conditions of a field map, inserted in order.
pub open spec fn field_doc(fm: Seq<(Seq<char>, Json)>) -> Seq<(Seq<char>, BsonV)>
    decreases fm.len(),
{
    if fm.len() == 0 {
        seq![]
    } else {
        let d = field_doc(fm.drop_last());
        match fm.last().1 {
            Json::Obj(ops) => doc_set(d, fm.last().0, ops_bson(ops)),
            _ => d,
        }
    }
}

/// Converts an item filter to a MongoDB filter document.
pub fn filter_to_bson(filter: &Filter) -> (r: Result<Vec<(String, Bson)>, NoSqlError>)
    ensures
        r is Ok,
        doc_view(r->Ok_0@) == filter_doc(filter.view()),
    decreases filter,
{
    match filter {
        Filter::And(parts) | Filter::Or(parts) => {
            let ghost fs = match filter.view() {
                FilterSpec::And(x) => x,
                FilterSpec::Or(x) => x,
                _ => Seq::empty(),
            };
            assert(fs.len() == parts@.len());
            let mut conds: Vec<Bson> = Vec::new();
            let mut i: usize = 0;
            while i < parts.len()
                invariant
                    fs.len() == parts@.len(),
                    forall|k: int| 0 <= k < parts@.len() ==> #[trigger] fs[k] == parts@[k].view(),
                    i <= parts@.len(),
                    conds@.len() == i,
                    forall|k: int| 0 <= k < i ==> #[trigger] conds@[k].view() == BsonV::Document(filter_doc(parts@[k].view())),
                    forall|k: int| 0 <= k < parts@.len() ==> decreases_to!(*filter => parts@[k]),
                decreases parts@.len() - i,
            {
                let d = match filter_to_bson(&parts[i]) {
                    Ok(d) => d,
                    Err(e) => return Err(e),
                };
                proof {
                    lemma_document_view(&d);
                }
                conds.push(Bson::Document(d));
                i = i + 1;
            }
            if conds.len() == 0 {
                let d: Vec<(String, Bson)> = Vec::new();
                assert(doc_view(d@) =~= Seq::<(Seq<char>, BsonV)>::empty());
                return Ok(d);
            }
            proof {
                lemma_bson_array_view(&conds);
                assert(Seq::new(conds@.len(), |k: int| conds@[k].view()) =~= filter_docs(fs));
            }
            let key = match filter {
                Filter::And(_) => String::from_str("$and"),
                _ => String::from_str("$or"),
            };
            let ghost kv = key@;
            let ghost cv = Bson::Array(conds).view();
            let d = vec![(key, Bson::Array(conds))];
            assert(doc_view(d@) =~= seq![(kv, cv)]);
            Ok(d)
        },
        Filter::Field(fm) => {
            let ghost mv = members_view(fm@);
            assert(filter.view() == FilterSpec::Field(mv)) by {
                assert(filter.view()->Field_0 =~= mv);
            }
            let mut doc: Vec<(String, Bson)> = Vec::new();
            let mut i: usize = 0;
            assert(mv.take(0) =~= Seq::<(Seq<char>, Json)>::empty());
            assert(doc_view(doc@) =~= Seq::<(Seq<char>, BsonV)>::empty());
            while i < fm.len()
                invariant
                    mv == members_view(fm@),
                    i <= fm@.len(),
                    doc_view(doc@) == field_doc(mv.take(i as int)),
                decreases fm@.len() - i,
            {
                proof {
                    assert(mv.take(i as int + 1).drop_last() =~= mv.take(i as int));
                    assert(mv.take(i as int + 1).last() == (fm@[i as int].0@, fm@[i as int].1@));
                }
                match &fm[i].1 {
                    JsonValue::Object(ops) => {
                        proof {
                            assert(fm@[i as int].1@ == Json::Obj(members_view(ops@))) by {
                                assert(fm@[i as int].1@->Obj_0 =~= members_view(ops@));
                            }
                        }
                        let c = match ops_to_bson(ops) {
                            Ok(c) => c,
                            Err(e) => return Err(e),
                        };
                        doc_insert(&mut doc, fm[i].0.clone(), c);
                    },
                    _ => {},
                }
                i = i + 1;
            }
            assert(mv.take(fm@.len() as int) =~= mv);
            Ok(doc)
        },
    }
}

/// How a read is paged and sorted: the limit, the number of items to skip,
/// and the sort document.
pub struct FindPlan {
    pub limit: Option<i64>,
    pub skip: Option<u64>,
    pub sort: Option<Vec<(String, Bson)>>,
}

/// The sort document of a list of sort fields: each field (a leading `-`
/// removed) with -1 when it had one, else 1, inserted in order.
pub open spec fn sort_doc(s: Seq<Seq<char>>) -> Seq<(Seq<char>, BsonV)>
    decreases s.len(),
{
    if s.len() == 0 {
        seq![]
    } else {
        let f = s.last();
        let d = sort_doc(s.drop_last());
        if f.len() > 0 && f[0] == '-' { doc_set(d, f.skip(1), BsonV::Int32(-1)) } else { doc_set(d, f, BsonV::Int32(1)) }
    }
}

/// The paging and sort of a read: the query's limit, its offset as the number
/// to skip (a negative offset wraps as an unsigned 64-bit number does), and
/// its sort fields as a sort document.
pub fn find_plan(q: &Query) -> (r: FindPlan)
    ensures
        r.limit == q.limit,
        r.skip == (match q.offset {
            Some(o) => Some(o as u64),
            None => None,
        }),
        match (q.sort, r.sort) {
            (Some(s), Some(d)) => doc_view(d@) == sort_doc(views(s@)),
            (None, None) => true,
            _ => false,
        },
{
    let skip = match q.offset {
        Some(o) => Some(o as u64),
        None => None,
    };
    let sort = match &q.sort {
        Some(fields) => {
            let ghost sv = views(fields@);
            let mut d: Vec<(String, Bson)> = Vec::new();
            let mut i: usize = 0;
            assert(sv.take(0) =~= Seq::<Seq<char>>::empty());
            assert(doc_view(d@) =~= Seq::<(Seq<char>, BsonV)>::empty());
            while i < fields.len()
                invariant
                    sv == views(fields@),
                    i <= fields@.len(),
                    doc_view(d@) == sort_doc(sv.take(i as int)),
                decreases fields@.len() - i,
            {
                proof {
                    assert(sv.take(i as int + 1).drop_last() =~= sv.take(i as int));
                    assert(sv.take(i as int + 1).last() == fields@[i as int]@);
                }
                let cs = chars_of(fields[i].as_str());
                if cs.len() > 0 && cs[0] == '-' {
                    let name = string_of(sub_chars(&cs, 1, cs.len()).as_slice());
                    assert(name@ =~= fields@[i as int]@.skip(1));
                    doc_insert(&mut d, name, Bson::Int32(-1));
                } else {
                    doc_insert(&mut d, fields[i].clone(), Bson::Int32(1));
                }
                i = i + 1;
            }
            assert(sv.take(fields@.len() as int) =~= sv);
            Some(d)
        },
        None => None,
    };
    FindPlan { limit: q.limit, skip, sort }
}

/// The filter on `_id` that finds an item by its key: the key's text (empty
/// when the key is not a string), as an object id when it is one.
pub open spec fn id_doc(key: Json) -> Seq<(Seq<char>, BsonV)> {
    let t = text_or_empty(key);
    seq![("_id"@, if object_id_text(t) { BsonV::ObjectId(t) } else { BsonV::Str(t) })]
}

/// The filter that finds the item with primary key `key`.
pub fn id_filter(key: &JsonValue) -> (r: Vec<(String, Bson)>)
    ensures
        doc_view(r@) == id_doc(key@),
{
    let t = operand_text(key);
    let v = if is_object_id(t) { Bson::ObjectId(String::from_str(t)) } else { Bson::String(String::from_str(t)) };
    let ghost vv = v.view();
    let r = vec![(String::from_str("_id"), v)];
    assert(doc_view(r@) =~= seq![("_id"@, vv)]);
    r
}

/// The schema of a document database: one collection per name, keyed by
/// `_id`, with no known fields, and no relations.
pub open spec fn document_schema(names: Seq<Seq<char>>) -> SchemaSpec {
    SchemaSpec {
        collections: Seq::new(names.len(), |i: int| CollSpec { collection: names[i], primary: "_id"@, fields: seq![] }),
        relations: seq![],
    }
}

/// The schema of a document database with the given collections.
pub fn schema_of_collections(names: &Vec<String>) -> (r: SchemaOverview)
    ensures
        r.view() == document_schema(views(names@)),
{
    let mut cols: Vec<CollectionOverview> = Vec::new();
    let mut i: usize = 0;
    while i < names.len()
        invariant
            i <= names@.len(),
            cols@.len() == i,
            forall|k: int| 0 <= k < i ==> (#[trigger] cols@[k]).view() == (CollSpec { collection: names@[k]@, primary: "_id"@, fields: seq![] }),
        decreases names@.len() - i,
    {
        let c = CollectionOverview { collection: names[i].clone(), primary: String::from_str("_id"), fields: Vec::new() };
        assert(c.view().fields =~= Seq::<(Seq<char>, bool)>::empty());
        cols.push(c);
        i = i + 1;
    }
    let r = SchemaOverview { collections: cols, relations: Vec::new() };
    assert(r.view().collections =~= document_schema(views(names@)).collections);
    assert(r.view().relations =~= document_schema(views(names@)).relations);
    r
}

/// The filter operators the document translation recognizes.
pub open spec fn known_operator(k: Seq<char>) -> bool {
    k == "_eq"@ || k == "_neq"@ || k == "_lt"@ || k == "_lte"@ || k == "_gt"@ || k == "_gte"@
        || k == "_in"@ || k == "_nin"@ || k == "_null"@ || k == "_nnull"@ || k == "_contains"@
        || k == "_icontains"@ || k == "_ncontains"@ || k == "_starts_with"@ || k == "_istarts_with"@
        || k == "_ends_with"@ || k == "_iends_with"@ || k == "_between"@ || k == "_nbetween"@
        || k == "_empty"@ || k == "_nempty"@ || k == "_regex"@
}

proof fn lemma_unknown_step(d: Seq<(Seq<char>, BsonV)>, k: Seq<char>, v: Json)
    requires
        !known_operator(k),
    ensures
        op_step(d, k, v) == OpStep::Next(d),
{
}

proof fn lemma_fold_skips_unknown(ops: Seq<(Seq<char>, Json)>, i: int, k: Seq<char>, v: Json, d: Seq<(Seq<char>, BsonV)>)
    requires
        0 <= i <= ops.len(),
        !known_operator(k),
    ensures
        ops_fold(ops.insert(i, (k, v)), d) == ops_fold(ops, d),
    decreases i,
{
    let n = ops.insert(i, (k, v));
    if i == 0 {
        lemma_unknown_step(d, k, v);
        assert(n.skip(1) =~= ops);
    } else {
        assert(n[0] == ops[0]);
        assert(n.skip(1) =~= ops.skip(1).insert(i - 1, (k, v)));
        match op_step(d, ops[0].0, ops[0].1) {
            OpStep::Done(b) => {},
            OpStep::Next(d2) => {
                lemma_fold_skips_unknown(ops.skip(1), i - 1, k, v, d2);
            },
        }
    }
}

/// An operator the translation does not recognize changes nothing: adding
/// it anywhere among a field's operators gives the same condition, except
/// next to a lone `_eq: null`, which alone matches null directly and among
/// other operators becomes `{$eq: null}`.
pub proof fn lemma_unknown_operator_ignored(ops: Seq<(Seq<char>, Json)>, i: int, k: Seq<char>, v: Json)
    requires
        0 <= i <= ops.len(),
        !known_operator(k),
        !(ops.len() == 1 && ops[0].0 == "_eq"@ && ops[0].1 is Null),
    ensures
        ops_bson(ops.insert(i, (k, v))) == ops_bson(ops),
{
    let n = ops.insert(i, (k, v));
    lemma_fold_skips_unknown(ops, i, k, v, seq![]);
    if n.len() == 1 {
        assert(n[0] == (k, v));
        assert(n.skip(1) =~= Seq::<(Seq<char>, Json)>::empty());
        assert(obj_get(n.skip(1), "_eq"@) is None);
        assert(obj_get(n, "_eq"@) is None);
    }
    if ops.len() == 1 {
        assert(ops.skip(1) =~= Seq::<(Seq<char>, Json)>::empty());
        assert(obj_get(ops.skip(1), "_eq"@) is None);
        if obj_get(ops, "_eq"@) is Some {
            assert(ops[0].0 == "_eq"@);
        }
    }
}

proof fn lemma_between_name()
    ensures
        "_between"@ != "_eq"@, "_between"@ != "_neq"@, "_between"@ != "_lt"@, "_between"@ != "_lte"@, "_between"@ != "_gt"@, "_between"@ != "_gte"@, "_between"@ != "_in"@, "_between"@ != "_nin"@, "_between"@ != "_null"@, "_between"@ != "_nnull"@, "_between"@ != "_contains"@, "_between"@ != "_icontains"@, "_between"@ != "_ncontains"@, "_between"@ != "_starts_with"@, "_between"@ != "_istarts_with"@, "_between"@ != "_ends_with"@, "_between"@ != "_iends_with"@,
{
    reveal_strlit("_eq");
    reveal_strlit("_neq");
    reveal_strlit("_lt");
    reveal_strlit("_lte");
    reveal_strlit("_gt");
    reveal_strlit("_gte");
    reveal_strlit("_in");
    reveal_strlit("_nin");
    reveal_strlit("_null");
    reveal_strlit("_nnull");
    reveal_strlit("_contains");
    reveal_strlit("_icontains");
    reveal_strlit("_ncontains");
    reveal_strlit("_starts_with");
    reveal_strlit("_istarts_with");
    reveal_strlit("_ends_with");
    reveal_strlit("_iends_with");
    reveal_strlit("_between");
    assert("_between"@[1] != "_eq"@[1]);
    assert("_between"@[1] != "_neq"@[1]);
    assert("_between"@[1] != "_lt"@[1]);
    assert("_between"@[1] != "_lte"@[1]);
    assert("_between"@[1] != "_gt"@[1]);
    assert("_between"@[1] != "_gte"@[1]);
    assert("_between"@[1] != "_in"@[1]);
    assert("_between"@[1] != "_nin"@[1]);
    assert("_between"@[1] != "_null"@[1]);
    assert("_between"@[1] != "_nnull"@[1]);
    assert("_between"@[1] != "_contains"@[1]);
    assert("_between"@[1] != "_icontains"@[1]);
    assert("_between"@[1] != "_ncontains"@[1]);
    assert("_between"@[1] != "_starts_with"@[1]);
    assert("_between"@[1] != "_istarts_with"@[1]);
    assert("_between"@[1] != "_ends_with"@[1]);
    assert("_between"@[1] != "_iends_with"@[1]);
}

/// Each comparison operator alone is the MongoDB operator of the same
/// meaning applied to its operand: `_neq` is `$ne`, `_lt` is `$lt`, `_lte`
/// is `$lte`, `_gt` is `$gt`, `_gte` is `$gte`; a lone `_eq` matches its
/// operand directly.
pub proof fn lemma_comparison_conditions(v: Json)
    ensures
        ops_bson(seq![("_eq"@, v)]) == bson_of(v),
        ops_bson(seq![("_neq"@, v)]) == BsonV::Document(seq![("$ne"@, bson_of(v))]),
        ops_bson(seq![("_lt"@, v)]) == BsonV::Document(seq![("$lt"@, bson_of(v))]),
        ops_bson(seq![("_lte"@, v)]) == BsonV::Document(seq![("$lte"@, bson_of(v))]),
        ops_bson(seq![("_gt"@, v)]) == BsonV::Document(seq![("$gt"@, bson_of(v))]),
        ops_bson(seq![("_gte"@, v)]) == BsonV::Document(seq![("$gte"@, bson_of(v))]),
{
    crate::database::sql::lemma_operator_names();
    let e: Seq<(Seq<char>, BsonV)> = seq![];
    assert(obj_get(seq![("_eq"@, v)], "_eq"@) == Some(v));
    lemma_single_condition("_neq"@, v, "$ne"@);
    lemma_single_condition("_lt"@, v, "$lt"@);
    lemma_single_condition("_lte"@, v, "$lte"@);
    lemma_single_condition("_gt"@, v, "$gt"@);
    lemma_single_condition("_gte"@, v, "$gte"@);
}

proof fn lemma_single_condition(op: Seq<char>, v: Json, key: Seq<char>)
    requires
        op != "_eq"@,
        op_step(seq![], op, v) == OpStep::Next(seq![(key, bson_of(v))]),
    ensures
        ops_bson(seq![(op, v)]) == BsonV::Document(seq![(key, bson_of(v))]),
{
    lemma_single_step(op, v, seq![(key, bson_of(v))]);
}

proof fn lemma_single_step(op: Seq<char>, v: Json, d: Seq<(Seq<char>, BsonV)>)
    requires
        op != "_eq"@,
        op_step(seq![], op, v) == OpStep::Next(d),
    ensures
        ops_bson(seq![(op, v)]) == BsonV::Document(d),
{
    let ops = seq![(op, v)];
    assert(ops.skip(1) =~= Seq::<(Seq<char>, Json)>::empty());
    assert(obj_get(ops.skip(1), "_eq"@) is None);
    assert(obj_get(ops, "_eq"@) is None);
    assert(ops[0] == (op, v));
    assert(ops_fold(ops.skip(1), d) == BsonV::Document(d));
    assert(ops_fold(ops, seq![]) == ops_fold(ops.skip(1), d));
}

/// A range: `_gte a` with `_lte b` is `{$gte: a, $lte: b}`, `_gt a` with
/// `_lt b` is `{$gt: a, $lt: b}`, and `_between [a, b]` is the inclusive
/// range `{$gte: a, $lte: b}`.
pub proof fn lemma_range_conditions(a: Json, b: Json)
    ensures
        ops_bson(seq![("_gte"@, a), ("_lte"@, b)]) == BsonV::Document(seq![("$gte"@, bson_of(a)), ("$lte"@, bson_of(b))]),
        ops_bson(seq![("_gt"@, a), ("_lt"@, b)]) == BsonV::Document(seq![("$gt"@, bson_of(a)), ("$lt"@, bson_of(b))]),
        ops_bson(seq![("_between"@, Json::Arr(seq![a, b]))]) == BsonV::Document(seq![("$gte"@, bson_of(a)), ("$lte"@, bson_of(b))]),
{
    crate::database::sql::lemma_operator_names();
    lemma_between_name();
    reveal_strlit("$gte");
    reveal_strlit("$lte");
    reveal_strlit("$gt");
    reveal_strlit("$lt");
    assert("$gte"@[1] != "$lte"@[1]);
    assert("$gt"@[1] != "$lt"@[1]);
    let e: Seq<(Seq<char>, BsonV)> = seq![];
    let d1 = seq![("$gte"@, bson_of(a))];
    assert(doc_set(e, "$gte"@, bson_of(a)) == d1);
    assert(d1.skip(1) =~= e);
    assert(d1[0].0 != "$lte"@);
    assert(doc_set(d1.skip(1), "$lte"@, bson_of(b)) == seq![("$lte"@, bson_of(b))]);
    assert(doc_set(d1, "$lte"@, bson_of(b)) =~= seq![("$gte"@, bson_of(a)), ("$lte"@, bson_of(b))]);
    let ops1 = seq![("_gte"@, a), ("_lte"@, b)];
    assert(ops1.skip(1) =~= seq![("_lte"@, b)]);
    assert(ops1.skip(1).skip(1) =~= Seq::<(Seq<char>, Json)>::empty());
    let d1b = seq![("$gte"@, bson_of(a)), ("$lte"@, bson_of(b))];
    assert(ops1[0] == ("_gte"@, a));
    assert(op_step(e, "_gte"@, a) == OpStep::Next(d1));
    assert(ops1.skip(1)[0] == ("_lte"@, b));
    assert(op_step(d1, "_lte"@, b) == OpStep::Next(d1b));
    assert(ops_fold(ops1.skip(1).skip(1), d1b) == BsonV::Document(d1b));
    assert(ops_fold(ops1.skip(1), d1) == BsonV::Document(d1b));
    assert(ops_fold(ops1, e) == BsonV::Document(d1b));
    let d2 = seq![("$gt"@, bson_of(a))];
    assert(doc_set(e, "$gt"@, bson_of(a)) == d2);
    assert(d2.skip(1) =~= e);
    assert(d2[0].0 != "$lt"@);
    assert(doc_set(d2.skip(1), "$lt"@, bson_of(b)) == seq![("$lt"@, bson_of(b))]);
    assert(doc_set(d2, "$lt"@, bson_of(b)) =~= seq![("$gt"@, bson_of(a)), ("$lt"@, bson_of(b))]);
    let ops2 = seq![("_gt"@, a), ("_lt"@, b)];
    assert(ops2.skip(1) =~= seq![("_lt"@, b)]);
    assert(ops2.skip(1).skip(1) =~= Seq::<(Seq<char>, Json)>::empty());
    let d2b = seq![("$gt"@, bson_of(a)), ("$lt"@, bson_of(b))];
    assert(ops2[0] == ("_gt"@, a));
    assert(op_step(e, "_gt"@, a) == OpStep::Next(d2));
    assert(ops2.skip(1)[0] == ("_lt"@, b));
    assert(op_step(d2, "_lt"@, b) == OpStep::Next(d2b));
    assert(ops_fold(ops2.skip(1).skip(1), d2b) == BsonV::Document(d2b));
    assert(ops_fold(ops2.skip(1), d2) == BsonV::Document(d2b));
    assert(ops_fold(ops2, e) == BsonV::Document(d2b));
    let arr = seq![a, b];
    assert(arr[0] == a && arr[1] == b);
    let ops3 = seq![("_between"@, Json::Arr(arr))];
    assert(ops3.skip(1) =~= Seq::<(Seq<char>, Json)>::empty());
    assert(obj_get(ops3.skip(1), "_eq"@) is None);
    assert(obj_get(ops3, "_eq"@) is None);
}

proof fn lemma_more_operator_names()
    ensures
        "_in"@ != "_eq"@,
        "_in"@ != "_neq"@,
        "_in"@ != "_lt"@,
        "_in"@ != "_lte"@,
        "_in"@ != "_gt"@,
        "_in"@ != "_gte"@,
        "_nin"@ != "_eq"@,
        "_nin"@ != "_neq"@,
        "_nin"@ != "_lt"@,
        "_nin"@ != "_lte"@,
        "_nin"@ != "_gt"@,
        "_nin"@ != "_gte"@,
        "_nin"@ != "_in"@,
        "_null"@ != "_eq"@,
        "_null"@ != "_neq"@,
        "_null"@ != "_lt"@,
        "_null"@ != "_lte"@,
        "_null"@ != "_gt"@,
        "_null"@ != "_gte"@,
        "_null"@ != "_in"@,
        "_null"@ != "_nin"@,
        "_nnull"@ != "_eq"@,
        "_nnull"@ != "_neq"@,
        "_nnull"@ != "_lt"@,
        "_nnull"@ != "_lte"@,
        "_nnull"@ != "_gt"@,
        "_nnull"@ != "_gte"@,
        "_nnull"@ != "_in"@,
        "_nnull"@ != "_nin"@,
        "_nnull"@ != "_null"@,
        "_contains"@ != "_eq"@,
        "_contains"@ != "_neq"@,
        "_contains"@ != "_lt"@,
        "_contains"@ != "_lte"@,
        "_contains"@ != "_gt"@,
        "_contains"@ != "_gte"@,
        "_contains"@ != "_in"@,
        "_contains"@ != "_nin"@,
        "_contains"@ != "_null"@,
        "_contains"@ != "_nnull"@,
        "_icontains"@ != "_eq"@,
        "_icontains"@ != "_neq"@,
        "_icontains"@ != "_lt"@,
        "_icontains"@ != "_lte"@,
        "_icontains"@ != "_gt"@,
        "_icontains"@ != "_gte"@,
        "_icontains"@ != "_in"@,
        "_icontains"@ != "_nin"@,
        "_icontains"@ != "_null"@,
        "_icontains"@ != "_nnull"@,
        "_icontains"@ != "_contains"@,
        "_starts_with"@ != "_eq"@,
        "_starts_with"@ != "_neq"@,
        "_starts_with"@ != "_lt"@,
        "_starts_with"@ != "_lte"@,
        "_starts_with"@ != "_gt"@,
        "_starts_with"@ != "_gte"@,
        "_starts_with"@ != "_in"@,
        "_starts_with"@ != "_nin"@,
        "_starts_with"@ != "_null"@,
        "_starts_with"@ != "_nnull"@,
        "_starts_with"@ != "_contains"@,
        "_starts_with"@ != "_icontains"@,
        "_starts_with"@ != "_ncontains"@,
        "_ends_with"@ != "_eq"@,
        "_ends_with"@ != "_neq"@,
        "_ends_with"@ != "_lt"@,
        "_ends_with"@ != "_lte"@,
        "_ends_with"@ != "_gt"@,
        "_ends_with"@ != "_gte"@,
        "_ends_with"@ != "_in"@,
        "_ends_with"@ != "_nin"@,
        "_ends_with"@ != "_null"@,
        "_ends_with"@ != "_nnull"@,
        "_ends_with"@ != "_contains"@,
        "_ends_with"@ != "_icontains"@,
        "_ends_with"@ != "_ncontains"@,
        "_ends_with"@ != "_starts_with"@,
        "_ends_with"@ != "_istarts_with"@,
{
    reveal_strlit("_contains");
    reveal_strlit("_ends_with");
    reveal_strlit("_eq");
    reveal_strlit("_gt");
    reveal_strlit("_gte");
    reveal_strlit("_icontains");
    reveal_strlit("_in");
    reveal_strlit("_istarts_with");
    reveal_strlit("_lt");
    reveal_strlit("_lte");
    reveal_strlit("_ncontains");
    reveal_strlit("_neq");
    reveal_strlit("_nin");
    reveal_strlit("_nnull");
    reveal_strlit("_null");
    reveal_strlit("_starts_with");
    assert("_in"@[1] != "_eq"@[1]);
    assert("_in"@.len() != "_neq"@.len());
    assert("_in"@[1] != "_lt"@[1]);
    assert("_in"@.len() != "_lte"@.len());
    assert("_in"@[1] != "_gt"@[1]);
    assert("_in"@.len() != "_gte"@.len());
    assert("_nin"@.len() != "_eq"@.len());
    assert("_nin"@[2] != "_neq"@[2]);
    assert("_nin"@.len() != "_lt"@.len());
    assert("_nin"@[1] != "_lte"@[1]);
    assert("_nin"@.len() != "_gt"@.len());
    assert("_nin"@[1] != "_gte"@[1]);
    assert("_nin"@.len() != "_in"@.len());
    assert("_null"@.len() != "_eq"@.len());
    assert("_null"@.len() != "_neq"@.len());
    assert("_null"@.len() != "_lt"@.len());
    assert("_null"@.len() != "_lte"@.len());
    assert("_null"@.len() != "_gt"@.len());
    assert("_null"@.len() != "_gte"@.len());
    assert("_null"@.len() != "_in"@.len());
    assert("_null"@.len() != "_nin"@.len());
    assert("_nnull"@.len() != "_eq"@.len());
    assert("_nnull"@.len() != "_neq"@.len());
    assert("_nnull"@.len() != "_lt"@.len());
    assert("_nnull"@.len() != "_lte"@.len());
    assert("_nnull"@.len() != "_gt"@.len());
    assert("_nnull"@.len() != "_gte"@.len());
    assert("_nnull"@.len() != "_in"@.len());
    assert("_nnull"@.len() != "_nin"@.len());
    assert("_nnull"@.len() != "_null"@.len());
    assert("_contains"@.len() != "_eq"@.len());
    assert("_contains"@.len() != "_neq"@.len());
    assert("_contains"@.len() != "_lt"@.len());
    assert("_contains"@.len() != "_lte"@.len());
    assert("_contains"@.len() != "_gt"@.len());
    assert("_contains"@.len() != "_gte"@.len());
    assert("_contains"@.len() != "_in"@.len());
    assert("_contains"@.len() != "_nin"@.len());
    assert("_contains"@.len() != "_null"@.len());
    assert("_contains"@.len() != "_nnull"@.len());
    assert("_icontains"@.len() != "_eq"@.len());
    assert("_icontains"@.len() != "_neq"@.len());
    assert("_icontains"@.len() != "_lt"@.len());
    assert("_icontains"@.len() != "_lte"@.len());
    assert("_icontains"@.len() != "_gt"@.len());
    assert("_icontains"@.len() != "_gte"@.len());
    assert("_icontains"@.len() != "_in"@.len());
    assert("_icontains"@.len() != "_nin"@.len());
    assert("_icontains"@.len() != "_null"@.len());
    assert("_icontains"@.len() != "_nnull"@.len());
    assert("_icontains"@.len() != "_contains"@.len());
    assert("_starts_with"@.len() != "_eq"@.len());
    assert("_starts_with"@.len() != "_neq"@.len());
    assert("_starts_with"@.len() != "_lt"@.len());
    assert("_starts_with"@.len() != "_lte"@.len());
    assert("_starts_with"@.len() != "_gt"@.len());
    assert("_starts_with"@.len() != "_gte"@.len());
    assert("_starts_with"@.len() != "_in"@.len());
    assert("_starts_with"@.len() != "_nin"@.len());
    assert("_starts_with"@.len() != "_null"@.len());
    assert("_starts_with"@.len() != "_nnull"@.len());
    assert("_starts_with"@.len() != "_contains"@.len());
    assert("_starts_with"@.len() != "_icontains"@.len());
    assert("_starts_with"@.len() != "_ncontains"@.len());
    assert("_ends_with"@.len() != "_eq"@.len());
    assert("_ends_with"@.len() != "_neq"@.len());
    assert("_ends_with"@.len() != "_lt"@.len());
    assert("_ends_with"@.len() != "_lte"@.len());
    assert("_ends_with"@.len() != "_gt"@.len());
    assert("_ends_with"@.len() != "_gte"@.len());
    assert("_ends_with"@.len() != "_in"@.len());
    assert("_ends_with"@.len() != "_nin"@.len());
    assert("_ends_with"@.len() != "_null"@.len());
    assert("_ends_with"@.len() != "_nnull"@.len());
    assert("_ends_with"@.len() != "_contains"@.len());
    assert("_ends_with"@[1] != "_icontains"@[1]);
    assert("_ends_with"@[1] != "_ncontains"@[1]);
    assert("_ends_with"@.len() != "_starts_with"@.len());
    assert("_ends_with"@.len() != "_istarts_with"@.len());
}

/// `_in` and `_nin` with a list are `$in` and `$nin` with the list's
/// values; `_null: true` and `_nnull: false` are `$eq: null`, while
/// `_null: false` and `_nnull: true` are `$ne: null`.
pub proof fn lemma_membership_and_null_conditions(a: Seq<Json>)
    ensures
        ops_bson(seq![("_in"@, Json::Arr(a))]) == BsonV::Document(seq![("$in"@, BsonV::Array(bson_arr(a)))]),
        ops_bson(seq![("_nin"@, Json::Arr(a))]) == BsonV::Document(seq![("$nin"@, BsonV::Array(bson_arr(a)))]),
        ops_bson(seq![("_null"@, Json::Bool(true))]) == BsonV::Document(seq![("$eq"@, BsonV::Null)]),
        ops_bson(seq![("_null"@, Json::Bool(false))]) == BsonV::Document(seq![("$ne"@, BsonV::Null)]),
        ops_bson(seq![("_nnull"@, Json::Bool(true))]) == BsonV::Document(seq![("$ne"@, BsonV::Null)]),
        ops_bson(seq![("_nnull"@, Json::Bool(false))]) == BsonV::Document(seq![("$eq"@, BsonV::Null)]),
{
    lemma_more_operator_names();
    lemma_single_step("_in"@, Json::Arr(a), seq![("$in"@, BsonV::Array(bson_arr(a)))]);
    lemma_single_step("_nin"@, Json::Arr(a), seq![("$nin"@, BsonV::Array(bson_arr(a)))]);
    lemma_single_step("_null"@, Json::Bool(true), seq![("$eq"@, BsonV::Null)]);
    lemma_single_step("_null"@, Json::Bool(false), seq![("$ne"@, BsonV::Null)]);
    lemma_single_step("_nnull"@, Json::Bool(true), seq![("$ne"@, BsonV::Null)]);
    lemma_single_step("_nnull"@, Json::Bool(false), seq![("$eq"@, BsonV::Null)]);
}

/// The text operators are regular expressions over the escaped text:
/// `_contains` matches it anywhere, `_icontains` anywhere ignoring case
/// (`$options: "i"`), `_starts_with` at the start (`^`) and `_ends_with` at
/// the end (`$`).
pub proof fn lemma_pattern_conditions(text: Seq<char>)
    ensures
        ops_bson(seq![("_contains"@, Json::Str(text))]) == BsonV::Document(seq![("$regex"@, BsonV::Str(regex_escaped(text)))]),
        ops_bson(seq![("_icontains"@, Json::Str(text))]) == BsonV::Document(seq![("$regex"@, BsonV::Str(regex_escaped(text))), ("$options"@, BsonV::Str("i"@))]),
        ops_bson(seq![("_starts_with"@, Json::Str(text))]) == BsonV::Document(seq![("$regex"@, BsonV::Str("^"@ + regex_escaped(text)))]),
        ops_bson(seq![("_ends_with"@, Json::Str(text))]) == BsonV::Document(seq![("$regex"@, BsonV::Str(regex_escaped(text) + "$"@))]),
{
    lemma_more_operator_names();
    reveal_strlit("$regex");
    reveal_strlit("$options");
    assert("$regex"@.len() != "$options"@.len());
    let e: Seq<(Seq<char>, BsonV)> = seq![];
    let t = regex_escaped(text);
    let d1 = seq![("$regex"@, BsonV::Str(t))];
    assert(doc_set(e, "$regex"@, BsonV::Str(t)) == d1);
    assert(d1[0].0 != "$options"@);
    assert(d1.skip(1) =~= e);
    assert(doc_set(d1.skip(1), "$options"@, BsonV::Str("i"@)) == seq![("$options"@, BsonV::Str("i"@))]);
    assert(doc_set(d1, "$options"@, BsonV::Str("i"@)) =~= seq![("$regex"@, BsonV::Str(t)), ("$options"@, BsonV::Str("i"@))]);
    lemma_single_step("_contains"@, Json::Str(text), d1);
    lemma_single_step("_icontains"@, Json::Str(text), seq![("$regex"@, BsonV::Str(t)), ("$options"@, BsonV::Str("i"@))]);
    lemma_single_step("_starts_with"@, Json::Str(text), seq![("$regex"@, BsonV::Str("^"@ + t))]);
    lemma_single_step("_ends_with"@, Json::Str(text), seq![("$regex"@, BsonV::Str(t + "$"@))]);
}

} // verus!
