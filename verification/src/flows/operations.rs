//! Built-in flow operations: what each computes from its options and input.
//! Objects they build list their members in key order, as the JSON library
//! keeps them.

use vstd::prelude::*;
use vstd::string::*;
use crate::json::{get_str, get_str_exec, lemma_object_view, members_view, obj_get, object_of, Json, JsonValue, Num};
use crate::text::{spec_is_whitespace, parse_usize, parse_usize_spec, strip_all_start, strip_all_end, strip_all_start_exec, strip_all_end_exec, to_uppercase, spec_to_uppercase, signed_decimal, push_signed_decimal, chars_of, is_prefix, is_suffix, split_chars, split_on, starts_with, ends_with, string_of, sub_chars, str_eq, trim, trim_str, views};
use super::{FlowError, OperationContext};

verus! {

/// Member `key` of `v`, or `d` when absent.
pub open spec fn get_or(v: Json, key: Seq<char>, d: Json) -> Json {
    match v.get(key) {
        Some(x) => x,
        None => d,
    }
}

/// A copy of member `key` of `v`, or `d` when absent.
fn get_or_exec(v: &JsonValue, key: &str, d: JsonValue) -> (r: JsonValue)
    ensures
        r@ == get_or(v@, key@, d@),
{
    match v.get(key) {
        Some(x) => x.copy(),
        None => d,
    }
}

/// The empty JSON object.
pub open spec fn empty_obj() -> Json {
    Json::Obj(Seq::empty())
}

fn empty_object() -> (r: JsonValue)
    ensures
        r@ == empty_obj(),
{
    let v: Vec<(String, JsonValue)> = Vec::new();
    let r = object_of(v);
    assert(members_view(v@) =~= Seq::<(Seq<char>, Json)>::empty());
    r
}

/// A string value or `null`.
pub open spec fn str_or_null(o: Option<Seq<char>>) -> Json {
    match o {
        Some(s) => Json::Str(s),
        None => Json::Null,
    }
}

fn str_or_null_exec(o: Option<&str>) -> (r: JsonValue)
    ensures
        r@ == str_or_null(match o {
            Some(s) => Some(s@),
            None => None,
        }),
{
    match o {
        Some(s) => JsonValue::String(String::from_str(s)),
        None => JsonValue::Null,
    }
}

/// Builds an object from (key, value) members, in order.
fn members2(k1: &str, v1: JsonValue, k2: &str, v2: JsonValue) -> (r: JsonValue)
    ensures
        r@ == Json::Obj(seq![(k1@, v1@), (k2@, v2@)]),
{
    let mut m: Vec<(String, JsonValue)> = Vec::new();
    m.push((String::from_str(k1), v1));
    m.push((String::from_str(k2), v2));
    let r = object_of(m);
    assert(members_view(m@) =~= seq![(k1@, v1@), (k2@, v2@)]);
    r
}

fn members3(k1: &str, v1: JsonValue, k2: &str, v2: JsonValue, k3: &str, v3: JsonValue) -> (r: JsonValue)
    ensures
        r@ == Json::Obj(seq![(k1@, v1@), (k2@, v2@), (k3@, v3@)]),
{
    let mut m: Vec<(String, JsonValue)> = Vec::new();
    m.push((String::from_str(k1), v1));
    m.push((String::from_str(k2), v2));
    m.push((String::from_str(k3), v3));
    let r = object_of(m);
    assert(members_view(m@) =~= seq![(k1@, v1@), (k2@, v2@), (k3@, v3@)]);
    r
}

/// Creates an item in a collection.
#[derive(Debug, Clone, Copy)]
pub struct ItemCreateOperation;

/// Reads items of a collection.
#[derive(Debug, Clone, Copy)]
pub struct ItemReadOperation;

/// Updates items of a collection.
#[derive(Debug, Clone, Copy)]
pub struct ItemUpdateOperation;

/// Deletes items of a collection.
#[derive(Debug, Clone, Copy)]
pub struct ItemDeleteOperation;

/// Sends an in-app notification.
#[derive(Debug, Clone, Copy)]
pub struct NotificationOperation;

/// Starts another flow.
#[derive(Debug, Clone, Copy)]
pub struct TriggerOperation;

/// Passes the data on only when it meets a filter.
#[derive(Debug, Clone, Copy)]
pub struct ConditionOperation;

/// Runs a script in a JavaScript runtime.
#[derive(Debug, Clone, Copy)]
pub struct ExecOperation;

/// Signs, verifies or decodes a JSON Web Token.
#[derive(Debug, Clone, Copy)]
pub struct JwtOperation;

/// Writes a message to the server log.
#[derive(Debug, Clone, Copy)]
pub struct LogOperation;

/// Sends an email.
#[derive(Debug, Clone, Copy)]
pub struct MailOperation;

/// Makes an HTTP request.
#[derive(Debug, Clone, Copy)]
pub struct RequestOperation;

/// Pauses the flow.
#[derive(Debug, Clone, Copy)]
pub struct SleepOperation;

/// Builds new data from a template.
#[derive(Debug, Clone, Copy)]
pub struct TransformOperation;

/// The result of an item-create: the collection and payload it was given.
pub open spec fn item_create_result(options: Json) -> Result<Json, Seq<char>> {
    match get_str(options, "collection"@) {
        Some(c) => Ok(Json::Obj(seq![("collection"@, Json::Str(c)), ("payload"@, get_or(options, "payload"@, empty_obj()))])),
        None => Err("Missing 'collection'"@),
    }
}

/// The result of an item-update: collection, key (`null` if absent) and payload.
pub open spec fn item_update_result(options: Json) -> Result<Json, Seq<char>> {
    match get_str(options, "collection"@) {
        Some(c) => Ok(Json::Obj(seq![
            ("collection"@, Json::Str(c)),
            ("key"@, get_or(options, "key"@, Json::Null)),
            ("payload"@, get_or(options, "payload"@, empty_obj())),
        ])),
        None => Err("Missing 'collection'"@),
    }
}

/// The result of an item-delete: collection and key (`null` if absent).
pub open spec fn item_delete_result(options: Json) -> Result<Json, Seq<char>> {
    match get_str(options, "collection"@) {
        Some(c) => Ok(Json::Obj(seq![("collection"@, Json::Str(c)), ("key"@, get_or(options, "key"@, Json::Null))])),
        None => Err("Missing 'collection'"@),
    }
}

/// An operation outcome against its specification: success with the value,
/// or an invalid-configuration error with the message.
pub open spec fn outcome_is(r: Result<JsonValue, FlowError>, s: Result<Json, Seq<char>>) -> bool {
    match s {
        Ok(v) => r matches Ok(x) && x@ == v,
        Err(m) => r matches Err(FlowError::InvalidConfig(e)) && e@ == m,
    }
}

fn collection_missing() -> (r: FlowError)
    ensures
        r matches FlowError::InvalidConfig(m) && m@ == "Missing 'collection'"@,
{
    FlowError::InvalidConfig(String::from_str("Missing 'collection'"))
}

impl ItemCreateOperation {
    /// The type name of this operation.
    pub fn operation_type(&self) -> (r: &'static str)
        ensures
            r@ == "item-create"@,
    {
        "item-create"
    }

    /// Echoes the target collection and payload (`{}` when absent); the
    /// collection is required.
    pub fn execute(&self, data: JsonValue, options: &JsonValue, context: &OperationContext) -> (r: Result<JsonValue, FlowError>)
        ensures
            outcome_is(r, item_create_result(options@)),
    {
        let collection = match get_str_exec(options, "collection") {
            Some(c) => c,
            None => {
                return Err(collection_missing());
            },
        };
        let payload = get_or_exec(options, "payload", empty_object());
        Ok(members2("collection", JsonValue::String(String::from_str(collection)), "payload", payload))
    }
}

impl ItemUpdateOperation {
    /// The type name of this operation.
    pub fn operation_type(&self) -> (r: &'static str)
        ensures
            r@ == "item-update"@,
    {
        "item-update"
    }

    /// Echoes the target collection, key and payload; the collection is
    /// required.
    pub fn execute(&self, data: JsonValue, options: &JsonValue, context: &OperationContext) -> (r: Result<JsonValue, FlowError>)
        ensures
            outcome_is(r, item_update_result(options@)),
    {
        let collection = match get_str_exec(options, "collection") {
            Some(c) => c,
            None => {
                return Err(collection_missing());
            },
        };
        let key = get_or_exec(options, "key", JsonValue::Null);
        let payload = get_or_exec(options, "payload", empty_object());
        Ok(members3("collection", JsonValue::String(String::from_str(collection)), "key", key, "payload", payload))
    }
}

impl ItemDeleteOperation {
    /// The type name of this operation.
    pub fn operation_type(&self) -> (r: &'static str)
        ensures
            r@ == "item-delete"@,
    {
        "item-delete"
    }

    /// Echoes the target collection and key; the collection is required.
    pub fn execute(&self, data: JsonValue, options: &JsonValue, context: &OperationContext) -> (r: Result<JsonValue, FlowError>)
        ensures
            outcome_is(r, item_delete_result(options@)),
    {
        let collection = match get_str_exec(options, "collection") {
            Some(c) => c,
            None => {
                return Err(collection_missing());
            },
        };
        let key = get_or_exec(options, "key", JsonValue::Null);
        Ok(members2("collection", JsonValue::String(String::from_str(collection)), "key", key))
    }
}

/// What an item-read reads: the collection (required) and, when given,
/// the key of a single item.
pub open spec fn item_read_target(options: Json) -> Result<(Seq<char>, Option<Seq<char>>), Seq<char>> {
    match get_str(options, "collection"@) {
        Some(c) => Ok((c, get_str(options, "key"@))),
        None => Err("Missing 'collection'"@),
    }
}

impl ItemReadOperation {
    /// The type name of this operation.
    pub fn operation_type(&self) -> (r: &'static str)
        ensures
            r@ == "item-read"@,
    {
        "item-read"
    }

    /// The collection to read and the key of a single item, if one is given.
    pub fn target(&self, options: &JsonValue) -> (r: Result<(String, Option<String>), FlowError>)
        ensures
            match item_read_target(options@) {
                Ok((c, k)) => r matches Ok((rc, rk)) && rc@ == c && match k {
                    Some(kk) => rk matches Some(x) && x@ == kk,
                    None => rk is None,
                },
                Err(m) => r matches Err(FlowError::InvalidConfig(e)) && e@ == m,
            },
    {
        let collection = match get_str_exec(options, "collection") {
            Some(c) => c,
            None => {
                return Err(collection_missing());
            },
        };
        let key = match get_str_exec(options, "key") {
            Some(k) => Some(String::from_str(k)),
            None => None,
        };
        Ok((String::from_str(collection), key))
    }
}

/// The result of a notification: what was sent to whom.
pub open spec fn notification_result(options: Json) -> Result<Json, Seq<char>> {
    match get_str(options, "recipient"@) {
        Some(rcpt) => Ok(Json::Obj(seq![
            ("collection"@, str_or_null(get_str(options, "collection"@))),
            ("item"@, str_or_null(get_str(options, "item"@))),
            ("message"@, str_or_null(get_str(options, "message"@))),
            ("recipient"@, Json::Str(rcpt)),
            ("sent"@, Json::Bool(true)),
            ("subject"@, Json::Str(match get_str(options, "subject"@) {
                Some(s) => s,
                None => "Notification"@,
            })),
        ])),
        None => Err("Missing 'recipient'"@),
    }
}

impl NotificationOperation {
    /// The type name of this operation.
    pub fn operation_type(&self) -> (r: &'static str)
        ensures
            r@ == "notification"@,
    {
        "notification"
    }

    /// Describes the notification sent: recipient (required), subject
    /// (`Notification` by default), message, collection and item.
    pub fn execute(&self, data: JsonValue, options: &JsonValue, context: &OperationContext) -> (r: Result<JsonValue, FlowError>)
        ensures
            outcome_is(r, notification_result(options@)),
    {
        let recipient = match get_str_exec(options, "recipient") {
            Some(c) => c,
            None => {
                return Err(FlowError::InvalidConfig(String::from_str("Missing 'recipient'")));
            },
        };
        let subject = match get_str_exec(options, "subject") {
            Some(s) => s,
            None => "Notification",
        };
        let mut m: Vec<(String, JsonValue)> = Vec::new();
        m.push((String::from_str("collection"), str_or_null_exec(get_str_exec(options, "collection"))));
        m.push((String::from_str("item"), str_or_null_exec(get_str_exec(options, "item"))));
        m.push((String::from_str("message"), str_or_null_exec(get_str_exec(options, "message"))));
        m.push((String::from_str("recipient"), JsonValue::String(String::from_str(recipient))));
        m.push((String::from_str("sent"), JsonValue::Bool(true)));
        m.push((String::from_str("subject"), JsonValue::String(String::from_str(subject))));
        let r = object_of(m);
        proof {
            assert(members_view(m@) =~= notification_result(options@)->Ok_0->Obj_0);
        }
        Ok(r)
    }
}

/// The result of a trigger: the flow started and the payload it gets (the
/// option `payload`, else the data).
pub open spec fn trigger_result(data: Json, options: Json) -> Result<Json, Seq<char>> {
    match get_str(options, "flow"@) {
        Some(f) => Ok(Json::Obj(seq![
            ("flow"@, Json::Str(f)),
            ("payload"@, get_or(options, "payload"@, data)),
            ("triggered"@, Json::Bool(true)),
        ])),
        None => Err("Missing 'flow' ID"@),
    }
}

impl TriggerOperation {
    /// The type name of this operation.
    pub fn operation_type(&self) -> (r: &'static str)
        ensures
            r@ == "trigger"@,
    {
        "trigger"
    }

    /// Describes the flow to start and its payload; the flow id is required.
    pub fn execute(&self, data: JsonValue, options: &JsonValue, context: &OperationContext) -> (r: Result<JsonValue, FlowError>)
        ensures
            outcome_is(r, trigger_result(data@, options@)),
    {
        let flow = match get_str_exec(options, "flow") {
            Some(c) => c,
            None => {
                return Err(FlowError::InvalidConfig(String::from_str("Missing 'flow' ID")));
            },
        };
        let payload = get_or_exec(options, "payload", data);
        Ok(members3("flow", JsonValue::String(String::from_str(flow)), "payload", payload, "triggered", JsonValue::Bool(true)))
    }

    /// The payload of the `flows.trigger` action emitted to start the flow.
    pub fn action_payload(&self, flow: &str, payload: JsonValue, source_flow: &str) -> (r: JsonValue)
        ensures
            r@ == Json::Obj(seq![("flow"@, Json::Str(flow@)), ("payload"@, payload@), ("source_flow"@, Json::Str(source_flow@))]),
    {
        members3("flow", JsonValue::String(String::from_str(flow)), "payload", payload, "source_flow", JsonValue::String(String::from_str(source_flow)))
    }
}

/// The milliseconds a sleep waits: the option `milliseconds` (1000 when
/// absent or not a non-negative integer), at most 60000.
pub open spec fn sleep_millis(options: Json) -> nat {
    let ms = match options.get("milliseconds"@) {
        Some(v) => match v.as_u64() {
            Some(u) => u,
            None => 1000,
        },
        None => 1000,
    };
    if ms > 60000 { 60000 } else { ms }
}

impl SleepOperation {
    /// The type name of this operation.
    pub fn operation_type(&self) -> (r: &'static str)
        ensures
            r@ == "sleep"@,
    {
        "sleep"
    }

    /// How long to pause, in milliseconds.
    pub fn duration_ms(&self, options: &JsonValue) -> (r: u64)
        ensures
            r == sleep_millis(options@),
    {
        let ms = match options.get("milliseconds") {
            Some(v) => match v.as_u64() {
                Some(u) => u,
                None => 1000,
            },
            None => 1000,
        };
        if ms > 60000 { 60000 } else { ms }
    }
}

/// The message a log operation writes (`Flow log` by default).
pub open spec fn log_message(options: Json) -> Seq<char> {
    match get_str(options, "message"@) {
        Some(m) => m,
        None => "Flow log"@,
    }
}

impl LogOperation {
    /// The type name of this operation.
    pub fn operation_type(&self) -> (r: &'static str)
        ensures
            r@ == "log"@,
    {
        "log"
    }

    /// The message to write.
    pub fn message(&self, options: &JsonValue) -> (r: String)
        ensures
            r@ == log_message(options@),
    {
        match get_str_exec(options, "message") {
            Some(m) => String::from_str(m),
            None => String::from_str("Flow log"),
        }
    }
}

impl ConditionOperation {
    /// The type name of this operation.
    pub fn operation_type(&self) -> (r: &'static str)
        ensures
            r@ == "condition"@,
    {
        "condition"
    }

    /// The filter the data must meet (`null`: none).
    pub fn filter(&self, options: &JsonValue) -> (r: JsonValue)
        ensures
            r@ == get_or(options@, "filter"@, Json::Null),
    {
        get_or_exec(options, "filter", JsonValue::Null)
    }

    /// The outcome once the filter is evaluated: the data when it passes,
    /// else a `Condition not met` failure.
    pub fn conclude(&self, data: JsonValue, passes: bool) -> (r: Result<JsonValue, FlowError>)
        ensures
            passes ==> (r matches Ok(v) && v@ == data@),
            !passes ==> (r matches Err(FlowError::OperationFailed(m)) && m@ == "Condition not met"@),
    {
        if passes {
            Ok(data)
        } else {
            Err(FlowError::OperationFailed(String::from_str("Condition not met")))
        }
    }
}

/// One step along a path: a member of an object, an element of an array
/// (by decimal index), or `null`.
pub open spec fn path_step(cur: Json, part: Seq<char>) -> Json {
    match cur {
        Json::Obj(m) => match obj_get(m, part) {
            Some(v) => v,
            None => Json::Null,
        },
        Json::Arr(a) => match parse_usize_spec(part) {
            Some(i) => if i < a.len() { a[i as int] } else { Json::Null },
            None => Json::Null,
        },
        _ => Json::Null,
    }
}

/// Follows the path segments `parts` from `cur`.
pub open spec fn walk_path(cur: Json, parts: Seq<Seq<char>>) -> Json
    decreases parts.len(),
{
    if parts.len() == 0 {
        cur
    } else {
        walk_path(path_step(cur, parts[0]), parts.skip(1))
    }
}

/// The value at a dotted path such as `$trigger.body.name`: the first
/// segment names context data, the rest walk into it; `null` when the root
/// is not in the context.
pub open spec fn resolve_path_spec(path: Seq<char>, data: Seq<(Seq<char>, Json)>) -> Json {
    let parts = split_on(path, '.');
    match obj_get(data, parts[0]) {
        Some(v) => walk_path(v, parts.skip(1)),
        None => Json::Null,
    }
}

/// A template string `{{path}}` stands for the value at `path`.
pub open spec fn is_placeholder(s: Seq<char>) -> bool {
    is_prefix("{{"@, s) && is_suffix("}}"@, s)
}

/// The template with every placeholder string replaced by the value it
/// names; objects and arrays are resolved member by member.
pub open spec fn resolve_template_spec(t: Json, data: Seq<(Seq<char>, Json)>) -> Json
    decreases t,
{
    match t {
        Json::Str(s) => if is_placeholder(s) {
            resolve_path_spec(trim(strip_all_end(strip_all_start(s, "{{"@), "}}"@)), data)
        } else {
            Json::Str(s)
        },
        Json::Obj(m) => Json::Obj(Seq::new(m.len(), |i: int| if 0 <= i < m.len() { (m[i].0, resolve_template_spec(m[i].1, data)) } else { (Seq::empty(), Json::Null) })),
        Json::Arr(a) => Json::Arr(Seq::new(a.len(), |i: int| if 0 <= i < a.len() { resolve_template_spec(a[i], data) } else { Json::Null })),
        _ => t,
    }
}

/// Resolving an array template gives an array of the same length whose
/// element `i` is element `i` of the template resolved on its own.
pub proof fn lemma_resolve_array(a: Seq<Json>, data: Seq<(Seq<char>, Json)>)
    ensures
        resolve_template_spec(Json::Arr(a), data) is Arr,
        resolve_template_spec(Json::Arr(a), data)->Arr_0.len() == a.len(),
        forall|i: int| 0 <= i < a.len() ==>
            #[trigger] resolve_template_spec(Json::Arr(a), data)->Arr_0[i] == resolve_template_spec(a[i], data),
{
}

/// Resolving an object template keeps its keys in order and resolves each
/// member's value on its own; numbers, booleans and null are kept.
pub proof fn lemma_resolve_object(m: Seq<(Seq<char>, Json)>, data: Seq<(Seq<char>, Json)>)
    ensures
        resolve_template_spec(Json::Obj(m), data) is Obj,
        resolve_template_spec(Json::Obj(m), data)->Obj_0.len() == m.len(),
        forall|i: int| 0 <= i < m.len() ==>
            (#[trigger] resolve_template_spec(Json::Obj(m), data)->Obj_0[i]).0 == m[i].0
            && resolve_template_spec(Json::Obj(m), data)->Obj_0[i].1 == resolve_template_spec(m[i].1, data),
        resolve_template_spec(Json::Null, data) == Json::Null,
        forall|b: bool| resolve_template_spec(Json::Bool(b), data) == Json::Bool(b),
        forall|n: Num| resolve_template_spec(Json::Number(n), data) == Json::Number(n),
{
}

/// A placeholder `{{path}}` resolves to the value at `path`, inside an array
/// as well as on its own; a string that is not a placeholder is kept.
pub proof fn lemma_placeholder_resolves(path: Seq<char>, s: Seq<char>, data: Seq<(Seq<char>, Json)>)
    requires
        path.len() > 0,
        path[0] != '{',
        path.last() != '}',
        !spec_is_whitespace(path[0]),
        !spec_is_whitespace(path.last()),
    ensures
        resolve_template_spec(Json::Str("{{"@ + path + "}}"@), data) == resolve_path_spec(path, data),
        resolve_template_spec(Json::Arr(seq![Json::Str("{{"@ + path + "}}"@)]), data) == Json::Arr(seq![resolve_path_spec(path, data)]),
        !is_placeholder(s) ==> resolve_template_spec(Json::Str(s), data) == Json::Str(s),
{
    reveal_strlit("{{");
    reveal_strlit("}}");
    let open = "{{"@;
    let close = "}}"@;
    let t = open + path + close;
    let mid = path + close;
    assert(t.take(2) =~= open);
    assert(t.skip(t.len() - 2) =~= close);
    assert(is_placeholder(t));
    assert(t.skip(2) =~= mid);
    assert(mid[0] == path[0]);
    assert(!is_prefix(open, mid)) by {
        if is_prefix(open, mid) {
            assert(mid.take(2)[0] == open[0]);
        }
    }
    assert(strip_all_start(mid, open) == mid);
    assert(strip_all_start(t, open) == mid);
    assert(mid.take(mid.len() - 2) =~= path);
    assert(mid.skip(mid.len() - 2) =~= close);
    assert(!is_suffix(close, path)) by {
        if is_suffix(close, path) {
            assert(path.skip(path.len() - 2)[1] == path.last());
        }
    }
    assert(strip_all_end(path, close) == path);
    assert(strip_all_end(mid, close) == path);
    assert(trim(path) == path);
    let r = resolve_template_spec(Json::Arr(seq![Json::Str(t)]), data);
    assert(seq![Json::Str(t)][0] == Json::Str(t));
    assert(r->Arr_0 =~= seq![resolve_path_spec(path, data)]);
}

/// One step along a path from `cur`.
fn path_step_exec(cur: &JsonValue, part: &[char]) -> (r: JsonValue)
    ensures
        r@ == path_step(cur@, part@),
{
    match cur {
        JsonValue::Object(m) => {
            let key = string_of(part);
            match cur.get(key.as_str()) {
                Some(x) => x.copy(),
                None => JsonValue::Null,
            }
        },
        JsonValue::Array(a) => {
            match parse_usize(part) {
                Some(i) => {
                    if i < a.len() {
                        a[i].copy()
                    } else {
                        JsonValue::Null
                    }
                },
                None => JsonValue::Null,
            }
        },
        _ => JsonValue::Null,
    }
}

/// The value at a dotted path in the context data (`null` when the first
/// segment is not there).
pub fn resolve_path(path: &str, context: &OperationContext) -> (r: JsonValue)
    ensures
        r@ == resolve_path_spec(path@, members_view(context.data@)),
{
    let pc = chars_of(path);
    let parts = split_chars(&pc, '.');
    let ghost ps = split_on(path@, '.');
    assert(ps.len() >= 1);
    let root = string_of(&parts[0]);
    match context.get(root.as_str()) {
        Some(v) => {
            let mut cur = v.copy();
            let mut k: usize = 1;
            assert(ps.skip(1) == ps.skip(k as int));
            while k < parts.len()
                invariant
                    ps == split_on(path@, '.'),
                    parts@.len() == ps.len(),
                    forall|j: int| 0 <= j < parts@.len() ==> #[trigger] parts@[j]@ == ps[j],
                    1 <= k <= parts@.len(),
                    walk_path(cur@, ps.skip(k as int)) == walk_path(v@, ps.skip(1)),
                decreases parts@.len() - k,
            {
                assert(ps.skip(k as int)[0] == ps[k as int]);
                assert(ps.skip(k as int).skip(1) =~= ps.skip(k as int + 1));
                cur = path_step_exec(&cur, &parts[k]);
                k = k + 1;
            }
            assert(ps.skip(k as int) =~= Seq::<Seq<char>>::empty());
            cur
        },
        None => JsonValue::Null,
    }
}

/// Resolves every `{{path}}` string of a template against the context data.
pub fn resolve_template(template: &JsonValue, context: &OperationContext) -> (r: JsonValue)
    ensures
        r@ == resolve_template_spec(template@, members_view(context.data@)),
    decreases template,
{
    match template {
        JsonValue::String(s) => {
            let cs = chars_of(s.as_str());
            let open = chars_of("{{");
            let close = chars_of("}}");
            if starts_with(&cs, &open) && ends_with(&cs, &close) {
                let a = strip_all_start_exec(&cs, &open);
                let b = strip_all_end_exec(&a, &close);
                let bs = string_of(&b);
                let path = trim_str(bs.as_str());
                resolve_path(path, context)
            } else {
                JsonValue::String(s.clone())
            }
        },
        JsonValue::Object(m) => {
            let mut out: Vec<(String, JsonValue)> = Vec::new();
            let mut i: usize = 0;
            while i < m.len()
                invariant
                    i <= m@.len(),
                    out@.len() == i,
                    forall|k: int| #![trigger out@[k]] 0 <= k < i ==> out@[k].0@ == m@[k].0@
                        && out@[k].1@ == resolve_template_spec(m@[k].1@, members_view(context.data@)),
                    forall|k: int| 0 <= k < m@.len() ==> decreases_to!(*template => m@[k].1),
                decreases m@.len() - i,
            {
                out.push((m[i].0.clone(), resolve_template(&m[i].1, context)));
                i = i + 1;
            }
            let r = object_of(out);
            proof {
                lemma_object_view(m);
                assert(members_view(out@) =~= resolve_template_spec(template@, members_view(context.data@))->Obj_0);
            }
            r
        },
        JsonValue::Array(a) => {
            let mut out: Vec<JsonValue> = Vec::new();
            let mut i: usize = 0;
            while i < a.len()
                invariant
                    i <= a@.len(),
                    out@.len() == i,
                    forall|k: int| 0 <= k < i ==> #[trigger] out@[k]@ == resolve_template_spec(a@[k]@, members_view(context.data@)),
                    forall|k: int| 0 <= k < a@.len() ==> decreases_to!(*template => a@[k]),
                decreases a@.len() - i,
            {
                out.push(resolve_template(&a[i], context));
                i = i + 1;
            }
            let r = JsonValue::Array(out);
            assert(r@ =~= resolve_template_spec(template@, members_view(context.data@))) by {
                let x = r@->Arr_0;
                let y = resolve_template_spec(template@, members_view(context.data@))->Arr_0;
                let av = template@->Arr_0;
                assert(av.len() == a@.len());
                assert forall|k: int| 0 <= k < x.len() implies x[k] == y[k] by {
                    assert(av[k] == a@[k]@);
                    assert(out@[k]@ == resolve_template_spec(a@[k]@, members_view(context.data@)));
                }
                assert(x =~= y);
            }
            r
        },
        _ => template.copy(),
    }
}

/// The result of a transform: the data when there is no `json` template,
/// else the template resolved against the context.
pub open spec fn transform_result(data: Json, options: Json, ctx_data: Seq<(Seq<char>, Json)>) -> Json {
    let t = get_or(options, "json"@, Json::Null);
    if t is Null { data } else { resolve_template_spec(t, ctx_data) }
}

impl TransformOperation {
    /// The type name of this operation.
    pub fn operation_type(&self) -> (r: &'static str)
        ensures
            r@ == "transform"@,
    {
        "transform"
    }

    /// Resolves the `json` template against the context; without one the
    /// data passes through.
    pub fn execute(&self, data: JsonValue, options: &JsonValue, context: &OperationContext) -> (r: Result<JsonValue, FlowError>)
        ensures
            r matches Ok(v) && v@ == transform_result(data@, options@, members_view(context.data@)),
    {
        let t = get_or_exec(options, "json", JsonValue::Null);
        if t.is_null() {
            Ok(data)
        } else {
            Ok(resolve_template(&t, context))
        }
    }
}

/// What a JSON Web Token operation does, with its inputs.
#[derive(Debug)]
pub enum JwtAction {
    Sign { secret: String, payload: JsonValue },
    Verify { secret: String, token: String },
    Decode { token: String },
}

/// A string option, or `d` when absent or not a string.
pub open spec fn str_opt_or(options: Json, key: Seq<char>, d: Seq<char>) -> Seq<char> {
    match get_str(options, key) {
        Some(s) => s,
        None => d,
    }
}

fn str_opt_or_exec(options: &JsonValue, key: &str, d: &str) -> (r: String)
    ensures
        r@ == str_opt_or(options@, key@, d@),
{
    match get_str_exec(options, key) {
        Some(s) => String::from_str(s),
        None => String::from_str(d),
    }
}

impl JwtOperation {
    /// The type name of this operation.
    pub fn operation_type(&self) -> (r: &'static str)
        ensures
            r@ == "json-web-token"@,
    {
        "json-web-token"
    }

    /// Decides the action from the options: `operation` (`sign` by default),
    /// `secret` and `token` (empty by default), `payload` (`{}` by default).
    pub fn plan(&self, options: &JsonValue) -> (r: Result<JwtAction, FlowError>)
        ensures
            ({
                let op = str_opt_or(options@, "operation"@, "sign"@);
                let secret = str_opt_or(options@, "secret"@, ""@);
                let token = str_opt_or(options@, "token"@, ""@);
                if op == "sign"@ {
                    r matches Ok(JwtAction::Sign { secret: s, payload: p }) && s@ == secret && p@ == get_or(options@, "payload"@, empty_obj())
                } else if op == "verify"@ {
                    r matches Ok(JwtAction::Verify { secret: s, token: t }) && s@ == secret && t@ == token
                } else if op == "decode"@ {
                    r matches Ok(JwtAction::Decode { token: t }) && t@ == token
                } else {
                    r matches Err(FlowError::InvalidConfig(m)) && m@ == "Unknown JWT operation: "@ + op
                }
            }),
    {
        let op = str_opt_or_exec(options, "operation", "sign");
        let secret = str_opt_or_exec(options, "secret", "");
        if str_eq(op.as_str(), "sign") {
            let payload = get_or_exec(options, "payload", empty_object());
            Ok(JwtAction::Sign { secret: secret, payload: payload })
        } else if str_eq(op.as_str(), "verify") {
            Ok(JwtAction::Verify { secret: secret, token: str_opt_or_exec(options, "token", "") })
        } else if str_eq(op.as_str(), "decode") {
            Ok(JwtAction::Decode { token: str_opt_or_exec(options, "token", "") })
        } else {
            let mut m = String::from_str("Unknown JWT operation: ");
            m.append(op.as_str());
            Err(FlowError::InvalidConfig(m))
        }
    }

    /// The outcome of signing: `{"token": ...}`, or a failure with the
    /// library's message.
    pub fn sign_result(&self, signed: Result<String, String>) -> (r: Result<JsonValue, FlowError>)
        ensures
            match signed {
                Ok(t) => r matches Ok(v) && v@ == Json::Obj(seq![("token"@, Json::Str(t@))]),
                Err(e) => r matches Err(FlowError::OperationFailed(m)) && m@ == "JWT sign failed: "@ + e@,
            },
    {
        match signed {
            Ok(t) => {
                let mut m: Vec<(String, JsonValue)> = Vec::new();
                m.push((String::from_str("token"), JsonValue::String(t)));
                let r = object_of(m);
                assert(members_view(m@) =~= seq![("token"@, Json::Str(t@))]);
                Ok(r)
            },
            Err(e) => {
                let mut m = String::from_str("JWT sign failed: ");
                m.append(e.as_str());
                Err(FlowError::OperationFailed(m))
            },
        }
    }

    /// The outcome of verifying: valid with the claims, or invalid with the
    /// library's message (verification failure is not an error).
    pub fn verify_result(&self, verified: Result<JsonValue, String>) -> (r: Result<JsonValue, FlowError>)
        ensures
            match verified {
                Ok(c) => r matches Ok(v) && v@ == Json::Obj(seq![("payload"@, c@), ("valid"@, Json::Bool(true))]),
                Err(e) => r matches Ok(v) && v@ == Json::Obj(seq![("error"@, Json::Str(e@)), ("valid"@, Json::Bool(false))]),
            },
    {
        match verified {
            Ok(c) => Ok(members2("payload", c, "valid", JsonValue::Bool(true))),
            Err(e) => Ok(members2("error", JsonValue::String(e), "valid", JsonValue::Bool(false))),
        }
    }

    /// The outcome of decoding: an empty header with the claims, or a
    /// failure with the library's message.
    pub fn decode_result(&self, decoded: Result<JsonValue, String>) -> (r: Result<JsonValue, FlowError>)
        ensures
            match decoded {
                Ok(c) => r matches Ok(v) && v@ == Json::Obj(seq![("header"@, empty_obj()), ("payload"@, c@)]),
                Err(e) => r matches Err(FlowError::OperationFailed(m)) && m@ == "JWT decode failed: "@ + e@,
            },
    {
        match decoded {
            Ok(c) => Ok(members2("header", empty_object(), "payload", c)),
            Err(e) => {
                let mut m = String::from_str("JWT decode failed: ");
                m.append(e.as_str());
                Err(FlowError::OperationFailed(m))
            },
        }
    }
}

/// An HTTP request to make.
#[derive(Debug)]
pub struct RequestPlan {
    pub url: String,
    pub method: String,
    pub headers: Vec<(String, String)>,
    pub body: Option<JsonValue>,
}

/// The HTTP methods a request operation supports.
pub open spec fn supported_method(m: Seq<char>) -> bool {
    m == "GET"@ || m == "POST"@ || m == "PUT"@ || m == "PATCH"@ || m == "DELETE"@ || m == "HEAD"@
}

/// The string-valued members of the `headers` option, in order.
pub open spec fn string_headers(m: Seq<(Seq<char>, Json)>) -> Seq<(Seq<char>, Seq<char>)>
    decreases m.len(),
{
    if m.len() == 0 {
        seq![]
    } else {
        let r = string_headers(m.drop_last());
        match m.last().1 {
            Json::Str(v) => r.push((m.last().0, v)),
            _ => r,
        }
    }
}

impl RequestOperation {
    /// The type name of this operation.
    pub fn operation_type(&self) -> (r: &'static str)
        ensures
            r@ == "request"@,
    {
        "request"
    }

    /// The request to make: `url` (required), `method` upper-cased (`GET` by
    /// default; only GET, POST, PUT, PATCH, DELETE and HEAD), the
    /// string-valued `headers`, and `body`.
    pub fn plan(&self, options: &JsonValue) -> (r: Result<RequestPlan, FlowError>)
        ensures
            match get_str(options@, "url"@) {
                None => r matches Err(FlowError::InvalidConfig(m)) && m@ == "Missing 'url'"@,
                Some(url) => {
                    let method = spec_to_uppercase(str_opt_or(options@, "method"@, "GET"@));
                    if !supported_method(method) {
                        r matches Err(FlowError::InvalidConfig(m)) && m@ == "Unsupported HTTP method: "@ + method
                    } else {
                        r matches Ok(p) && p.url@ == url && p.method@ == method
                            && Seq::new(p.headers@.len(), |i: int| (p.headers@[i].0@, p.headers@[i].1@)) == match options@.get("headers"@) {
                                Some(Json::Obj(h)) => string_headers(h),
                                _ => Seq::empty(),
                            }
                            && match p.body {
                                Some(b) => options@.get("body"@) == Some(b@),
                                None => options@.get("body"@) is None,
                            }
                    }
                },
            },
    {
        let url = match get_str_exec(options, "url") {
            Some(u) => u,
            None => {
                return Err(FlowError::InvalidConfig(String::from_str("Missing 'url'")));
            },
        };
        let m0 = str_opt_or_exec(options, "method", "GET");
        let method = to_uppercase(m0.as_str());
        let ms = method.as_str();
        if !(str_eq(ms, "GET") || str_eq(ms, "POST") || str_eq(ms, "PUT") || str_eq(ms, "PATCH") || str_eq(ms, "DELETE") || str_eq(ms, "HEAD")) {
            let mut m = String::from_str("Unsupported HTTP method: ");
            m.append(ms);
            return Err(FlowError::InvalidConfig(m));
        }
        let mut headers: Vec<(String, String)> = Vec::new();
        let ghost hv = match options@.get("headers"@) {
            Some(Json::Obj(h)) => string_headers(h),
            _ => Seq::empty(),
        };
        match options.get("headers") {
            Some(JsonValue::Object(h)) => {
                proof {
                    lemma_object_view(h);
                }
                let ghost m = members_view(h@);
                let mut i: usize = 0;
                assert(m.take(0) =~= Seq::<(Seq<char>, Json)>::empty());
                while i < h.len()
                    invariant
                        m == members_view(h@),
                        i <= h@.len(),
                        Seq::new(headers@.len(), |k: int| (headers@[k].0@, headers@[k].1@)) == string_headers(m.take(i as int)),
                    decreases h@.len() - i,
                {
                    proof {
                        assert(m.take(i as int + 1).drop_last() =~= m.take(i as int));
                        assert(m.take(i as int + 1).last() == m[i as int]);
                    }
                    let ghost before = headers@;
                    match &h[i].1 {
                        JsonValue::String(v) => {
                            headers.push((h[i].0.clone(), v.clone()));
                            assert(Seq::new(headers@.len(), |k: int| (headers@[k].0@, headers@[k].1@)) =~= Seq::new(before.len(), |k: int| (before[k].0@, before[k].1@)).push((h@[i as int].0@, v@)));
                        },
                        _ => {},
                    }
                    i = i + 1;
                }
                assert(m.take(h@.len() as int) =~= m);
            },
            _ => {
                assert(Seq::new(headers@.len(), |k: int| (headers@[k].0@, headers@[k].1@)) =~= Seq::<(Seq<char>, Seq<char>)>::empty());
            },
        }
        let body = match options.get("body") {
            Some(b) => Some(b.copy()),
            None => None,
        };
        Ok(RequestPlan { url: String::from_str(url), method: method, headers: headers, body: body })
    }

    /// The outcome of a completed request: status, headers and body data
    /// (with an empty status text).
    pub fn response_result(&self, status: u16, headers: JsonValue, data: JsonValue) -> (r: JsonValue)
        ensures
            r@ == Json::Obj(seq![
                ("data"@, data@),
                ("headers"@, headers@),
                ("status"@, Json::Number(Num::PosInt(status as nat))),
                ("statusText"@, Json::Str(""@)),
            ]),
    {
        let mut m: Vec<(String, JsonValue)> = Vec::new();
        m.push((String::from_str("data"), data));
        m.push((String::from_str("headers"), headers));
        m.push((String::from_str("status"), JsonValue::Number(crate::json::JsonNumber::PosInt(status as u64))));
        m.push((String::from_str("statusText"), JsonValue::String(String::from_str(""))));
        let r = object_of(m);
        assert(members_view(m@) =~= seq![
            ("data"@, data@),
            ("headers"@, headers@),
            ("status"@, Json::Number(Num::PosInt(status as nat))),
            ("statusText"@, Json::Str(""@)),
        ]);
        r
    }

    /// The failure of a request that could not be made.
    pub fn failure(&self, e: &str) -> (r: FlowError)
        ensures
            r matches FlowError::OperationFailed(m) && m@ == "HTTP request failed: "@ + e@,
    {
        let mut m = String::from_str("HTTP request failed: ");
        m.append(e);
        FlowError::OperationFailed(m)
    }
}

/// The recipients of a mail: one address, or the string elements of a list.
pub open spec fn string_elements(a: Seq<Json>) -> Seq<Seq<char>>
    decreases a.len(),
{
    if a.len() == 0 {
        seq![]
    } else {
        let r = string_elements(a.drop_last());
        match a.last() {
            Json::Str(s) => r.push(s),
            _ => r,
        }
    }
}

/// The recipients named by the `to` option.
pub open spec fn mail_recipients(options: Json) -> Result<Seq<Seq<char>>, Seq<char>> {
    match options.get("to"@) {
        None => Err("Missing 'to' recipient"@),
        Some(Json::Str(e)) => Ok(seq![e]),
        Some(Json::Arr(a)) => Ok(string_elements(a)),
        Some(_) => Err("Invalid 'to' format"@),
    }
}

impl MailOperation {
    /// The type name of this operation.
    pub fn operation_type(&self) -> (r: &'static str)
        ensures
            r@ == "mail"@,
    {
        "mail"
    }

    /// The recipients of the mail: `to` is required, and is one address or a
    /// list (its non-string elements are skipped).
    pub fn recipients(&self, options: &JsonValue) -> (r: Result<Vec<String>, FlowError>)
        ensures
            match mail_recipients(options@) {
                Ok(v) => r matches Ok(x) && views(x@) == v,
                Err(m) => r matches Err(FlowError::InvalidConfig(e)) && e@ == m,
            },
    {
        match options.get("to") {
            None => Err(FlowError::InvalidConfig(String::from_str("Missing 'to' recipient"))),
            Some(JsonValue::String(e)) => {
                let mut v: Vec<String> = Vec::new();
                v.push(e.clone());
                assert(views(v@) =~= seq![e@]);
                Ok(v)
            },
            Some(JsonValue::Array(a)) => {
                let ghost av = Seq::new(a@.len(), |i: int| a@[i]@);
                assert(options@.get("to"@) == Some(Json::Arr(av))) by {
                    assert(JsonValue::Array(*a)@->Arr_0 =~= av);
                }
                let mut v: Vec<String> = Vec::new();
                let mut i: usize = 0;
                assert(av.take(0) =~= Seq::<Json>::empty());
                assert(views(v@) =~= Seq::<Seq<char>>::empty());
                while i < a.len()
                    invariant
                        av == Seq::new(a@.len(), |i: int| a@[i]@),
                        i <= a@.len(),
                        views(v@) == string_elements(av.take(i as int)),
                    decreases a@.len() - i,
                {
                    proof {
                        assert(av.take(i as int + 1).drop_last() =~= av.take(i as int));
                        assert(av.take(i as int + 1).last() == a@[i as int]@);
                    }
                    match &a[i] {
                        JsonValue::String(s) => {
                            let ghost before = v@;
                            v.push(s.clone());
                            assert(views(v@) =~= views(before).push(s@));
                        },
                        _ => {},
                    }
                    i = i + 1;
                }
                assert(av.take(a@.len() as int) =~= av);
                Ok(v)
            },
            Some(_) => Err(FlowError::InvalidConfig(String::from_str("Invalid 'to' format"))),
        }
    }

    /// The subject (`(No subject)` by default).
    pub fn subject(&self, options: &JsonValue) -> (r: String)
        ensures
            r@ == str_opt_or(options@, "subject"@, "(No subject)"@),
    {
        str_opt_or_exec(options, "subject", "(No subject)")
    }

    /// The body text (empty by default).
    pub fn body(&self, options: &JsonValue) -> (r: String)
        ensures
            r@ == str_opt_or(options@, "body"@, ""@),
    {
        str_opt_or_exec(options, "body", "")
    }

    /// Whether SMTP is used over TLS: when `secure` is `true` or the port is 465.
    pub fn smtp_uses_tls(&self, secure: &str, port: u16) -> (r: bool)
        ensures
            r == (secure@ == "true"@ || port == 465),
    {
        str_eq(secure, "true") || port == 465
    }

    /// The error recorded when sending to `recipient` fails.
    pub fn send_error(&self, recipient: &str, e: &str) -> (r: String)
        ensures
            r@ == recipient@ + ": "@ + e@,
    {
        let mut m = String::from_str(recipient);
        m.append(": ");
        m.append(e);
        m
    }

    /// Counts the sends: how many succeeded, and the error of each failed
    /// one (`recipient: message`), recipient by recipient.
    pub fn tally(&self, recipients: &Vec<String>, outcomes: &Vec<Result<(), String>>) -> (r: (usize, Vec<String>))
        requires
            outcomes@.len() == recipients@.len(),
        ensures
            r.0 == sent_count(outcomes@),
            views(r.1@) == send_errors(views(recipients@), outcomes@),
    {
        let mut count: usize = 0;
        let mut errors: Vec<String> = Vec::new();
        let mut i: usize = 0;
        while i < outcomes.len()
            invariant
                outcomes@.len() == recipients@.len(),
                i <= outcomes@.len(),
                count == sent_count(outcomes@.take(i as int)),
                views(errors@) == send_errors(views(recipients@), outcomes@.take(i as int)),
            decreases outcomes@.len() - i,
        {
            let ghost t = outcomes@.take(i as int + 1);
            assert(t.drop_last() =~= outcomes@.take(i as int));
            proof {
                lemma_sent_count_bound(outcomes@.take(i as int));
            }
            match &outcomes[i] {
                Ok(()) => {
                    count = count + 1;
                },
                Err(e) => {
                    let m = self.send_error(recipients[i].as_str(), e.as_str());
                    let ghost before = errors@;
                    errors.push(m);
                    assert(views(errors@) =~= views(before).push(m@));
                },
            }
            i = i + 1;
        }
        assert(outcomes@.take(outcomes@.len() as int) =~= outcomes@);
        (count, errors)
    }

    /// The outcome after sending to every recipient.
    pub fn result(&self, sent_count: u64, recipients: &Vec<String>, subject: &str, errors: &Vec<String>) -> (r: JsonValue)
        ensures
            r@ == Json::Obj(seq![
                ("count"@, Json::Number(Num::PosInt(sent_count as nat))),
                ("errors"@, Json::Arr(Seq::new(errors@.len(), |i: int| Json::Str(errors@[i]@)))),
                ("sent"@, Json::Bool(sent_count > 0)),
                ("subject"@, Json::Str(subject@)),
                ("to"@, Json::Arr(Seq::new(recipients@.len(), |i: int| Json::Str(recipients@[i]@)))),
            ]),
    {
        let errs = string_array(errors);
        let to = string_array(recipients);
        let mut m: Vec<(String, JsonValue)> = Vec::new();
        m.push((String::from_str("count"), JsonValue::Number(crate::json::JsonNumber::PosInt(sent_count))));
        m.push((String::from_str("errors"), errs));
        m.push((String::from_str("sent"), JsonValue::Bool(sent_count > 0)));
        m.push((String::from_str("subject"), JsonValue::String(String::from_str(subject))));
        m.push((String::from_str("to"), to));
        let r = object_of(m);
        assert(members_view(m@) =~= seq![
            ("count"@, Json::Number(Num::PosInt(sent_count as nat))),
            ("errors"@, Json::Arr(Seq::new(errors@.len(), |i: int| Json::Str(errors@[i]@)))),
            ("sent"@, Json::Bool(sent_count > 0)),
            ("subject"@, Json::Str(subject@)),
            ("to"@, Json::Arr(Seq::new(recipients@.len(), |i: int| Json::Str(recipients@[i]@)))),
        ]);
        r
    }
}

/// How many of the sends succeeded.
pub open spec fn sent_count(outcomes: Seq<Result<(), String>>) -> nat
    decreases outcomes.len(),
{
    if outcomes.len() == 0 {
        0
    } else {
        sent_count(outcomes.drop_last()) + if outcomes.last() is Ok { 1nat } else { 0nat }
    }
}

/// The errors of the failed sends, `recipient: message`, in order.
pub open spec fn send_errors(recipients: Seq<Seq<char>>, outcomes: Seq<Result<(), String>>) -> Seq<Seq<char>>
    decreases outcomes.len(),
{
    if outcomes.len() == 0 {
        seq![]
    } else {
        let e = send_errors(recipients, outcomes.drop_last());
        match outcomes.last() {
            Ok(_) => e,
            Err(m) => e.push(recipients[outcomes.len() - 1] + ": "@ + m@),
        }
    }
}

proof fn lemma_sent_count_bound(outcomes: Seq<Result<(), String>>)
    ensures
        sent_count(outcomes) <= outcomes.len(),
    decreases outcomes.len(),
{
    if outcomes.len() > 0 {
        lemma_sent_count_bound(outcomes.drop_last());
    }
}

/// A JSON array of strings.
fn string_array(v: &Vec<String>) -> (r: JsonValue)
    ensures
        r@ == Json::Arr(Seq::new(v@.len(), |i: int| Json::Str(v@[i]@))),
{
    let mut out: Vec<JsonValue> = Vec::new();
    let mut i: usize = 0;
    while i < v.len()
        invariant
            i <= v@.len(),
            out@.len() == i,
            forall|k: int| 0 <= k < i ==> #[trigger] out@[k]@ == Json::Str(v@[k]@),
        decreases v@.len() - i,
    {
        out.push(JsonValue::String(v[i].clone()));
        i = i + 1;
    }
    let r = JsonValue::Array(out);
    assert(r@->Arr_0 =~= Seq::new(v@.len(), |i: int| Json::Str(v@[i]@))) by {
        let x = r@->Arr_0;
        assert forall|k: int| 0 <= k < x.len() implies x[k] == Json::Str(v@[k]@) by {
            assert(out@[k]@ == Json::Str(v@[k]@));
        }
    }
    r
}

/// The command and argument that run a script in runtime `name`; `None`
/// for automatic detection.
pub open spec fn runtime_command(name: Seq<char>) -> Option<(Seq<char>, Seq<char>)> {
    if name == "bun"@ {
        Some(("bun"@, "eval"@))
    } else if name == "node"@ {
        Some(("node"@, "-e"@))
    } else if name == "deno"@ {
        Some(("deno"@, "eval"@))
    } else {
        None
    }
}

/// The script run for the user code: it binds `data`, runs the code as an
/// async function and prints its JSON result (or `{"__error": ...}`).
pub open spec fn exec_script_text(data_json: Seq<char>, code: Seq<char>) -> Seq<char> {
    "const data = "@ + data_json + ";\nconst fn = (function() {\n    "@ + code
        + "\n});\ntry {\n    const result = await fn(data);\n    if (result !== undefined) {\n        console.log(JSON.stringify(result));\n    } else {\n        console.log(JSON.stringify(null));\n    }\n} catch (e) {\n    console.log(JSON.stringify({ \"__error\": e.message || String(e) }));\n}"@
}

impl ExecOperation {
    /// The type name of this operation.
    pub fn operation_type(&self) -> (r: &'static str)
        ensures
            r@ == "exec"@,
    {
        "exec"
    }

    /// The user code (`code`, required).
    pub fn code(&self, options: &JsonValue) -> (r: Result<String, FlowError>)
        ensures
            match get_str(options@, "code"@) {
                Some(c) => r matches Ok(x) && x@ == c,
                None => r matches Err(FlowError::InvalidConfig(m)) && m@ == "Missing 'code' option"@,
            },
    {
        match get_str_exec(options, "code") {
            Some(c) => Ok(String::from_str(c)),
            None => Err(FlowError::InvalidConfig(String::from_str("Missing 'code' option"))),
        }
    }

    /// The command of a named runtime (`None`: detect one).
    pub fn runtime_command(&self, name: &str) -> (r: Option<(&'static str, &'static str)>)
        ensures
            match runtime_command(name@) {
                Some((c, a)) => r matches Some((x, y)) && x@ == c && y@ == a,
                None => r is None,
            },
    {
        if str_eq(name, "bun") {
            Some(("bun", "eval"))
        } else if str_eq(name, "node") {
            Some(("node", "-e"))
        } else if str_eq(name, "deno") {
            Some(("deno", "eval"))
        } else {
            None
        }
    }

    /// The script that runs the user code on the data (given as JSON text).
    pub fn script(&self, data_json: &str, code: &str) -> (r: String)
        ensures
            r@ == exec_script_text(data_json@, code@),
    {
        let mut s = String::from_str("const data = ");
        s.append(data_json);
        s.append(";\nconst fn = (function() {\n    ");
        s.append(code);
        s.append("\n});\ntry {\n    const result = await fn(data);\n    if (result !== undefined) {\n        console.log(JSON.stringify(result));\n    } else {\n        console.log(JSON.stringify(null));\n    }\n} catch (e) {\n    console.log(JSON.stringify({ \"__error\": e.message || String(e) }));\n}");
        s
    }

    /// The outcome from the script's printed result: a reported error
    /// (`__error`) is a failure, anything else is the result.
    pub fn outcome(&self, result: JsonValue) -> (r: Result<JsonValue, FlowError>)
        ensures
            match result@.get("__error"@) {
                Some(e) => r matches Err(FlowError::OperationFailed(m)) && m@ == "Script error: "@ + match e.as_str() {
                    Some(t) => t,
                    None => "Unknown error"@,
                },
                None => r matches Ok(v) && v@ == result@,
            },
    {
        match result.get("__error") {
            Some(e) => {
                let mut m = String::from_str("Script error: ");
                match e.as_str() {
                    Some(t) => m.append(t),
                    None => m.append("Unknown error"),
                }
                Err(FlowError::OperationFailed(m))
            },
            None => Ok(result),
        }
    }

    /// The failure of a script that exited unsuccessfully.
    pub fn exit_failure(&self, code: i64, stderr: &str) -> (r: FlowError)
        ensures
            r matches FlowError::OperationFailed(m) && m@ == "Script exited with code "@ + signed_decimal(code as int) + ": "@ + trim(stderr@),
    {
        let mut m = String::from_str("Script exited with code ");
        push_signed_decimal(&mut m, code);
        m.append(": ");
        m.append(trim_str(stderr));
        FlowError::OperationFailed(m)
    }

    /// The failure of a script that ran past the time limit.
    pub fn timeout_failure(&self, timeout_ms: i64) -> (r: FlowError)
        ensures
            r matches FlowError::OperationFailed(m) && m@ == "Script execution timed out after "@ + signed_decimal(timeout_ms as int) + "ms"@,
    {
        let mut m = String::from_str("Script execution timed out after ");
        push_signed_decimal(&mut m, timeout_ms);
        m.append("ms");
        FlowError::OperationFailed(m)
    }
}

} // verus!
