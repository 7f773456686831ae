//! Flows: definitions, the per-run operation context, and the registry that
//! decides which flows run and how an operation chain proceeds.

pub mod operations;

use vstd::prelude::*;
use vstd::string::*;
use crate::json::{get_str, get_str_exec, lemma_object_view, members_view, obj_get, object_of, set_entry, set_member, Json, JsonValue};
use crate::text::{str_eq, views};
use crate::search::{last_where, lemma_last_where_found, lemma_last_where_none};
use crate::database::query::{opt_view, copy_opt_string};

verus! {

/// Errors of running a flow.
#[derive(Debug, Clone)]
pub enum FlowError {
    NotFound,
    OperationFailed(String),
    InvalidConfig(String),
    Timeout,
    Internal(String),
}

/// The message of a flow error.
pub open spec fn spec_flow_error_message(e: FlowError) -> Seq<char> {
    match e {
        FlowError::NotFound => "Flow not found"@,
        FlowError::OperationFailed(m) => "Operation failed: "@ + m@,
        FlowError::InvalidConfig(m) => "Invalid configuration: "@ + m@,
        FlowError::Timeout => "Timeout: operation exceeded time limit"@,
        FlowError::Internal(m) => "Internal error: "@ + m@,
    }
}

impl FlowError {
    /// The message of this error.
    pub fn message(&self) -> (r: String)
        ensures
            r@ == spec_flow_error_message(*self),
    {
        match self {
            FlowError::NotFound => String::from_str("Flow not found"),
            FlowError::OperationFailed(m) => {
                let mut r = String::from_str("Operation failed: ");
                r.append(m.as_str());
                r
            },
            FlowError::InvalidConfig(m) => {
                let mut r = String::from_str("Invalid configuration: ");
                r.append(m.as_str());
                r
            },
            FlowError::Timeout => String::from_str("Timeout: operation exceeded time limit"),
            FlowError::Internal(m) => {
                let mut r = String::from_str("Internal error: ");
                r.append(m.as_str());
                r
            },
        }
    }
}

/// What starts a flow.
#[derive(Debug, Clone, Copy, PartialEq, Eq, Structural)]
pub enum TriggerType {
    Event,
    Schedule,
    Webhook,
    Operation,
    Manual,
}

/// The serialized (snake case) name of a trigger type.
pub open spec fn spec_trigger_name(t: TriggerType) -> Seq<char> {
    match t {
        TriggerType::Event => "event"@,
        TriggerType::Schedule => "schedule"@,
        TriggerType::Webhook => "webhook"@,
        TriggerType::Operation => "operation"@,
        TriggerType::Manual => "manual"@,
    }
}

impl TriggerType {
    /// The serialized name of this trigger type.
    pub fn name(&self) -> (r: &'static str)
        ensures
            r@ == spec_trigger_name(*self),
    {
        match self {
            TriggerType::Event => "event",
            TriggerType::Schedule => "schedule",
            TriggerType::Webhook => "webhook",
            TriggerType::Operation => "operation",
            TriggerType::Manual => "manual",
        }
    }
}

/// A flow as stored.
#[derive(Debug)]
pub struct FlowDefinition {
    pub id: String,
    pub name: String,
    pub status: String,
    pub trigger: TriggerType,
    pub accountability: Option<String>,
    pub options: Option<JsonValue>,
    pub operation: Option<String>,
    pub description: Option<String>,
    pub color: Option<String>,
    pub icon: Option<String>,
}

/// An operation of a flow as stored: what runs next on success (`resolve`)
/// and on failure (`reject`).
#[derive(Debug)]
pub struct OperationDefinition {
    pub id: String,
    pub name: Option<String>,
    pub key: String,
    pub op_type: String,
    pub options: Option<JsonValue>,
    pub position_x: Option<i32>,
    pub position_y: Option<i32>,
    pub resolve: Option<String>,
    pub reject: Option<String>,
    pub flow: String,
}

/// Mathematical view of a flow: every field, as stored.
pub struct FlowSpec {
    pub id: Seq<char>,
    pub name: Seq<char>,
    pub status: Seq<char>,
    pub trigger: TriggerType,
    pub accountability: Option<Seq<char>>,
    pub options: Option<Json>,
    pub operation: Option<Seq<char>>,
    pub description: Option<Seq<char>>,
    pub color: Option<Seq<char>>,
    pub icon: Option<Seq<char>>,
}

/// Mathematical view of an operation: every field, as stored.
pub struct OpSpec {
    pub id: Seq<char>,
    pub name: Option<Seq<char>>,
    pub key: Seq<char>,
    pub op_type: Seq<char>,
    pub options: Option<Json>,
    pub position_x: Option<i32>,
    pub position_y: Option<i32>,
    pub resolve: Option<Seq<char>>,
    pub reject: Option<Seq<char>>,
    pub flow: Seq<char>,
}

/// View of an optional JSON value.
pub open spec fn opt_json(o: Option<JsonValue>) -> Option<Json> {
    match o {
        Some(v) => Some(v@),
        None => None,
    }
}

impl FlowDefinition {
    pub open spec fn view(&self) -> FlowSpec {
        FlowSpec {
            id: self.id@,
            name: self.name@,
            status: self.status@,
            trigger: self.trigger,
            accountability: opt_view(self.accountability),
            options: opt_json(self.options),
            operation: opt_view(self.operation),
            description: opt_view(self.description),
            color: opt_view(self.color),
            icon: opt_view(self.icon),
        }
    }
}

impl OperationDefinition {
    pub open spec fn view(&self) -> OpSpec {
        OpSpec {
            id: self.id@,
            name: opt_view(self.name),
            key: self.key@,
            op_type: self.op_type@,
            options: opt_json(self.options),
            position_x: self.position_x,
            position_y: self.position_y,
            resolve: opt_view(self.resolve),
            reject: opt_view(self.reject),
            flow: self.flow@,
        }
    }
}

/// Views of a list of flows.
pub open spec fn flow_views(v: Seq<FlowDefinition>) -> Seq<FlowSpec> {
    Seq::new(v.len(), |i: int| v[i].view())
}

/// Views of a list of operations.
pub open spec fn op_views(v: Seq<OperationDefinition>) -> Seq<OpSpec> {
    Seq::new(v.len(), |i: int| v[i].view())
}

/// The data of one flow run: results of earlier operations by key (`$last`
/// and `$trigger` among them) and the payload that started the run.
#[derive(Debug)]
pub struct OperationContext {
    pub flow_id: String,
    pub accountability: Option<String>,
    pub data: Vec<(String, JsonValue)>,
    pub trigger_payload: JsonValue,
}

impl OperationContext {
    /// A context for a run of `flow_id` started with `trigger_payload`, with
    /// no data yet.
    pub fn new(flow_id: &str, trigger_payload: JsonValue) -> (r: OperationContext)
        ensures
            r.flow_id@ == flow_id@,
            r.accountability is None,
            r.data@.len() == 0,
            r.trigger_payload@ == trigger_payload@,
    {
        OperationContext {
            flow_id: String::from_str(flow_id),
            accountability: None,
            data: Vec::new(),
            trigger_payload: trigger_payload,
        }
    }

    /// The data stored under `key`.
    pub fn get(&self, key: &str) -> (r: Option<&JsonValue>)
        ensures
            match r {
                Some(v) => obj_get(members_view(self.data@), key@) == Some(v@),
                None => obj_get(members_view(self.data@), key@) is None,
            },
    {
        proof {
            lemma_object_view(&self.data);
        }
        let whole = &self.data;
        let mut i: usize = 0;
        let ghost m = members_view(self.data@);
        assert(m.skip(0) =~= m);
        while i < whole.len()
            invariant
                m == members_view(self.data@),
                *whole == self.data,
                i <= whole@.len(),
                obj_get(m, key@) == obj_get(m.skip(i as int), key@),
            decreases whole@.len() - i,
        {
            assert(m.skip(i as int)[0] == m[i as int]);
            if str_eq(whole[i].0.as_str(), key) {
                return Some(&whole[i].1);
            }
            assert(m.skip(i as int).skip(1) =~= m.skip(i as int + 1));
            i = i + 1;
        }
        None
    }

    /// Stores `value` under `key`, replacing what was stored there.
    pub fn set(&mut self, key: String, value: JsonValue)
        ensures
            members_view(final(self).data@) == set_entry(members_view(old(self).data@), key@, value@),
            final(self).flow_id == old(self).flow_id,
            final(self).accountability == old(self).accountability,
            final(self).trigger_payload == old(self).trigger_payload,
    {
        set_member(&mut self.data, key, value);
    }
}

/// The flows that take part: those whose status is `active`, in order.
pub open spec fn active_flows(flows: Seq<FlowSpec>) -> Seq<FlowSpec>
    decreases flows.len(),
{
    if flows.len() == 0 {
        seq![]
    } else {
        let r = active_flows(flows.drop_last());
        if flows.last().status == "active"@ { r.push(flows.last()) } else { r }
    }
}

/// The flow has id `id`.
pub open spec fn flow_id_pred(id: Seq<char>) -> spec_fn(FlowSpec) -> bool {
    |f: FlowSpec| f.id == id
}

/// The operation has id `id`.
pub open spec fn op_id_pred(id: Seq<char>) -> spec_fn(OpSpec) -> bool {
    |o: OpSpec| o.id == id
}

/// The flow is started by the event scope `scope`.
pub open spec fn on_scope(f: FlowSpec, scope: Seq<char>) -> bool {
    f.trigger == TriggerType::Event && match f.options {
        Some(o) => get_str(o, "scope"@) == Some(scope),
        None => false,
    }
}

/// Ids of the flows started by the event scope `scope`, in order.
pub open spec fn event_flow_ids(flows: Seq<FlowSpec>, scope: Seq<char>) -> Seq<Seq<char>>
    decreases flows.len(),
{
    if flows.len() == 0 {
        seq![]
    } else {
        let r = event_flow_ids(flows.drop_last(), scope);
        if on_scope(flows.last(), scope) { r.push(flows.last().id) } else { r }
    }
}

/// The loaded flows (active ones; a later flow with the same id hides an
/// earlier one), operations (likewise by id) and registered operation types.
pub struct FlowManager {
    flows: Vec<FlowDefinition>,
    operations: Vec<OperationDefinition>,
    handlers: Vec<String>,
}

/// What a flow run does next after an operation: run another operation, or
/// end with a result.
#[derive(Debug)]
pub enum FlowStep {
    Next(String),
    Done(Result<JsonValue, FlowError>),
}

impl FlowManager {
    /// Views of the loaded active flows.
    pub closed spec fn flows_view(&self) -> Seq<FlowSpec> {
        flow_views(self.flows@)
    }

    /// Views of the loaded operations.
    pub closed spec fn ops_view(&self) -> Seq<OpSpec> {
        op_views(self.operations@)
    }

    /// The registered operation types.
    pub closed spec fn handlers_view(&self) -> Seq<Seq<char>> {
        views(self.handlers@)
    }

    /// A manager with nothing loaded or registered.
    pub fn new() -> (r: FlowManager)
        ensures
            r.flows_view().len() == 0,
            r.ops_view().len() == 0,
            r.handlers_view().len() == 0,
    {
        FlowManager { flows: Vec::new(), operations: Vec::new(), handlers: Vec::new() }
    }

    /// Registers an operation implementation by its type name.
    pub fn register_operation(&mut self, op_type: String)
        ensures
            final(self).handlers_view() == old(self).handlers_view().push(op_type@),
            final(self).flows_view() == old(self).flows_view(),
            final(self).ops_view() == old(self).ops_view(),
    {
        let ghost before = self.handlers@;
        self.handlers.push(op_type);
        assert(views(self.handlers@) =~= views(before).push(op_type@));
    }

    /// Replaces what is loaded: the active flows, and all operations.
    pub fn load_flows(&mut self, flows: Vec<FlowDefinition>, operations: Vec<OperationDefinition>)
        ensures
            final(self).flows_view() == active_flows(flow_views(flows@)),
            final(self).ops_view() == op_views(operations@),
            final(self).handlers_view() == old(self).handlers_view(),
    {
        let ghost fv = flow_views(flows@);
        let mut kept: Vec<FlowDefinition> = Vec::new();
        let mut rest = flows;
        let ghost all = rest@;
        proof {
            assert(fv.take(0) =~= Seq::<FlowSpec>::empty());
            assert(flow_views(kept@) =~= Seq::<FlowSpec>::empty());
        }
        let n = rest.len();
        let mut i: usize = 0;
        assert(rest@ =~= all.skip(0));
        while i < n
            invariant
                fv == flow_views(all),
                n == all.len(),
                i <= n,
                rest@ == all.skip(i as int),
                flow_views(kept@) == active_flows(fv.take(i as int)),
            decreases n - i,
        {
            let f = rest.remove(0);
            proof {
                assert(f == all[i as int]);
                assert(rest@ =~= all.skip(i as int + 1));
                assert(fv.take(i as int + 1).drop_last() =~= fv.take(i as int));
                assert(fv.take(i as int + 1).last() == f.view());
            }
            if str_eq(f.status.as_str(), "active") {
                let ghost kv = kept@;
                kept.push(f);
                assert(flow_views(kept@) =~= flow_views(kv).push(f.view()));
            }
            i = i + 1;
        }
        assert(fv.take(n as int) =~= fv);
        self.flows = kept;
        self.operations = operations;
    }

    /// The loaded flow with id `id` (the last one loaded with that id).
    pub fn find_flow(&self, id: &str) -> (r: Option<&FlowDefinition>)
        ensures
            match r {
                Some(f) => last_where(self.flows_view(), flow_id_pred(id@)) matches Some(k) && self.flows_view()[k] == f.view(),
                None => last_where(self.flows_view(), flow_id_pred(id@)) is None,
            },
    {
        let ghost fv = self.flows_view();
        let mut i: usize = self.flows.len();
        while i > 0
            invariant
                fv == flow_views(self.flows@),
                i <= self.flows@.len(),
                forall|j: int| i <= j < fv.len() ==> !flow_id_pred(id@)(#[trigger] fv[j]),
            decreases i,
        {
            i = i - 1;
            if str_eq(self.flows[i].id.as_str(), id) {
                proof {
                    lemma_last_where_found(fv, flow_id_pred(id@), i as int);
                }
                return Some(&self.flows[i]);
            }
        }
        proof {
            lemma_last_where_none(fv, flow_id_pred(id@));
        }
        None
    }

    /// The loaded operation with id `id` (the last one loaded with that id).
    pub fn find_operation(&self, id: &str) -> (r: Option<&OperationDefinition>)
        ensures
            match r {
                Some(o) => last_where(self.ops_view(), op_id_pred(id@)) matches Some(k) && self.ops_view()[k] == o.view(),
                None => last_where(self.ops_view(), op_id_pred(id@)) is None,
            },
    {
        let ghost ov = self.ops_view();
        let mut i: usize = self.operations.len();
        while i > 0
            invariant
                ov == op_views(self.operations@),
                i <= self.operations@.len(),
                forall|j: int| i <= j < ov.len() ==> !op_id_pred(id@)(#[trigger] ov[j]),
            decreases i,
        {
            i = i - 1;
            if str_eq(self.operations[i].id.as_str(), id) {
                proof {
                    lemma_last_where_found(ov, op_id_pred(id@), i as int);
                }
                return Some(&self.operations[i]);
            }
        }
        proof {
            lemma_last_where_none(ov, op_id_pred(id@));
        }
        None
    }

    /// Whether an implementation is registered for `op_type`.
    pub fn has_handler(&self, op_type: &str) -> (r: bool)
        ensures
            r == self.handlers_view().contains(op_type@),
    {
        let ghost hv = self.handlers_view();
        let mut i: usize = 0;
        while i < self.handlers.len()
            invariant
                hv == views(self.handlers@),
                i <= self.handlers@.len(),
                forall|j: int| 0 <= j < i ==> #[trigger] hv[j] != op_type@,
            decreases self.handlers@.len() - i,
        {
            if str_eq(self.handlers[i].as_str(), op_type) {
                assert(hv[i as int] == op_type@);
                return true;
            }
            i = i + 1;
        }
        false
    }

    /// Ids of the loaded flows that the event scope `scope` starts, in order.
    pub fn get_event_flows(&self, scope: &str) -> (r: Vec<String>)
        ensures
            views(r@) == event_flow_ids(self.flows_view(), scope@),
    {
        let ghost fv = self.flows_view();
        let mut r: Vec<String> = Vec::new();
        let mut i: usize = 0;
        assert(fv.take(0) =~= Seq::<FlowSpec>::empty());
        assert(views(r@) =~= Seq::<Seq<char>>::empty());
        while i < self.flows.len()
            invariant
                fv == flow_views(self.flows@),
                i <= self.flows@.len(),
                views(r@) == event_flow_ids(fv.take(i as int), scope@),
            decreases self.flows@.len() - i,
        {
            proof {
                assert(fv.take(i as int + 1).drop_last() =~= fv.take(i as int));
                assert(fv.take(i as int + 1).last() == fv[i as int]);
            }
            let f = &self.flows[i];
            let hit = match f.trigger {
                TriggerType::Event => match &f.options {
                    Some(o) => match get_str_exec(o, "scope") {
                        Some(s) => str_eq(s, scope),
                        None => false,
                    },
                    None => false,
                },
                _ => false,
            };
            if hit {
                let ghost rv = r@;
                r.push(f.id.clone());
                assert(views(r@) =~= views(rv).push(f.id@));
            }
            i = i + 1;
        }
        assert(fv.take(self.flows@.len() as int) =~= fv);
        r
    }

    /// Whether a loaded flow with id `flow_id` is started by webhook.
    pub fn is_webhook_flow(&self, flow_id: &str) -> (r: bool)
        ensures
            r == exists|k: int| 0 <= k < self.flows_view().len() && #[trigger] self.flows_view()[k].id == flow_id@
                && self.flows_view()[k].trigger == TriggerType::Webhook,
    {
        let ghost fv = self.flows_view();
        let mut i: usize = 0;
        while i < self.flows.len()
            invariant
                fv == flow_views(self.flows@),
                i <= self.flows@.len(),
                forall|j: int| 0 <= j < i ==> !(#[trigger] fv[j].id == flow_id@ && fv[j].trigger == TriggerType::Webhook),
            decreases self.flows@.len() - i,
        {
            let f = &self.flows[i];
            if str_eq(f.id.as_str(), flow_id) && f.trigger == TriggerType::Webhook {
                assert(fv[i as int].id == flow_id@);
                return true;
            }
            i = i + 1;
        }
        false
    }

    /// Starts a run of flow `flow_id`: the context (accountability of the
    /// flow, the payload stored as `$trigger`) and the first operation to
    /// run. Unknown flows, inactive flows and flows without operations are
    /// errors.
    pub fn start_flow(&self, flow_id: &str, trigger_payload: JsonValue) -> (r: Result<(OperationContext, String), FlowError>)
        ensures
            last_where(self.flows_view(), flow_id_pred(flow_id@)) is None ==> r matches Err(FlowError::NotFound),
            last_where(self.flows_view(), flow_id_pred(flow_id@)) matches Some(k) ==> {
                let f = self.flows_view()[k];
                if f.status != "active"@ {
                    r matches Err(FlowError::InvalidConfig(m)) && m@ == "Flow is not active"@
                } else if f.operation is None {
                    r matches Err(FlowError::InvalidConfig(m)) && m@ == "Flow has no operations"@
                } else {
                    r matches Ok((ctx, first)) && first@ == f.operation->Some_0
                        && ctx.flow_id@ == flow_id@
                        && opt_view(ctx.accountability) == f.accountability
                        && ctx.trigger_payload@ == trigger_payload@
                        && members_view(ctx.data@) == seq![("$trigger"@, trigger_payload@)]
                }
            },
    {
        let flow = match self.find_flow(flow_id) {
            Some(f) => f,
            None => {
                return Err(FlowError::NotFound);
            },
        };
        if !str_eq(flow.status.as_str(), "active") {
            return Err(FlowError::InvalidConfig(String::from_str("Flow is not active")));
        }
        let first = match &flow.operation {
            Some(op) => op.clone(),
            None => {
                return Err(FlowError::InvalidConfig(String::from_str("Flow has no operations")));
            },
        };
        let mut ctx = OperationContext::new(flow_id, trigger_payload.copy());
        ctx.accountability = copy_opt_string(&flow.accountability);
        proof {
            reveal_strlit("$trigger");
            assert(members_view(ctx.data@) =~= Seq::<(Seq<char>, Json)>::empty());
        }
        ctx.set(String::from_str("$trigger"), trigger_payload);
        Ok((ctx, first))
    }

    /// Looks up operation `operation_id` for running: unknown operations are
    /// `NotFound`, and an operation type without a registered implementation
    /// is an operation failure naming the type.
    pub fn prepare_operation(&self, operation_id: &str) -> (r: Result<&OperationDefinition, FlowError>)
        ensures
            last_where(self.ops_view(), op_id_pred(operation_id@)) is None ==> r matches Err(FlowError::NotFound),
            last_where(self.ops_view(), op_id_pred(operation_id@)) matches Some(k) ==> {
                let o = self.ops_view()[k];
                if self.handlers_view().contains(o.op_type) {
                    r matches Ok(d) && d.view() == o
                } else {
                    r matches Err(FlowError::OperationFailed(m)) && m@ == "No handler registered for operation type: "@ + o.op_type
                }
            },
    {
        let op = match self.find_operation(operation_id) {
            Some(o) => o,
            None => {
                return Err(FlowError::NotFound);
            },
        };
        if self.has_handler(op.op_type.as_str()) {
            Ok(op)
        } else {
            let mut m = String::from_str("No handler registered for operation type: ");
            m.append(op.op_type.as_str());
            Err(FlowError::OperationFailed(m))
        }
    }
}

/// The data an operation runs on: the last result (`$last`), or the trigger
/// payload when no operation has run yet.
pub fn operation_input(ctx: &OperationContext) -> (r: JsonValue)
    ensures
        r@ == match obj_get(members_view(ctx.data@), "$last"@) {
            Some(v) => v,
            None => ctx.trigger_payload@,
        },
{
    match ctx.get("$last") {
        Some(v) => v.copy(),
        None => ctx.trigger_payload.copy(),
    }
}

/// The options an operation runs with (`null` when it has none).
pub fn operation_options(op: &OperationDefinition) -> (r: JsonValue)
    ensures
        r@ == match op.view().options {
            Some(o) => o,
            None => Json::Null,
        },
{
    match &op.options {
        Some(o) => o.copy(),
        None => JsonValue::Null,
    }
}

/// The operation that runs next gets what the last one produced: once
/// `finish_operation` has recorded an outcome (a result, or a failure's
/// error value) under the operation's key and `$last`, `operation_input`
/// yields that value; and what ran earlier stays readable under its key.
pub proof fn lemma_next_input_is_last_outcome(data: Seq<(Seq<char>, Json)>, key: Seq<char>, v: Json, other: Seq<char>)
    ensures
        obj_get(set_entry(set_entry(data, key, v), "$last"@, v), "$last"@) == Some(v),
        key != "$last"@ ==> obj_get(set_entry(set_entry(data, key, v), "$last"@, v), key) == Some(v),
        other != key && other != "$last"@ ==> obj_get(set_entry(set_entry(data, key, v), "$last"@, v), other) == obj_get(data, other),
{
    crate::json::lemma_set_entry_get(set_entry(data, key, v), "$last"@, v, key);
    crate::json::lemma_set_entry_get(set_entry(data, key, v), "$last"@, v, other);
    crate::json::lemma_set_entry_get(data, key, v, other);
}

/// The value stored for a failed operation: `{"error": message, "operation": key}`.
pub open spec fn error_value(e: FlowError, key: Seq<char>) -> Json {
    Json::Obj(seq![("error"@, Json::Str(spec_flow_error_message(e))), ("operation"@, Json::Str(key))])
}

/// Records the outcome of operation `op` in the context (under its key and
/// as `$last`; a failure is recorded as its error value) and decides what
/// runs next: the `resolve` operation after success, the `reject` operation
/// after failure, or the end of the run with that outcome.
pub fn finish_operation(ctx: &mut OperationContext, op: &OperationDefinition, outcome: Result<JsonValue, FlowError>) -> (r: FlowStep)
    ensures
        final(ctx).flow_id == old(ctx).flow_id,
        final(ctx).trigger_payload == old(ctx).trigger_payload,
        match outcome {
            Ok(v) => {
                &&& members_view(final(ctx).data@) == set_entry(set_entry(members_view(old(ctx).data@), op.key@, v@), "$last"@, v@)
                &&& match op.view().resolve {
                    Some(next) => r matches FlowStep::Next(n) && n@ == next,
                    None => r matches FlowStep::Done(Ok(x)) && x@ == v@,
                }
            },
            Err(e) => {
                &&& members_view(final(ctx).data@) == set_entry(set_entry(members_view(old(ctx).data@), op.key@, error_value(e, op.key@)), "$last"@, error_value(e, op.key@))
                &&& match op.view().reject {
                    Some(next) => r matches FlowStep::Next(n) && n@ == next,
                    None => r matches FlowStep::Done(Err(x)) && x == e,
                }
            },
        },
{
    proof {
        reveal_strlit("$last");
    }
    match outcome {
        Ok(result) => {
            ctx.set(op.key.clone(), result.copy());
            ctx.set(String::from_str("$last"), result.copy());
            match &op.resolve {
                Some(next) => FlowStep::Next(next.clone()),
                None => FlowStep::Done(Ok(result)),
            }
        },
        Err(e) => {
            let mut members: Vec<(String, JsonValue)> = Vec::new();
            members.push((String::from_str("error"), JsonValue::String(e.message())));
            members.push((String::from_str("operation"), JsonValue::String(op.key.clone())));
            let ev = object_of(members);
            assert(ev@ == error_value(e, op.key@)) by {
                assert(members_view(members@) =~= seq![("error"@, Json::Str(spec_flow_error_message(e))), ("operation"@, Json::Str(op.key@))]);
            }
            ctx.set(op.key.clone(), ev.copy());
            ctx.set(String::from_str("$last"), ev);
            match &op.reject {
                Some(next) => FlowStep::Next(next.clone()),
                None => FlowStep::Done(Err(e)),
            }
        },
    }
}

} // verus!
