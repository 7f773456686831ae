use nexus::flows::operations::{
    ConditionOperation, ExecOperation, ItemCreateOperation, ItemDeleteOperation, ItemUpdateOperation, JwtAction,
    JwtOperation, LogOperation, MailOperation, NotificationOperation, RequestOperation, SleepOperation,
    TransformOperation, TriggerOperation,
};
use nexus::flows::{
    finish_operation, operation_input, FlowDefinition, FlowError, FlowManager, FlowStep, OperationContext,
    OperationDefinition, TriggerType,
};
use nexus::json::{JsonNumber, JsonValue};

fn obj(members: Vec<(&str, JsonValue)>) -> JsonValue {
    JsonValue::Object(members.into_iter().map(|(k, v)| (k.to_string(), v)).collect())
}

fn s(t: &str) -> JsonValue {
    JsonValue::String(t.to_string())
}

fn num(n: u64) -> JsonValue {
    JsonValue::Number(JsonNumber::PosInt(n))
}

fn flow(id: &str, status: &str, trigger: TriggerType, options: Option<JsonValue>, op: Option<&str>) -> FlowDefinition {
    FlowDefinition {
        id: id.to_string(),
        name: id.to_string(),
        status: status.to_string(),
        trigger,
        accountability: Some("all".to_string()),
        options,
        operation: op.map(|o| o.to_string()),
        description: None,
        color: None,
        icon: None,
    }
}

fn op(id: &str, key: &str, ty: &str, resolve: Option<&str>, reject: Option<&str>) -> OperationDefinition {
    OperationDefinition {
        id: id.to_string(),
        name: None,
        key: key.to_string(),
        op_type: ty.to_string(),
        options: None,
        position_x: None,
        position_y: None,
        resolve: resolve.map(|r| r.to_string()),
        reject: reject.map(|r| r.to_string()),
        flow: "f".to_string(),
    }
}

#[test]
fn only_active_flows_are_loaded() {
    let mut m = FlowManager::new();
    m.load_flows(
        vec![
            flow("a", "active", TriggerType::Event, Some(obj(vec![("scope", s("items.create"))])), Some("o1")),
            flow("b", "inactive", TriggerType::Event, Some(obj(vec![("scope", s("items.create"))])), None),
            flow("c", "active", TriggerType::Webhook, None, None),
            flow("d", "active", TriggerType::Event, Some(obj(vec![("scope", s("items.create"))])), None),
        ],
        vec![op("o1", "first", "log", Some("o2"), None), op("o2", "second", "log", None, None)],
    );
    assert_eq!(m.get_event_flows("items.create"), vec!["a".to_string(), "d".to_string()]);
    assert!(m.find_flow("b").is_none());
    assert!(m.is_webhook_flow("c"));
    assert!(!m.is_webhook_flow("a"));
    assert!(matches!(m.start_flow("zzz", JsonValue::Null), Err(FlowError::NotFound)));
    match m.start_flow("c", JsonValue::Null) {
        Err(FlowError::InvalidConfig(msg)) => assert_eq!(msg, "Flow has no operations"),
        _ => panic!("Expected invalid config"),
    }
    let (ctx, first) = m.start_flow("a", num(7)).unwrap();
    assert_eq!(first, "o1");
    assert_eq!(ctx.accountability.as_deref(), Some("all"));
    assert!(matches!(ctx.get("$trigger"), Some(JsonValue::Number(JsonNumber::PosInt(7)))));
    match m.prepare_operation("o1") {
        Err(FlowError::OperationFailed(msg)) => assert_eq!(msg, "No handler registered for operation type: log"),
        _ => panic!("Expected missing handler"),
    }
    m.register_operation("log".to_string());
    assert_eq!(m.prepare_operation("o1").unwrap().key, "first");
}

#[test]
fn operation_chain_follows_resolve_and_reject() {
    let mut ctx = OperationContext::new("f", s("payload"));
    assert!(matches!(operation_input(&ctx), JsonValue::String(ref t) if t == "payload"));
    let o1 = op("o1", "first", "log", Some("o2"), Some("o3"));
    match finish_operation(&mut ctx, &o1, Ok(num(1))) {
        FlowStep::Next(n) => assert_eq!(n, "o2"),
        _ => panic!("Expected next"),
    }
    assert!(matches!(ctx.get("first"), Some(JsonValue::Number(JsonNumber::PosInt(1)))));
    assert!(matches!(operation_input(&ctx), JsonValue::Number(JsonNumber::PosInt(1))));
    let o2 = op("o2", "second", "log", None, None);
    match finish_operation(&mut ctx, &o2, Err(FlowError::Timeout)) {
        FlowStep::Done(Err(FlowError::Timeout)) => {}
        _ => panic!("Expected failure"),
    }
    match ctx.get("$last") {
        Some(JsonValue::Object(m)) => {
            assert_eq!(m[0].0, "error");
            assert!(matches!(&m[0].1, JsonValue::String(t) if t == "Timeout: operation exceeded time limit"));
            assert!(matches!(&m[1].1, JsonValue::String(t) if t == "second"));
        }
        _ => panic!("Expected error value"),
    }
}

#[test]
fn context_set_replaces() {
    let mut ctx = OperationContext::new("f", JsonValue::Null);
    ctx.set("k".to_string(), num(1));
    ctx.set("j".to_string(), num(2));
    ctx.set("k".to_string(), num(3));
    assert_eq!(ctx.data.len(), 2);
    assert!(matches!(ctx.get("k"), Some(JsonValue::Number(JsonNumber::PosInt(3)))));
    assert!(ctx.get("x").is_none());
}

#[test]
fn item_operations_echo_their_options() {
    let ctx = OperationContext::new("f", JsonValue::Null);
    let options = obj(vec![("collection", s("articles")), ("key", s("1"))]);
    match ItemCreateOperation.execute(JsonValue::Null, &options, &ctx).unwrap() {
        JsonValue::Object(m) => {
            assert_eq!(m.len(), 2);
            assert_eq!(m[1].0, "payload");
            assert!(matches!(&m[1].1, JsonValue::Object(p) if p.is_empty()));
        }
        _ => panic!("Expected object"),
    }
    match ItemUpdateOperation.execute(JsonValue::Null, &options, &ctx).unwrap() {
        JsonValue::Object(m) => assert_eq!(m.len(), 3),
        _ => panic!("Expected object"),
    }
    match ItemDeleteOperation.execute(JsonValue::Null, &obj(vec![]), &ctx) {
        Err(FlowError::InvalidConfig(msg)) => assert_eq!(msg, "Missing 'collection'"),
        _ => panic!("Expected invalid config"),
    }
    assert_eq!(ItemCreateOperation.operation_type(), "item-create");
}

#[test]
fn notification_and_trigger_results() {
    let ctx = OperationContext::new("f", JsonValue::Null);
    match NotificationOperation.execute(JsonValue::Null, &obj(vec![("recipient", s("u1"))]), &ctx).unwrap() {
        JsonValue::Object(m) => {
            assert_eq!(m.len(), 6);
            assert!(matches!(&m[0].1, JsonValue::Null));
            assert!(matches!(&m[5].1, JsonValue::String(t) if t == "Notification"));
        }
        _ => panic!("Expected object"),
    }
    match TriggerOperation.execute(num(4), &obj(vec![("flow", s("other"))]), &ctx).unwrap() {
        JsonValue::Object(m) => assert!(matches!(&m[1].1, JsonValue::Number(JsonNumber::PosInt(4)))),
        _ => panic!("Expected object"),
    }
    match TriggerOperation.execute(num(4), &obj(vec![]), &ctx) {
        Err(FlowError::InvalidConfig(msg)) => assert_eq!(msg, "Missing 'flow' ID"),
        _ => panic!("Expected invalid config"),
    }
}

#[test]
fn transform_resolves_placeholders() {
    let mut ctx = OperationContext::new("f", JsonValue::Null);
    ctx.set(
        "$trigger".to_string(),
        obj(vec![("body", obj(vec![("names", JsonValue::Array(vec![s("ann"), s("bob")]))]))]),
    );
    let options = obj(vec![(
        "json",
        obj(vec![
            ("second", s("{{ $trigger.body.names.1 }}")),
            ("missing", s("{{nothing.here}}")),
            ("plain", s("text")),
            ("out_of_range", s("{{$trigger.body.names.+7}}")),
        ]),
    )]);
    match TransformOperation.execute(JsonValue::Null, &options, &ctx).unwrap() {
        JsonValue::Object(m) => {
            assert!(matches!(&m[0].1, JsonValue::String(t) if t == "bob"));
            assert!(matches!(&m[1].1, JsonValue::Null));
            assert!(matches!(&m[2].1, JsonValue::String(t) if t == "text"));
            assert!(matches!(&m[3].1, JsonValue::Null));
        }
        _ => panic!("Expected object"),
    }
    assert!(matches!(TransformOperation.execute(num(1), &obj(vec![]), &ctx).unwrap(), JsonValue::Number(JsonNumber::PosInt(1))));
}

#[test]
fn sleep_log_and_condition() {
    assert_eq!(SleepOperation.duration_ms(&obj(vec![])), 1000);
    assert_eq!(SleepOperation.duration_ms(&obj(vec![("milliseconds", num(90000))])), 60000);
    assert_eq!(SleepOperation.duration_ms(&obj(vec![("milliseconds", s("5"))])), 1000);
    assert_eq!(LogOperation.message(&obj(vec![])), "Flow log");
    assert!(ConditionOperation.conclude(num(1), true).is_ok());
    match ConditionOperation.conclude(num(1), false) {
        Err(FlowError::OperationFailed(m)) => assert_eq!(m, "Condition not met"),
        _ => panic!("Expected failure"),
    }
}

#[test]
fn jwt_request_mail_and_exec_decisions() {
    match JwtOperation.plan(&obj(vec![("secret", s("k"))])).unwrap() {
        JwtAction::Sign { secret, payload } => {
            assert_eq!(secret, "k");
            assert!(matches!(payload, JsonValue::Object(p) if p.is_empty()));
        }
        _ => panic!("Expected sign"),
    }
    match JwtOperation.plan(&obj(vec![("operation", s("rotate"))])) {
        Err(FlowError::InvalidConfig(m)) => assert_eq!(m, "Unknown JWT operation: rotate"),
        _ => panic!("Expected invalid config"),
    }
    let plan = RequestOperation
        .plan(&obj(vec![
            ("url", s("http://x")),
            ("method", s("post")),
            ("headers", obj(vec![("A", s("1")), ("B", num(2))])),
        ]))
        .unwrap();
    assert_eq!(plan.method, "POST");
    assert_eq!(plan.headers, vec![("A".to_string(), "1".to_string())]);
    match RequestOperation.plan(&obj(vec![("url", s("http://x")), ("method", s("trace"))])) {
        Err(FlowError::InvalidConfig(m)) => assert_eq!(m, "Unsupported HTTP method: TRACE"),
        _ => panic!("Expected invalid config"),
    }
    let to = MailOperation.recipients(&obj(vec![("to", JsonValue::Array(vec![s("a@x"), num(1), s("b@x")]))])).unwrap();
    assert_eq!(to, vec!["a@x".to_string(), "b@x".to_string()]);
    match MailOperation.recipients(&obj(vec![("to", num(1))])) {
        Err(FlowError::InvalidConfig(m)) => assert_eq!(m, "Invalid 'to' format"),
        _ => panic!("Expected invalid config"),
    }
    assert!(MailOperation.smtp_uses_tls("false", 465));
    assert!(!MailOperation.smtp_uses_tls("no", 587));
    assert_eq!(ExecOperation.runtime_command("node"), Some(("node", "-e")));
    assert_eq!(ExecOperation.runtime_command("auto"), None);
    match ExecOperation.outcome(obj(vec![("__error", s("boom"))])) {
        Err(FlowError::OperationFailed(m)) => assert_eq!(m, "Script error: boom"),
        _ => panic!("Expected failure"),
    }
    assert!(ExecOperation.script("{}", "return 1;").starts_with("const data = {};"));
}

#[test]
fn mail_sends_are_tallied_per_recipient() {
    let to = vec!["a@x".to_string(), "b@x".to_string(), "c@x".to_string()];
    let outcomes = vec![Ok(()), Err("refused".to_string()), Ok(())];
    let (count, errors) = MailOperation.tally(&to, &outcomes);
    assert_eq!(count, 2);
    assert_eq!(errors, vec!["b@x: refused".to_string()]);
}
