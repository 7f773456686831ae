use nexus::env::{cast_prefixed, defaults, env_bool_or, env_number_or, env_string, env_string_or, file_target, parse_env_line, reset_env, CastStep};
use nexus::json::{JsonNumber, JsonValue};

fn lookup<'a>(env: &'a Vec<(String, JsonValue)>, key: &str) -> &'a JsonValue {
    &env.iter().find(|(k, _)| k == key).unwrap().1
}

#[test]
fn test_defaults_exist() {
    let d = defaults();
    assert!(d.iter().any(|(k, _)| k == "HOST"));
    assert!(d.iter().any(|(k, _)| k == "PORT"));
    assert!(matches!(lookup(&d, "PORT"), JsonValue::Number(JsonNumber::PosInt(8055))));
    assert!(matches!(lookup(&d, "HOST"), JsonValue::String(s) if s == "0.0.0.0"));
}

#[test]
fn test_defaults_auth_tokens() {
    let d = defaults();
    assert!(matches!(lookup(&d, "ACCESS_TOKEN_TTL"), JsonValue::String(s) if s == "15m"));
    assert!(matches!(lookup(&d, "REFRESH_TOKEN_TTL"), JsonValue::String(s) if s == "7d"));
}

#[test]
fn test_defaults_rate_limiter() {
    let d = defaults();
    assert!(matches!(lookup(&d, "RATE_LIMITER_ENABLED"), JsonValue::Bool(false)));
    assert!(matches!(lookup(&d, "RATE_LIMITER_POINTS"), JsonValue::Number(JsonNumber::PosInt(50))));
}

#[test]
fn test_defaults_storage() {
    let d = defaults();
    assert!(matches!(lookup(&d, "STORAGE_LOCATIONS"), JsonValue::String(s) if s == "local"));
    assert!(matches!(lookup(&d, "STORAGE_LOCAL_ROOT"), JsonValue::String(s) if s == "./uploads"));
}

#[test]
fn test_defaults_cache() {
    let d = defaults();
    assert!(matches!(lookup(&d, "CACHE_ENABLED"), JsonValue::Bool(false)));
    assert!(matches!(lookup(&d, "CACHE_STORE"), JsonValue::String(s) if s == "memory"));
}

fn env() -> Vec<(String, JsonValue)> {
    vec![
        ("NAME".to_string(), JsonValue::String("nexus".to_string())),
        ("PORT".to_string(), JsonValue::Number(JsonNumber::PosInt(8055))),
        ("TIMEOUT".to_string(), JsonValue::String("-15".to_string())),
        ("BIG".to_string(), JsonValue::Number(JsonNumber::PosInt(u64::MAX))),
        ("ON".to_string(), JsonValue::String("1".to_string())),
        ("OFF".to_string(), JsonValue::Bool(false)),
        (
            "LIST".to_string(),
            JsonValue::Array(vec![JsonValue::String("a\"b".to_string()), JsonValue::Null]),
        ),
    ]
}

#[test]
fn typed_reads_of_the_configuration() {
    reset_env();
    let e = env();
    assert_eq!(env_string_or(&e, "NAME", "x"), "nexus");
    assert_eq!(env_string_or(&e, "PORT", "x"), "8055");
    assert_eq!(env_string_or(&e, "MISSING", "x"), "x");
    assert_eq!(env_string(&e, "LIST"), Some("[\"a\\\"b\",null]".to_string()));
    assert_eq!(env_number_or(&e, "PORT", 1), 8055);
    assert_eq!(env_number_or(&e, "TIMEOUT", 1), -15);
    assert_eq!(env_number_or(&e, "BIG", 1), 1);
    assert_eq!(env_number_or(&e, "NAME", 1), 1);
    assert!(env_bool_or(&e, "ON", false));
    assert!(!env_bool_or(&e, "OFF", true));
    assert!(env_bool_or(&e, "PORT", true));
}

#[test]
fn dotenv_lines() {
    assert_eq!(parse_env_line("  KEY = \"value\"  "), Some(("KEY".to_string(), "value".to_string())));
    assert_eq!(parse_env_line("A='x=y'"), Some(("A".to_string(), "x=y".to_string())));
    assert_eq!(parse_env_line("# comment"), None);
    assert_eq!(parse_env_line("   "), None);
    assert_eq!(parse_env_line("NOVALUE"), None);
    assert_eq!(file_target("DB_PASSWORD_FILE"), Some("DB_PASSWORD".to_string()));
    assert_eq!(file_target("_FILE"), None);
}

#[test]
fn cast_prefixes_decide_values() {
    assert!(matches!(cast_prefixed("string:42"), CastStep::Value(JsonValue::String(ref t)) if t == "42"));
    assert!(matches!(cast_prefixed("boolean:1"), CastStep::Value(JsonValue::Bool(true))));
    assert!(matches!(cast_prefixed("boolean:yes"), CastStep::Value(JsonValue::Bool(false))));
    match cast_prefixed("array:a, b ,c") {
        CastStep::Value(JsonValue::Array(items)) => {
            let texts: Vec<String> = items
                .iter()
                .map(|v| match v {
                    JsonValue::String(t) => t.clone(),
                    _ => panic!("Expected text"),
                })
                .collect();
            assert_eq!(texts, vec!["a", "b", "c"]);
        }
        _ => panic!("Expected an array"),
    }
    assert!(matches!(cast_prefixed("number:3.5"), CastStep::Number(ref t) if t == "3.5"));
    assert!(matches!(cast_prefixed("json:{\"a\":1}"), CastStep::JsonText(ref t) if t == "{\"a\":1}"));
    assert!(matches!(cast_prefixed("other:x"), CastStep::Guess));
    assert!(matches!(cast_prefixed("plain"), CastStep::Guess));
}

fn decided(v: &str) -> JsonValue {
    match cast_prefixed(v) {
        CastStep::Value(j) => j,
        _ => panic!("Expected a decided value"),
    }
}

#[test]
fn test_cast_string_prefix() {
    assert!(matches!(decided("string:hello"), JsonValue::String(ref t) if t == "hello"));
    assert!(matches!(decided("string:123"), JsonValue::String(ref t) if t == "123"));
    assert!(matches!(decided("string:true"), JsonValue::String(ref t) if t == "true"));
}

#[test]
fn test_cast_boolean_prefix() {
    assert!(matches!(decided("boolean:true"), JsonValue::Bool(true)));
    assert!(matches!(decided("boolean:1"), JsonValue::Bool(true)));
    assert!(matches!(decided("boolean:false"), JsonValue::Bool(false)));
    assert!(matches!(decided("boolean:0"), JsonValue::Bool(false)));
}

#[test]
fn test_cast_array_prefix() {
    match decided("array:a,b,c") {
        JsonValue::Array(items) => {
            assert_eq!(items.len(), 3);
            for (item, want) in items.iter().zip(["a", "b", "c"]) {
                assert!(matches!(item, JsonValue::String(t) if t == want));
            }
        }
        _ => panic!("Expected an array"),
    }
}
