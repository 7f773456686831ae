//! Configuration values: typed reads of the environment map, and the syntax
//! of `.env` files.

use vstd::prelude::*;
use vstd::string::*;
use crate::json::{json_text, members_view, obj_get, write_json, Json, JsonNumber, JsonValue, Num};
use crate::text::{chars_of, ends_with, find_char, first_index, lemma_first_index, parse_i64, parse_i64_spec, starts_with, str_eq, string_of, strip_all_end, strip_all_end_exec, strip_all_start, strip_all_start_exec, sub_chars, trim, trim_str, split_on};

verus! {

/// The configuration: values by name (the first entry of a name counts).
pub type Env = Vec<(String, JsonValue)>;

/// The value configured under `key`.
pub open spec fn env_get(env: Seq<(String, JsonValue)>, key: Seq<char>) -> Option<Json> {
    obj_get(members_view(env), key)
}

/// Looks up `key`.
fn env_lookup<'a>(env: &'a Env, key: &str) -> (r: Option<&'a JsonValue>)
    ensures
        match r {
            Some(v) => env_get(env@, key@) == Some(v@),
            None => env_get(env@, key@) is None,
        },
{
    let ghost m = members_view(env@);
    let mut i: usize = 0;
    assert(m.skip(0) =~= m);
    while i < env.len()
        invariant
            m == members_view(env@),
            i <= env@.len(),
            obj_get(m, key@) == obj_get(m.skip(i as int), key@),
        decreases env@.len() - i,
    {
        assert(m.skip(i as int)[0] == m[i as int]);
        if str_eq(env[i].0.as_str(), key) {
            return Some(&env[i].1);
        }
        assert(m.skip(i as int).skip(1) =~= m.skip(i as int + 1));
        i = i + 1;
    }
    None
}

/// `s` without leading and trailing `"` characters.
pub open spec fn trim_quotes(s: Seq<char>) -> Seq<char> {
    strip_all_end(strip_all_start(s, seq!['"']), seq!['"'])
}

/// A configured value as text: strings as they are, other values as their
/// JSON text without surrounding quotes.
pub open spec fn spec_env_string(env: Seq<(String, JsonValue)>, key: Seq<char>) -> Option<Seq<char>> {
    match env_get(env, key) {
        Some(Json::Str(s)) => Some(s),
        Some(v) => Some(trim_quotes(json_text(v))),
        None => None,
    }
}

/// A configured value as text.
pub fn env_string(env: &Env, key: &str) -> (r: Option<String>)
    ensures
        match r {
            Some(s) => spec_env_string(env@, key@) == Some(s@),
            None => spec_env_string(env@, key@) is None,
        },
{
    match env_lookup(env, key) {
        Some(JsonValue::String(s)) => Some(s.clone()),
        Some(v) => {
            let mut t = String::new();
            write_json(v, &mut t);
            assert(t@ =~= json_text(v@));
            let cs = chars_of(t.as_str());
            let q = chars_of("\"");
            proof {
                reveal_strlit("\"");
                assert(q@ =~= seq!['"']);
            }
            let a = strip_all_start_exec(&cs, &q);
            let b = strip_all_end_exec(&a, &q);
            Some(string_of(&b))
        },
        None => None,
    }
}

/// A configured value as text, or `default` when it is not configured.
pub fn env_string_or(env: &Env, key: &str, default: &str) -> (r: String)
    ensures
        r@ == match spec_env_string(env@, key@) {
            Some(s) => s,
            None => default@,
        },
{
    match env_string(env, key) {
        Some(s) => s,
        None => String::from_str(default),
    }
}

/// A configured value as an integer: integer numbers that fit `i64`, and
/// strings that parse as one.
pub open spec fn spec_env_number(env: Seq<(String, JsonValue)>, key: Seq<char>) -> Option<int> {
    match env_get(env, key) {
        Some(Json::Number(n)) => Json::Number(n).as_i64(),
        Some(Json::Str(s)) => parse_i64_spec(s),
        _ => None,
    }
}

/// A configured value as an integer.
pub fn env_number(env: &Env, key: &str) -> (r: Option<i64>)
    ensures
        match r {
            Some(n) => spec_env_number(env@, key@) == Some(n as int),
            None => spec_env_number(env@, key@) is None,
        },
{
    match env_lookup(env, key) {
        Some(v) => match v {
            JsonValue::Number(_) => v.as_i64(),
            JsonValue::String(s) => {
                let cs = chars_of(s.as_str());
                parse_i64(&cs)
            },
            _ => None,
        },
        None => None,
    }
}

/// A configured value as an integer, or `default`.
pub fn env_number_or(env: &Env, key: &str, default: i64) -> (r: i64)
    ensures
        r as int == match spec_env_number(env@, key@) {
            Some(n) => n,
            None => default as int,
        },
{
    match env_number(env, key) {
        Some(n) => n,
        None => default,
    }
}

/// A configured value as a flag: booleans, and strings (`true` or `1` are true).
pub open spec fn spec_env_bool(env: Seq<(String, JsonValue)>, key: Seq<char>) -> Option<bool> {
    match env_get(env, key) {
        Some(Json::Bool(b)) => Some(b),
        Some(Json::Str(s)) => Some(s == "true"@ || s == "1"@),
        _ => None,
    }
}

/// A configured value as a flag.
pub fn env_bool(env: &Env, key: &str) -> (r: Option<bool>)
    ensures
        r == spec_env_bool(env@, key@),
{
    match env_lookup(env, key) {
        Some(JsonValue::Bool(b)) => Some(*b),
        Some(JsonValue::String(s)) => Some(str_eq(s.as_str(), "true") || str_eq(s.as_str(), "1")),
        _ => None,
    }
}

/// A configured value as a flag, or `default`.
pub fn env_bool_or(env: &Env, key: &str, default: bool) -> (r: bool)
    ensures
        r == match spec_env_bool(env@, key@) {
            Some(b) => b,
            None => default,
        },
{
    match env_bool(env, key) {
        Some(b) => b,
        None => default,
    }
}

/// Clears cached configuration; the configuration is built once per
/// process, so there is nothing to clear.
pub fn reset_env() {
}

/// `s` without leading and trailing `'` characters.
pub open spec fn trim_single_quotes(s: Seq<char>) -> Seq<char> {
    strip_all_end(strip_all_start(s, seq!['\'']), seq!['\''])
}

/// The setting of a `.env` line: blank lines, comments (`#`) and lines
/// without `=` set nothing; else the trimmed name before the first `=` and
/// the trimmed value after it, without surrounding double then single quotes.
pub open spec fn spec_env_line(line: Seq<char>) -> Option<(Seq<char>, Seq<char>)> {
    let l = trim(line);
    if l.len() == 0 || l[0] == '#' {
        None
    } else {
        match first_index(l, '=') {
            None => None,
            Some(i) => Some((trim(l.take(i)), trim_single_quotes(trim_quotes(trim(l.skip(i + 1)))))),
        }
    }
}

/// Reads one line of a `.env` file.
pub fn parse_env_line(line: &str) -> (r: Option<(String, String)>)
    ensures
        match r {
            Some((k, v)) => spec_env_line(line@) == Some((k@, v@)),
            None => spec_env_line(line@) is None,
        },
{
    let l = trim_str(line);
    let cs = chars_of(l);
    if cs.len() == 0 || cs[0] == '#' {
        return None;
    }
    match find_char(&cs, '=') {
        None => None,
        Some(i) => {
            proof {
                lemma_first_index(l@, '=');
            }
            let n = cs.len();
            let before = string_of(&sub_chars(&cs, 0, i));
            let after = string_of(&sub_chars(&cs, i + 1, n));
            assert(before@ =~= l@.take(i as int));
            assert(after@ =~= l@.skip(i as int + 1));
            let key = String::from_str(trim_str(before.as_str()));
            let v0 = chars_of(trim_str(after.as_str()));
            let dq = chars_of("\"");
            let sq = chars_of("'");
            proof {
                reveal_strlit("\"");
                reveal_strlit("'");
                assert(dq@ =~= seq!['"']);
                assert(sq@ =~= seq!['\'']);
            }
            let v1 = strip_all_start_exec(&v0, &dq);
            let v2 = strip_all_end_exec(&v1, &dq);
            let v3 = strip_all_start_exec(&v2, &sq);
            let v4 = strip_all_end_exec(&v3, &sq);
            Some((key, string_of(&v4)))
        },
    }
}

/// For a variable `NAME_FILE`, the variable `NAME` that the file's contents set.
pub open spec fn spec_file_target(key: Seq<char>) -> Option<Seq<char>> {
    if key.len() > 5 && key.skip(key.len() - 5) == "_FILE"@ {
        Some(key.take(key.len() - 5))
    } else {
        None
    }
}

/// The variable that a `_FILE` variable's file sets.
pub fn file_target(key: &str) -> (r: Option<String>)
    ensures
        match r {
            Some(t) => spec_file_target(key@) == Some(t@),
            None => spec_file_target(key@) is None,
        },
{
    let cs = chars_of(key);
    let suffix = chars_of("_FILE");
    let n = cs.len();
    proof {
        reveal_strlit("_FILE");
    }
    if n > 5 && ends_with(&cs, &suffix) {
        Some(string_of(&sub_chars(&cs, 0, n - 5)))
    } else {
        None
    }
}

/// The built-in configuration defaults, in the order they are listed
/// (`Infinity` has no JSON form and is `null`).
pub open spec fn spec_defaults() -> Seq<(Seq<char>, Json)> {
    Seq::<(Seq<char>, Json)>::empty()
        .push(("HOST"@, Json::Str("0.0.0.0"@)))
        .push(("PORT"@, Json::Number(Num::PosInt(8055))))
        .push(("PUBLIC_URL"@, Json::Str("/"@)))
        .push(("MAX_PAYLOAD_SIZE"@, Json::Str("1mb"@)))
        .push(("ROOT_REDIRECT"@, Json::Str("./admin"@)))
        .push(("SERVE_APP"@, Json::Bool(true)))
        .push(("SERVER_SHUTDOWN_TIMEOUT"@, Json::Number(Num::PosInt(1000))))
        .push(("MAX_RELATIONAL_DEPTH"@, Json::Number(Num::PosInt(10))))
        .push(("QUERYSTRING_MAX_PARSE_DEPTH"@, Json::Number(Num::PosInt(10))))
        .push(("QUERYSTRING_ARRAY_LIMIT"@, Json::Number(Num::PosInt(500))))
        .push(("QUERY_LIMIT_DEFAULT"@, Json::Number(Num::PosInt(100))))
        .push(("MAX_BATCH_MUTATION"@, Json::Null))
        .push(("MAX_IMPORT_ERRORS"@, Json::Number(Num::PosInt(1000))))
        .push(("DB_EXCLUDE_TABLES"@, Json::Str("spatial_ref_sys,sysdiagrams"@)))
        .push(("STORAGE_LOCATIONS"@, Json::Str("local"@)))
        .push(("STORAGE_LOCAL_DRIVER"@, Json::Str("local"@)))
        .push(("STORAGE_LOCAL_ROOT"@, Json::Str("./uploads"@)))
        .push(("RATE_LIMITER_ENABLED"@, Json::Bool(false)))
        .push(("RATE_LIMITER_POINTS"@, Json::Number(Num::PosInt(50))))
        .push(("RATE_LIMITER_DURATION"@, Json::Number(Num::PosInt(1))))
        .push(("RATE_LIMITER_STORE"@, Json::Str("memory"@)))
        .push(("RATE_LIMITER_GLOBAL_ENABLED"@, Json::Bool(false)))
        .push(("RATE_LIMITER_GLOBAL_POINTS"@, Json::Number(Num::PosInt(1000))))
        .push(("RATE_LIMITER_GLOBAL_DURATION"@, Json::Number(Num::PosInt(1))))
        .push(("RATE_LIMITER_REGISTRATION_ENABLED"@, Json::Bool(true)))
        .push(("RATE_LIMITER_REGISTRATION_POINTS"@, Json::Number(Num::PosInt(5))))
        .push(("RATE_LIMITER_REGISTRATION_DURATION"@, Json::Number(Num::PosInt(60))))
        .push(("ACCESS_TOKEN_TTL"@, Json::Str("15m"@)))
        .push(("REFRESH_TOKEN_TTL"@, Json::Str("7d"@)))
        .push(("REFRESH_TOKEN_COOKIE_NAME"@, Json::Str("nexus_refresh_token"@)))
        .push(("REFRESH_TOKEN_COOKIE_SECURE"@, Json::Bool(false)))
        .push(("REFRESH_TOKEN_COOKIE_SAME_SITE"@, Json::Str("lax"@)))
        .push(("SESSION_COOKIE_TTL"@, Json::Str("1d"@)))
        .push(("SESSION_COOKIE_NAME"@, Json::Str("nexus_session_token"@)))
        .push(("SESSION_COOKIE_SECURE"@, Json::Bool(false)))
        .push(("SESSION_COOKIE_SAME_SITE"@, Json::Str("lax"@)))
        .push(("SESSION_REFRESH_GRACE_PERIOD"@, Json::Str("10s"@)))
        .push(("USER_INVITE_TOKEN_TTL"@, Json::Str("7d"@)))
        .push(("EMAIL_VERIFICATION_TOKEN_TTL"@, Json::Str("7d"@)))
        .push(("LOGIN_STALL_TIME"@, Json::Number(Num::PosInt(500))))
        .push(("REGISTER_STALL_TIME"@, Json::Number(Num::PosInt(750))))
        .push(("AUTH_PROVIDERS"@, Json::Str(""@)))
        .push(("AUTH_DISABLE_DEFAULT"@, Json::Bool(false)))
        .push(("CORS_ENABLED"@, Json::Bool(false)))
        .push(("CORS_ORIGIN"@, Json::Bool(false)))
        .push(("CORS_METHODS"@, Json::Str("GET,POST,PATCH,DELETE"@)))
        .push(("CORS_ALLOWED_HEADERS"@, Json::Str("Content-Type,Authorization"@)))
        .push(("CORS_EXPOSED_HEADERS"@, Json::Str("Content-Range"@)))
        .push(("CORS_CREDENTIALS"@, Json::Bool(true)))
        .push(("CORS_MAX_AGE"@, Json::Number(Num::PosInt(18000))))
        .push(("CACHE_ENABLED"@, Json::Bool(false)))
        .push(("CACHE_STORE"@, Json::Str("memory"@)))
        .push(("CACHE_TTL"@, Json::Str("5m"@)))
        .push(("CACHE_NAMESPACE"@, Json::Str("system-cache"@)))
        .push(("CACHE_AUTO_PURGE"@, Json::Bool(false)))
        .push(("CACHE_SCHEMA"@, Json::Bool(true)))
        .push(("CACHE_SCHEMA_MAX_ITERATIONS"@, Json::Number(Num::PosInt(100))))
        .push(("CACHE_SCHEMA_SYNC_TIMEOUT"@, Json::Number(Num::PosInt(10000))))
        .push(("CACHE_SKIP_ALLOWED"@, Json::Bool(false)))
        .push(("EXTENSIONS_PATH"@, Json::Str("./extensions"@)))
        .push(("EXTENSIONS_MUST_LOAD"@, Json::Bool(false)))
        .push(("EXTENSIONS_AUTO_RELOAD"@, Json::Bool(false)))
        .push(("EXTENSIONS_SANDBOX_MEMORY"@, Json::Number(Num::PosInt(100))))
        .push(("EXTENSIONS_SANDBOX_TIMEOUT"@, Json::Number(Num::PosInt(1000))))
        .push(("EMAIL_FROM"@, Json::Str("no-reply@example.com"@)))
        .push(("EMAIL_VERIFY_SETUP"@, Json::Bool(true)))
        .push(("EMAIL_TRANSPORT"@, Json::Str("sendmail"@)))
        .push(("EMAIL_TEMPLATES_PATH"@, Json::Str("./templates"@)))
        .push(("ASSETS_CACHE_TTL"@, Json::Str("30d"@)))
        .push(("ASSETS_TRANSFORM_MAX_CONCURRENT"@, Json::Number(Num::PosInt(25))))
        .push(("ASSETS_TRANSFORM_IMAGE_MAX_DIMENSION"@, Json::Number(Num::PosInt(6000))))
        .push(("ASSETS_TRANSFORM_MAX_OPERATIONS"@, Json::Number(Num::PosInt(5))))
        .push(("GRAPHQL_INTROSPECTION"@, Json::Bool(true)))
        .push(("GRAPHQL_SCHEMA_GENERATION_MAX_CONCURRENT"@, Json::Number(Num::PosInt(5))))
        .push(("GRAPHQL_QUERY_TOKEN_LIMIT"@, Json::Number(Num::PosInt(5000))))
        .push(("WEBSOCKETS_ENABLED"@, Json::Bool(false)))
        .push(("WEBSOCKETS_REST_ENABLED"@, Json::Bool(true)))
        .push(("WEBSOCKETS_REST_AUTH"@, Json::Str("handshake"@)))
        .push(("WEBSOCKETS_REST_AUTH_TIMEOUT"@, Json::Number(Num::PosInt(10))))
        .push(("WEBSOCKETS_REST_PATH"@, Json::Str("/websocket"@)))
        .push(("WEBSOCKETS_GRAPHQL_ENABLED"@, Json::Bool(true)))
        .push(("WEBSOCKETS_GRAPHQL_AUTH"@, Json::Str("handshake"@)))
        .push(("WEBSOCKETS_GRAPHQL_AUTH_TIMEOUT"@, Json::Number(Num::PosInt(10))))
        .push(("WEBSOCKETS_GRAPHQL_PATH"@, Json::Str("/graphql"@)))
        .push(("WEBSOCKETS_HEARTBEAT_ENABLED"@, Json::Bool(true)))
        .push(("WEBSOCKETS_HEARTBEAT_PERIOD"@, Json::Number(Num::PosInt(30))))
        .push(("FLOWS_ENV_ALLOW_LIST"@, Json::Bool(false)))
        .push(("FLOWS_RUN_SCRIPT_MAX_MEMORY"@, Json::Number(Num::PosInt(32))))
        .push(("FLOWS_RUN_SCRIPT_TIMEOUT"@, Json::Number(Num::PosInt(10000))))
        .push(("PRESSURE_LIMITER_ENABLED"@, Json::Bool(true)))
        .push(("PRESSURE_LIMITER_SAMPLE_INTERVAL"@, Json::Number(Num::PosInt(250))))
        .push(("PRESSURE_LIMITER_MAX_EVENT_LOOP_UTILIZATION"@, Json::Number(Num::Float("0.99"@))))
        .push(("PRESSURE_LIMITER_MAX_EVENT_LOOP_DELAY"@, Json::Number(Num::PosInt(500))))
        .push(("TELEMETRY"@, Json::Bool(true)))
        .push(("FILES_MIME_TYPE_ALLOW_LIST"@, Json::Str("*/*"@)))
        .push(("TUS_ENABLED"@, Json::Bool(false)))
        .push(("TUS_CHUNK_SIZE"@, Json::Number(Num::PosInt(8388608))))
        .push(("ROBOTS_TXT"@, Json::Str("User-agent: *\nDisallow: /"@)))
        .push(("RETENTION_ENABLED"@, Json::Bool(false)))
        .push(("ACTIVITY_RETENTION"@, Json::Str("90d"@)))
        .push(("REVISIONS_RETENTION"@, Json::Str("90d"@)))
        .push(("FLOW_LOGS_RETENTION"@, Json::Str("90d"@)))
        .push(("RELATIONAL_BATCH_SIZE"@, Json::Number(Num::PosInt(25000))))
        .push(("EXPORT_BATCH_SIZE"@, Json::Number(Num::PosInt(5000))))
        .push(("USERS_ADMIN_ACCESS_LIMIT"@, Json::Null))
        .push(("USERS_APP_ACCESS_LIMIT"@, Json::Null))
        .push(("USERS_API_ACCESS_LIMIT"@, Json::Null))
        .push(("IP_TRUST_PROXY"@, Json::Bool(true)))
        .push(("IP_CUSTOM_HEADER"@, Json::Bool(false)))
        .push(("ACCEPT_TERMS"@, Json::Bool(false)))
}

fn push_str_default(r: &mut Env, key: &str, value: &str)
    ensures
        members_view(final(r)@) == members_view(old(r)@).push((key@, Json::Str(value@))),
{
    let ghost before = r@;
    r.push((String::from_str(key), JsonValue::String(String::from_str(value))));
    assert(members_view(r@) =~= members_view(before).push((key@, Json::Str(value@))));
}

fn push_bool_default(r: &mut Env, key: &str, value: bool)
    ensures
        members_view(final(r)@) == members_view(old(r)@).push((key@, Json::Bool(value))),
{
    let ghost before = r@;
    r.push((String::from_str(key), JsonValue::Bool(value)));
    assert(members_view(r@) =~= members_view(before).push((key@, Json::Bool(value))));
}

fn push_int_default(r: &mut Env, key: &str, value: u64)
    ensures
        members_view(final(r)@) == members_view(old(r)@).push((key@, Json::Number(Num::PosInt(value as nat)))),
{
    let ghost before = r@;
    r.push((String::from_str(key), JsonValue::Number(JsonNumber::PosInt(value))));
    assert(members_view(r@) =~= members_view(before).push((key@, Json::Number(Num::PosInt(value as nat)))));
}

fn push_float_default(r: &mut Env, key: &str, text: &str)
    ensures
        members_view(final(r)@) == members_view(old(r)@).push((key@, Json::Number(Num::Float(text@)))),
{
    let ghost before = r@;
    r.push((String::from_str(key), JsonValue::Number(JsonNumber::Float(String::from_str(text)))));
    assert(members_view(r@) =~= members_view(before).push((key@, Json::Number(Num::Float(text@)))));
}

fn push_null_default(r: &mut Env, key: &str)
    ensures
        members_view(final(r)@) == members_view(old(r)@).push((key@, Json::Null)),
{
    let ghost before = r@;
    r.push((String::from_str(key), JsonValue::Null));
    assert(members_view(r@) =~= members_view(before).push((key@, Json::Null)));
}

/// The built-in configuration defaults.
pub fn defaults() -> (r: Env)
    ensures
        members_view(r@) == spec_defaults(),
{
    let mut r: Env = Vec::new();
    assert(members_view(r@) =~= Seq::<(Seq<char>, Json)>::empty());
    push_str_default(&mut r, "HOST", "0.0.0.0");
    push_int_default(&mut r, "PORT", 8055);
    push_str_default(&mut r, "PUBLIC_URL", "/");
    push_str_default(&mut r, "MAX_PAYLOAD_SIZE", "1mb");
    push_str_default(&mut r, "ROOT_REDIRECT", "./admin");
    push_bool_default(&mut r, "SERVE_APP", true);
    push_int_default(&mut r, "SERVER_SHUTDOWN_TIMEOUT", 1000);
    push_int_default(&mut r, "MAX_RELATIONAL_DEPTH", 10);
    push_int_default(&mut r, "QUERYSTRING_MAX_PARSE_DEPTH", 10);
    push_int_default(&mut r, "QUERYSTRING_ARRAY_LIMIT", 500);
    push_int_default(&mut r, "QUERY_LIMIT_DEFAULT", 100);
    push_null_default(&mut r, "MAX_BATCH_MUTATION");
    push_int_default(&mut r, "MAX_IMPORT_ERRORS", 1000);
    push_str_default(&mut r, "DB_EXCLUDE_TABLES", "spatial_ref_sys,sysdiagrams");
    push_str_default(&mut r, "STORAGE_LOCATIONS", "local");
    push_str_default(&mut r, "STORAGE_LOCAL_DRIVER", "local");
    push_str_default(&mut r, "STORAGE_LOCAL_ROOT", "./uploads");
    push_bool_default(&mut r, "RATE_LIMITER_ENABLED", false);
    push_int_default(&mut r, "RATE_LIMITER_POINTS", 50);
    push_int_default(&mut r, "RATE_LIMITER_DURATION", 1);
    push_str_default(&mut r, "RATE_LIMITER_STORE", "memory");
    push_bool_default(&mut r, "RATE_LIMITER_GLOBAL_ENABLED", false);
    push_int_default(&mut r, "RATE_LIMITER_GLOBAL_POINTS", 1000);
    push_int_default(&mut r, "RATE_LIMITER_GLOBAL_DURATION", 1);
    push_bool_default(&mut r, "RATE_LIMITER_REGISTRATION_ENABLED", true);
    push_int_default(&mut r, "RATE_LIMITER_REGISTRATION_POINTS", 5);
    push_int_default(&mut r, "RATE_LIMITER_REGISTRATION_DURATION", 60);
    push_str_default(&mut r, "ACCESS_TOKEN_TTL", "15m");
    push_str_default(&mut r, "REFRESH_TOKEN_TTL", "7d");
    push_str_default(&mut r, "REFRESH_TOKEN_COOKIE_NAME", "nexus_refresh_token");
    push_bool_default(&mut r, "REFRESH_TOKEN_COOKIE_SECURE", false);
    push_str_default(&mut r, "REFRESH_TOKEN_COOKIE_SAME_SITE", "lax");
    push_str_default(&mut r, "SESSION_COOKIE_TTL", "1d");
    push_str_default(&mut r, "SESSION_COOKIE_NAME", "nexus_session_token");
    push_bool_default(&mut r, "SESSION_COOKIE_SECURE", false);
    push_str_default(&mut r, "SESSION_COOKIE_SAME_SITE", "lax");
    push_str_default(&mut r, "SESSION_REFRESH_GRACE_PERIOD", "10s");
    push_str_default(&mut r, "USER_INVITE_TOKEN_TTL", "7d");
    push_str_default(&mut r, "EMAIL_VERIFICATION_TOKEN_TTL", "7d");
    push_int_default(&mut r, "LOGIN_STALL_TIME", 500);
    push_int_default(&mut r, "REGISTER_STALL_TIME", 750);
    push_str_default(&mut r, "AUTH_PROVIDERS", "");
    push_bool_default(&mut r, "AUTH_DISABLE_DEFAULT", false);
    push_bool_default(&mut r, "CORS_ENABLED", false);
    push_bool_default(&mut r, "CORS_ORIGIN", false);
    push_str_default(&mut r, "CORS_METHODS", "GET,POST,PATCH,DELETE");
    push_str_default(&mut r, "CORS_ALLOWED_HEADERS", "Content-Type,Authorization");
    push_str_default(&mut r, "CORS_EXPOSED_HEADERS", "Content-Range");
    push_bool_default(&mut r, "CORS_CREDENTIALS", true);
    push_int_default(&mut r, "CORS_MAX_AGE", 18000);
    push_bool_default(&mut r, "CACHE_ENABLED", false);
    push_str_default(&mut r, "CACHE_STORE", "memory");
    push_str_default(&mut r, "CACHE_TTL", "5m");
    push_str_default(&mut r, "CACHE_NAMESPACE", "system-cache");
    push_bool_default(&mut r, "CACHE_AUTO_PURGE", false);
    push_bool_default(&mut r, "CACHE_SCHEMA", true);
    push_int_default(&mut r, "CACHE_SCHEMA_MAX_ITERATIONS", 100);
    push_int_default(&mut r, "CACHE_SCHEMA_SYNC_TIMEOUT", 10000);
    push_bool_default(&mut r, "CACHE_SKIP_ALLOWED", false);
    push_str_default(&mut r, "EXTENSIONS_PATH", "./extensions");
    push_bool_default(&mut r, "EXTENSIONS_MUST_LOAD", false);
    push_bool_default(&mut r, "EXTENSIONS_AUTO_RELOAD", false);
    push_int_default(&mut r, "EXTENSIONS_SANDBOX_MEMORY", 100);
    push_int_default(&mut r, "EXTENSIONS_SANDBOX_TIMEOUT", 1000);
    push_str_default(&mut r, "EMAIL_FROM", "no-reply@example.com");
    push_bool_default(&mut r, "EMAIL_VERIFY_SETUP", true);
    push_str_default(&mut r, "EMAIL_TRANSPORT", "sendmail");
    push_str_default(&mut r, "EMAIL_TEMPLATES_PATH", "./templates");
    push_str_default(&mut r, "ASSETS_CACHE_TTL", "30d");
    push_int_default(&mut r, "ASSETS_TRANSFORM_MAX_CONCURRENT", 25);
    push_int_default(&mut r, "ASSETS_TRANSFORM_IMAGE_MAX_DIMENSION", 6000);
    push_int_default(&mut r, "ASSETS_TRANSFORM_MAX_OPERATIONS", 5);
    push_bool_default(&mut r, "GRAPHQL_INTROSPECTION", true);
    push_int_default(&mut r, "GRAPHQL_SCHEMA_GENERATION_MAX_CONCURRENT", 5);
    push_int_default(&mut r, "GRAPHQL_QUERY_TOKEN_LIMIT", 5000);
    push_bool_default(&mut r, "WEBSOCKETS_ENABLED", false);
    push_bool_default(&mut r, "WEBSOCKETS_REST_ENABLED", true);
    push_str_default(&mut r, "WEBSOCKETS_REST_AUTH", "handshake");
    push_int_default(&mut r, "WEBSOCKETS_REST_AUTH_TIMEOUT", 10);
    push_str_default(&mut r, "WEBSOCKETS_REST_PATH", "/websocket");
    push_bool_default(&mut r, "WEBSOCKETS_GRAPHQL_ENABLED", true);
    push_str_default(&mut r, "WEBSOCKETS_GRAPHQL_AUTH", "handshake");
    push_int_default(&mut r, "WEBSOCKETS_GRAPHQL_AUTH_TIMEOUT", 10);
    push_str_default(&mut r, "WEBSOCKETS_GRAPHQL_PATH", "/graphql");
    push_bool_default(&mut r, "WEBSOCKETS_HEARTBEAT_ENABLED", true);
    push_int_default(&mut r, "WEBSOCKETS_HEARTBEAT_PERIOD", 30);
    push_bool_default(&mut r, "FLOWS_ENV_ALLOW_LIST", false);
    push_int_default(&mut r, "FLOWS_RUN_SCRIPT_MAX_MEMORY", 32);
    push_int_default(&mut r, "FLOWS_RUN_SCRIPT_TIMEOUT", 10000);
    push_bool_default(&mut r, "PRESSURE_LIMITER_ENABLED", true);
    push_int_default(&mut r, "PRESSURE_LIMITER_SAMPLE_INTERVAL", 250);
    push_float_default(&mut r, "PRESSURE_LIMITER_MAX_EVENT_LOOP_UTILIZATION", "0.99");
    push_int_default(&mut r, "PRESSURE_LIMITER_MAX_EVENT_LOOP_DELAY", 500);
    push_bool_default(&mut r, "TELEMETRY", true);
    push_str_default(&mut r, "FILES_MIME_TYPE_ALLOW_LIST", "*/*");
    push_bool_default(&mut r, "TUS_ENABLED", false);
    push_int_default(&mut r, "TUS_CHUNK_SIZE", 8388608);
    push_str_default(&mut r, "ROBOTS_TXT", "User-agent: *\nDisallow: /");
    push_bool_default(&mut r, "RETENTION_ENABLED", false);
    push_str_default(&mut r, "ACTIVITY_RETENTION", "90d");
    push_str_default(&mut r, "REVISIONS_RETENTION", "90d");
    push_str_default(&mut r, "FLOW_LOGS_RETENTION", "90d");
    push_int_default(&mut r, "RELATIONAL_BATCH_SIZE", 25000);
    push_int_default(&mut r, "EXPORT_BATCH_SIZE", 5000);
    push_null_default(&mut r, "USERS_ADMIN_ACCESS_LIMIT");
    push_null_default(&mut r, "USERS_APP_ACCESS_LIMIT");
    push_null_default(&mut r, "USERS_API_ACCESS_LIMIT");
    push_bool_default(&mut r, "IP_TRUST_PROXY", true);
    push_bool_default(&mut r, "IP_CUSTOM_HEADER", false);
    push_bool_default(&mut r, "ACCEPT_TERMS", false);
    r
}

/// What a configuration value with a cast prefix (`prefix:rest`) becomes,
/// as far as it is decided without reading numbers or JSON text.
pub enum CastStep {
    /// The value is decided.
    Value(JsonValue),
    /// `number:` — the rest is read as a number; when it is not one, the
    /// whole text is guessed instead.
    Number(String),
    /// `json:` — the rest is read as JSON; when it is not JSON, it stays text.
    JsonText(String),
    /// No known prefix: the whole text is guessed.
    Guess,
}

/// The text before and after the first `:` of `v`, if it has one.
pub open spec fn prefix_split(v: Seq<char>) -> Option<(Seq<char>, Seq<char>)> {
    match first_index(v, ':') {
        Some(i) => if 0 <= i < v.len() { Some((v.take(i), v.skip(i + 1))) } else { None },
        None => None,
    }
}

/// The items of an `array:` value: the pieces between commas, trimmed.
pub open spec fn array_items(rest: Seq<char>) -> Seq<Json> {
    Seq::new(split_on(rest, ',').len(), |k: int| Json::Str(trim(split_on(rest, ',')[k])))
}

/// The step a value takes: `string:` keeps the rest as text, `boolean:` is
/// true exactly for `true` and `1`, `array:` splits the rest at commas and
/// trims each item, `number:` and `json:` leave the reading to a parser,
/// anything else is guessed.
pub open spec fn cast_step(v: Seq<char>) -> CastStepSpec {
    match prefix_split(v) {
        Some((p, rest)) => if p == "string"@ {
            CastStepSpec::Value(Json::Str(rest))
        } else if p == "number"@ {
            CastStepSpec::Number(rest)
        } else if p == "boolean"@ {
            CastStepSpec::Value(Json::Bool(rest == "true"@ || rest == "1"@))
        } else if p == "array"@ {
            CastStepSpec::Value(Json::Arr(array_items(rest)))
        } else if p == "json"@ {
            CastStepSpec::JsonText(rest)
        } else {
            CastStepSpec::Guess
        },
        None => CastStepSpec::Guess,
    }
}

/// Mathematical view of a cast step.
pub enum CastStepSpec {
    Value(Json),
    Number(Seq<char>),
    JsonText(Seq<char>),
    Guess,
}

impl CastStep {
    pub open spec fn view(&self) -> CastStepSpec {
        match self {
            CastStep::Value(j) => CastStepSpec::Value(j@),
            CastStep::Number(t) => CastStepSpec::Number(t@),
            CastStep::JsonText(t) => CastStepSpec::JsonText(t@),
            CastStep::Guess => CastStepSpec::Guess,
        }
    }
}

/// Decides what a configuration value with a cast prefix becomes.
pub fn cast_prefixed(value: &str) -> (r: CastStep)
    ensures
        r.view() == cast_step(value@),
{
    let v = chars_of(value);
    match find_char(v.as_slice(), ':') {
        None => CastStep::Guess,
        Some(i) => {
            proof {
                crate::text::lemma_first_index(v@, ':');
            }
            let p = string_of(sub_chars(v.as_slice(), 0, i).as_slice());
            let rest_chars = sub_chars(v.as_slice(), i + 1, v.len());
            let rest = string_of(rest_chars.as_slice());
            assert(p@ =~= v@.take(i as int));
            assert(rest@ =~= v@.skip(i as int + 1));
            if str_eq(p.as_str(), "string") {
                CastStep::Value(JsonValue::String(rest))
            } else if str_eq(p.as_str(), "number") {
                CastStep::Number(rest)
            } else if str_eq(p.as_str(), "boolean") {
                let b = str_eq(rest.as_str(), "true") || str_eq(rest.as_str(), "1");
                CastStep::Value(JsonValue::Bool(b))
            } else if str_eq(p.as_str(), "array") {
                let pieces = crate::text::split_chars(rest_chars.as_slice(), ',');
                let mut items: Vec<JsonValue> = Vec::new();
                let mut k: usize = 0;
                while k < pieces.len()
                    invariant
                        rest_chars@ == rest@,
                        pieces@.len() == split_on(rest@, ',').len(),
                        forall|j: int| 0 <= j < pieces@.len() ==> #[trigger] pieces@[j]@ == split_on(rest@, ',')[j],
                        k <= pieces@.len(),
                        items@.len() == k,
                        forall|j: int| 0 <= j < k ==> #[trigger] items@[j]@ == array_items(rest@)[j],
                    decreases pieces@.len() - k,
                {
                    let piece = string_of(pieces[k].as_slice());
                    let t = trim_str(piece.as_str());
                    items.push(JsonValue::String(String::from_str(t)));
                    k = k + 1;
                }
                let r = JsonValue::Array(items);
                proof {
                    crate::json::lemma_array_view(&items);
                    assert(Seq::new(items@.len(), |j: int| items@[j]@) =~= array_items(rest@));
                }
                CastStep::Value(r)
            } else if str_eq(p.as_str(), "json") {
                CastStep::JsonText(rest)
            } else {
                CastStep::Guess
            }
        },
    }
}

} // verus!
