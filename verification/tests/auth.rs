use nexus::auth::{create_from_env, split_words, AuthError, LocalAuthProvider, OpenIdProvider, TokenManager};
use nexus::env::Env;
use nexus::json::JsonValue;

fn obj(members: Vec<(&str, JsonValue)>) -> JsonValue {
    JsonValue::Object(members.into_iter().map(|(k, v)| (k.to_string(), v)).collect())
}

fn s(t: &str) -> JsonValue {
    JsonValue::String(t.to_string())
}

#[test]
fn access_token_claims() {
    let tm = TokenManager::new("secret", "nexus", 900, 604800);
    assert_eq!(tm.access_token_ttl(), 900);
    let c = tm.claims_for("u1", Some("admin"), true, false, 1_000);
    assert_eq!(c.id, "u1");
    assert_eq!(c.role.as_deref(), Some("admin"));
    assert_eq!(c.iss, "nexus");
    assert_eq!(c.iat, 1_000);
    assert_eq!(c.exp, 1_900);
    let t: Vec<char> = tm.generate_refresh_token().chars().collect();
    assert_eq!(t.len(), 36);
    for (i, c) in t.iter().enumerate() {
        if [8, 13, 18, 23].contains(&i) {
            assert_eq!(*c, '-');
        } else {
            assert!(c.is_ascii_digit() || ('a'..='f').contains(c));
        }
    }
    assert_eq!(t[14], '4');
    assert!(['8', '9', 'a', 'b'].contains(&t[19]));
    assert_ne!(tm.generate_refresh_token(), tm.generate_refresh_token());
    assert!(matches!(tm.token_error(true, "x"), AuthError::TokenExpired));
    assert_eq!(AuthError::InvalidToken("bad".to_string()).message(), "Invalid token: bad");
}

#[test]
fn local_passwords_round_trip() {
    let hash = LocalAuthProvider::hash_password("hunter2").unwrap();
    assert!(LocalAuthProvider::verify_password_hash("hunter2", &hash).is_ok());
    assert!(matches!(LocalAuthProvider::verify_password_hash("wrong", &hash), Err(AuthError::InvalidCredentials)));
    assert!(matches!(LocalAuthProvider::verify_password_hash("x", "not a hash"), Err(AuthError::ProviderError(_))));
    let p = LocalAuthProvider::new();
    assert_eq!(p.get_user_id(&obj(vec![("email", s("a@b"))])).unwrap(), "a@b");
    assert!(matches!(p.get_user_id(&obj(vec![])), Err(AuthError::InvalidCredentials)));
    assert_eq!(p.driver_name(), "local");
}

#[test]
fn openid_urls_and_claims() {
    let p = OpenIdProvider::new("google", "my id", "sec", "https://accounts.example.com/", "http://localhost/cb");
    assert_eq!(p.discovery_url(), "https://accounts.example.com/.well-known/openid-configuration");
    let url = p.authorize_url("https://accounts.example.com/auth", "st8");
    assert_eq!(
        url,
        "https://accounts.example.com/auth?response_type=code&client_id=my%20id&redirect_uri=http%3A%2F%2Flocalhost%2Fcb&scope=openid%20profile%20email&state=st8"
    );
    let token_response = obj(vec![
        ("access_token", s("at")),
        ("id_token", s("aGVhZA.eyJzdWIiOiJ1MSJ9.c2ln")),
        ("refresh_token", s("rt")),
    ]);
    assert_eq!(p.access_token(&token_response).unwrap(), "at");
    assert_eq!(p.id_token_payload(&token_response).unwrap(), b"{\"sub\":\"u1\"}".to_vec());
    let merged = p.merge_userinfo(obj(vec![("sub", s("u1"))]), obj(vec![("email", s("e@x")), ("sub", s("other"))]));
    let info = p.user_info(merged, "at".to_string(), &token_response).unwrap();
    assert_eq!(info.identifier, "u1");
    assert_eq!(info.email.as_deref(), Some("e@x"));
    assert_eq!(info.refresh_token.as_deref(), Some("rt"));
    assert_eq!(info.provider, "google");
    let p2 = p.with_identifier_key("email");
    match p2.user_info(obj(vec![]), "at".to_string(), &obj(vec![])) {
        Err(AuthError::ProviderError(m)) => assert_eq!(m, "Claims missing identifier key 'email'"),
        _ => panic!("Expected provider error"),
    }
    match p2.token_endpoint(&obj(vec![])) {
        Err(AuthError::ConfigError(m)) => assert_eq!(m, "Missing token_endpoint in discovery"),
        _ => panic!("Expected config error"),
    }
}

#[test]
fn openid_from_configuration() {
    let env: Env = vec![
        ("AUTH_GOOGLE_CLIENT_ID".to_string(), s("id")),
        ("AUTH_GOOGLE_CLIENT_SECRET".to_string(), s("sec")),
        ("AUTH_GOOGLE_ISSUER_URL".to_string(), s("https://g")),
        ("AUTH_GOOGLE_SCOPE".to_string(), s("  openid   email ")),
    ];
    let p = create_from_env(&env, "google").unwrap();
    assert_eq!(p.discovery_url(), "https://g/.well-known/openid-configuration");
    let url = p.authorize_url("e", "s");
    assert!(url.contains("redirect_uri=http%3A%2F%2Flocalhost%3A8055%2Fauth%2Flogin%2Fgoogle%2Fcallback"));
    assert!(url.contains("scope=openid%20email&"));
    match create_from_env(&vec![], "google") {
        Err(AuthError::ConfigError(m)) => {
            assert_eq!(m, "OpenID provider 'google' is missing CLIENT_ID, CLIENT_SECRET, or ISSUER_URL")
        }
        _ => panic!("Expected config error"),
    }
    assert_eq!(split_words(" a\tb  c "), vec!["a".to_string(), "b".to_string(), "c".to_string()]);
}

#[test]
fn openid_sign_in_url_from_discovery() {
    let p = OpenIdProvider::new("g", "id", "sec", "https://g", "http://cb");
    let (url, state) = p.get_authorize_url(&obj(vec![("authorization_endpoint", s("https://g/auth"))])).unwrap();
    assert_eq!(state.len(), 36);
    assert!(url.starts_with("https://g/auth?response_type=code&client_id=id&redirect_uri=http%3A%2F%2Fcb&scope=openid%20profile%20email&state="));
    assert!(url.ends_with(&state));
    match p.get_authorize_url(&obj(vec![])) {
        Err(AuthError::ConfigError(m)) => assert_eq!(m, "Missing authorization_endpoint in discovery"),
        _ => panic!("Expected config error"),
    }
}
