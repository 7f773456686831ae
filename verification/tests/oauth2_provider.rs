use nexus::auth::AuthError;
use nexus::env::Env;
use nexus::json::JsonValue;
use nexus::oauth2_provider::{create_from_env, OAuth2Provider};

fn obj(members: Vec<(&str, JsonValue)>) -> JsonValue {
    JsonValue::Object(members.into_iter().map(|(k, v)| (k.to_string(), v)).collect())
}

fn s(t: &str) -> JsonValue {
    JsonValue::String(t.to_string())
}

fn provider() -> OAuth2Provider {
    OAuth2Provider::new("gh", "id", "sec", "https://gh/auth", "https://gh/token", "http://app/cb", "https://gh/user").unwrap()
}

#[test]
fn urls_are_checked_in_order() {
    match OAuth2Provider::new("gh", "id", "sec", "not a url", "also bad", "http://app/cb", "") {
        Err(AuthError::ConfigError(m)) => assert!(m.starts_with("Invalid authorize URL: ")),
        _ => panic!("Expected config error"),
    }
    match OAuth2Provider::new("gh", "id", "sec", "https://gh/auth", "also bad", "http://app/cb", "") {
        Err(AuthError::ConfigError(m)) => assert!(m.starts_with("Invalid token URL: ")),
        _ => panic!("Expected config error"),
    }
    match OAuth2Provider::new("gh", "id", "sec", "https://gh/auth", "https://gh/token", "cb", "") {
        Err(AuthError::ConfigError(m)) => assert!(m.starts_with("Invalid redirect URL: ")),
        _ => panic!("Expected config error"),
    }
}

#[test]
fn builders_and_settings() {
    let p = provider();
    assert!(!p.allows_public_registration());
    assert_eq!(p.default_role(), None);
    assert_eq!(p.scopes(), vec!["openid".to_string(), "profile".to_string(), "email".to_string()]);
    let p = p.with_public_registration(true, Some("r1".to_string())).with_scopes(vec!["read".to_string()]);
    assert!(p.allows_public_registration());
    assert_eq!(p.default_role(), Some("r1"));
    assert_eq!(p.scopes(), vec!["read".to_string()]);
    let (id, secret, auth, token, redirect) = p.client_settings();
    assert_eq!((id.as_str(), secret.as_str(), auth.as_str(), token.as_str(), redirect.as_str()), ("id", "sec", "https://gh/auth", "https://gh/token", "http://app/cb"));
    assert_eq!(p.user_info_url(), "https://gh/user");
    assert_eq!(p.driver_name(), "oauth2");
}

#[test]
fn user_info_is_read_from_the_profile() {
    let p = provider().with_email_key("mail");
    let info = p
        .user_info(
            obj(vec![("sub", s("42")), ("mail", s("a@b")), ("given_name", JsonValue::Null), ("first_name", s("X")), ("last_name", s("Y"))]),
            "at".to_string(),
            Some("rt".to_string()),
        )
        .unwrap();
    assert_eq!(info.identifier, "42");
    assert_eq!(info.email.as_deref(), Some("a@b"));
    assert_eq!(info.first_name, None);
    assert_eq!(info.last_name.as_deref(), Some("Y"));
    assert_eq!(info.provider, "gh");
    assert_eq!(info.refresh_token.as_deref(), Some("rt"));
    match p.with_identifier_key("login").user_info(obj(vec![]), "at".to_string(), None) {
        Err(AuthError::ProviderError(m)) => assert_eq!(m, "User info missing identifier key 'login'"),
        _ => panic!("Expected provider error"),
    }
}

#[test]
fn login_decisions() {
    let p = provider();
    assert_eq!(p.login_code(&obj(vec![("code", s("c1"))])).unwrap(), "c1");
    assert!(matches!(p.login_code(&obj(vec![])), Err(AuthError::InvalidCredentials)));
    match p.verify_password("u", "p") {
        Err(AuthError::ProviderError(m)) => assert_eq!(m, "OAuth2 does not support password verification"),
        _ => panic!("Expected provider error"),
    }
    match p.login_after_exchange() {
        Err(AuthError::ProviderError(m)) => assert_eq!(m, "Use AuthenticationService.login() for the full OAuth2 flow"),
        _ => panic!("Expected provider error"),
    }
}

#[test]
fn provider_from_configuration() {
    let env: Env = vec![
        ("AUTH_GITHUB_CLIENT_ID".to_string(), s("id")),
        ("AUTH_GITHUB_CLIENT_SECRET".to_string(), s("sec")),
        ("AUTH_GITHUB_AUTHORIZE_URL".to_string(), s("https://gh/auth")),
        ("AUTH_GITHUB_ACCESS_URL".to_string(), s("https://gh/token")),
        ("AUTH_GITHUB_PROFILE_URL".to_string(), s("https://gh/user")),
        ("AUTH_GITHUB_SCOPE".to_string(), s("read:user  user:email")),
        ("AUTH_GITHUB_ALLOW_PUBLIC_REGISTRATION".to_string(), s("true")),
        ("PUBLIC_URL".to_string(), s("https://cms.example.com")),
    ];
    let p = create_from_env(&env, "github").unwrap();
    assert_eq!(p.client_settings().4, "https://cms.example.com/auth/login/github/callback");
    assert_eq!(p.scopes(), vec!["read:user".to_string(), "user:email".to_string()]);
    assert!(p.allows_public_registration());
    assert_eq!(p.default_role(), None);
    match create_from_env(&vec![], "github") {
        Err(AuthError::ConfigError(m)) => assert_eq!(m, "OAuth2 provider 'github' is missing CLIENT_ID or CLIENT_SECRET"),
        _ => panic!("Expected config error"),
    }
    let partial: Env = vec![
        ("AUTH_GITHUB_CLIENT_ID".to_string(), s("id")),
        ("AUTH_GITHUB_CLIENT_SECRET".to_string(), s("sec")),
    ];
    match create_from_env(&partial, "github") {
        Err(AuthError::ConfigError(m)) => assert!(m.starts_with("Invalid authorize URL: ")),
        _ => panic!("Expected config error"),
    }
}

#[test]
fn authorize_url_carries_client_scopes_and_state() {
    let p = OAuth2Provider::new("gh", "id", "sec", "https://gh/auth", "https://gh/token", "http://app/cb", "https://gh/user").unwrap();
    let (url, state) = p.get_authorize_url().unwrap();
    assert_eq!(state.len(), 22);
    assert!(state.chars().all(|c| c.is_ascii_alphanumeric() || c == '-' || c == '_'));
    assert_eq!(
        url,
        format!(
            "https://gh/auth?response_type=code&client_id=id&state={}&redirect_uri=http%3A%2F%2Fapp%2Fcb&scope=openid+profile+email",
            state
        )
    );
    let (_, other) = p.get_authorize_url().unwrap();
    assert_ne!(state, other);
}
