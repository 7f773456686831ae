//! Authentication: token claims, local passwords, and the OpenID Connect
//! provider's configuration and the decisions of its login flow.

use vstd::prelude::*;
use vstd::string::*;
use base64::Engine;
use argon2::PasswordHasher;
use argon2::PasswordVerifier;
use crate::env::{spec_env_string, env_string_or, Env};
use crate::json::{get_str, get_str_exec, lemma_object_view, members_view, obj_get, Json, JsonValue};
use crate::text::{chars_of, is_whitespace, spec_is_whitespace, spec_to_uppercase, split_chars, split_on, str_eq, string_of, strip_all_end, strip_all_end_exec, to_uppercase, views, join, join_strings};
use crate::database::query::opt_view;
use vstd::utf8::encode_utf8;

verus! {

/// Errors of authentication.
#[derive(Debug, Clone)]
pub enum AuthError {
    InvalidCredentials,
    TokenExpired,
    InvalidToken(String),
    UserSuspended,
    InvalidOtp,
    ProviderError(String),
    ConfigError(String),
}

/// The message of an authentication error.
pub open spec fn spec_auth_error_message(e: AuthError) -> Seq<char> {
    match e {
        AuthError::InvalidCredentials => "Invalid credentials"@,
        AuthError::TokenExpired => "Token expired"@,
        AuthError::InvalidToken(m) => "Invalid token: "@ + m@,
        AuthError::UserSuspended => "User suspended"@,
        AuthError::InvalidOtp => "Invalid OTP"@,
        AuthError::ProviderError(m) => "Provider error: "@ + m@,
        AuthError::ConfigError(m) => "Configuration error: "@ + m@,
    }
}

impl AuthError {
    /// The message of this error.
    pub fn message(&self) -> (r: String)
        ensures
            r@ == spec_auth_error_message(*self),
    {
        match self {
            AuthError::InvalidCredentials => String::from_str("Invalid credentials"),
            AuthError::TokenExpired => String::from_str("Token expired"),
            AuthError::InvalidToken(m) => {
                let mut r = String::from_str("Invalid token: ");
                r.append(m.as_str());
                r
            },
            AuthError::UserSuspended => String::from_str("User suspended"),
            AuthError::InvalidOtp => String::from_str("Invalid OTP"),
            AuthError::ProviderError(m) => {
                let mut r = String::from_str("Provider error: ");
                r.append(m.as_str());
                r
            },
            AuthError::ConfigError(m) => {
                let mut r = String::from_str("Configuration error: ");
                r.append(m.as_str());
                r
            },
        }
    }
}

/// Tokens issued by a login.
#[derive(Debug, Clone)]
pub struct LoginResult {
    pub access_token: String,
    pub refresh_token: String,
    pub expires: i64,
}

/// The claims of an access token.
#[derive(Debug)]
pub struct Claims {
    pub id: String,
    pub role: Option<String>,
    pub admin: bool,
    pub app: bool,
    pub iss: String,
    pub iat: i64,
    pub exp: i64,
    pub share: Option<String>,
    pub share_scope: Option<String>,
}

/// Issues and checks access tokens signed with a secret.
pub struct TokenManager {
    secret: String,
    issuer: String,
    access_token_ttl: i64,
    refresh_token_ttl: i64,
}

/// Whether a character is a lower-case hexadecimal digit.
pub open spec fn is_lower_hex(c: char) -> bool {
    ('0' <= c && c <= '9') || ('a' <= c && c <= 'f')
}

/// The hyphenated lower-case text of a version-4 UUID: 36 characters,
/// hyphens at positions 8, 13, 18 and 23, the version digit `4` at
/// position 14, a variant digit `8`, `9`, `a` or `b` at position 19,
/// lower-case hexadecimal digits elsewhere.
pub open spec fn uuid_v4_text(s: Seq<char>) -> bool {
    &&& s.len() == 36
    &&& forall|i: int| 0 <= i < 36 ==> (if i == 8 || i == 13 || i == 18 || i == 23 {
        #[trigger] s[i] == '-'
    } else {
        is_lower_hex(s[i])
    })
    &&& s[14] == '4'
    &&& (s[19] == '8' || s[19] == '9' || s[19] == 'a' || s[19] == 'b')
}

/// `uuid::Uuid::new_v4`, formatted with `to_string`: a random version-4
/// UUID in its hyphenated lower-case form. Which one is not determined.
#[verifier::external_body]
pub(crate) fn new_uuid_v4() -> (r: String)
    ensures
        uuid_v4_text(r@),
{
    uuid::Uuid::new_v4().to_string()
}

impl TokenManager {
    /// The signing secret.
    pub closed spec fn spec_secret(&self) -> Seq<char> {
        self.secret@
    }

    /// The issuer named in tokens.
    pub closed spec fn spec_issuer(&self) -> Seq<char> {
        self.issuer@
    }

    /// Lifetime of access tokens, in seconds.
    pub closed spec fn spec_access_ttl(&self) -> int {
        self.access_token_ttl as int
    }

    /// Lifetime of refresh tokens, in seconds.
    pub closed spec fn spec_refresh_ttl(&self) -> int {
        self.refresh_token_ttl as int
    }

    /// A manager signing with `secret` as `issuer`, with the given token
    /// lifetimes in seconds.
    pub fn new(secret: &str, issuer: &str, access_ttl_secs: i64, refresh_ttl_secs: i64) -> (r: TokenManager)
        ensures
            r.spec_secret() == secret@,
            r.spec_issuer() == issuer@,
            r.spec_access_ttl() == access_ttl_secs,
            r.spec_refresh_ttl() == refresh_ttl_secs,
    {
        TokenManager {
            secret: String::from_str(secret),
            issuer: String::from_str(issuer),
            access_token_ttl: access_ttl_secs,
            refresh_token_ttl: refresh_ttl_secs,
        }
    }

    /// Lifetime of access tokens, in seconds.
    pub fn access_token_ttl(&self) -> (r: i64)
        ensures
            r == self.spec_access_ttl(),
    {
        self.access_token_ttl
    }

    /// The signing secret.
    pub fn secret(&self) -> (r: &str)
        ensures
            r@ == self.spec_secret(),
    {
        self.secret.as_str()
    }

    /// The issuer named in tokens.
    pub fn issuer(&self) -> (r: &str)
        ensures
            r@ == self.spec_issuer(),
    {
        self.issuer.as_str()
    }

    /// The claims of an access token issued at `now` (seconds since the
    /// epoch): it expires after the access lifetime.
    pub fn claims_for(&self, user_id: &str, role: Option<&str>, admin: bool, app: bool, now: i64) -> (r: Claims)
        requires
            i64::MIN <= now + self.spec_access_ttl() <= i64::MAX,
        ensures
            r.id@ == user_id@,
            opt_view(r.role) == match role {
                Some(x) => Some(x@),
                None => None,
            },
            r.admin == admin,
            r.app == app,
            r.iss@ == self.spec_issuer(),
            r.iat == now,
            r.exp == now + self.spec_access_ttl(),
            r.share is None,
            r.share_scope is None,
    {
        Claims {
            id: String::from_str(user_id),
            role: match role {
                Some(x) => Some(String::from_str(x)),
                None => None,
            },
            admin: admin,
            app: app,
            iss: self.issuer.clone(),
            iat: now,
            exp: now + self.access_token_ttl,
            share: None,
            share_scope: None,
        }
    }

    /// A new refresh token: a random version-4 UUID.
    pub fn generate_refresh_token(&self) -> (r: String)
        ensures
            uuid_v4_text(r@),
    {
        new_uuid_v4()
    }

    /// The error for a token that failed verification: expired signatures
    /// are `TokenExpired`, anything else an invalid token with the message.
    pub fn token_error(&self, expired: bool, message: &str) -> (r: AuthError)
        ensures
            expired ==> r is TokenExpired,
            !expired ==> (r matches AuthError::InvalidToken(m) && m@ == message@),
    {
        if expired {
            AuthError::TokenExpired
        } else {
            AuthError::InvalidToken(String::from_str(message))
        }
    }
}

/// Hashes `password` with Argon2 (default parameters) and a fresh random
/// salt (`argon2::Argon2::hash_password`); the PHC string, or the library's
/// error message. The string is not determined (the salt is random); what
/// the crate documents of it is stated: it parses as a PHC string, and
/// Argon2 verification accepts `password` against it.
#[verifier::external_body]
pub(crate) fn argon2_hash(password: &str) -> (r: Result<String, String>)
    ensures
        r matches Ok(h) ==> password_verifies(password@, h@),
{
    let salt = argon2::password_hash::SaltString::generate(&mut argon2::password_hash::rand_core::OsRng);
    argon2::Argon2::default()
        .hash_password(password.as_bytes(), &salt)
        .map(|h| h.to_string())
        .map_err(|e| e.to_string())
}

/// Why `hash` is not a PHC password-hash string (`None` when it is one), as
/// `password_hash::PasswordHash::new` reports it.
pub uninterp spec fn spec_hash_format_error(hash: Seq<char>) -> Option<Seq<char>>;

/// `password_hash::PasswordHash::new`: whether `hash` parses, else the
/// library's message. The outcome is named by `spec_hash_format_error`.
#[verifier::external_body]
fn parse_password_hash(hash: &str) -> (r: Result<(), String>)
    ensures
        match r {
            Ok(()) => spec_hash_format_error(hash@) is None,
            Err(m) => spec_hash_format_error(hash@) == Some(m@),
        },
{
    argon2::password_hash::PasswordHash::new(hash).map(|_| ()).map_err(|e| e.to_string())
}

/// Whether `password` matches the PHC string `hash` under Argon2.
pub uninterp spec fn spec_argon2_matches(password: Seq<char>, hash: Seq<char>) -> bool;

/// `hash` is a well-formed PHC string that `password` matches.
pub open spec fn password_verifies(password: Seq<char>, hash: Seq<char>) -> bool {
    spec_hash_format_error(hash) is None && spec_argon2_matches(password, hash)
}

/// `argon2::Argon2::verify_password` with default settings on the parsed
/// `hash`; its outcome is named by `spec_argon2_matches`.
#[verifier::external_body]
fn argon2_verify(password: &str, hash: &str) -> (r: bool)
    requires
        spec_hash_format_error(hash@) is None,
    ensures
        r == spec_argon2_matches(password@, hash@),
{
    match argon2::password_hash::PasswordHash::new(hash) {
        Ok(parsed) => argon2::Argon2::default().verify_password(password.as_bytes(), &parsed).is_ok(),
        Err(_) => false,
    }
}

/// Email and password authentication.
#[derive(Debug)]
pub struct LocalAuthProvider {}

impl LocalAuthProvider {
    /// A local provider.
    pub fn new() -> (r: LocalAuthProvider) {
        LocalAuthProvider {}
    }

    /// Hashes a password (Argon2, random salt); a hashing failure is a
    /// provider error. A hash it returns verifies the password it was made
    /// from (see `verify_password_hash`).
    pub fn hash_password(password: &str) -> (r: Result<String, AuthError>)
        ensures
            r matches Err(e) ==> (e matches AuthError::ProviderError(m)
                && crate::text::is_prefix("Failed to hash password: "@, m@)),
            r matches Ok(h) ==> password_verifies(password@, h@),
    {
        match argon2_hash(password) {
            Ok(h) => Ok(h),
            Err(e) => {
                let mut m = String::from_str("Failed to hash password: ");
                let ghost lit = m@;
                m.append(e.as_str());
                assert(m@.take(lit.len() as int) =~= lit);
                Err(AuthError::ProviderError(m))
            },
        }
    }

    /// Checks a password against a stored hash: a malformed hash is a
    /// provider error, a mismatch is `InvalidCredentials`.
    pub fn verify_password_hash(password: &str, hash: &str) -> (r: Result<(), AuthError>)
        ensures
            r is Ok <==> password_verifies(password@, hash@),
            match spec_hash_format_error(hash@) {
                Some(m) => r matches Err(AuthError::ProviderError(e)) && e@ == "Invalid hash format: "@ + m,
                None => if spec_argon2_matches(password@, hash@) {
                    r is Ok
                } else {
                    r matches Err(AuthError::InvalidCredentials)
                },
            },
    {
        match parse_password_hash(hash) {
            Err(e) => {
                let mut m = String::from_str("Invalid hash format: ");
                m.append(e.as_str());
                Err(AuthError::ProviderError(m))
            },
            Ok(()) => {
                if argon2_verify(password, hash) {
                    Ok(())
                } else {
                    Err(AuthError::InvalidCredentials)
                }
            },
        }
    }

    /// The user of a login payload: its `email`.
    pub fn get_user_id(&self, payload: &JsonValue) -> (r: Result<String, AuthError>)
        ensures
            match get_str(payload@, "email"@) {
                Some(e) => r matches Ok(x) && x@ == e,
                None => r matches Err(AuthError::InvalidCredentials),
            },
    {
        match get_str_exec(payload, "email") {
            Some(e) => Ok(String::from_str(e)),
            None => Err(AuthError::InvalidCredentials),
        }
    }

    /// Password checks need the user store, which this provider does not have.
    pub fn verify_password(&self, user_id: &str, password: &str) -> (r: Result<(), AuthError>)
        ensures
            r matches Err(AuthError::ProviderError(m)) && m@ == "Database integration not yet implemented"@,
    {
        Err(AuthError::ProviderError(String::from_str("Database integration not yet implemented")))
    }

    /// Logins need the user store, which this provider does not have.
    pub fn login(&self, payload: &JsonValue) -> (r: Result<LoginResult, AuthError>)
        ensures
            r matches Err(AuthError::ProviderError(m)) && m@ == "Database integration not yet implemented"@,
    {
        Err(AuthError::ProviderError(String::from_str("Database integration not yet implemented")))
    }

    /// The driver name.
    pub fn driver_name(&self) -> (r: &'static str)
        ensures
            r@ == "local"@,
    {
        "local"
    }
}

/// A byte that URL encoding keeps: ASCII letters, digits, `-`, `.`, `_`, `~`.
pub open spec fn url_safe(b: u8) -> bool {
    (48 <= b <= 57) || (65 <= b <= 90) || (97 <= b <= 122) || b == 45 || b == 46 || b == 95 || b == 126
}

/// Upper-case hexadecimal digit of `d < 16`.
pub open spec fn hex_upper(d: nat) -> char {
    if d < 10 { ((d + 48) as int) as char } else { ((d + 55) as int) as char }
}

/// URL encoding of one byte: kept, or `%XX`.
pub open spec fn url_byte(b: u8) -> Seq<char> {
    if url_safe(b) {
        seq![(b as int) as char]
    } else {
        seq!['%', hex_upper((b as nat) / 16), hex_upper((b as nat) % 16)]
    }
}

/// URL (percent) encoding of a byte string.
pub open spec fn url_encoded(bs: Seq<u8>) -> Seq<char>
    decreases bs.len(),
{
    if bs.len() == 0 { seq![] } else { url_encoded(bs.drop_last()) + url_byte(bs.last()) }
}

/// `urlencoding::encode`: percent-encodes every byte of the UTF-8 text
/// except ASCII letters, digits, `-`, `.`, `_` and `~`, with upper-case
/// hexadecimal digits.
#[verifier::external_body]
fn url_encode(s: &str) -> (r: String)
    ensures
        r@ == url_encoded(s.spec_bytes()),
{
    urlencoding::encode(s).into_owned()
}

/// The bytes that a URL-safe base64 text without padding decodes to, as
/// `base64`'s `URL_SAFE_NO_PAD` engine decodes it (`None` when it rejects
/// the text).
pub uninterp spec fn spec_base64url_decode(s: Seq<char>) -> Option<Seq<u8>>;

/// `base64::engine::general_purpose::URL_SAFE_NO_PAD.decode`; the outcome is
/// named by `spec_base64url_decode`.
#[verifier::external_body]
fn base64url_decode(s: &str) -> (r: Option<Vec<u8>>)
    ensures
        match r {
            Some(b) => spec_base64url_decode(s@) == Some(b@),
            None => spec_base64url_decode(s@) is None,
        },
{
    base64::engine::general_purpose::URL_SAFE_NO_PAD.decode(s).ok()
}

/// The words of a text separated by whitespace (`split_whitespace`).
pub open spec fn words(s: Seq<char>) -> Seq<Seq<char>> {
    let (done, cur) = words_acc(s);
    if cur.len() > 0 { done.push(cur) } else { done }
}

/// Words completed so far and the word being read.
pub open spec fn words_acc(s: Seq<char>) -> (Seq<Seq<char>>, Seq<char>)
    decreases s.len(),
{
    if s.len() == 0 {
        (seq![], seq![])
    } else {
        let (done, cur) = words_acc(s.drop_last());
        if spec_is_whitespace(s.last()) {
            if cur.len() > 0 { (done.push(cur), seq![]) } else { (done, cur) }
        } else {
            (done, cur.push(s.last()))
        }
    }
}

/// Splits a text into its whitespace-separated words.
pub fn split_words(s: &str) -> (r: Vec<String>)
    ensures
        views(r@) == words(s@),
{
    let cs = chars_of(s);
    let mut done: Vec<String> = Vec::new();
    let mut cur = String::new();
    let mut i: usize = 0;
    assert(cs@.take(0) =~= Seq::<char>::empty());
    assert(views(done@) =~= Seq::<Seq<char>>::empty());
    while i < cs.len()
        invariant
            cs@ == s@,
            i <= cs@.len(),
            (views(done@), cur@) == words_acc(cs@.take(i as int)),
        decreases cs@.len() - i,
    {
        proof {
            assert(cs@.take(i as int + 1).drop_last() =~= cs@.take(i as int));
            assert(cs@.take(i as int + 1).last() == cs@[i as int]);
        }
        let c = cs[i];
        if is_whitespace(c) {
            if !cur.as_str().is_empty() {
                let w = cur;
                proof {
                    assert(views(done@.push(w)) =~= views(done@).push(w@));
                }
                done.push(w);
                cur = String::new();
            }
        } else {
            crate::text::push_char(&mut cur, c);
        }
        i = i + 1;
    }
    assert(cs@.take(cs@.len() as int) =~= cs@);
    if !cur.as_str().is_empty() {
        proof {
            assert(views(done@.push(cur)) =~= views(done@).push(cur@));
        }
        done.push(cur);
    }
    done
}

/// What an OpenID provider is configured with.
pub struct OpenIdSpec {
    pub provider_id: Seq<char>,
    pub client_id: Seq<char>,
    pub client_secret: Seq<char>,
    pub issuer_url: Seq<char>,
    pub redirect_url: Seq<char>,
    pub identifier_key: Seq<char>,
    pub scopes: Seq<Seq<char>>,
    pub allow_public_registration: bool,
    pub default_role: Option<Seq<char>>,
}

/// Sign-in with an OpenID Connect identity provider.
#[derive(Debug)]
pub struct OpenIdProvider {
    provider_id: String,
    client_id: String,
    client_secret: String,
    issuer_url: String,
    redirect_url: String,
    identifier_key: String,
    scopes: Vec<String>,
    allow_public_registration: bool,
    default_role: Option<String>,
}

/// What a completed OpenID login tells about the user.
#[derive(Debug)]
pub struct OpenIdUserInfo {
    pub identifier: String,
    pub email: Option<String>,
    pub first_name: Option<String>,
    pub last_name: Option<String>,
    pub provider: String,
    pub access_token: String,
    pub refresh_token: Option<String>,
    pub raw: JsonValue,
}

/// The scopes a provider asks for unless configured otherwise.
pub open spec fn default_scopes() -> Seq<Seq<char>> {
    seq!["openid"@, "profile"@, "email"@]
}

/// The claims merged with the user-info response: members of the user info
/// not among the claims are added after them; without claims (`null`) the
/// user info stands for them; otherwise the claims stay as they are.
pub open spec fn merged_claims(claims: Json, info: Json) -> Json {
    match (claims, info) {
        (Json::Obj(c), Json::Obj(i)) => Json::Obj(c + new_members(c, i)),
        (Json::Null, _) => info,
        _ => claims,
    }
}

/// The members of `i` whose names are not among the members of `c`.
pub open spec fn new_members(c: Seq<(Seq<char>, Json)>, i: Seq<(Seq<char>, Json)>) -> Seq<(Seq<char>, Json)>
    decreases i.len(),
{
    if i.len() == 0 {
        seq![]
    } else {
        let r = new_members(c, i.drop_last());
        if obj_get(c, i.last().0) is Some { r } else { r.push(i.last()) }
    }
}

impl OpenIdProvider {
    /// The configuration of this provider.
    pub closed spec fn view(&self) -> OpenIdSpec {
        OpenIdSpec {
            provider_id: self.provider_id@,
            client_id: self.client_id@,
            client_secret: self.client_secret@,
            issuer_url: self.issuer_url@,
            redirect_url: self.redirect_url@,
            identifier_key: self.identifier_key@,
            scopes: views(self.scopes@),
            allow_public_registration: self.allow_public_registration,
            default_role: opt_view(self.default_role),
        }
    }

    /// A provider identifying users by `sub`, asking for the `openid`,
    /// `profile` and `email` scopes, without public registration.
    pub fn new(provider_id: &str, client_id: &str, client_secret: &str, issuer_url: &str, redirect_url: &str) -> (r: OpenIdProvider)
        ensures
            r.view() == (OpenIdSpec {
                provider_id: provider_id@,
                client_id: client_id@,
                client_secret: client_secret@,
                issuer_url: issuer_url@,
                redirect_url: redirect_url@,
                identifier_key: "sub"@,
                scopes: default_scopes(),
                allow_public_registration: false,
                default_role: None,
            }),
    {
        let mut scopes: Vec<String> = Vec::new();
        scopes.push(String::from_str("openid"));
        scopes.push(String::from_str("profile"));
        scopes.push(String::from_str("email"));
        let r = OpenIdProvider {
            provider_id: String::from_str(provider_id),
            client_id: String::from_str(client_id),
            client_secret: String::from_str(client_secret),
            issuer_url: String::from_str(issuer_url),
            redirect_url: String::from_str(redirect_url),
            identifier_key: String::from_str("sub"),
            scopes: scopes,
            allow_public_registration: false,
            default_role: None,
        };
        assert(views(r.scopes@) =~= default_scopes());
        r
    }

    /// The same provider identifying users by the claim `key`.
    pub fn with_identifier_key(self, key: &str) -> (r: OpenIdProvider)
        ensures
            r.view() == (OpenIdSpec { identifier_key: key@, ..self.view() }),
    {
        let mut s = self;
        s.identifier_key = String::from_str(key);
        s
    }

    /// The same provider asking for `scopes`.
    pub fn with_scopes(self, scopes: Vec<String>) -> (r: OpenIdProvider)
        ensures
            r.view() == (OpenIdSpec { scopes: views(scopes@), ..self.view() }),
    {
        let mut s = self;
        s.scopes = scopes;
        s
    }

    /// The same provider with public registration allowed or not, and the
    /// role given to users it registers.
    pub fn with_public_registration(self, allow: bool, default_role: Option<String>) -> (r: OpenIdProvider)
        ensures
            r.view() == (OpenIdSpec { allow_public_registration: allow, default_role: opt_view(default_role), ..self.view() }),
    {
        let mut s = self;
        s.allow_public_registration = allow;
        s.default_role = default_role;
        s
    }

    /// Where the provider publishes its configuration: the issuer URL
    /// without trailing `/`, then `/.well-known/openid-configuration`.
    pub fn discovery_url(&self) -> (r: String)
        ensures
            r@ == strip_all_end(self.view().issuer_url, seq!['/']) + "/.well-known/openid-configuration"@,
    {
        let cs = chars_of(self.issuer_url.as_str());
        let slash = chars_of("/");
        proof {
            reveal_strlit("/");
            assert(slash@ =~= seq!['/']);
        }
        let base = strip_all_end_exec(&cs, &slash);
        let mut r = string_of(&base);
        r.append("/.well-known/openid-configuration");
        r
    }

    /// The URL that sends the user to the provider to sign in: the
    /// authorization endpoint with the response type, client id, redirect
    /// URL, space-separated scopes and `state`, each URL-encoded.
    pub fn authorize_url(&self, auth_endpoint: &str, state: &str) -> (r: String)
        ensures
            r@ == auth_endpoint@ + "?response_type=code&client_id="@ + url_encoded(encode_utf8(self.view().client_id))
                + "&redirect_uri="@ + url_encoded(encode_utf8(self.view().redirect_url))
                + "&scope="@ + url_encoded(encode_utf8(join(self.view().scopes, " "@))) + "&state="@ + url_encoded(encode_utf8(state@)),
    {
        let scope = join_strings(&self.scopes, " ");
        let mut r = String::from_str(auth_endpoint);
        r.append("?response_type=code&client_id=");
        r.append(url_encode(self.client_id.as_str()).as_str());
        r.append("&redirect_uri=");
        r.append(url_encode(self.redirect_url.as_str()).as_str());
        r.append("&scope=");
        r.append(url_encode(scope.as_str()).as_str());
        r.append("&state=");
        r.append(url_encode(state).as_str());
        r
    }

    /// The authorization endpoint named by the discovered configuration.
    pub fn authorization_endpoint(&self, config: &JsonValue) -> (r: Result<String, AuthError>)
        ensures
            match get_str(config@, "authorization_endpoint"@) {
                Some(e) => r matches Ok(x) && x@ == e,
                None => r matches Err(AuthError::ConfigError(m)) && m@ == "Missing authorization_endpoint in discovery"@,
            },
    {
        match get_str_exec(config, "authorization_endpoint") {
            Some(e) => Ok(String::from_str(e)),
            None => Err(AuthError::ConfigError(String::from_str("Missing authorization_endpoint in discovery"))),
        }
    }

    /// The sign-in URL and its fresh `state` (a random version-4 UUID) from
    /// the discovered configuration; a configuration without an
    /// authorization endpoint is a configuration error.
    pub fn get_authorize_url(&self, config: &JsonValue) -> (r: Result<(String, String), AuthError>)
        ensures
            match get_str(config@, "authorization_endpoint"@) {
                Some(e) => r matches Ok((u, st)) && uuid_v4_text(st@) && u@ == self.spec_authorize_url(e, st@),
                None => r matches Err(AuthError::ConfigError(m)) && m@ == "Missing authorization_endpoint in discovery"@,
            },
    {
        let endpoint = match self.authorization_endpoint(config) {
            Ok(e) => e,
            Err(e) => return Err(e),
        };
        let state = new_uuid_v4();
        let url = self.authorize_url(endpoint.as_str(), state.as_str());
        Ok((url, state))
    }

    /// The sign-in URL for an authorization endpoint and a state.
    pub open spec fn spec_authorize_url(&self, auth_endpoint: Seq<char>, state: Seq<char>) -> Seq<char> {
        auth_endpoint + "?response_type=code&client_id="@ + url_encoded(encode_utf8(self.view().client_id))
            + "&redirect_uri="@ + url_encoded(encode_utf8(self.view().redirect_url))
            + "&scope="@ + url_encoded(encode_utf8(join(self.view().scopes, " "@))) + "&state="@ + url_encoded(encode_utf8(state))
    }

    /// The token endpoint named by the discovered configuration.
    pub fn token_endpoint(&self, config: &JsonValue) -> (r: Result<String, AuthError>)
        ensures
            match get_str(config@, "token_endpoint"@) {
                Some(e) => r matches Ok(x) && x@ == e,
                None => r matches Err(AuthError::ConfigError(m)) && m@ == "Missing token_endpoint in discovery"@,
            },
    {
        match get_str_exec(config, "token_endpoint") {
            Some(e) => Ok(String::from_str(e)),
            None => Err(AuthError::ConfigError(String::from_str("Missing token_endpoint in discovery"))),
        }
    }

    /// The user-info endpoint named by the discovered configuration, if any.
    pub fn userinfo_endpoint(&self, config: &JsonValue) -> (r: Option<String>)
        ensures
            match get_str(config@, "userinfo_endpoint"@) {
                Some(e) => r matches Some(x) && x@ == e,
                None => r is None,
            },
    {
        match get_str_exec(config, "userinfo_endpoint") {
            Some(e) => Some(String::from_str(e)),
            None => None,
        }
    }

    /// The form posted to the token endpoint to redeem `code`.
    pub fn token_request_form(&self, code: &str) -> (r: Vec<(String, String)>)
        ensures
            Seq::new(r@.len(), |i: int| (r@[i].0@, r@[i].1@)) == seq![
                ("grant_type"@, "authorization_code"@),
                ("code"@, code@),
                ("redirect_uri"@, self.view().redirect_url),
                ("client_id"@, self.view().client_id),
                ("client_secret"@, self.view().client_secret),
            ],
    {
        let mut r: Vec<(String, String)> = Vec::new();
        r.push((String::from_str("grant_type"), String::from_str("authorization_code")));
        r.push((String::from_str("code"), String::from_str(code)));
        r.push((String::from_str("redirect_uri"), self.redirect_url.clone()));
        r.push((String::from_str("client_id"), self.client_id.clone()));
        r.push((String::from_str("client_secret"), self.client_secret.clone()));
        assert(Seq::new(r@.len(), |i: int| (r@[i].0@, r@[i].1@)) =~= seq![
            ("grant_type"@, "authorization_code"@),
            ("code"@, code@),
            ("redirect_uri"@, self.view().redirect_url),
            ("client_id"@, self.view().client_id),
            ("client_secret"@, self.view().client_secret),
        ]);
        r
    }

    /// The access token of a token response.
    pub fn access_token(&self, token_response: &JsonValue) -> (r: Result<String, AuthError>)
        ensures
            match get_str(token_response@, "access_token"@) {
                Some(t) => r matches Ok(x) && x@ == t,
                None => r matches Err(AuthError::ProviderError(m)) && m@ == "Missing access_token"@,
            },
    {
        match get_str_exec(token_response, "access_token") {
            Some(t) => Ok(String::from_str(t)),
            None => Err(AuthError::ProviderError(String::from_str("Missing access_token"))),
        }
    }

    /// The decoded payload segment of the ID token of a token response, when
    /// there is an ID token of three dot-separated segments whose middle one
    /// decodes as URL-safe base64.
    pub fn id_token_payload(&self, token_response: &JsonValue) -> (r: Option<Vec<u8>>)
        ensures
            match get_str(token_response@, "id_token"@) {
                Some(t) => if split_on(t, '.').len() == 3 {
                    match spec_base64url_decode(split_on(t, '.')[1]) {
                        Some(b) => r matches Some(x) && x@ == b,
                        None => r is None,
                    }
                } else {
                    r is None
                },
                None => r is None,
            },
    {
        match get_str_exec(token_response, "id_token") {
            Some(t) => {
                let cs = chars_of(t);
                let parts = split_chars(&cs, '.');
                if parts.len() == 3 {
                    let middle = string_of(&parts[1]);
                    base64url_decode(middle.as_str())
                } else {
                    None
                }
            },
            None => None,
        }
    }

    /// Merges the user-info response into the ID token claims.
    pub fn merge_userinfo(&self, claims: JsonValue, userinfo: JsonValue) -> (r: JsonValue)
        ensures
            r@ == merged_claims(claims@, userinfo@),
    {
        match (claims, userinfo) {
            (JsonValue::Object(mut c), JsonValue::Object(i)) => {
                proof {
                    lemma_object_view(&c);
                    lemma_object_view(&i);
                }
                let ghost cv = members_view(c@);
                let ghost iv = members_view(i@);
                let claims_obj = JsonValue::Object(c);
                let mut added: Vec<(String, JsonValue)> = Vec::new();
                let mut k: usize = 0;
                assert(iv.take(0) =~= Seq::<(Seq<char>, Json)>::empty());
                assert(members_view(added@) =~= Seq::<(Seq<char>, Json)>::empty());
                while k < i.len()
                    invariant
                        iv == members_view(i@),
                        claims_obj@ == Json::Obj(cv),
                        k <= i@.len(),
                        members_view(added@) == new_members(cv, iv.take(k as int)),
                    decreases i@.len() - k,
                {
                    proof {
                        assert(iv.take(k as int + 1).drop_last() =~= iv.take(k as int));
                        assert(iv.take(k as int + 1).last() == iv[k as int]);
                    }
                    if claims_obj.get(i[k].0.as_str()).is_none() {
                        let ghost before = added@;
                        added.push((i[k].0.clone(), i[k].1.copy()));
                        assert(members_view(added@) =~= members_view(before).push(iv[k as int]));
                    }
                    k = k + 1;
                }
                assert(iv.take(i@.len() as int) =~= iv);
                let mut all = match claims_obj {
                    JsonValue::Object(c2) => c2,
                    _ => Vec::new(),
                };
                let ghost av = all@;
                all.append(&mut added);
                proof {
                    assert(members_view(av) == cv);
                    assert(members_view(all@) =~= cv + new_members(cv, iv));
                    lemma_object_view(&all);
                }
                JsonValue::Object(all)
            },
            (JsonValue::Null, info) => info,
            (c, _) => c,
        }
    }

    /// What the claims tell about the signed-in user: the identifier under
    /// the configured key (required), email, given and family names.
    pub fn user_info(&self, claims: JsonValue, access_token: String, token_response: &JsonValue) -> (r: Result<OpenIdUserInfo, AuthError>)
        ensures
            match get_str(claims@, self.view().identifier_key) {
                None => r matches Err(AuthError::ProviderError(m)) && m@ == "Claims missing identifier key '"@ + self.view().identifier_key + "'"@,
                Some(id) => r matches Ok(u) && u.identifier@ == id
                    && opt_view(u.email) == get_str(claims@, "email"@)
                    && opt_view(u.first_name) == get_str(claims@, "given_name"@)
                    && opt_view(u.last_name) == get_str(claims@, "family_name"@)
                    && u.provider@ == self.view().provider_id
                    && u.access_token@ == access_token@
                    && opt_view(u.refresh_token) == get_str(token_response@, "refresh_token"@)
                    && u.raw@ == claims@,
            },
    {
        let identifier = match get_str_exec(&claims, self.identifier_key.as_str()) {
            Some(x) => String::from_str(x),
            None => {
                let mut m = String::from_str("Claims missing identifier key '");
                m.append(self.identifier_key.as_str());
                m.append("'");
                return Err(AuthError::ProviderError(m));
            },
        };
        let email = opt_string(get_str_exec(&claims, "email"));
        let first_name = opt_string(get_str_exec(&claims, "given_name"));
        let last_name = opt_string(get_str_exec(&claims, "family_name"));
        let refresh_token = opt_string(get_str_exec(token_response, "refresh_token"));
        Ok(OpenIdUserInfo {
            identifier: identifier,
            email: email,
            first_name: first_name,
            last_name: last_name,
            provider: self.provider_id.clone(),
            access_token: access_token,
            refresh_token: refresh_token,
            raw: claims,
        })
    }

    /// The authorization code of a login payload.
    pub fn login_code(&self, payload: &JsonValue) -> (r: Result<String, AuthError>)
        ensures
            match get_str(payload@, "code"@) {
                Some(c) => r matches Ok(x) && x@ == c,
                None => r matches Err(AuthError::InvalidCredentials),
            },
    {
        match get_str_exec(payload, "code") {
            Some(c) => Ok(String::from_str(c)),
            None => Err(AuthError::InvalidCredentials),
        }
    }

    /// OpenID sign-in has no passwords.
    pub fn verify_password(&self, user_id: &str, password: &str) -> (r: Result<(), AuthError>)
        ensures
            r matches Err(AuthError::ProviderError(m)) && m@ == "OpenID Connect does not support password verification"@,
    {
        Err(AuthError::ProviderError(String::from_str("OpenID Connect does not support password verification")))
    }

    /// After the code is redeemed, a login is completed by the
    /// authentication service, not by the provider.
    pub fn login_after_exchange(&self) -> (r: Result<LoginResult, AuthError>)
        ensures
            r matches Err(AuthError::ProviderError(m)) && m@ == "Use AuthenticationService.login() for the full OpenID flow"@,
    {
        Err(AuthError::ProviderError(String::from_str("Use AuthenticationService.login() for the full OpenID flow")))
    }

    /// The driver name.
    pub fn driver_name(&self) -> (r: &'static str)
        ensures
            r@ == "openid"@,
    {
        "openid"
    }
}

pub(crate) fn opt_string(o: Option<&str>) -> (r: Option<String>)
    ensures
        opt_view(r) == match o {
            Some(s) => Some(s@),
            None => None,
        },
{
    match o {
        Some(s) => Some(String::from_str(s)),
        None => None,
    }
}

/// The configured value of `AUTH_<PROVIDER>_<name>`, or `d`.
pub open spec fn provider_setting(env: Seq<(String, JsonValue)>, prefix: Seq<char>, name: Seq<char>, d: Seq<char>) -> Seq<char> {
    match spec_env_string(env, prefix + name) {
        Some(s) => s,
        None => d,
    }
}

pub(crate) fn setting(env: &Env, prefix: &str, name: &str, d: &str) -> (r: String)
    ensures
        r@ == provider_setting(env@, prefix@, name@, d@),
{
    let mut key = String::from_str(prefix);
    key.append(name);
    env_string_or(env, key.as_str(), d)
}

/// Builds the OpenID provider `provider_id` from `AUTH_<PROVIDER>_*`
/// settings: client id, secret and issuer URL are required; the redirect URL
/// is `<PUBLIC_URL>/auth/login/<provider>/callback`; the identifier key
/// (`sub`) and the whitespace-separated scopes (`openid profile email`) may
/// be configured.
pub fn create_from_env(env: &Env, provider_id: &str) -> (r: Result<OpenIdProvider, AuthError>)
    ensures
        ({
            let prefix = "AUTH_"@ + spec_to_uppercase(provider_id@);
            let client_id = provider_setting(env@, prefix, "_CLIENT_ID"@, ""@);
            let client_secret = provider_setting(env@, prefix, "_CLIENT_SECRET"@, ""@);
            let issuer_url = provider_setting(env@, prefix, "_ISSUER_URL"@, ""@);
            let public_url = match spec_env_string(env@, "PUBLIC_URL"@) {
                Some(s) => s,
                None => "http://localhost:8055"@,
            };
            if client_id.len() == 0 || client_secret.len() == 0 || issuer_url.len() == 0 {
                r matches Err(AuthError::ConfigError(m)) && m@ == "OpenID provider '"@ + provider_id@ + "' is missing CLIENT_ID, CLIENT_SECRET, or ISSUER_URL"@
            } else {
                r matches Ok(p) && p.view() == (OpenIdSpec {
                    provider_id: provider_id@,
                    client_id: client_id,
                    client_secret: client_secret,
                    issuer_url: issuer_url,
                    redirect_url: public_url + "/auth/login/"@ + provider_id@ + "/callback"@,
                    identifier_key: provider_setting(env@, prefix, "_IDENTIFIER_KEY"@, "sub"@),
                    scopes: words(provider_setting(env@, prefix, "_SCOPE"@, "openid profile email"@)),
                    allow_public_registration: false,
                    default_role: None,
                })
            }
        }),
{
    let upper = to_uppercase(provider_id);
    let mut prefix = String::from_str("AUTH_");
    prefix.append(upper.as_str());
    let client_id = setting(env, prefix.as_str(), "_CLIENT_ID", "");
    let client_secret = setting(env, prefix.as_str(), "_CLIENT_SECRET", "");
    let issuer_url = setting(env, prefix.as_str(), "_ISSUER_URL", "");
    let public_url = env_string_or(env, "PUBLIC_URL", "http://localhost:8055");
    let mut redirect_url = public_url;
    redirect_url.append("/auth/login/");
    redirect_url.append(provider_id);
    redirect_url.append("/callback");
    if client_id.as_str().is_empty() || client_secret.as_str().is_empty() || issuer_url.as_str().is_empty() {
        let mut m = String::from_str("OpenID provider '");
        m.append(provider_id);
        m.append("' is missing CLIENT_ID, CLIENT_SECRET, or ISSUER_URL");
        return Err(AuthError::ConfigError(m));
    }
    let provider = OpenIdProvider::new(provider_id, client_id.as_str(), client_secret.as_str(), issuer_url.as_str(), redirect_url.as_str());
    let identifier_key = setting(env, prefix.as_str(), "_IDENTIFIER_KEY", "sub");
    let provider = provider.with_identifier_key(identifier_key.as_str());
    let scope_str = setting(env, prefix.as_str(), "_SCOPE", "openid profile email");
    let scopes = split_words(scope_str.as_str());
    Ok(provider.with_scopes(scopes))
}

} // verus!
