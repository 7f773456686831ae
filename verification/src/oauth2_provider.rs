//! Sign-in through an OAuth2 provider: its configuration, what a user-info
//! response tells about the user, and the decisions of its login flow.

use vstd::prelude::*;
use vstd::string::*;
use crate::auth::{default_scopes, opt_string, provider_setting, setting, split_words, words, AuthError, LoginResult};
use crate::database::query::opt_view;
use crate::env::{env_string_or, spec_env_string, Env};
use crate::json::{get_str, get_str_exec, Json, JsonValue};
use crate::text::{spec_to_uppercase, str_eq, to_uppercase, views};

verus! {

/// Why `s` is not a URL that the `url` crate accepts (`None` when it is one):
/// the parser's error message.
pub uninterp spec fn spec_url_parse_error(s: Seq<char>) -> Option<Seq<char>>;

/// `url::Url::parse` (the parser behind `oauth2`'s `AuthUrl::new`,
/// `TokenUrl::new` and `RedirectUrl::new`): it accepts `s` or gives the
/// parser's message. Which texts it accepts is named by `spec_url_parse_error`.
#[verifier::external_body]
fn parse_url(s: &str) -> (r: Result<(), String>)
    ensures
        match r {
            Ok(()) => spec_url_parse_error(s@) is None,
            Err(m) => spec_url_parse_error(s@) == Some(m@),
        },
{
    match oauth2::url::Url::parse(s) {
        Ok(_) => Ok(()),
        Err(e) => Err(e.to_string()),
    }
}

/// A character of the URL-safe base64 alphabet.
pub open spec fn is_base64url_char(c: char) -> bool {
    ('A' <= c && c <= 'Z') || ('a' <= c && c <= 'z') || ('0' <= c && c <= '9') || c == '-' || c == '_'
}

/// The text of a fresh CSRF token: 128 random bits in URL-safe base64
/// without padding, 22 characters.
pub open spec fn csrf_state_text(s: Seq<char>) -> bool {
    s.len() == 22 && forall|i: int| 0 <= i < 22 ==> is_base64url_char(#[trigger] s[i])
}

/// The sign-in URL that `oauth2` builds for an authorization URL, client,
/// redirect URL, scopes and state.
pub uninterp spec fn spec_oauth2_authorize_url(authorize_url: Seq<char>, client_id: Seq<char>, redirect_url: Seq<char>, scopes: Seq<Seq<char>>, state: Seq<char>) -> Seq<char>;

/// `oauth2::basic::BasicClient::authorize_url` with `CsrfToken::new_random`
/// and the scopes added in order: the sign-in URL and its random state. It
/// fails exactly when the authorization URL, then the redirect URL, is not
/// one the `url` parser accepts, with the parser's message. The URL is named
/// by `spec_oauth2_authorize_url` in terms of the state; the state is
/// random, and only its form is stated.
#[verifier::external_body]
fn oauth2_authorize_url(authorize_url: &str, client_id: &str, redirect_url: &str, scopes: &Vec<String>) -> (r: Result<(String, String), String>)
    ensures
        match r {
            Ok((u, st)) => spec_url_parse_error(authorize_url@) is None && spec_url_parse_error(redirect_url@) is None
                && csrf_state_text(st@)
                && u@ == spec_oauth2_authorize_url(authorize_url@, client_id@, redirect_url@, views(scopes@), st@),
            Err(m) => if spec_url_parse_error(authorize_url@) is Some {
                spec_url_parse_error(authorize_url@) == Some(m@)
            } else {
                spec_url_parse_error(redirect_url@) == Some(m@)
            },
        },
{
    let auth = oauth2::AuthUrl::new(authorize_url.to_string()).map_err(|e| e.to_string())?;
    let redirect = oauth2::RedirectUrl::new(redirect_url.to_string()).map_err(|e| e.to_string())?;
    let client = oauth2::basic::BasicClient::new(oauth2::ClientId::new(client_id.to_string()), None, auth, None)
        .set_redirect_uri(redirect);
    let scope_list: Vec<oauth2::Scope> = scopes.iter().map(|s| oauth2::Scope::new(s.clone())).collect();
    let (url, state) = client.authorize_url(oauth2::CsrfToken::new_random).add_scopes(scope_list).url();
    Ok((url.to_string(), state.secret().clone()))
}

/// The configuration of an OAuth2 provider.
pub struct OAuth2Spec {
    pub provider_id: Seq<char>,
    pub client_id: Seq<char>,
    pub client_secret: Seq<char>,
    pub authorize_url: Seq<char>,
    pub token_url: Seq<char>,
    pub redirect_url: Seq<char>,
    pub user_info_url: Seq<char>,
    pub identifier_key: Seq<char>,
    pub email_key: Seq<char>,
    pub scopes: Seq<Seq<char>>,
    pub allow_public_registration: bool,
    pub default_role: Option<Seq<char>>,
}

/// Sign-in with an OAuth2 identity provider. Its authorization, token and
/// redirect URLs are URLs the `url` crate accepts.
#[derive(Debug)]
pub struct OAuth2Provider {
    provider_id: String,
    client_id: String,
    client_secret: String,
    authorize_url: String,
    token_url: String,
    redirect_url: String,
    user_info_url: String,
    identifier_key: String,
    email_key: String,
    scopes: Vec<String>,
    allow_public_registration: bool,
    default_role: Option<String>,
}

/// What a completed OAuth2 login tells about the user.
#[derive(Debug)]
pub struct OAuth2UserInfo {
    pub identifier: String,
    pub email: Option<String>,
    pub first_name: Option<String>,
    pub last_name: Option<String>,
    pub provider: String,
    pub access_token: String,
    pub refresh_token: Option<String>,
    pub raw: JsonValue,
}

/// The text of member `first` when there is such a member (nothing when it
/// is not a string), else the text of member `second`.
pub open spec fn name_member(info: Json, first: Seq<char>, second: Seq<char>) -> Option<Seq<char>> {
    match info.get(first) {
        Some(v) => v.as_str(),
        None => get_str(info, second),
    }
}

fn name_member_exec(info: &JsonValue, first: &str, second: &str) -> (r: Option<String>)
    ensures
        opt_view(r) == name_member(info@, first@, second@),
{
    match info.get(first) {
        Some(v) => opt_string(v.as_str()),
        None => opt_string(get_str_exec(info, second)),
    }
}

/// The message of a rejected URL: `prefix`, then the parser's message.
pub open spec fn url_error(prefix: Seq<char>, url: Seq<char>) -> Seq<char> {
    prefix + spec_url_parse_error(url)->Some_0
}

impl OAuth2Provider {
    /// The configuration of this provider.
    pub closed spec fn view(&self) -> OAuth2Spec {
        OAuth2Spec {
            provider_id: self.provider_id@,
            client_id: self.client_id@,
            client_secret: self.client_secret@,
            authorize_url: self.authorize_url@,
            token_url: self.token_url@,
            redirect_url: self.redirect_url@,
            user_info_url: self.user_info_url@,
            identifier_key: self.identifier_key@,
            email_key: self.email_key@,
            scopes: views(self.scopes@),
            allow_public_registration: self.allow_public_registration,
            default_role: opt_view(self.default_role),
        }
    }

    /// A provider for the given client and URLs, identifying users by `sub`,
    /// reading the e-mail address from `email`, asking for the `openid`,
    /// `profile` and `email` scopes, without public registration. A URL the
    /// parser rejects is a configuration error, the authorization URL checked
    /// first, then the token URL, then the redirect URL.
    pub fn new(
        provider_id: &str,
        client_id: &str,
        client_secret: &str,
        authorize_url: &str,
        token_url: &str,
        redirect_url: &str,
        user_info_url: &str,
    ) -> (r: Result<OAuth2Provider, AuthError>)
        ensures
            if spec_url_parse_error(authorize_url@) is Some {
                r matches Err(AuthError::ConfigError(m)) && m@ == url_error("Invalid authorize URL: "@, authorize_url@)
            } else if spec_url_parse_error(token_url@) is Some {
                r matches Err(AuthError::ConfigError(m)) && m@ == url_error("Invalid token URL: "@, token_url@)
            } else if spec_url_parse_error(redirect_url@) is Some {
                r matches Err(AuthError::ConfigError(m)) && m@ == url_error("Invalid redirect URL: "@, redirect_url@)
            } else {
                r matches Ok(p) && p.view() == (OAuth2Spec {
                    provider_id: provider_id@,
                    client_id: client_id@,
                    client_secret: client_secret@,
                    authorize_url: authorize_url@,
                    token_url: token_url@,
                    redirect_url: redirect_url@,
                    user_info_url: user_info_url@,
                    identifier_key: "sub"@,
                    email_key: "email"@,
                    scopes: default_scopes(),
                    allow_public_registration: false,
                    default_role: None,
                })
            },
    {
        match parse_url(authorize_url) {
            Ok(()) => {},
            Err(e) => {
                let mut m = String::from_str("Invalid authorize URL: ");
                m.append(e.as_str());
                return Err(AuthError::ConfigError(m));
            },
        }
        match parse_url(token_url) {
            Ok(()) => {},
            Err(e) => {
                let mut m = String::from_str("Invalid token URL: ");
                m.append(e.as_str());
                return Err(AuthError::ConfigError(m));
            },
        }
        match parse_url(redirect_url) {
            Ok(()) => {},
            Err(e) => {
                let mut m = String::from_str("Invalid redirect URL: ");
                m.append(e.as_str());
                return Err(AuthError::ConfigError(m));
            },
        }
        let scopes = vec![String::from_str("openid"), String::from_str("profile"), String::from_str("email")];
        let r = OAuth2Provider {
            provider_id: String::from_str(provider_id),
            client_id: String::from_str(client_id),
            client_secret: String::from_str(client_secret),
            authorize_url: String::from_str(authorize_url),
            token_url: String::from_str(token_url),
            redirect_url: String::from_str(redirect_url),
            user_info_url: String::from_str(user_info_url),
            identifier_key: String::from_str("sub"),
            email_key: String::from_str("email"),
            scopes: scopes,
            allow_public_registration: false,
            default_role: None,
        };
        assert(views(r.scopes@) =~= default_scopes());
        Ok(r)
    }

    /// The same provider reading the user's identifier from member `key`.
    pub fn with_identifier_key(self, key: &str) -> (r: OAuth2Provider)
        ensures
            r.view() == (OAuth2Spec { identifier_key: key@, ..self.view() }),
    {
        let mut s = self;
        s.identifier_key = String::from_str(key);
        s
    }

    /// The same provider reading the e-mail address from member `key`.
    pub fn with_email_key(self, key: &str) -> (r: OAuth2Provider)
        ensures
            r.view() == (OAuth2Spec { email_key: key@, ..self.view() }),
    {
        let mut s = self;
        s.email_key = String::from_str(key);
        s
    }

    /// The same provider asking for `scopes`.
    pub fn with_scopes(self, scopes: Vec<String>) -> (r: OAuth2Provider)
        ensures
            r.view() == (OAuth2Spec { scopes: views(scopes@), ..self.view() }),
    {
        let mut s = self;
        s.scopes = scopes;
        s
    }

    /// The same provider with public registration allowed or not, and the
    /// role given to users it registers.
    pub fn with_public_registration(self, allow: bool, default_role: Option<String>) -> (r: OAuth2Provider)
        ensures
            r.view() == (OAuth2Spec { allow_public_registration: allow, default_role: opt_view(default_role), ..self.view() }),
    {
        let mut s = self;
        s.allow_public_registration = allow;
        s.default_role = default_role;
        s
    }

    /// Whether users signing in for the first time are registered.
    pub fn allows_public_registration(&self) -> (r: bool)
        ensures
            r == self.view().allow_public_registration,
    {
        self.allow_public_registration
    }

    /// The role given to users this provider registers.
    pub fn default_role(&self) -> (r: Option<&str>)
        ensures
            match r {
                Some(x) => self.view().default_role == Some(x@),
                None => self.view().default_role is None,
            },
    {
        match &self.default_role {
            Some(x) => Some(x.as_str()),
            None => None,
        }
    }

    /// The client and the URLs the token exchange is made with: client id,
    /// client secret, authorization URL, token URL and redirect URL.
    pub fn client_settings(&self) -> (r: (String, String, String, String, String))
        ensures
            r.0@ == self.view().client_id,
            r.1@ == self.view().client_secret,
            r.2@ == self.view().authorize_url,
            r.3@ == self.view().token_url,
            r.4@ == self.view().redirect_url,
    {
        (self.client_id.clone(), self.client_secret.clone(), self.authorize_url.clone(), self.token_url.clone(), self.redirect_url.clone())
    }

    /// The scopes this provider asks for.
    pub fn scopes(&self) -> (r: Vec<String>)
        ensures
            views(r@) == self.view().scopes,
    {
        crate::database::query::copy_strings(&self.scopes)
    }

    /// The sign-in URL with this provider's client, redirect URL and
    /// scopes, and the random state it carries. An authorization or
    /// redirect URL that the parser rejects is a configuration error (which
    /// a provider made by `new` never has).
    pub fn get_authorize_url(&self) -> (r: Result<(String, String), AuthError>)
        ensures
            if spec_url_parse_error(self.view().authorize_url) is Some {
                r matches Err(AuthError::ConfigError(m)) && m@ == url_error("Invalid authorize URL: "@, self.view().authorize_url)
            } else if spec_url_parse_error(self.view().redirect_url) is Some {
                r matches Err(AuthError::ConfigError(m)) && m@ == url_error("Invalid redirect URL: "@, self.view().redirect_url)
            } else {
                r matches Ok((u, st)) && csrf_state_text(st@) && u@ == spec_oauth2_authorize_url(
                    self.view().authorize_url, self.view().client_id, self.view().redirect_url, self.view().scopes, st@)
            },
    {
        match oauth2_authorize_url(self.authorize_url.as_str(), self.client_id.as_str(), self.redirect_url.as_str(), &self.scopes) {
            Ok(pair) => Ok(pair),
            Err(e) => {
                let auth_bad = parse_url(self.authorize_url.as_str()).is_err();
                let mut m = if auth_bad {
                    String::from_str("Invalid authorize URL: ")
                } else {
                    String::from_str("Invalid redirect URL: ")
                };
                m.append(e.as_str());
                Err(AuthError::ConfigError(m))
            },
        }
    }

    /// Where the user's profile is read after the token exchange.
    pub fn user_info_url(&self) -> (r: &str)
        ensures
            r@ == self.view().user_info_url,
    {
        self.user_info_url.as_str()
    }

    /// What the user-info response tells about the user: the identifier
    /// (required) and e-mail address from the configured members, the first
    /// name from `given_name` or else `first_name`, the last name from
    /// `family_name` or else `last_name`, with the tokens and the whole
    /// response.
    pub fn user_info(&self, info: JsonValue, access_token: String, refresh_token: Option<String>) -> (r: Result<OAuth2UserInfo, AuthError>)
        ensures
            match get_str(info@, self.view().identifier_key) {
                None => r matches Err(AuthError::ProviderError(m))
                    && m@ == "User info missing identifier key '"@ + self.view().identifier_key + "'"@,
                Some(id) => r matches Ok(u) && {
                    &&& u.identifier@ == id
                    &&& opt_view(u.email) == get_str(info@, self.view().email_key)
                    &&& opt_view(u.first_name) == name_member(info@, "given_name"@, "first_name"@)
                    &&& opt_view(u.last_name) == name_member(info@, "family_name"@, "last_name"@)
                    &&& u.provider@ == self.view().provider_id
                    &&& u.access_token@ == access_token@
                    &&& opt_view(u.refresh_token) == opt_view(refresh_token)
                    &&& u.raw@ == info@
                },
            },
    {
        let identifier = match get_str_exec(&info, self.identifier_key.as_str()) {
            Some(id) => String::from_str(id),
            None => {
                let mut m = String::from_str("User info missing identifier key '");
                m.append(self.identifier_key.as_str());
                m.append("'");
                return Err(AuthError::ProviderError(m));
            },
        };
        let email = opt_string(get_str_exec(&info, self.email_key.as_str()));
        let first_name = name_member_exec(&info, "given_name", "first_name");
        let last_name = name_member_exec(&info, "family_name", "last_name");
        Ok(OAuth2UserInfo {
            identifier,
            email,
            first_name,
            last_name,
            provider: self.provider_id.clone(),
            access_token,
            refresh_token,
            raw: info,
        })
    }

    /// The authorization code of a login payload (member `code`); without
    /// one the credentials are invalid.
    pub fn login_code(&self, payload: &JsonValue) -> (r: Result<String, AuthError>)
        ensures
            match get_str(payload@, "code"@) {
                Some(c) => r matches Ok(x) && x@ == c,
                None => r matches Err(AuthError::InvalidCredentials),
            },
    {
        match get_str_exec(payload, "code") {
            Some(c) => Ok(String::from_str(c)),
            None => Err(AuthError::InvalidCredentials),
        }
    }

    /// OAuth2 sign-in has no passwords.
    pub fn verify_password(&self, user_id: &str, password: &str) -> (r: Result<(), AuthError>)
        ensures
            r matches Err(AuthError::ProviderError(m)) && m@ == "OAuth2 does not support password verification"@,
    {
        Err(AuthError::ProviderError(String::from_str("OAuth2 does not support password verification")))
    }

    /// After the code is redeemed, a login is completed by the
    /// authentication service, not by the provider.
    pub fn login_after_exchange(&self) -> (r: Result<LoginResult, AuthError>)
        ensures
            r matches Err(AuthError::ProviderError(m)) && m@ == "Use AuthenticationService.login() for the full OAuth2 flow"@,
    {
        Err(AuthError::ProviderError(String::from_str("Use AuthenticationService.login() for the full OAuth2 flow")))
    }

    /// The driver name.
    pub fn driver_name(&self) -> (r: &'static str)
        ensures
            r@ == "oauth2"@,
    {
        "oauth2"
    }
}

/// Builds the OAuth2 provider `provider_id` from `AUTH_<PROVIDER>_*`
/// settings: client id and secret are required; the authorization, token
/// (`_ACCESS_URL`) and profile URLs are read; the redirect URL is
/// `<PUBLIC_URL>/auth/login/<provider>/callback`; the identifier key
/// (`sub`), e-mail key (`email`) and whitespace-separated scopes
/// (`openid profile email`) may be configured; public registration is on
/// when `_ALLOW_PUBLIC_REGISTRATION` is `true`, with `_DEFAULT_ROLE_ID` as
/// the role when it is not empty.
pub fn create_from_env(env: &Env, provider_id: &str) -> (r: Result<OAuth2Provider, AuthError>)
    ensures
        ({
            let prefix = "AUTH_"@ + spec_to_uppercase(provider_id@);
            let client_id = provider_setting(env@, prefix, "_CLIENT_ID"@, ""@);
            let client_secret = provider_setting(env@, prefix, "_CLIENT_SECRET"@, ""@);
            let authorize_url = provider_setting(env@, prefix, "_AUTHORIZE_URL"@, ""@);
            let token_url = provider_setting(env@, prefix, "_ACCESS_URL"@, ""@);
            let user_info_url = provider_setting(env@, prefix, "_PROFILE_URL"@, ""@);
            let public_url = match spec_env_string(env@, "PUBLIC_URL"@) {
                Some(s) => s,
                None => "http://localhost:8055"@,
            };
            let redirect_url = public_url + "/auth/login/"@ + provider_id@ + "/callback"@;
            let allow = provider_setting(env@, prefix, "_ALLOW_PUBLIC_REGISTRATION"@, "false"@) == "true"@;
            let role = provider_setting(env@, prefix, "_DEFAULT_ROLE_ID"@, ""@);
            if client_id.len() == 0 || client_secret.len() == 0 {
                r matches Err(AuthError::ConfigError(m))
                    && m@ == "OAuth2 provider '"@ + provider_id@ + "' is missing CLIENT_ID or CLIENT_SECRET"@
            } else if spec_url_parse_error(authorize_url) is Some {
                r matches Err(AuthError::ConfigError(m)) && m@ == url_error("Invalid authorize URL: "@, authorize_url)
            } else if spec_url_parse_error(token_url) is Some {
                r matches Err(AuthError::ConfigError(m)) && m@ == url_error("Invalid token URL: "@, token_url)
            } else if spec_url_parse_error(redirect_url) is Some {
                r matches Err(AuthError::ConfigError(m)) && m@ == url_error("Invalid redirect URL: "@, redirect_url)
            } else {
                r matches Ok(p) && p.view() == (OAuth2Spec {
                    provider_id: provider_id@,
                    client_id: client_id,
                    client_secret: client_secret,
                    authorize_url: authorize_url,
                    token_url: token_url,
                    redirect_url: redirect_url,
                    user_info_url: user_info_url,
                    identifier_key: provider_setting(env@, prefix, "_IDENTIFIER_KEY"@, "sub"@),
                    email_key: provider_setting(env@, prefix, "_EMAIL_KEY"@, "email"@),
                    scopes: words(provider_setting(env@, prefix, "_SCOPE"@, "openid profile email"@)),
                    allow_public_registration: allow,
                    default_role: if allow && role.len() > 0 { Some(role) } else { None },
                })
            }
        }),
{
    let upper = to_uppercase(provider_id);
    let mut prefix = String::from_str("AUTH_");
    prefix.append(upper.as_str());
    let p = prefix.as_str();
    let client_id = setting(env, p, "_CLIENT_ID", "");
    let client_secret = setting(env, p, "_CLIENT_SECRET", "");
    let authorize_url = setting(env, p, "_AUTHORIZE_URL", "");
    let token_url = setting(env, p, "_ACCESS_URL", "");
    let user_info_url = setting(env, p, "_PROFILE_URL", "");
    let public_url = env_string_or(env, "PUBLIC_URL", "http://localhost:8055");
    let mut redirect_url = public_url;
    redirect_url.append("/auth/login/");
    redirect_url.append(provider_id);
    redirect_url.append("/callback");
    if client_id.as_str().is_empty() || client_secret.as_str().is_empty() {
        let mut m = String::from_str("OAuth2 provider '");
        m.append(provider_id);
        m.append("' is missing CLIENT_ID or CLIENT_SECRET");
        return Err(AuthError::ConfigError(m));
    }
    let provider = match OAuth2Provider::new(
        provider_id,
        client_id.as_str(),
        client_secret.as_str(),
        authorize_url.as_str(),
        token_url.as_str(),
        redirect_url.as_str(),
        user_info_url.as_str(),
    ) {
        Ok(pr) => pr,
        Err(e) => return Err(e),
    };
    let identifier_key = setting(env, p, "_IDENTIFIER_KEY", "sub");
    let provider = provider.with_identifier_key(identifier_key.as_str());
    let email_key = setting(env, p, "_EMAIL_KEY", "email");
    let provider = provider.with_email_key(email_key.as_str());
    let scope_str = setting(env, p, "_SCOPE", "openid profile email");
    let scopes = split_words(scope_str.as_str());
    let provider = provider.with_scopes(scopes);
    let allow_public = setting(env, p, "_ALLOW_PUBLIC_REGISTRATION", "false");
    let default_role = setting(env, p, "_DEFAULT_ROLE_ID", "");
    if str_eq(allow_public.as_str(), "true") {
        let role = if default_role.as_str().is_empty() { None } else { Some(default_role) };
        Ok(provider.with_public_registration(true, role))
    } else {
        Ok(provider)
    }
}

} // verus!
