//! The signed-in user as the admin client shows it.

use vstd::prelude::*;
use vstd::string::*;
use crate::database::query::opt_view;
use crate::json::JsonValue;

verus! {

/// The current user as the API returns it; members the client does not
/// know are kept in `extra`.
#[derive(Debug)]
pub struct CurrentUser {
    pub id: String,
    pub first_name: Option<String>,
    pub last_name: Option<String>,
    pub email: Option<String>,
    pub avatar: Option<String>,
    pub language: Option<String>,
    pub status: Option<String>,
    pub role: Option<String>,
    pub appearance: Option<String>,
    pub title: Option<String>,
    pub last_page: Option<String>,
    pub theme_dark: Option<String>,
    pub theme_light: Option<String>,
    pub extra: Vec<(String, JsonValue)>,
}

/// The name to greet a user by: first and last name, either alone, else
/// the e-mail address, else `User`.
pub open spec fn user_label(first: Option<Seq<char>>, last: Option<Seq<char>>, email: Option<Seq<char>>) -> Seq<char> {
    match (first, last) {
        (Some(f), Some(l)) => f + " "@ + l,
        (Some(f), None) => f,
        (None, Some(l)) => l,
        (None, None) => match email {
            Some(e) => e,
            None => "User"@,
        },
    }
}

impl CurrentUser {
    /// The name to greet the user by.
    pub fn display_name(&self) -> (r: String)
        ensures
            r@ == user_label(opt_view(self.first_name), opt_view(self.last_name), opt_view(self.email)),
    {
        match (&self.first_name, &self.last_name) {
            (Some(f), Some(l)) => {
                let mut r = f.clone();
                r.append(" ");
                r.append(l.as_str());
                r
            },
            (Some(f), None) => f.clone(),
            (None, Some(l)) => l.clone(),
            (None, None) => match &self.email {
                Some(e) => e.clone(),
                None => String::from_str("User"),
            },
        }
    }
}

/// The signed-in user the client has loaded.
pub struct UserStore {
    pub current: Option<CurrentUser>,
    pub loading: bool,
}

impl UserStore {
    /// A store with no user, not loading.
    pub fn new() -> (r: UserStore)
        ensures
            r.current is None,
            !r.loading,
    {
        UserStore { current: None, loading: false }
    }
}

} // verus!
