//! Whether the admin client is signed in.

use vstd::prelude::*;

verus! {

/// What the client knows of its session.
#[derive(Debug, Clone, PartialEq, Eq, Structural)]
pub enum AuthStatus {
    Unknown,
    Authenticated,
    Unauthenticated,
}

/// The client's session state: its status, whether a request is running,
/// and the last sign-in error.
pub struct AuthState {
    pub status: AuthStatus,
    pub loading: bool,
    pub error: Option<String>,
}

impl AuthState {
    /// The state at start-up: signed in exactly when a stored access token exists.
    pub fn new(has_token: bool) -> (r: AuthState)
        ensures
            r.status == (if has_token { AuthStatus::Authenticated } else { AuthStatus::Unauthenticated }),
            !r.loading,
            r.error is None,
    {
        AuthState {
            status: if has_token { AuthStatus::Authenticated } else { AuthStatus::Unauthenticated },
            loading: false,
            error: None,
        }
    }

    /// Whether the client is signed in.
    pub fn is_authenticated(&self) -> (r: bool)
        ensures
            r == (self.status == AuthStatus::Authenticated),
    {
        self.status == AuthStatus::Authenticated
    }

    /// A sign-in request starts: loading, with the last error cleared.
    pub fn start_login(&mut self)
        ensures
            final(self).loading,
            final(self).error is None,
            final(self).status == old(self).status,
    {
        self.loading = true;
        self.error = None;
    }

    /// A sign-in request ended with `outcome`: on success the client is
    /// signed in; on failure it is signed out and keeps the error. The
    /// outcome is handed back.
    pub fn finish_login(&mut self, outcome: Result<(), String>) -> (r: Result<(), String>)
        ensures
            !final(self).loading,
            match outcome {
                Ok(()) => final(self).status == AuthStatus::Authenticated && final(self).error == old(self).error && r is Ok,
                Err(e) => {
                    &&& final(self).status == AuthStatus::Unauthenticated
                    &&& final(self).error is Some && final(self).error->Some_0@ == e@
                    &&& r is Err && r->Err_0@ == e@
                },
            },
    {
        let r = match outcome {
            Ok(()) => {
                self.status = AuthStatus::Authenticated;
                Ok(())
            },
            Err(e) => {
                self.status = AuthStatus::Unauthenticated;
                self.error = Some(e.clone());
                Err(e)
            },
        };
        self.loading = false;
        r
    }

    /// A sign-out request ended (whatever its outcome): the client is signed out.
    pub fn finish_logout(&mut self)
        ensures
            final(self).status == AuthStatus::Unauthenticated,
            final(self).loading == old(self).loading,
            final(self).error == old(self).error,
    {
        self.status = AuthStatus::Unauthenticated;
    }

    /// A token refresh ended: signed in exactly when it succeeded, which is
    /// what is returned.
    pub fn finish_refresh(&mut self, succeeded: bool) -> (r: bool)
        ensures
            r == succeeded,
            final(self).status == (if succeeded { AuthStatus::Authenticated } else { AuthStatus::Unauthenticated }),
            final(self).loading == old(self).loading,
            final(self).error == old(self).error,
    {
        if succeeded {
            self.status = AuthStatus::Authenticated;
        } else {
            self.status = AuthStatus::Unauthenticated;
        }
        succeeded
    }
}

} // verus!
