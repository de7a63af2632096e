use vstd::prelude::*;

verus! {

/// Session key holding the authenticated username.
pub const SESSION_USERNAME_KEY: &'static str = "username";

/// Where requests without an authenticated user are sent.
pub const LOGIN_PATH: &'static str = "/login";

/// A handler's proof that the request comes from the logged-in user.
#[derive(Debug, Clone)]
pub struct AuthedUser(pub String);

impl AuthedUser {
    /// The authenticated user named in the session; `None` (a redirect to
    /// [`LOGIN_PATH`]) when the session holds no username.
    pub fn from_session(username: Option<String>) -> (r: Option<AuthedUser>)
        ensures
            r matches Some(u) ==> username == Some(u.0),
            r is None <==> username is None,
    {
        match username {
            Some(name) => Some(AuthedUser(name)),
            None => None,
        }
    }
}

} // verus!
