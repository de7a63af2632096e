use vstd::prelude::*;

use crate::auth::password::{self, verification, PasswordError};
use crate::domain::credentials::Credentials;
use crate::text::{str_eq, trim, trim_str};

verus! {

broadcast use vstd::string::group_string_axioms;

/// Decoded body of the `POST /login` form.
#[derive(Debug, Clone)]
pub struct LoginForm {
    pub csrf: String,
    pub username: String,
    pub password: String,
}

/// Decoded body of the `POST /logout` form.
#[derive(Debug, Clone)]
pub struct LogoutForm {
    pub csrf: String,
}

/// What the credentials lookup returned.
#[derive(Debug, Clone)]
pub enum CredentialsLookup {
    Found(Credentials),
    /// No credentials row: the server was never configured.
    Missing,
    /// The lookup failed.
    Failed,
}

/// How a login attempt is answered.
#[derive(Debug, Clone)]
pub enum LoginOutcome {
    /// 403: the CSRF token did not match.
    Forbidden,
    /// The login page again, with an error and the attempted username.
    Rejected { message: &'static str, username: String },
    /// Success: the session now belongs to `username`.
    LoggedIn { username: String },
    /// 500: the credentials could not be read.
    Failed,
}

/// The credentials accept the attempt: the trimmed username equals the stored
/// one and Argon2 accepts the password against the stored hash (an
/// unreadable hash accepts nothing).
pub open spec fn accepts(creds: &Credentials, username: Seq<char>, password: Seq<char>) -> bool {
    creds.username@ == trim(username) && verification(password, creds.password_hash@) == Ok::<
        bool,
        PasswordError,
    >(true)
}

/// Decide a login submission. The password is checked even when the
/// username is wrong, so that both failures take the same time.
pub fn post_login(csrf_ok: bool, form: &LoginForm, lookup: &CredentialsLookup) -> (r: LoginOutcome)
    ensures
        !csrf_ok ==> r is Forbidden,
        csrf_ok && lookup is Missing ==> (r matches LoginOutcome::Rejected { message, username }
            && message@ == "Server is not configured."@ && username@ == trim(form.username@)),
        csrf_ok && lookup is Failed ==> r is Failed,
        csrf_ok ==> (lookup matches CredentialsLookup::Found(c) ==> (accepts(
            c,
            form.username@,
            form.password@,
        ) ==> (r matches LoginOutcome::LoggedIn { username } && username == c.username))),
        csrf_ok ==> (lookup matches CredentialsLookup::Found(c) ==> (!accepts(
            c,
            form.username@,
            form.password@,
        ) ==> (r matches LoginOutcome::Rejected { message, username } && message@
            == "Invalid username or password."@ && username@ == trim(form.username@)))),
        r matches LoginOutcome::LoggedIn { .. } ==> {
            &&& csrf_ok
            &&& lookup matches CredentialsLookup::Found(c) && accepts(c, form.username@, form.password@)
        },
{
    if !csrf_ok {
        return LoginOutcome::Forbidden;
    }
    let attempted_username = trim_str(form.username.as_str());
    let creds = match lookup {
        CredentialsLookup::Found(c) => c,
        CredentialsLookup::Missing => {
            return LoginOutcome::Rejected {
                message: "Server is not configured.",
                username: attempted_username,
            };
        },
        CredentialsLookup::Failed => {
            return LoginOutcome::Failed;
        },
    };
    let username_ok = str_eq(creds.username.as_str(), attempted_username.as_str());
    let password_ok = match password::verify(form.password.as_str(), creds.password_hash.as_str()) {
        Ok(b) => b,
        Err(_) => false,
    };
    if !(username_ok && password_ok) {
        return LoginOutcome::Rejected {
            message: "Invalid username or password.",
            username: attempted_username,
        };
    }
    LoginOutcome::LoggedIn { username: creds.username.clone() }
}

/// Status of the login page: 401 when it shows an error, 200 otherwise.
pub fn login_page_status(error: Option<&str>) -> (s: u16)
    ensures
        error is Some ==> s == 401,
        error is None ==> s == 200,
{
    match error {
        Some(_) => 401,
        None => 200,
    }
}

} // verus!
