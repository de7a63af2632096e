use vstd::prelude::*;

use crate::text::str_eq;

verus! {

broadcast use vstd::string::group_string_axioms;

/// Name of the cookie that holds the theme.
pub const THEME_COOKIE: &'static str = "zeptodo_theme";

/// Lifetime of the theme cookie, in seconds.
pub const ONE_YEAR_SECONDS: i64 = 60 * 60 * 24 * 365;

/// User-selected colour theme. Dark is the default: a missing or
/// unrecognised cookie resolves to it.
#[derive(Debug, Clone, Copy, PartialEq, Eq, Structural)]
pub enum Theme {
    Light,
    Dark,
}

/// The identifier emitted into `data-theme` and stored in the cookie.
pub open spec fn theme_name(t: Theme) -> Seq<char> {
    match t {
        Theme::Light => "light"@,
        Theme::Dark => "dark"@,
    }
}

/// The theme a cookie value selects: `Light` only for `"light"`.
pub open spec fn theme_of_cookie(value: Seq<char>) -> Theme {
    if value == "light"@ {
        Theme::Light
    } else {
        Theme::Dark
    }
}

/// The other theme.
pub open spec fn opposite(t: Theme) -> Theme {
    match t {
        Theme::Light => Theme::Dark,
        Theme::Dark => Theme::Light,
    }
}

/// The theme of a request: from its cookie, `Dark` when it has none.
pub open spec fn theme_of_request(cookie: Option<Seq<char>>) -> Theme {
    match cookie {
        Some(v) => theme_of_cookie(v),
        None => Theme::Dark,
    }
}

impl Theme {
    /// Return the canonical lowercase identifier.
    pub fn as_str(self) -> (r: &'static str)
        ensures
            r@ == theme_name(self),
    {
        match self {
            Theme::Light => "light",
            Theme::Dark => "dark",
        }
    }

    /// Parse the raw cookie value, defaulting to dark on any unknown value.
    pub fn from_cookie_value(value: &str) -> (t: Theme)
        ensures
            t == theme_of_cookie(value@),
    {
        if str_eq(value, "light") {
            Theme::Light
        } else {
            Theme::Dark
        }
    }

    /// Return the opposite theme.
    pub fn toggled(self) -> (t: Theme)
        ensures
            t == opposite(self),
    {
        match self {
            Theme::Light => Theme::Dark,
            Theme::Dark => Theme::Light,
        }
    }

    /// The theme of a request whose theme cookie holds `cookie`.
    pub fn from_cookie(cookie: Option<&str>) -> (t: Theme)
        ensures
            t == theme_of_request(
                match cookie {
                    Some(v) => Some(v@),
                    None => None,
                },
            ),
    {
        match cookie {
            Some(v) => Theme::from_cookie_value(v),
            None => Theme::Dark,
        }
    }
}

/// A theme survives the round trip through its cookie value, and toggling
/// twice gives it back.
pub proof fn theme_round_trip(t: Theme)
    ensures
        theme_of_cookie(theme_name(t)) == t,
        opposite(opposite(t)) == t,
        opposite(t) != t,
{
    reveal_strlit("light");
    reveal_strlit("dark");
    assert("light"@[0] != "dark"@[0]);
}

/// Decoded body of the `POST /theme/toggle` form (CSRF token only).
#[derive(Debug, Clone)]
pub struct ToggleForm {
    pub csrf: String,
}

/// Attributes of the theme cookie. `http_only` is off on purpose so the
/// switcher can read it for instant feedback.
#[derive(Debug, Clone)]
pub struct ThemeCookie {
    pub name: &'static str,
    pub value: &'static str,
    pub path: &'static str,
    pub http_only: bool,
    pub secure: bool,
    pub same_site_strict: bool,
    pub max_age_seconds: i64,
}

/// Build the theme cookie: `Path=/`, `SameSite=Strict`, one-year max-age,
/// readable by scripts, `Secure` as requested.
pub fn build_cookie(value: Theme, secure: bool) -> (c: ThemeCookie)
    ensures
        c.name@ == THEME_COOKIE@,
        c.value@ == theme_name(value),
        c.path@ == "/"@,
        !c.http_only,
        c.secure == secure,
        c.same_site_strict,
        c.max_age_seconds == ONE_YEAR_SECONDS,
{
    ThemeCookie {
        name: THEME_COOKIE,
        value: value.as_str(),
        path: "/",
        http_only: false,
        secure,
        same_site_strict: true,
        max_age_seconds: ONE_YEAR_SECONDS,
    }
}

/// What a theme toggle request is answered with.
#[derive(Debug, Clone)]
pub enum ToggleOutcome {
    /// 403: the CSRF token did not match.
    Forbidden,
    /// The cookie to set, then 204 for HTMX callers (`redirect` is `None`)
    /// or a redirect to `redirect` for plain clients.
    Toggled { cookie: ThemeCookie, redirect: Option<String> },
}

/// Flip the theme: the new cookie holds the opposite of the current theme;
/// plain clients go back to the referring page, or `/` without one.
pub fn toggle(
    csrf_ok: bool,
    current_cookie: Option<&str>,
    secure: bool,
    is_htmx: bool,
    referer: Option<&str>,
) -> (r: ToggleOutcome)
    ensures
        !csrf_ok ==> r is Forbidden,
        csrf_ok ==> (r matches ToggleOutcome::Toggled { cookie, redirect } && {
            &&& cookie.value@ == theme_name(
                opposite(
                    theme_of_request(
                        match current_cookie {
                            Some(v) => Some(v@),
                            None => None,
                        },
                    ),
                ),
            )
            &&& cookie.secure == secure
            &&& cookie.name@ == THEME_COOKIE@
            &&& cookie.path@ == "/"@
            &&& !cookie.http_only
            &&& cookie.same_site_strict
            &&& cookie.max_age_seconds == ONE_YEAR_SECONDS
            &&& is_htmx ==> redirect is None
            &&& !is_htmx ==> (redirect matches Some(target) && target@ == match referer {
                Some(r) => r@,
                None => "/"@,
            })
        }),
{
    if !csrf_ok {
        return ToggleOutcome::Forbidden;
    }
    let next = Theme::from_cookie(current_cookie).toggled();
    let cookie = build_cookie(next, secure);
    if is_htmx {
        return ToggleOutcome::Toggled { cookie, redirect: None };
    }
    let target = match referer {
        Some(r) => r.to_owned(),
        None => "/".to_owned(),
    };
    ToggleOutcome::Toggled { cookie, redirect: Some(target) }
}

} // verus!
