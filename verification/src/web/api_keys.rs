use vstd::prelude::*;

use crate::domain::api_key::{
    expired, parse_expiry, representable, ApiKey, ExpiryChoice, MAX_INSTANT_MICROS,
    MIN_INSTANT_MICROS,
};
use crate::web::tasks::{opt_chars, optional_field, sanitize_optional, FormOutcome};

verus! {

broadcast use vstd::string::group_string_axioms;

/// The text chrono renders for the instant `micros` (microseconds since the
/// Unix epoch, UTC) with the pattern `%Y-%m-%d %H:%M UTC`.
pub uninterp spec fn utc_minute_text(micros: i64) -> Seq<char>;

/// `DateTime::<Utc>::from_timestamp_micros` of chrono, then `format("%Y-%m-%d %H:%M UTC")`:
/// `None` exactly outside the range chrono represents, else the rendered text,
/// a function of the instant alone.
#[verifier::external_body]
fn format_utc_minute(micros: i64) -> (r: Option<String>)
    ensures
        r is Some <==> MIN_INSTANT_MICROS <= micros <= MAX_INSTANT_MICROS,
        r matches Some(s) ==> s@ == utc_minute_text(micros),
{
    chrono::DateTime::from_timestamp_micros(micros).map(|dt| dt.format("%Y-%m-%d %H:%M UTC").to_string())
}

/// Static description of an expiry option, used by both creation and edit menus.
#[derive(Debug, Clone)]
pub struct ExpiryOption {
    pub value: &'static str,
    pub label: &'static str,
}

/// The expiry menu: `(value, label)` pairs from 30 days through "never".
pub open spec fn expiry_menu() -> Seq<(Seq<char>, Seq<char>)> {
    seq![
        ("30"@, "30 days"@),
        ("90"@, "90 days"@),
        ("180"@, "180 days"@),
        ("365"@, "1 year"@),
        ("never"@, "Never"@),
    ]
}

/// Return the ordered list of expiry choices shown in the dropdown.
pub fn expiry_options() -> (v: Vec<ExpiryOption>)
    ensures
        v@.len() == 5,
        forall|i: int|
            0 <= i < 5 ==> (#[trigger] v@[i]).value@ == expiry_menu()[i].0 && v@[i].label@
                == expiry_menu()[i].1,
{
    let mut v = Vec::new();
    v.push(ExpiryOption { value: "30", label: "30 days" });
    v.push(ExpiryOption { value: "90", label: "90 days" });
    v.push(ExpiryOption { value: "180", label: "180 days" });
    v.push(ExpiryOption { value: "365", label: "1 year" });
    v.push(ExpiryOption { value: "never", label: "Never" });
    v
}

/// Template-ready projection of an [`ApiKey`].
#[derive(Debug, Clone)]
pub struct ApiKeyView {
    pub id: i64,
    pub key_prefix: String,
    pub description_text: String,
    pub expires_at_display: String,
    pub last_used_at_display: String,
    pub is_expired: bool,
    pub current_expiry_value: &'static str,
}

/// Display text of an optional instant.
pub open spec fn datetime_text(value: Option<i64>, fallback: Seq<char>) -> Seq<char> {
    match value {
        Some(t) => utc_minute_text(t),
        None => fallback,
    }
}

/// Format an optional UTC instant as `YYYY-MM-DD HH:MM UTC`, or `fallback`.
pub fn format_datetime(value: Option<i64>, fallback: &str) -> (r: String)
    requires
        value matches Some(t) ==> representable(t),
    ensures
        r@ == datetime_text(value, fallback@),
{
    match value {
        Some(t) => match format_utc_minute(t) {
            Some(s) => s,
            None => fallback.to_owned(),
        },
        None => fallback.to_owned(),
    }
}

/// Build an [`ApiKeyView`] for rendering at instant `now`. The expiry menu of
/// a bounded key preselects one year, that of an unbounded key "never".
pub fn build_view(record: &ApiKey, now: i64) -> (v: ApiKeyView)
    requires
        record.instants_representable(),
    ensures
        v.id == record.id,
        v.key_prefix == record.key_prefix,
        v.description_text@ == match record.description {
            Some(d) => d@,
            None => Seq::<char>::empty(),
        },
        v.expires_at_display@ == datetime_text(record.expires_at, "Never"@),
        v.last_used_at_display@ == datetime_text(record.last_used_at, "Never"@),
        v.is_expired == expired(record.expires_at, now),
        v.current_expiry_value@ == if record.expires_at is None {
            "never"@
        } else {
            "365"@
        },
{
    let current_expiry_value: &'static str = match record.expires_at {
        None => "never",
        Some(_) => "365",
    };
    ApiKeyView {
        id: record.id,
        key_prefix: record.key_prefix.clone(),
        description_text: match &record.description {
            Some(d) => d.clone(),
            None => String::new(),
        },
        expires_at_display: format_datetime(record.expires_at, "Never"),
        last_used_at_display: format_datetime(record.last_used_at, "Never"),
        is_expired: record.is_expired(now),
        current_expiry_value,
    }
}

/// Decoded body of the `POST /api-keys` create form.
#[derive(Debug, Clone)]
pub struct CreateForm {
    pub csrf: String,
    pub description: Option<String>,
    pub expiry: String,
}

/// Decoded body of the `POST /api-keys/{id}/edit_expiry` form.
#[derive(Debug, Clone)]
pub struct EditExpiryForm {
    pub csrf: String,
    pub expiry: String,
}

/// Decoded body of the `POST /api-keys/{id}/edit_description` form.
#[derive(Debug, Clone)]
pub struct EditDescriptionForm {
    pub csrf: String,
    pub description: Option<String>,
}

/// Decoded body of the `POST /api-keys/{id}/delete` form (CSRF token only).
#[derive(Debug, Clone)]
pub struct DeleteForm {
    pub csrf: String,
}

/// Message of an unknown expiry choice.
pub const EXPIRY_RULE: &'static str = "invalid expiry choice";

fn opt_str(s: &Option<String>) -> (r: Option<&str>)
    ensures
        match r {
            Some(x) => s matches Some(y) && x@ == y@,
            None => s is None,
        },
{
    match s {
        Some(v) => Some(v.as_str()),
        None => None,
    }
}

/// Check a key creation form: CSRF, then the expiry choice; the description
/// is trimmed and dropped when blank.
pub fn create(csrf_ok: bool, form: &CreateForm) -> (r: FormOutcome<(Option<String>, ExpiryChoice)>)
    ensures
        !csrf_ok ==> r is Forbidden,
        csrf_ok && parse_expiry(form.expiry@) is None ==> (r matches FormOutcome::BadRequest(m) && m@
            == EXPIRY_RULE@),
        csrf_ok ==> (parse_expiry(form.expiry@) matches Some(c) ==> (r matches FormOutcome::Proceed(
            p,
        ) && p.1 == c && opt_chars(p.0) == optional_field(opt_chars(form.description)))),
{
    if !csrf_ok {
        return FormOutcome::Forbidden;
    }
    let expiry = match ExpiryChoice::parse(form.expiry.as_str()) {
        Ok(c) => c,
        Err(_) => return FormOutcome::BadRequest(EXPIRY_RULE),
    };
    let description = sanitize_optional(opt_str(&form.description));
    FormOutcome::Proceed((description, expiry))
}

/// Check an expiry edit form: CSRF, then the expiry choice.
pub fn edit_expiry(csrf_ok: bool, form: &EditExpiryForm) -> (r: FormOutcome<ExpiryChoice>)
    ensures
        !csrf_ok ==> r is Forbidden,
        csrf_ok && parse_expiry(form.expiry@) is None ==> (r matches FormOutcome::BadRequest(m) && m@
            == EXPIRY_RULE@),
        csrf_ok ==> (parse_expiry(form.expiry@) matches Some(c) ==> r == FormOutcome::Proceed(c)),
{
    if !csrf_ok {
        return FormOutcome::Forbidden;
    }
    match ExpiryChoice::parse(form.expiry.as_str()) {
        Ok(c) => FormOutcome::Proceed(c),
        Err(_) => FormOutcome::BadRequest(EXPIRY_RULE),
    }
}

/// Check a description edit form: CSRF; the description is trimmed and
/// cleared when blank.
pub fn edit_description(csrf_ok: bool, form: &EditDescriptionForm) -> (r: FormOutcome<
    Option<String>,
>)
    ensures
        !csrf_ok ==> r is Forbidden,
        csrf_ok ==> (r matches FormOutcome::Proceed(d) && opt_chars(d) == optional_field(
            opt_chars(form.description),
        )),
{
    if !csrf_ok {
        return FormOutcome::Forbidden;
    }
    FormOutcome::Proceed(sanitize_optional(opt_str(&form.description)))
}

/// How a successful key mutation is answered.
#[derive(Debug, Clone, Copy, PartialEq, Eq, Structural)]
pub enum MutationResponse {
    /// 204 with `HX-Redirect: /api-keys`, for HTMX callers (the page reloads itself).
    HtmxRedirect,
    /// 302 to `/api-keys`, for plain form submissions.
    Redirect,
}

/// Page that key mutations return to.
pub const API_KEYS_PATH: &'static str = "/api-keys";

/// The answer to a successful mutation, by kind of caller.
pub fn after_mutation(is_htmx: bool) -> (r: MutationResponse)
    ensures
        is_htmx ==> r == MutationResponse::HtmxRedirect,
        !is_htmx ==> r == MutationResponse::Redirect,
{
    if is_htmx {
        MutationResponse::HtmxRedirect
    } else {
        MutationResponse::Redirect
    }
}

} // verus!
