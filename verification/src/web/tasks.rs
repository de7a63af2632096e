use vstd::prelude::*;

use crate::domain::task::{parse_status, status_name, NewTask, Status, Task, UpdateTask};
use crate::text::{trim, trim_str};

verus! {

broadcast use vstd::string::group_string_axioms;

/// Session key holding the show-terminal preference.
pub const SESSION_SHOW_TERMINAL_KEY: &'static str = "show_terminal";

/// Icon of the `Todo` status.
pub const ICON_TODO: &'static str = r##"<svg xmlns="http://www.w3.org/2000/svg" viewBox="0 0 24 24" fill="none" stroke="currentColor" stroke-width="2" stroke-linecap="round" stroke-linejoin="round" class="size-5"><circle cx="12" cy="12" r="9"/></svg>"##;

/// Icon of the `InProgress` status.
pub const ICON_IN_PROGRESS: &'static str = r##"<svg xmlns="http://www.w3.org/2000/svg" viewBox="0 0 24 24" fill="none" stroke="currentColor" stroke-width="2" stroke-linecap="round" stroke-linejoin="round" class="size-5"><circle cx="12" cy="12" r="9" opacity="0.35"/><path d="M12 3 A 9 9 0 0 1 21 12"/></svg>"##;

/// Icon of the `Done` status.
pub const ICON_DONE: &'static str = r##"<svg xmlns="http://www.w3.org/2000/svg" viewBox="0 0 24 24" fill="none" stroke="currentColor" stroke-width="2" stroke-linecap="round" stroke-linejoin="round" class="size-5"><circle cx="12" cy="12" r="9"/><polyline points="8 12.5 11 15.5 16.5 9.5"/></svg>"##;

/// Icon of the `Cancelled` status.
pub const ICON_CANCELLED: &'static str = r##"<svg xmlns="http://www.w3.org/2000/svg" viewBox="0 0 24 24" fill="none" stroke="currentColor" stroke-width="2" stroke-linecap="round" stroke-linejoin="round" class="size-5"><circle cx="12" cy="12" r="9"/><line x1="8" y1="8" x2="16" y2="16"/><line x1="16" y1="8" x2="8" y2="16"/></svg>"##;

/// Static description of a status menu option, used by the per-row dropdown.
#[derive(Debug, Clone)]
pub struct StatusOption {
    pub value: &'static str,
    pub label: &'static str,
    pub text_class: &'static str,
    pub icon_svg: &'static str,
}

/// Human label of a status.
pub open spec fn status_label(s: Status) -> Seq<char> {
    match s {
        Status::Todo => "To do"@,
        Status::InProgress => "In progress"@,
        Status::Done => "Done"@,
        Status::Cancelled => "Cancelled"@,
    }
}

/// CSS text class of a status.
pub open spec fn status_text_class(s: Status) -> Seq<char> {
    match s {
        Status::Todo => "text-primary"@,
        Status::InProgress => "text-info"@,
        Status::Done => "text-success"@,
        Status::Cancelled => "text-base-content/40"@,
    }
}

/// Icon of a status.
pub open spec fn status_icon(s: Status) -> Seq<char> {
    match s {
        Status::Todo => ICON_TODO@,
        Status::InProgress => ICON_IN_PROGRESS@,
        Status::Done => ICON_DONE@,
        Status::Cancelled => ICON_CANCELLED@,
    }
}

/// The statuses in menu order.
pub open spec fn menu_order() -> Seq<Status> {
    seq![Status::Todo, Status::InProgress, Status::Done, Status::Cancelled]
}

/// `o` presents status `s`.
pub open spec fn presents(o: StatusOption, s: Status) -> bool {
    &&& o.value@ == status_name(s)
    &&& o.label@ == status_label(s)
    &&& o.text_class@ == status_text_class(s)
    &&& o.icon_svg@ == status_icon(s)
}

fn option_for(s: Status) -> (o: StatusOption)
    ensures
        presents(o, s),
{
    let (label, text_class, icon_svg) = presentation(s);
    StatusOption { value: s.as_str(), label, text_class, icon_svg }
}

fn presentation(s: Status) -> (r: (&'static str, &'static str, &'static str))
    ensures
        r.0@ == status_label(s),
        r.1@ == status_text_class(s),
        r.2@ == status_icon(s),
{
    match s {
        Status::Todo => ("To do", "text-primary", ICON_TODO),
        Status::InProgress => ("In progress", "text-info", ICON_IN_PROGRESS),
        Status::Done => ("Done", "text-success", ICON_DONE),
        Status::Cancelled => ("Cancelled", "text-base-content/40", ICON_CANCELLED),
    }
}

/// The options of the per-row status menu, in the order
/// `todo, in_progress, done, cancelled`.
pub fn status_options() -> (v: Vec<StatusOption>)
    ensures
        v@.len() == 4,
        forall|i: int| 0 <= i < 4 ==> presents(#[trigger] v@[i], menu_order()[i]),
{
    let mut v = Vec::new();
    v.push(option_for(Status::Todo));
    v.push(option_for(Status::InProgress));
    v.push(option_for(Status::Done));
    v.push(option_for(Status::Cancelled));
    v
}

/// Template-ready projection of a [`Task`].
#[derive(Debug, Clone)]
pub struct TaskView {
    pub id: i64,
    pub title: String,
    pub description_text: String,
    pub has_description: bool,
    pub status: &'static str,
    pub status_label: &'static str,
    pub status_text_class: &'static str,
    pub status_icon_svg: &'static str,
    pub is_done: bool,
    pub is_cancelled: bool,
}

/// The description text of a task: empty when it has none.
pub open spec fn description_text(d: Option<String>) -> Seq<char> {
    match d {
        Some(s) => s@,
        None => Seq::empty(),
    }
}

/// Build a [`TaskView`] for rendering.
pub fn build_view(task: &Task) -> (v: TaskView)
    ensures
        v.id == task.id,
        v.title == task.title,
        v.description_text@ == description_text(task.description),
        v.has_description == (trim(description_text(task.description)).len() > 0),
        v.status@ == status_name(task.status),
        v.status_label@ == status_label(task.status),
        v.status_text_class@ == status_text_class(task.status),
        v.status_icon_svg@ == status_icon(task.status),
        v.is_done == (task.status == Status::Done),
        v.is_cancelled == (task.status == Status::Cancelled),
{
    let (status_label, status_text_class, status_icon_svg) = presentation(task.status);
    let description_text = match &task.description {
        Some(d) => d.clone(),
        None => String::new(),
    };
    let has_description = !trim_str(description_text.as_str()).as_str().is_empty();
    TaskView {
        id: task.id,
        title: task.title.clone(),
        description_text,
        has_description,
        status: task.status.as_str(),
        status_label,
        status_text_class,
        status_icon_svg,
        is_done: task.status == Status::Done,
        is_cancelled: task.status == Status::Cancelled,
    }
}

/// Decoded body of the `POST /tasks` create form.
#[derive(Debug, Clone)]
pub struct CreateForm {
    pub csrf: String,
    pub title: String,
    pub description: Option<String>,
}

/// Decoded body of the `POST /tasks/{id}` inline-edit form.
#[derive(Debug, Clone)]
pub struct UpdateForm {
    pub csrf: String,
    pub title: String,
    pub description: Option<String>,
}

/// Decoded body of the `POST /tasks/{id}/status` form.
#[derive(Debug, Clone)]
pub struct StatusForm {
    pub csrf: String,
    pub status: String,
}

/// Decoded body of the `POST /tasks/{id}/delete` form (CSRF token only).
#[derive(Debug, Clone)]
pub struct DeleteForm {
    pub csrf: String,
}

/// Decoded body of the `POST /tasks/show-terminal` form (CSRF token only).
#[derive(Debug, Clone)]
pub struct ToggleForm {
    pub csrf: String,
}

/// How a form submission is answered before any write.
#[derive(Debug, Clone)]
pub enum FormOutcome<T> {
    /// 403: the CSRF token did not match.
    Forbidden,
    /// 400 with the given plain-text message.
    BadRequest(&'static str),
    /// The submission is valid; carry it out.
    Proceed(T),
}

/// Message of a rejected title.
pub const TITLE_RULE: &'static str = "title must be 1 to 128 characters";

/// A form field trimmed, or `None` when blank.
pub open spec fn optional_field(input: Option<Seq<char>>) -> Option<Seq<char>> {
    match input {
        Some(s) => if trim(s).len() > 0 {
            Some(trim(s))
        } else {
            None
        },
        None => None,
    }
}

/// The characters of an optional string.
pub open spec fn opt_chars(s: Option<String>) -> Option<Seq<char>> {
    match s {
        Some(v) => Some(v@),
        None => None,
    }
}

/// Normalise an optional form field, returning `None` for whitespace-only input.
pub fn sanitize_optional(input: Option<&str>) -> (r: Option<String>)
    ensures
        opt_chars(r) == optional_field(
            match input {
                Some(s) => Some(s@),
                None => None,
            },
        ),
{
    match input {
        Some(s) => {
            let t = trim_str(s);
            if t.as_str().is_empty() {
                None
            } else {
                Some(t)
            }
        },
        None => None,
    }
}

/// A title the forms accept: 1 to 128 characters once trimmed.
pub open spec fn title_ok(raw: Seq<char>) -> bool {
    trim(raw).len() > 0 && trim(raw).len() <= 128
}

fn checked_title(raw: &str) -> (r: Option<String>)
    ensures
        title_ok(raw@) ==> (r matches Some(t) && t@ == trim(raw@)),
        !title_ok(raw@) ==> r is None,
{
    let title = trim_str(raw);
    if title.as_str().is_empty() || crate::text::chars_of(title.as_str()).len() > 128 {
        None
    } else {
        Some(title)
    }
}

fn opt_str(s: &Option<String>) -> (r: Option<&str>)
    ensures
        match r {
            Some(x) => s matches Some(y) && x@ == y@,
            None => s is None,
        },
{
    match s {
        Some(v) => Some(v.as_str()),
        None => None,
    }
}

/// Check a create form: CSRF first, then the title.
pub fn create_task(csrf_ok: bool, form: &CreateForm) -> (r: FormOutcome<NewTask>)
    ensures
        !csrf_ok ==> r is Forbidden,
        csrf_ok && !title_ok(form.title@) ==> (r matches FormOutcome::BadRequest(m) && m@
            == TITLE_RULE@),
        csrf_ok && title_ok(form.title@) ==> (r matches FormOutcome::Proceed(t) && t.title@ == trim(
            form.title@,
        ) && opt_chars(t.description) == optional_field(opt_chars(form.description))),
{
    if !csrf_ok {
        return FormOutcome::Forbidden;
    }
    let title = match checked_title(form.title.as_str()) {
        Some(t) => t,
        None => return FormOutcome::BadRequest(TITLE_RULE),
    };
    let description = sanitize_optional(opt_str(&form.description));
    FormOutcome::Proceed(NewTask { title, description })
}

/// Check an inline-edit form: CSRF first, then the title.
pub fn update_task(csrf_ok: bool, form: &UpdateForm) -> (r: FormOutcome<UpdateTask>)
    ensures
        !csrf_ok ==> r is Forbidden,
        csrf_ok && !title_ok(form.title@) ==> (r matches FormOutcome::BadRequest(m) && m@
            == TITLE_RULE@),
        csrf_ok && title_ok(form.title@) ==> (r matches FormOutcome::Proceed(t) && t.title@ == trim(
            form.title@,
        ) && opt_chars(t.description) == optional_field(opt_chars(form.description))),
{
    if !csrf_ok {
        return FormOutcome::Forbidden;
    }
    let title = match checked_title(form.title.as_str()) {
        Some(t) => t,
        None => return FormOutcome::BadRequest(TITLE_RULE),
    };
    let description = sanitize_optional(opt_str(&form.description));
    FormOutcome::Proceed(UpdateTask { title, description })
}

/// Check a status form: CSRF first, then the status name.
pub fn set_status(csrf_ok: bool, form: &StatusForm) -> (r: FormOutcome<Status>)
    ensures
        !csrf_ok ==> r is Forbidden,
        csrf_ok && parse_status(form.status@) is None ==> (r matches FormOutcome::BadRequest(m)
            && m@ == "invalid status"@),
        csrf_ok ==> (parse_status(form.status@) matches Some(s) ==> r == FormOutcome::Proceed(s)),
{
    if !csrf_ok {
        return FormOutcome::Forbidden;
    }
    match Status::parse(form.status.as_str()) {
        Ok(s) => FormOutcome::Proceed(s),
        Err(_) => FormOutcome::BadRequest("invalid status"),
    }
}

/// Check a show-terminal toggle; carrying it out stores the opposite of the
/// current preference (`false` when none is stored).
pub fn toggle_show_terminal(csrf_ok: bool, current: Option<bool>) -> (r: FormOutcome<bool>)
    ensures
        !csrf_ok ==> r is Forbidden,
        csrf_ok ==> r == FormOutcome::Proceed(
            !match current {
                Some(b) => b,
                None => false,
            },
        ),
{
    if !csrf_ok {
        return FormOutcome::Forbidden;
    }
    let shown = match current {
        Some(b) => b,
        None => false,
    };
    FormOutcome::Proceed(!shown)
}

} // verus!
