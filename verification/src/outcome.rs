use vstd::prelude::*;

verus! {

/// A database or session operation a handler asks its caller to perform.
#[derive(Debug)]
pub enum Op {
    CreateCountry { name: String },
    UpdateCountry { id: i32, name: String },
    DeleteCountry { id: i32 },
    CountStatesOfCountry { country_id: i32 },
    CountUsersOfCountry { country_id: i32 },
    CreateState { country_id: i32, name: String },
    UpdateState { id: i32, country_id: i32, name: String },
    DeleteState { id: i32 },
    CountUsersOfState { state_id: i32 },
    CreateUser {
        username: String,
        email: String,
        password: String,
        address: Option<String>,
        country_id: Option<i32>,
        state_id: Option<i32>,
    },
    UpdateUser {
        id: i32,
        username: String,
        email: String,
        address: Option<String>,
        country_id: Option<i32>,
        state_id: Option<i32>,
    },
    UpdatePassword { user_id: i32, new_password: String },
    DeleteUser { id: i32 },
    FindUserByUsername { username: String },
    FindAdminByUsername { username: String },
    FindUserById { id: i32 },
    /// Record the account in the session (user or administrator, per handler).
    LogIn { id: i32, username: String },
    /// Give the session a new id, keeping its contents (against session fixation).
    RenewSessionId,
}

impl Op {
    /// The operation changes stored data.
    pub open spec fn is_write(self) -> bool {
        ||| self is CreateCountry
        ||| self is UpdateCountry
        ||| self is DeleteCountry
        ||| self is CreateState
        ||| self is UpdateState
        ||| self is DeleteState
        ||| self is CreateUser
        ||| self is UpdateUser
        ||| self is UpdatePassword
        ||| self is DeleteUser
    }
}

/// How a handler answers.
#[derive(Debug)]
pub enum Outcome {
    /// Show the handler's form again, with this error.
    FormError(String),
    /// Show the handler's form again, with this success note.
    FormSuccess(String),
    /// An error page with this HTTP status.
    ErrorPage { status: u16, message: String },
    /// Redirect; clear the geo cache first and set a flash note when asked.
    Redirect { to: String, invalidate_geo_cache: bool, flash_success: Option<String> },
}

/// What a handler does next: run an operation and report back, or answer.
#[derive(Debug)]
pub enum Step {
    Run(Op),
    Finish(Outcome),
}

/// The form is shown again with the error `text`.
pub open spec fn is_form_error(o: Outcome, text: Seq<char>) -> bool {
    o matches Outcome::FormError(m) && m@ == text
}

/// The form is shown again with the success note `text`.
pub open spec fn is_form_success(o: Outcome, text: Seq<char>) -> bool {
    o matches Outcome::FormSuccess(m) && m@ == text
}

/// An error page with `status` and `text`.
pub open spec fn is_error_page(o: Outcome, status: u16, text: Seq<char>) -> bool {
    o matches Outcome::ErrorPage { status: s, message: m } && s == status && m@ == text
}

/// A redirect to `to`, clearing the geo cache when `invalidate`, without a flash note.
pub open spec fn is_redirect(o: Outcome, to: Seq<char>, invalidate: bool) -> bool {
    o matches Outcome::Redirect { to: t, invalidate_geo_cache: i, flash_success: f } && t@ == to && i == invalidate && f is None
}

/// The handler answers with `pred` true of its answer.
pub open spec fn finishes_with(s: Step, pred: spec_fn(Outcome) -> bool) -> bool {
    s matches Step::Finish(o) && pred(o)
}

pub fn form_error(text: &str) -> (o: Outcome)
    ensures
        is_form_error(o, text@),
{
    Outcome::FormError(String::from_str(text))
}

pub fn form_success(text: &str) -> (o: Outcome)
    ensures
        is_form_success(o, text@),
{
    Outcome::FormSuccess(String::from_str(text))
}

pub fn error_page(status: u16, text: &str) -> (o: Outcome)
    ensures
        is_error_page(o, status, text@),
{
    Outcome::ErrorPage { status, message: String::from_str(text) }
}

pub fn redirect(to: &str, invalidate: bool) -> (o: Outcome)
    ensures
        is_redirect(o, to@, invalidate),
{
    Outcome::Redirect { to: String::from_str(to), invalidate_geo_cache: invalidate, flash_success: None }
}

} // verus!
