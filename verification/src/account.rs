use vstd::prelude::*;

use crate::text::opt_view;
use crate::csrf::{csrf_accepts, validate_csrf, SessionError};
use crate::db::{is_duplicate_entry, is_duplicate_spec, DbError};
use crate::entities::{Admin, User};
use crate::forms::{LoginForm, RegisterForm, UpdatePasswordForm};
use crate::outcome::{
    form_error, form_success, is_form_error, is_form_success, is_redirect, redirect, Op, Outcome,
    Step,
};
use crate::passwords::{password_matches, verify_password_hash};
use crate::templates::{
    AdminLoginTemplate, ErrorTemplate, IndexTemplate, LoginTemplate, RegisterTemplate,
    UpdatePasswordTemplate, UserDashboardTemplate,
};

verus! {

/// A page, or a redirect elsewhere.
#[derive(Debug)]
pub enum Page<T> {
    Show(T),
    Redirect(String),
}

// ------------------------------------------------------------------- pages

/// The home page; a pending flash note is shown once and then removed.
pub fn index_page(user: Option<String>, flash: Result<Option<String>, SessionError>) -> (r: (IndexTemplate, bool))
    ensures
        r.0.title@ == "Welcome"@,
        r.0.message@ == "Hello from Axum + Askama!"@,
        r.0.user == user,
        match flash {
            Ok(Some(m)) => r.0.flash_success == Some(m) && r.1,
            _ => r.0.flash_success is None && !r.1,
        },
{
    let (flash_success, remove) = match flash {
        Ok(Some(m)) => (Some(m), true),
        _ => (None, false),
    };
    (
        IndexTemplate {
            title: String::from_str("Welcome"),
            message: String::from_str("Hello from Axum + Askama!"),
            user,
            flash_success,
        },
        remove,
    )
}

/// The 404 page.
pub fn handle_404() -> (t: ErrorTemplate)
    ensures
        t.error_code == 404,
        t.error_message@ == "Page not found"@,
{
    ErrorTemplate { error_code: 404, error_message: String::from_str("Page not found") }
}

/// The login page, or the user dashboard when a user is already signed in.
pub fn login_page(signed_in: bool, csrf_token: String) -> (r: Page<LoginTemplate>)
    ensures
        signed_in ==> (r matches Page::Redirect(to) && to@ == "/user/dashboard"@),
        !signed_in ==> (r matches Page::Show(t) && t.error is None && t.csrf_token == csrf_token),
{
    if signed_in {
        Page::Redirect(String::from_str("/user/dashboard"))
    } else {
        Page::Show(LoginTemplate { error: None, csrf_token })
    }
}

/// The registration page, or the user dashboard when a user is already signed in.
pub fn register_page(signed_in: bool, csrf_token: String) -> (r: Page<RegisterTemplate>)
    ensures
        signed_in ==> (r matches Page::Redirect(to) && to@ == "/user/dashboard"@),
        !signed_in ==> (r matches Page::Show(t) && t.error is None && t.csrf_token == csrf_token),
{
    if signed_in {
        Page::Redirect(String::from_str("/user/dashboard"))
    } else {
        Page::Show(RegisterTemplate { error: None, csrf_token })
    }
}

/// The administrator login page, or the users list when already signed in.
pub fn admin_login_page(signed_in: bool, csrf_token: String) -> (r: Page<AdminLoginTemplate>)
    ensures
        signed_in ==> (r matches Page::Redirect(to) && to@ == "/admin/users"@),
        !signed_in ==> (r matches Page::Show(t) && t.error is None && t.csrf_token == csrf_token),
{
    if signed_in {
        Page::Redirect(String::from_str("/admin/users"))
    } else {
        Page::Show(AdminLoginTemplate { error: None, csrf_token })
    }
}

/// Where signing out leads.
pub fn logout_target() -> (to: String)
    ensures
        to@ == "/login"@,
{
    String::from_str("/login")
}

/// Where an administrator signing out is sent.
pub fn admin_logout_target() -> (to: String)
    ensures
        to@ == "/admin/login"@,
{
    String::from_str("/admin/login")
}

/// Where the admin area's root sends a visitor: the users list when an
/// administrator is signed in, the administrator login otherwise.
pub fn admin_index_target(signed_in: bool) -> (to: String)
    ensures
        signed_in ==> to@ == "/admin/users"@,
        !signed_in ==> to@ == "/admin/login"@,
{
    if signed_in {
        String::from_str("/admin/users")
    } else {
        String::from_str("/admin/login")
    }
}

/// The user dashboard.
pub fn user_dashboard(username: String) -> (t: UserDashboardTemplate)
    ensures
        t.current_user == Some(username),
{
    UserDashboardTemplate { current_user: Some(username) }
}

/// The password page, with an optional note from a submission.
pub fn update_password_template(note: Option<Outcome>, username: String, csrf_token: String) -> (t: UpdatePasswordTemplate)
    ensures
        match note {
            Some(Outcome::FormSuccess(m)) => t.success == Some(m) && t.error is None,
            Some(Outcome::FormError(m)) => t.error == Some(m) && t.success is None,
            Some(Outcome::ErrorPage { message: m, .. }) => t.error == Some(m) && t.success is None,
            _ => t.error is None && t.success is None,
        },
        t.current_user == Some(username),
        t.csrf_token == csrf_token,
{
    let (error, success) = match note {
        Some(Outcome::FormSuccess(m)) => (None, Some(m)),
        Some(Outcome::FormError(m)) => (Some(m), None),
        Some(Outcome::ErrorPage { message, .. }) => (Some(message), None),
        _ => (None, None),
    };
    UpdatePasswordTemplate { error, success, current_user: Some(username), csrf_token }
}

// -------------------------------------------------------------------- login

/// First step of a user login: the CSRF token, the form rules, then look the user up.
pub fn login_begin(stored: &Result<Option<String>, SessionError>, form: &LoginForm) -> (r: Step)
    ensures
        r is Run ==> form.username@.len() >= 1 && form.password@.len() >= 6,
        !csrf_accepts(*stored, form.csrf_token@) ==> (r matches Step::Finish(o) && is_form_error(o, "Invalid CSRF token"@)),
        csrf_accepts(*stored, form.csrf_token@) && !form.valid() ==> (r matches Step::Finish(o) && is_form_error(o, "Invalid login data"@)),
        csrf_accepts(*stored, form.csrf_token@) && form.valid() ==> (r matches Step::Run(Op::FindUserByUsername { username }) && username@ == form.username@),
{
    if !validate_csrf(stored, &form.csrf_token) {
        return Step::Finish(form_error("Invalid CSRF token"));
    }
    if !form.is_valid() {
        return Step::Finish(form_error("Invalid login data"));
    }
    Step::Run(Op::FindUserByUsername { username: form.username.clone() })
}

/// First step of an administrator login.
pub fn admin_login_begin(stored: &Result<Option<String>, SessionError>, form: &LoginForm) -> (r: Step)
    ensures
        r is Run ==> form.username@.len() >= 1 && form.password@.len() >= 6,
        !csrf_accepts(*stored, form.csrf_token@) ==> (r matches Step::Finish(o) && is_form_error(o, "Invalid CSRF token"@)),
        csrf_accepts(*stored, form.csrf_token@) && !form.valid() ==> (r matches Step::Finish(o) && is_form_error(o, "Invalid login data"@)),
        csrf_accepts(*stored, form.csrf_token@) && form.valid() ==> (r matches Step::Run(Op::FindAdminByUsername { username }) && username@ == form.username@),
{
    if !validate_csrf(stored, &form.csrf_token) {
        return Step::Finish(form_error("Invalid CSRF token"));
    }
    if !form.is_valid() {
        return Step::Finish(form_error("Invalid login data"));
    }
    Step::Run(Op::FindAdminByUsername { username: form.username.clone() })
}

/// The account decision shared by both logins: sign in only with a found
/// account whose stored hash accepts the password; an unknown name and a
/// wrong password get the same answer.
fn credentials_check<E>(found: Result<Option<(i32, String, String)>, E>, password: &String) -> (r: Step)
    ensures
        match found {
            Ok(Some((id, name, hash))) => if password_matches(hash@, password@) {
                r == Step::Run(Op::LogIn { id, username: name })
            } else {
                r matches Step::Finish(o) && is_form_error(o, "Invalid username or password"@)
            },
            Ok(None) => r matches Step::Finish(o) && is_form_error(o, "Invalid username or password"@),
            Err(_) => r matches Step::Finish(o) && is_form_error(o, "Database error. Please try again."@),
        },
{
    match found {
        Ok(Some((id, name, hash))) => {
            if verify_password_hash(&hash, password) {
                Step::Run(Op::LogIn { id, username: name })
            } else {
                Step::Finish(form_error("Invalid username or password"))
            }
        },
        Ok(None) => Step::Finish(form_error("Invalid username or password")),
        Err(_) => Step::Finish(form_error("Database error. Please try again.")),
    }
}

/// After the user lookup: sign in only when the password matches the stored hash.
pub fn login_after_lookup<E>(found: Result<Option<User>, E>, password: &String) -> (r: Step)
    ensures
        match found {
            Ok(Some(u)) => if password_matches(u.password_hash@, password@) {
                r == Step::Run(Op::LogIn { id: u.id, username: u.username })
            } else {
                r matches Step::Finish(o) && is_form_error(o, "Invalid username or password"@)
            },
            Ok(None) => r matches Step::Finish(o) && is_form_error(o, "Invalid username or password"@),
            Err(_) => r matches Step::Finish(o) && is_form_error(o, "Database error. Please try again."@),
        },
{
    let found = match found {
        Ok(Some(u)) => Ok(Some((u.id, u.username, u.password_hash))),
        Ok(None) => Ok(None),
        Err(e) => Err(e),
    };
    credentials_check(found, password)
}

/// After the administrator lookup: sign in only when the password matches the stored hash.
pub fn admin_login_after_lookup<E>(found: Result<Option<Admin>, E>, password: &String) -> (r: Step)
    ensures
        match found {
            Ok(Some(a)) => if password_matches(a.password_hash@, password@) {
                r == Step::Run(Op::LogIn { id: a.id, username: a.username })
            } else {
                r matches Step::Finish(o) && is_form_error(o, "Invalid username or password"@)
            },
            Ok(None) => r matches Step::Finish(o) && is_form_error(o, "Invalid username or password"@),
            Err(_) => r matches Step::Finish(o) && is_form_error(o, "Database error. Please try again."@),
        },
{
    let found = match found {
        Ok(Some(a)) => Ok(Some((a.id, a.username, a.password_hash))),
        Ok(None) => Ok(None),
        Err(e) => Err(e),
    };
    credentials_check(found, password)
}

/// After recording the user in the session: renew the session id, or
/// report a session error.
pub fn login_after_session<T, E>(result: Result<T, E>) -> (r: Step)
    ensures
        result is Ok ==> r == Step::Run(Op::RenewSessionId),
        result is Err ==> (r matches Step::Finish(o) && is_form_error(o, "Session error. Please try again."@)),
{
    match result {
        Ok(_) => Step::Run(Op::RenewSessionId),
        Err(_) => Step::Finish(form_error("Session error. Please try again.")),
    }
}

/// After renewing the session id: the user dashboard, or a session error.
pub fn login_done<T, E>(renewed: Result<T, E>) -> (o: Outcome)
    ensures
        renewed is Ok ==> is_redirect(o, "/user/dashboard"@, false),
        renewed is Err ==> is_form_error(o, "Session error. Please try again."@),
{
    match renewed {
        Ok(_) => redirect("/user/dashboard", false),
        Err(_) => form_error("Session error. Please try again."),
    }
}

/// After recording the administrator in the session: the users list, or a session error.
pub fn admin_login_done<T, E>(result: Result<T, E>) -> (o: Outcome)
    ensures
        result is Ok ==> is_redirect(o, "/admin/users"@, false),
        result is Err ==> is_form_error(o, "Session error. Please try again."@),
{
    match result {
        Ok(_) => redirect("/admin/users", false),
        Err(_) => form_error("Session error. Please try again."),
    }
}

/// The login page shown again with an error.
pub fn login_rerender(error: String, csrf_token: String) -> (t: LoginTemplate)
    ensures
        t.error == Some(error),
        t.csrf_token == csrf_token,
{
    LoginTemplate { error: Some(error), csrf_token }
}

/// The administrator login page shown again with an error.
pub fn admin_login_rerender(error: String, csrf_token: String) -> (t: AdminLoginTemplate)
    ensures
        t.error == Some(error),
        t.csrf_token == csrf_token,
{
    AdminLoginTemplate { error: Some(error), csrf_token }
}

// ------------------------------------------------------------- registration

/// First step of a registration: the CSRF token, the form rules, then the insert.
pub fn register_begin(stored: &Result<Option<String>, SessionError>, form: &RegisterForm) -> (r: Step)
    ensures
        r is Run ==> form.username@.len() >= 1 && form.password@.len() >= 6,
        !csrf_accepts(*stored, form.csrf_token@) ==> (r matches Step::Finish(o) && is_form_error(o, "Invalid CSRF token"@)),
        csrf_accepts(*stored, form.csrf_token@) && !form.valid() ==> (r matches Step::Finish(o) && is_form_error(o, "Invalid registration data"@)),
        csrf_accepts(*stored, form.csrf_token@) && form.valid() ==> (r matches Step::Run(Op::CreateUser { username, email, password, address, country_id, state_id })
            && username@ == form.username@ && email@ == form.email@ && password@ == form.password@
            && address is None && country_id is None && state_id is None),
{
    if !validate_csrf(stored, &form.csrf_token) {
        return Step::Finish(form_error("Invalid CSRF token"));
    }
    if !form.is_valid() {
        return Step::Finish(form_error("Invalid registration data"));
    }
    Step::Run(
        Op::CreateUser {
            username: form.username.clone(),
            email: form.email.clone(),
            password: form.password.clone(),
            address: None,
            country_id: None,
            state_id: None,
        },
    )
}

/// After the insert: sign the new user in, or report why it failed.
pub fn register_after_create(username: &String, result: Result<i32, DbError>) -> (r: Step)
    ensures
        result matches Ok(id) ==> (r matches Step::Run(Op::LogIn { id: i, username: n }) && i == id && n@ == username@),
        result matches Err(e) ==> (is_duplicate_spec(e.message@) ==> (r matches Step::Finish(o) && is_form_error(o, "Username or email already exists"@))),
        result matches Err(e) ==> (!is_duplicate_spec(e.message@) ==> (r matches Step::Finish(o) && is_form_error(o, "Registration failed. Please try again."@))),
{
    match result {
        Ok(id) => Step::Run(Op::LogIn { id, username: username.clone() }),
        Err(e) => {
            if is_duplicate_entry(&e) {
                Step::Finish(form_error("Username or email already exists"))
            } else {
                Step::Finish(form_error("Registration failed. Please try again."))
            }
        },
    }
}

/// After signing the new user in: renew the session id, or ask to sign in by hand.
pub fn register_after_login<T, E>(result: Result<T, E>) -> (r: Step)
    ensures
        result is Ok ==> r == Step::Run(Op::RenewSessionId),
        result is Err ==> (r matches Step::Finish(o) && is_form_error(o, "Registration successful but login failed. Please login manually."@)),
{
    match result {
        Ok(_) => Step::Run(Op::RenewSessionId),
        Err(_) => Step::Finish(form_error("Registration successful but login failed. Please login manually.")),
    }
}

/// After renewing the session id: the user dashboard with a welcome note,
/// or ask to sign in by hand.
pub fn register_done<T, E>(renewed: Result<T, E>) -> (o: Outcome)
    ensures
        renewed is Ok ==> (o matches Outcome::Redirect { to, invalidate_geo_cache, flash_success }
            && to@ == "/user/dashboard"@ && !invalidate_geo_cache && opt_view(flash_success) == Some("Registration successful!"@)),
        renewed is Err ==> is_form_error(o, "Registration successful but session error. Please login manually."@),
{
    match renewed {
        Ok(_) => Outcome::Redirect {
            to: String::from_str("/user/dashboard"),
            invalidate_geo_cache: false,
            flash_success: Some(String::from_str("Registration successful!")),
        },
        Err(_) => form_error("Registration successful but session error. Please login manually."),
    }
}

/// The registration page shown again with an error.
pub fn register_rerender(error: String, csrf_token: String) -> (t: RegisterTemplate)
    ensures
        t.error == Some(error),
        t.csrf_token == csrf_token,
{
    RegisterTemplate { error: Some(error), csrf_token }
}

// ---------------------------------------------------------- password change

/// First step of a password change: CSRF token, form rules, matching
/// confirmation, then look the signed-in user up.
pub fn update_password_begin(user_id: i32, stored: &Result<Option<String>, SessionError>, form: &UpdatePasswordForm) -> (r: Step)
    ensures
        r is Run ==> form.new_password@.len() >= 6 && form.new_password@ == form.confirm_password@,
        !csrf_accepts(*stored, form.csrf_token@) ==> (r matches Step::Finish(o) && is_form_error(o, "Invalid CSRF token"@)),
        csrf_accepts(*stored, form.csrf_token@) && !form.valid() ==> (r matches Step::Finish(o) && is_form_error(o, "Invalid password data"@)),
        csrf_accepts(*stored, form.csrf_token@) && form.valid() && form.new_password@ != form.confirm_password@
            ==> (r matches Step::Finish(o) && is_form_error(o, "New password and confirmation do not match"@)),
        csrf_accepts(*stored, form.csrf_token@) && form.valid() && form.new_password@ == form.confirm_password@
            ==> r == Step::Run(Op::FindUserById { id: user_id }),
{
    if !validate_csrf(stored, &form.csrf_token) {
        return Step::Finish(form_error("Invalid CSRF token"));
    }
    if !form.is_valid() {
        return Step::Finish(form_error("Invalid password data"));
    }
    if form.new_password != form.confirm_password {
        return Step::Finish(form_error("New password and confirmation do not match"));
    }
    Step::Run(Op::FindUserById { id: user_id })
}

/// After the lookup: store the new password only when the current one is right.
pub fn update_password_after_lookup<E>(user_id: i32, form: &UpdatePasswordForm, found: Result<Option<User>, E>) -> (r: Step)
    ensures
        match found {
            Ok(Some(u)) => if password_matches(u.password_hash@, form.current_password@) {
                r matches Step::Run(Op::UpdatePassword { user_id: i, new_password }) && i == user_id && new_password@ == form.new_password@
            } else {
                r matches Step::Finish(o) && is_form_error(o, "Current password is incorrect"@)
            },
            Ok(None) => r matches Step::Finish(o) && is_form_error(o, "User not found"@),
            Err(_) => r matches Step::Finish(o) && is_form_error(o, "Database error. Please try again."@),
        },
{
    match found {
        Ok(Some(u)) => {
            if !verify_password_hash(&u.password_hash, &form.current_password) {
                Step::Finish(form_error("Current password is incorrect"))
            } else {
                Step::Run(Op::UpdatePassword { user_id, new_password: form.new_password.clone() })
            }
        },
        Ok(None) => Step::Finish(form_error("User not found")),
        Err(_) => Step::Finish(form_error("Database error. Please try again.")),
    }
}

/// After storing the new password: success, or an error note.
pub fn update_password_done<T, E>(result: Result<T, E>) -> (o: Outcome)
    ensures
        result is Ok ==> is_form_success(o, "Password updated successfully"@),
        result is Err ==> is_form_error(o, "Failed to update password. Please try again."@),
{
    match result {
        Ok(_) => form_success("Password updated successfully"),
        Err(_) => form_error("Failed to update password. Please try again."),
    }
}

} // verus!
