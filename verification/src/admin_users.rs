use vstd::prelude::*;

use crate::admin_geo::ErrorReply;
use crate::csrf::{csrf_accepts, validate_csrf, SessionError};
use crate::db::{is_duplicate_entry, is_duplicate_spec, DbError};
use crate::entities::{Country, CountryOption, State, StateOption, User, UserView};
use crate::filters::{admin_user_path, path_with_id};
use crate::forms::{CreateUserForm, CsrfOnlyForm, UpdateUserForm};
use crate::outcome::{
    error_page, form_error, is_error_page, is_form_error,
    is_redirect, redirect, Op, Outcome, Step,
};
use crate::text::{is_blank, is_blank_spec, opt_view};
use crate::templates::{AdminCreateUserTemplate, AdminEditUserTemplate, AdminErrorTemplate, AdminUserDetailTemplate, AdminUsersListTemplate};

verus! {

/// The administrator users list page.
pub fn users_list_template(admin: String) -> (t: AdminUsersListTemplate)
    ensures
        t.page_title@ == "All Users"@,
        t.current_admin == Some(admin),
{
    AdminUsersListTemplate { page_title: String::from_str("All Users"), current_admin: Some(admin) }
}

/// The empty "create user" page.
pub fn user_create_page_template(admin: String, csrf_token: String, countries: Vec<CountryOption>) -> (t: AdminCreateUserTemplate)
    ensures
        t.error is None && t.success is None && t.username is None && t.email is None,
        t.current_admin == Some(admin),
        t.csrf_token == csrf_token,
        t.countries@ == countries@,
        t.states@.len() == 0,
        t.selected_country_id == 0 && t.selected_state_id == 0,
        t.address is None,
{
    AdminCreateUserTemplate {
        error: None,
        success: None,
        username: None,
        email: None,
        current_admin: Some(admin),
        csrf_token,
        countries,
        states: Vec::new(),
        selected_country_id: 0,
        selected_state_id: 0,
        address: None,
    }
}

/// The "create user" page shown again with what was submitted and an error.
pub fn user_create_rerender(
    form: CreateUserForm,
    error: String,
    admin: String,
    csrf_token: String,
    countries: Vec<CountryOption>,
    states: Vec<StateOption>,
) -> (t: AdminCreateUserTemplate)
    ensures
        t.error == Some(error) && t.success is None,
        t.username == Some(form.username) && t.email == Some(form.email),
        t.current_admin == Some(admin),
        t.csrf_token == csrf_token,
        t.countries@ == countries@ && t.states@ == states@,
        t.selected_country_id == form.country_id && t.selected_state_id == form.state_id,
        t.address == Some(form.address),
{
    AdminCreateUserTemplate {
        error: Some(error),
        success: None,
        username: Some(form.username),
        email: Some(form.email),
        current_admin: Some(admin),
        csrf_token,
        countries,
        states,
        selected_country_id: form.country_id,
        selected_state_id: form.state_id,
        address: Some(form.address),
    }
}

/// First step of creating a user: the CSRF token, then the form rules.
pub fn user_create_begin(stored: &Result<Option<String>, SessionError>, form: &CreateUserForm) -> (r: Step)
    ensures
        r is Run ==> form.username@.len() >= 1 && form.password@.len() >= 6 && form.address@.len() >= 1 && form.country_id >= 1 && form.state_id >= 1,
        !csrf_accepts(*stored, form.csrf_token@) ==> (r matches Step::Finish(o) && is_form_error(o, "Invalid CSRF token"@)),
        csrf_accepts(*stored, form.csrf_token@) && !form.valid() ==> (r matches Step::Finish(o) && is_form_error(o, "Invalid user data"@)),
        csrf_accepts(*stored, form.csrf_token@) && form.valid() ==> (r matches Step::Run(Op::CreateUser { username, email, password, address, country_id, state_id })
            && username@ == form.username@ && email@ == form.email@ && password@ == form.password@
            && opt_view(address) == Some(form.address@)
            && country_id == Some(form.country_id) && state_id == Some(form.state_id)),
{
    if !validate_csrf(stored, &form.csrf_token) {
        return Step::Finish(form_error("Invalid CSRF token"));
    }
    if !form.is_valid() {
        return Step::Finish(form_error("Invalid user data"));
    }
    Step::Run(
        Op::CreateUser {
            username: form.username.clone(),
            email: form.email.clone(),
            password: form.password.clone(),
            address: Some(form.address.clone()),
            country_id: Some(form.country_id),
            state_id: Some(form.state_id),
        },
    )
}

/// After the insert: back to the users list, or the form with an error
/// (a duplicate name or e-mail is told apart).
pub fn user_create_done<T>(result: Result<T, DbError>) -> (o: Outcome)
    ensures
        result is Ok ==> is_redirect(o, "/admin/users"@, false),
        result matches Err(e) ==> (is_duplicate_spec(e.message@) ==> is_form_error(o, "Username or email already exists"@)),
        result matches Err(e) ==> (!is_duplicate_spec(e.message@) ==> is_form_error(o, "Failed to create user"@)),
{
    match result {
        Ok(_) => redirect("/admin/users", false),
        Err(e) => {
            if is_duplicate_entry(&e) {
                form_error("Username or email already exists")
            } else {
                form_error("Failed to create user")
            }
        },
    }
}

/// The user found for the detail or edit page, or the 404/500 page.
pub fn user_lookup<E>(admin: &String, found: Result<Option<User>, E>) -> (r: Result<User, ErrorReply>)
    ensures
        match found {
            Ok(Some(u)) => r == Ok::<User, ErrorReply>(u),
            Ok(None) => r matches Err(e) && e.status == 404 && e.page.error_code == 404
                && e.page.error_message@ == "User not found."@,
            Err(_) => r matches Err(e) && e.status == 500 && e.page.error_code == 500
                && e.page.error_message@ == "Failed to load user."@,
        },
{
    match found {
        Ok(Some(u)) => Ok(u),
        Ok(None) => Err(ErrorReply {
            status: 404,
            page: AdminErrorTemplate {
                error_code: 404,
                error_message: String::from_str("User not found."),
                current_admin: Some(admin.clone()),
            },
        }),
        Err(_) => Err(ErrorReply {
            status: 500,
            page: AdminErrorTemplate {
                error_code: 500,
                error_message: String::from_str("Failed to load user."),
                current_admin: Some(admin.clone()),
            },
        }),
    }
}

/// The country whose states a user's edit page lists: the user's country
/// when its id is above 0, else none.
pub open spec fn listed_states_country(country_id: Option<i32>) -> Option<i32> {
    match country_id {
        Some(c) => if c > 0 { Some(c) } else { None },
        None => None,
    }
}

/// Which country's states the user edit page lists: the user's country,
/// when it has one with an id above 0; otherwise none, and an empty list.
pub fn user_states_country(user: &User) -> (r: Option<i32>)
    ensures
        r == listed_states_country(user.country_id),
        (user.country_id matches Some(c) && c >= 1) ==> r == user.country_id,
        !(user.country_id matches Some(c) && c >= 1) ==> r is None,
{
    match user.country_id {
        Some(c) => if c > 0 { Some(c) } else { None },
        None => None,
    }
}

/// The name a by-id lookup found, when it found one; a failed lookup shows
/// no name.
pub open spec fn found_name<T, E>(found: Result<Option<T>, E>, name_of: spec_fn(T) -> Seq<char>) -> Option<Seq<char>> {
    match found {
        Ok(Some(x)) => Some(name_of(x)),
        _ => None,
    }
}

/// The user as the detail page shows it. `country` and `state` are what the
/// by-id lookups of the user's country and state gave; they count only when
/// the user has that id, and a failed or empty lookup shows no name.
pub fn user_view<E1, E2>(user: User, country: Result<Option<Country>, E1>, state: Result<Option<State>, E2>) -> (v: UserView)
    ensures
        v.id == user.id as u32,
        v.name == user.username,
        v.email == user.email,
        v.address == user.address,
        opt_view(v.country) == if user.country_id is Some { found_name(country, |c: Country| c.name@) } else { None },
        opt_view(v.state) == if user.state_id is Some { found_name(state, |s: State| s.name@) } else { None },
{
    let country_name = match (user.country_id, country) {
        (Some(_), Ok(Some(c))) => Some(c.name),
        _ => None,
    };
    let state_name = match (user.state_id, state) {
        (Some(_), Ok(Some(st))) => Some(st.name),
        _ => None,
    };
    UserView {
        id: user.id as u32,
        name: user.username,
        email: user.email,
        address: user.address,
        country: country_name,
        state: state_name,
    }
}

/// The user detail page.
pub fn user_detail_template(user: UserView, admin: String, csrf_token: String) -> (t: AdminUserDetailTemplate)
    ensures
        t.user == user,
        t.current_admin == Some(admin),
        t.csrf_token == csrf_token,
{
    AdminUserDetailTemplate { user, current_admin: Some(admin), csrf_token }
}

/// The edit page filled from the stored user. `states` are the states of
/// the user's country; without a country id above 0 the list is empty.
pub fn user_edit_page_template(
    user: User,
    admin: String,
    csrf_token: String,
    countries: Vec<CountryOption>,
    states: Vec<StateOption>,
) -> (t: AdminEditUserTemplate)
    ensures
        t.error is None && t.success is None,
        t.user_id == user.id,
        t.username == user.username && t.email == user.email,
        t.current_admin == Some(admin),
        t.csrf_token == csrf_token,
        t.countries@ == countries@,
        t.states@ == if listed_states_country(user.country_id) is Some { states@ } else { Seq::<StateOption>::empty() },
        (user.country_id matches Some(c) && c >= 1) ==> t.states@ == states@,
        !(user.country_id matches Some(c) && c >= 1) ==> t.states@.len() == 0,
        t.selected_country_id == match user.country_id { Some(c) => c, None => 0 },
        t.selected_state_id == match user.state_id { Some(s) => s, None => 0 },
        t.address == user.address,
{
    let states = if user_states_country(&user).is_some() {
        states
    } else {
        Vec::new()
    };
    AdminEditUserTemplate {
        error: None,
        success: None,
        user_id: user.id,
        username: user.username,
        email: user.email,
        current_admin: Some(admin),
        csrf_token,
        countries,
        states,
        selected_country_id: match user.country_id {
            Some(c) => c,
            None => 0,
        },
        selected_state_id: match user.state_id {
            Some(s) => s,
            None => 0,
        },
        address: user.address,
    }
}

/// The edit page shown again with what was submitted and the outcome's note
/// (an error, or the success note).
pub fn user_edit_rerender(
    id: i32,
    form: UpdateUserForm,
    note: Outcome,
    admin: String,
    csrf_token: String,
    countries: Vec<CountryOption>,
    states: Vec<StateOption>,
) -> (t: AdminEditUserTemplate)
    ensures
        match note {
            Outcome::FormSuccess(m) => t.success == Some(m) && t.error is None,
            Outcome::FormError(m) => t.error == Some(m) && t.success is None,
            Outcome::ErrorPage { message: m, .. } => t.error == Some(m) && t.success is None,
            Outcome::Redirect { .. } => t.error is None && t.success is None,
        },
        t.user_id == id,
        t.username == form.username && t.email == form.email,
        t.current_admin == Some(admin),
        t.csrf_token == csrf_token,
        t.countries@ == countries@ && t.states@ == states@,
        t.selected_country_id == form.country_id && t.selected_state_id == form.state_id,
        t.address == Some(form.address),
{
    let (error, success) = match note {
        Outcome::FormSuccess(m) => (None, Some(m)),
        Outcome::FormError(m) => (Some(m), None),
        Outcome::ErrorPage { message, .. } => (Some(message), None),
        Outcome::Redirect { .. } => (None, None),
    };
    AdminEditUserTemplate {
        error,
        success,
        user_id: id,
        username: form.username,
        email: form.email,
        current_admin: Some(admin),
        csrf_token,
        countries,
        states,
        selected_country_id: form.country_id,
        selected_state_id: form.state_id,
        address: Some(form.address),
    }
}

/// First step of editing user `id`: the CSRF token, then the form rules.
pub fn user_edit_begin(id: i32, stored: &Result<Option<String>, SessionError>, form: &UpdateUserForm) -> (r: Step)
    ensures
        r is Run ==> form.username@.len() >= 1 && form.address@.len() >= 1 && form.country_id >= 1 && form.state_id >= 1,
        !csrf_accepts(*stored, form.csrf_token@) ==> (r matches Step::Finish(o) && is_form_error(o, "Invalid CSRF token"@)),
        csrf_accepts(*stored, form.csrf_token@) && !form.valid() ==> (r matches Step::Finish(o) && is_form_error(o, "Invalid user data"@)),
        csrf_accepts(*stored, form.csrf_token@) && form.valid() ==> (r matches Step::Run(Op::UpdateUser { id: i, username, email, address, country_id, state_id })
            && i == id && username@ == form.username@ && email@ == form.email@
            && opt_view(address) == Some(form.address@)
            && country_id == Some(form.country_id) && state_id == Some(form.state_id)),
{
    if !validate_csrf(stored, &form.csrf_token) {
        return Step::Finish(form_error("Invalid CSRF token"));
    }
    if !form.is_valid() {
        return Step::Finish(form_error("Invalid user data"));
    }
    Step::Run(
        Op::UpdateUser {
            id,
            username: form.username.clone(),
            email: form.email.clone(),
            address: Some(form.address.clone()),
            country_id: Some(form.country_id),
            state_id: Some(form.state_id),
        },
    )
}

/// After the user row is updated: report a failed update; else store a
/// new password when one was typed (white space alone counts as none), or
/// go to the user's page.
pub fn user_edit_after_update<T, E>(id: i32, form: &UpdateUserForm, result: Result<T, E>) -> (r: Step)
    ensures
        result is Err ==> (r matches Step::Finish(o) && is_form_error(o, "Failed to update user"@)),
        result is Ok && is_blank_spec(form.new_password@)
            ==> (r matches Step::Finish(o) && is_redirect(o, path_with_id("/admin/users/"@, id as int), false)),
        result is Ok && !is_blank_spec(form.new_password@)
            ==> (r matches Step::Run(Op::UpdatePassword { user_id, new_password }) && user_id == id && new_password@ == form.new_password@),
{
    match result {
        Err(_) => Step::Finish(form_error("Failed to update user")),
        Ok(_) => {
            if is_blank(form.new_password.as_str()) {
                Step::Finish(Outcome::Redirect { to: admin_user_path(id), invalidate_geo_cache: false, flash_success: None })
            } else {
                Step::Run(Op::UpdatePassword { user_id: id, new_password: form.new_password.clone() })
            }
        },
    }
}

/// After the new password is stored: the user's page, or an error note.
pub fn user_edit_after_password<T, E>(id: i32, result: Result<T, E>) -> (o: Outcome)
    ensures
        result is Ok ==> is_redirect(o, path_with_id("/admin/users/"@, id as int), false),
        result is Err ==> is_form_error(o, "Failed to update password"@),
{
    match result {
        Ok(_) => Outcome::Redirect { to: admin_user_path(id), invalidate_geo_cache: false, flash_success: None },
        Err(_) => form_error("Failed to update password"),
    }
}

/// First step of deleting user `id`.
pub fn user_delete_begin(id: i32, stored: &Result<Option<String>, SessionError>, form: &CsrfOnlyForm) -> (r: Step)
    ensures
        !csrf_accepts(*stored, form.csrf_token@) ==> (r matches Step::Finish(o) && is_error_page(o, 403, "Invalid CSRF token"@)),
        csrf_accepts(*stored, form.csrf_token@) ==> r == Step::Run(Op::DeleteUser { id }),
{
    if !validate_csrf(stored, &form.csrf_token) {
        return Step::Finish(error_page(403, "Invalid CSRF token"));
    }
    Step::Run(Op::DeleteUser { id })
}

/// After the delete: back to the users list, or the 500 page.
pub fn user_delete_done<T, E>(result: Result<T, E>) -> (o: Outcome)
    ensures
        result is Ok ==> is_redirect(o, "/admin/users"@, false),
        result is Err ==> is_error_page(o, 500, "Failed to delete user."@),
{
    match result {
        Ok(_) => redirect("/admin/users", false),
        Err(_) => error_page(500, "Failed to delete user."),
    }
}

/// A user's edit page lists the states of the user's own country whenever
/// that country has an id of 1 or more, and lists none otherwise.
pub proof fn lemma_listed_states_country(c: i32)
    ensures
        c >= 1 ==> listed_states_country(Some(c)) == Some(c),
        c < 1 ==> listed_states_country(Some(c)) is None,
        listed_states_country(None) is None,
{
}

} // verus!
