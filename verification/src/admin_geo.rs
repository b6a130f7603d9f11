use vstd::prelude::*;

use crate::csrf::{csrf_accepts, validate_csrf, SessionError};
use crate::entities::{AdminStateRow, Country, CountryOption, State, StateWithCountry};
use crate::filters::{country_form_action, path_with_id, state_form_action};
use crate::forms::{CountryForm, CsrfOnlyForm, StateForm};
use crate::geo::{admin_state_row_of, country_option_of, map_admin_state_rows, map_country_options};
use crate::outcome::{
    error_page, form_error, is_error_page, is_form_error, is_redirect, redirect, Op, Outcome, Step,
};
use crate::templates::{
    AdminCountriesListTemplate, AdminCountryFormTemplate, AdminErrorTemplate,
    AdminStateFormTemplate, AdminStatesListTemplate,
};

verus! {

/// An error answer of an admin page: HTTP status and the page shown.
#[derive(Debug)]
pub struct ErrorReply {
    pub status: u16,
    pub page: AdminErrorTemplate,
}

/// The admin error page for `status` and `message`.
pub fn admin_error_template(status: u16, message: String, current_admin: Option<String>) -> (t: AdminErrorTemplate)
    ensures
        t.error_code == status,
        t.error_message == message,
        t.current_admin == current_admin,
{
    AdminErrorTemplate { error_code: status, error_message: message, current_admin }
}

fn error_reply(status: u16, message: &str, admin: &String) -> (r: ErrorReply)
    ensures
        r.status == status,
        r.page.error_code == status,
        r.page.error_message@ == message@,
        r.page.current_admin matches Some(a) && a@ == admin@,
{
    ErrorReply {
        status,
        page: AdminErrorTemplate {
            error_code: status,
            error_message: String::from_str(message),
            current_admin: Some(admin.clone()),
        },
    }
}

/// The countries an admin form lists, or, when they could not be loaded,
/// the error page with the status the load failed with.
pub fn form_countries(admin: &String, loaded: Result<Vec<CountryOption>, u16>) -> (r: Result<Vec<CountryOption>, ErrorReply>)
    ensures
        match loaded {
            Ok(v) => r matches Ok(o) && o@ == v@,
            Err(code) => r matches Err(e) && e.status == code && e.page.error_code == code
                && e.page.error_message@ == "Failed to load countries."@
                && (e.page.current_admin matches Some(a) && a@ == admin@),
        },
{
    match loaded {
        Ok(v) => Ok(v),
        Err(code) => Err(error_reply(code, "Failed to load countries.", admin)),
    }
}

// ---------------------------------------------------------------- countries

/// Countries for the list page, or the 500 page when they cannot be read.
pub fn countries_list_data<E>(admin: &String, rows: Result<Vec<Country>, E>) -> (r: Result<Vec<CountryOption>, ErrorReply>)
    ensures
        match rows {
            Ok(v) => r matches Ok(o) && o@ == v@.map_values(|c: Country| country_option_of(c)),
            Err(_) => r matches Err(e) && e.status == 500 && e.page.error_code == 500
                && e.page.error_message@ == "Failed to load countries."@,
        },
{
    match rows {
        Ok(v) => Ok(map_country_options(v)),
        Err(_) => Err(error_reply(500, "Failed to load countries.", admin)),
    }
}

/// The countries list page.
pub fn countries_list_template(admin: String, csrf_token: String, countries: Vec<CountryOption>) -> (t: AdminCountriesListTemplate)
    ensures
        t.page_title@ == "Countries"@,
        t.current_admin == Some(admin),
        t.csrf_token == csrf_token,
        t.countries@ == countries@,
{
    AdminCountriesListTemplate {
        page_title: String::from_str("Countries"),
        current_admin: Some(admin),
        csrf_token,
        countries,
    }
}

/// The country form: the create form when `edit` is `None`, else the edit
/// form of that country.
pub fn country_form_template(
    edit: Option<i32>,
    country_id: Option<i32>,
    name: Option<String>,
    error: Option<String>,
    admin: String,
    csrf_token: String,
) -> (t: AdminCountryFormTemplate)
    ensures
        match edit {
            None => t.form_title@ == "Create Country"@ && t.form_action@ == "/admin/countries"@
                && t.submit_label@ == "Create Country"@,
            Some(id) => t.form_title@ == "Edit Country"@ && t.form_action@ == path_with_id("/admin/countries/"@, id as int)
                && t.submit_label@ == "Save Changes"@,
        },
        t.country_id == country_id,
        t.name == name,
        t.error == error,
        t.success is None,
        t.current_admin == Some(admin),
        t.csrf_token == csrf_token,
{
    let (title, action, label) = match edit {
        None => (String::from_str("Create Country"), String::from_str("/admin/countries"), String::from_str("Create Country")),
        Some(id) => (String::from_str("Edit Country"), country_form_action(id), String::from_str("Save Changes")),
    };
    AdminCountryFormTemplate {
        form_title: title,
        form_action: action,
        submit_label: label,
        country_id,
        name,
        error,
        success: None,
        current_admin: Some(admin),
        csrf_token,
    }
}

/// The country to edit, or the 404/500 page.
pub fn country_edit_lookup<E>(admin: &String, found: Result<Option<Country>, E>) -> (r: Result<Country, ErrorReply>)
    ensures
        match found {
            Ok(Some(c)) => r == Ok::<Country, ErrorReply>(c),
            Ok(None) => r matches Err(e) && e.status == 404 && e.page.error_code == 404
                && e.page.error_message@ == "Country not found."@,
            Err(_) => r matches Err(e) && e.status == 500 && e.page.error_code == 500
                && e.page.error_message@ == "Failed to load country."@,
        },
{
    match found {
        Ok(Some(c)) => Ok(c),
        Ok(None) => Err(error_reply(404, "Country not found.", admin)),
        Err(_) => Err(error_reply(500, "Failed to load country.", admin)),
    }
}

/// First step of creating a country: the CSRF token, then the form rules.
pub fn country_create_begin(stored: &Result<Option<String>, SessionError>, form: &CountryForm) -> (r: Step)
    ensures
        r is Run ==> form.name@.len() >= 1,
        !csrf_accepts(*stored, form.csrf_token@) ==> (r matches Step::Finish(o) && is_form_error(o, "Invalid CSRF token"@)),
        csrf_accepts(*stored, form.csrf_token@) && !form.valid() ==> (r matches Step::Finish(o) && is_form_error(o, "Invalid country name"@)),
        csrf_accepts(*stored, form.csrf_token@) && form.valid() ==> (r matches Step::Run(Op::CreateCountry { name }) && name@ == form.name@),
{
    if !validate_csrf(stored, &form.csrf_token) {
        return Step::Finish(form_error("Invalid CSRF token"));
    }
    if !form.is_valid() {
        return Step::Finish(form_error("Invalid country name"));
    }
    Step::Run(Op::CreateCountry { name: form.name.clone() })
}

/// After the insert: back to the list (cache cleared), or the form with an error.
pub fn country_create_done<T, E>(result: Result<T, E>) -> (o: Outcome)
    ensures
        result is Ok ==> is_redirect(o, "/admin/countries"@, true),
        result is Err ==> is_form_error(o, "Failed to create country"@),
{
    match result {
        Ok(_) => redirect("/admin/countries", true),
        Err(_) => form_error("Failed to create country"),
    }
}

/// First step of renaming country `id`.
pub fn country_edit_begin(id: i32, stored: &Result<Option<String>, SessionError>, form: &CountryForm) -> (r: Step)
    ensures
        r is Run ==> form.name@.len() >= 1,
        !csrf_accepts(*stored, form.csrf_token@) ==> (r matches Step::Finish(o) && is_form_error(o, "Invalid CSRF token"@)),
        csrf_accepts(*stored, form.csrf_token@) && !form.valid() ==> (r matches Step::Finish(o) && is_form_error(o, "Invalid country name"@)),
        csrf_accepts(*stored, form.csrf_token@) && form.valid() ==> (r matches Step::Run(Op::UpdateCountry { id: i, name }) && i == id && name@ == form.name@),
{
    if !validate_csrf(stored, &form.csrf_token) {
        return Step::Finish(form_error("Invalid CSRF token"));
    }
    if !form.is_valid() {
        return Step::Finish(form_error("Invalid country name"));
    }
    Step::Run(Op::UpdateCountry { id, name: form.name.clone() })
}

/// After the update: back to the list (cache cleared), or the form with an error.
pub fn country_edit_done<T, E>(result: Result<T, E>) -> (o: Outcome)
    ensures
        result is Ok ==> is_redirect(o, "/admin/countries"@, true),
        result is Err ==> is_form_error(o, "Failed to update country"@),
{
    match result {
        Ok(_) => redirect("/admin/countries", true),
        Err(_) => form_error("Failed to update country"),
    }
}

/// First step of deleting country `id`: the CSRF token, then count its states.
pub fn country_delete_begin(id: i32, stored: &Result<Option<String>, SessionError>, form: &CsrfOnlyForm) -> (r: Step)
    ensures
        !csrf_accepts(*stored, form.csrf_token@) ==> (r matches Step::Finish(o) && is_error_page(o, 403, "Invalid CSRF token"@)),
        csrf_accepts(*stored, form.csrf_token@) ==> r == Step::Run(Op::CountStatesOfCountry { country_id: id }),
{
    if !validate_csrf(stored, &form.csrf_token) {
        return Step::Finish(error_page(403, "Invalid CSRF token"));
    }
    Step::Run(Op::CountStatesOfCountry { country_id: id })
}

/// A country that still has states is kept; otherwise count its users
/// (a failed count does not stop the deletion).
pub fn country_delete_after_states<E>(id: i32, states: Result<i64, E>) -> (r: Step)
    ensures
        (states matches Ok(c) && c > 0) ==> (r matches Step::Finish(o) && is_error_page(o, 400, "Cannot delete country with existing states."@)),
        !(states matches Ok(c) && c > 0) ==> r == Step::Run(Op::CountUsersOfCountry { country_id: id }),
{
    if let Ok(c) = states {
        if c > 0 {
            return Step::Finish(error_page(400, "Cannot delete country with existing states."));
        }
    }
    Step::Run(Op::CountUsersOfCountry { country_id: id })
}

/// A country still assigned to users is kept; otherwise delete it
/// (a failed count does not stop the deletion).
pub fn country_delete_after_users<E>(id: i32, users: Result<i64, E>) -> (r: Step)
    ensures
        (users matches Ok(c) && c > 0) ==> (r matches Step::Finish(o) && is_error_page(o, 400, "Cannot delete country assigned to users."@)),
        !(users matches Ok(c) && c > 0) ==> r == Step::Run(Op::DeleteCountry { id }),
{
    if let Ok(c) = users {
        if c > 0 {
            return Step::Finish(error_page(400, "Cannot delete country assigned to users."));
        }
    }
    Step::Run(Op::DeleteCountry { id })
}

/// After the delete: back to the list (geo cache cleared, the deleted
/// country's own states list included: see `country_delete_cache_keys`),
/// or the 500 page.
pub fn country_delete_done<T, E>(result: Result<T, E>) -> (o: Outcome)
    ensures
        result is Ok ==> is_redirect(o, "/admin/countries"@, true),
        result is Err ==> is_error_page(o, 500, "Failed to delete country."@),
{
    match result {
        Ok(_) => redirect("/admin/countries", true),
        Err(_) => error_page(500, "Failed to delete country."),
    }
}

// ------------------------------------------------------------------- states

/// States for the list page, or the 500 page when they cannot be read.
pub fn states_list_data<E>(admin: &String, rows: Result<Vec<StateWithCountry>, E>) -> (r: Result<Vec<AdminStateRow>, ErrorReply>)
    ensures
        match rows {
            Ok(v) => r matches Ok(o) && o@ == v@.map_values(|s: StateWithCountry| admin_state_row_of(s)),
            Err(_) => r matches Err(e) && e.status == 500 && e.page.error_code == 500
                && e.page.error_message@ == "Failed to load states."@,
        },
{
    match rows {
        Ok(v) => Ok(map_admin_state_rows(v)),
        Err(_) => Err(error_reply(500, "Failed to load states.", admin)),
    }
}

/// The states list page.
pub fn states_list_template(admin: String, csrf_token: String, states: Vec<AdminStateRow>) -> (t: AdminStatesListTemplate)
    ensures
        t.page_title@ == "States"@,
        t.current_admin == Some(admin),
        t.csrf_token == csrf_token,
        t.states@ == states@,
{
    AdminStatesListTemplate { page_title: String::from_str("States"), current_admin: Some(admin), csrf_token, states }
}

/// The state form: the create form when `edit` is `None`, else the edit form
/// of that state.
pub fn state_form_template(
    edit: Option<i32>,
    state_id: Option<i32>,
    name: Option<String>,
    countries: Vec<CountryOption>,
    selected_country_id: i32,
    error: Option<String>,
    admin: String,
    csrf_token: String,
) -> (t: AdminStateFormTemplate)
    ensures
        match edit {
            None => t.form_title@ == "Create State"@ && t.form_action@ == "/admin/states"@
                && t.submit_label@ == "Create State"@,
            Some(id) => t.form_title@ == "Edit State"@ && t.form_action@ == path_with_id("/admin/states/"@, id as int)
                && t.submit_label@ == "Save Changes"@,
        },
        t.state_id == state_id,
        t.name == name,
        t.countries@ == countries@,
        t.selected_country_id == selected_country_id,
        t.error == error,
        t.success is None,
        t.current_admin == Some(admin),
        t.csrf_token == csrf_token,
{
    let (title, action, label) = match edit {
        None => (String::from_str("Create State"), String::from_str("/admin/states"), String::from_str("Create State")),
        Some(id) => (String::from_str("Edit State"), state_form_action(id), String::from_str("Save Changes")),
    };
    AdminStateFormTemplate {
        form_title: title,
        form_action: action,
        submit_label: label,
        state_id,
        name,
        countries,
        selected_country_id,
        error,
        success: None,
        current_admin: Some(admin),
        csrf_token,
    }
}

/// The state to edit, or the 404/500 page.
pub fn state_edit_lookup<E>(admin: &String, found: Result<Option<State>, E>) -> (r: Result<State, ErrorReply>)
    ensures
        match found {
            Ok(Some(s)) => r == Ok::<State, ErrorReply>(s),
            Ok(None) => r matches Err(e) && e.status == 404 && e.page.error_code == 404
                && e.page.error_message@ == "State not found."@,
            Err(_) => r matches Err(e) && e.status == 500 && e.page.error_code == 500
                && e.page.error_message@ == "Failed to load state."@,
        },
{
    match found {
        Ok(Some(s)) => Ok(s),
        Ok(None) => Err(error_reply(404, "State not found.", admin)),
        Err(_) => Err(error_reply(500, "Failed to load state.", admin)),
    }
}

/// First step of creating a state: the CSRF token, then the form rules.
pub fn state_create_begin(stored: &Result<Option<String>, SessionError>, form: &StateForm) -> (r: Step)
    ensures
        r is Run ==> form.name@.len() >= 1 && form.country_id >= 1,
        !csrf_accepts(*stored, form.csrf_token@) ==> (r matches Step::Finish(o) && is_form_error(o, "Invalid CSRF token"@)),
        csrf_accepts(*stored, form.csrf_token@) && !form.valid() ==> (r matches Step::Finish(o) && is_form_error(o, "Invalid state data"@)),
        csrf_accepts(*stored, form.csrf_token@) && form.valid() ==> (r matches Step::Run(Op::CreateState { country_id, name })
            && country_id == form.country_id && name@ == form.name@),
{
    if !validate_csrf(stored, &form.csrf_token) {
        return Step::Finish(form_error("Invalid CSRF token"));
    }
    if !form.is_valid() {
        return Step::Finish(form_error("Invalid state data"));
    }
    Step::Run(Op::CreateState { country_id: form.country_id, name: form.name.clone() })
}

/// After the insert: back to the list (cache cleared), or the form with an error.
pub fn state_create_done<T, E>(result: Result<T, E>) -> (o: Outcome)
    ensures
        result is Ok ==> is_redirect(o, "/admin/states"@, true),
        result is Err ==> is_form_error(o, "Failed to create state"@),
{
    match result {
        Ok(_) => redirect("/admin/states", true),
        Err(_) => form_error("Failed to create state"),
    }
}

/// First step of editing state `id`.
pub fn state_edit_begin(id: i32, stored: &Result<Option<String>, SessionError>, form: &StateForm) -> (r: Step)
    ensures
        r is Run ==> form.name@.len() >= 1 && form.country_id >= 1,
        !csrf_accepts(*stored, form.csrf_token@) ==> (r matches Step::Finish(o) && is_form_error(o, "Invalid CSRF token"@)),
        csrf_accepts(*stored, form.csrf_token@) && !form.valid() ==> (r matches Step::Finish(o) && is_form_error(o, "Invalid state data"@)),
        csrf_accepts(*stored, form.csrf_token@) && form.valid() ==> (r matches Step::Run(Op::UpdateState { id: i, country_id, name })
            && i == id && country_id == form.country_id && name@ == form.name@),
{
    if !validate_csrf(stored, &form.csrf_token) {
        return Step::Finish(form_error("Invalid CSRF token"));
    }
    if !form.is_valid() {
        return Step::Finish(form_error("Invalid state data"));
    }
    Step::Run(Op::UpdateState { id, country_id: form.country_id, name: form.name.clone() })
}

/// After the update: back to the list (cache cleared), or the form with an error.
pub fn state_edit_done<T, E>(result: Result<T, E>) -> (o: Outcome)
    ensures
        result is Ok ==> is_redirect(o, "/admin/states"@, true),
        result is Err ==> is_form_error(o, "Failed to update state"@),
{
    match result {
        Ok(_) => redirect("/admin/states", true),
        Err(_) => form_error("Failed to update state"),
    }
}

/// First step of deleting state `id`: the CSRF token, then count its users.
pub fn state_delete_begin(id: i32, stored: &Result<Option<String>, SessionError>, form: &CsrfOnlyForm) -> (r: Step)
    ensures
        !csrf_accepts(*stored, form.csrf_token@) ==> (r matches Step::Finish(o) && is_error_page(o, 403, "Invalid CSRF token"@)),
        csrf_accepts(*stored, form.csrf_token@) ==> r == Step::Run(Op::CountUsersOfState { state_id: id }),
{
    if !validate_csrf(stored, &form.csrf_token) {
        return Step::Finish(error_page(403, "Invalid CSRF token"));
    }
    Step::Run(Op::CountUsersOfState { state_id: id })
}

/// A state still assigned to users is kept; otherwise delete it
/// (a failed count does not stop the deletion).
pub fn state_delete_after_users<E>(id: i32, users: Result<i64, E>) -> (r: Step)
    ensures
        (users matches Ok(c) && c > 0) ==> (r matches Step::Finish(o) && is_error_page(o, 400, "Cannot delete state assigned to users."@)),
        !(users matches Ok(c) && c > 0) ==> r == Step::Run(Op::DeleteState { id }),
{
    if let Ok(c) = users {
        if c > 0 {
            return Step::Finish(error_page(400, "Cannot delete state assigned to users."));
        }
    }
    Step::Run(Op::DeleteState { id })
}

/// After the delete: back to the list (geo cache cleared, the deleted
/// country's own states list included: see `country_delete_cache_keys`),
/// or the 500 page.
pub fn state_delete_done<T, E>(result: Result<T, E>) -> (o: Outcome)
    ensures
        result is Ok ==> is_redirect(o, "/admin/states"@, true),
        result is Err ==> is_error_page(o, 500, "Failed to delete state."@),
{
    match result {
        Ok(_) => redirect("/admin/states", true),
        Err(_) => error_page(500, "Failed to delete state."),
    }
}

} // verus!
