use vstd::prelude::*;

use crate::entities::{AdminStateRow, CountryOption, StateOption, UserView};

verus! {

/// Home page.
#[derive(Debug)]
pub struct IndexTemplate {
    pub title: String,
    pub message: String,
    pub user: Option<String>,
    pub flash_success: Option<String>,
}

/// Users list page of the user area.
#[derive(Debug)]
pub struct UsersListTemplate {
    pub page_title: String,
    pub current_user: Option<String>,
}

/// User detail page of the user area.
#[derive(Debug)]
pub struct UserDetailTemplate {
    pub user: UserView,
    pub current_user: Option<String>,
}

/// Public error page.
#[derive(Debug)]
pub struct ErrorTemplate {
    pub error_code: u16,
    pub error_message: String,
}

/// Login page.
#[derive(Debug)]
pub struct LoginTemplate {
    pub error: Option<String>,
    pub csrf_token: String,
}

/// Registration page.
#[derive(Debug)]
pub struct RegisterTemplate {
    pub error: Option<String>,
    pub csrf_token: String,
}

/// Password change page.
#[derive(Debug)]
pub struct UpdatePasswordTemplate {
    pub error: Option<String>,
    pub success: Option<String>,
    pub current_user: Option<String>,
    pub csrf_token: String,
}

/// User dashboard page.
#[derive(Debug)]
pub struct UserDashboardTemplate {
    pub current_user: Option<String>,
}

/// Administrator login page.
#[derive(Debug)]
pub struct AdminLoginTemplate {
    pub error: Option<String>,
    pub csrf_token: String,
}

/// Administrator error page.
#[derive(Debug)]
pub struct AdminErrorTemplate {
    pub error_code: u16,
    pub error_message: String,
    pub current_admin: Option<String>,
}

/// Administrator users list page.
#[derive(Debug)]
pub struct AdminUsersListTemplate {
    pub page_title: String,
    pub current_admin: Option<String>,
}

/// Administrator user detail page.
#[derive(Debug)]
pub struct AdminUserDetailTemplate {
    pub user: UserView,
    pub current_admin: Option<String>,
    pub csrf_token: String,
}

/// Administrator "create user" form.
#[derive(Debug)]
pub struct AdminCreateUserTemplate {
    pub error: Option<String>,
    pub success: Option<String>,
    pub username: Option<String>,
    pub email: Option<String>,
    pub current_admin: Option<String>,
    pub csrf_token: String,
    pub countries: Vec<CountryOption>,
    pub states: Vec<StateOption>,
    pub selected_country_id: i32,
    pub selected_state_id: i32,
    pub address: Option<String>,
}

/// Administrator "edit user" form.
#[derive(Debug)]
pub struct AdminEditUserTemplate {
    pub error: Option<String>,
    pub success: Option<String>,
    pub user_id: i32,
    pub username: String,
    pub email: String,
    pub current_admin: Option<String>,
    pub csrf_token: String,
    pub countries: Vec<CountryOption>,
    pub states: Vec<StateOption>,
    pub selected_country_id: i32,
    pub selected_state_id: i32,
    pub address: Option<String>,
}

/// Administrator countries list.
#[derive(Debug)]
pub struct AdminCountriesListTemplate {
    pub page_title: String,
    pub current_admin: Option<String>,
    pub csrf_token: String,
    pub countries: Vec<CountryOption>,
}

/// Administrator country create/edit form.
#[derive(Debug)]
pub struct AdminCountryFormTemplate {
    pub form_title: String,
    pub form_action: String,
    pub submit_label: String,
    pub country_id: Option<i32>,
    pub name: Option<String>,
    pub error: Option<String>,
    pub success: Option<String>,
    pub current_admin: Option<String>,
    pub csrf_token: String,
}

/// Administrator states list.
#[derive(Debug)]
pub struct AdminStatesListTemplate {
    pub page_title: String,
    pub current_admin: Option<String>,
    pub csrf_token: String,
    pub states: Vec<AdminStateRow>,
}

/// Administrator state create/edit form.
#[derive(Debug)]
pub struct AdminStateFormTemplate {
    pub form_title: String,
    pub form_action: String,
    pub submit_label: String,
    pub state_id: Option<i32>,
    pub name: Option<String>,
    pub countries: Vec<CountryOption>,
    pub selected_country_id: i32,
    pub error: Option<String>,
    pub success: Option<String>,
    pub current_admin: Option<String>,
    pub csrf_token: String,
}

/// "Create user" form of the user area.
#[derive(Debug)]
pub struct CreateUserTemplate {
    pub error: Option<String>,
    pub success: Option<String>,
    pub username: Option<String>,
    pub email: Option<String>,
    pub current_user: Option<String>,
}

/// "Edit user" form of the user area.
#[derive(Debug)]
pub struct EditUserTemplate {
    pub error: Option<String>,
    pub success: Option<String>,
    pub user_id: i32,
    pub username: String,
    pub email: String,
    pub current_user: Option<String>,
}

} // verus!
