use vstd::prelude::*;

verus! {

/// A calendar date and wall-clock time with its UTC offset, as the
/// database hands it over (field by field).
#[derive(Debug)]
pub struct DateTime {
    pub year: i32,
    pub month: u8,
    pub day: u8,
    pub hour: u8,
    pub minute: u8,
    pub second: u8,
    pub nanosecond: u32,
    pub offset_seconds: i32,
}

/// A registered site user.
#[derive(Debug)]
pub struct User {
    pub id: i32,
    pub username: String,
    pub email: String,
    pub password_hash: String,
    pub created_at: DateTime,
    pub address: Option<String>,
    pub country_id: Option<i32>,
    pub state_id: Option<i32>,
}

/// An administrator account.
#[derive(Debug)]
pub struct Admin {
    pub id: i32,
    pub username: String,
    pub email: String,
    pub password_hash: String,
    pub created_at: Option<DateTime>,
}

/// Paging, search and ordering of the users table.
#[derive(Debug)]
pub struct PaginationParams {
    pub offset: i64,
    pub limit: i64,
    pub search: Option<String>,
    pub order_column: String,
    pub order_direction: String,
}

/// A country row.
#[derive(Debug)]
pub struct Country {
    pub id: i32,
    pub name: String,
}

/// A state (province) row, belonging to a country.
#[derive(Debug)]
pub struct State {
    pub id: i32,
    pub country_id: i32,
    pub name: String,
}

/// A state row joined with its country's name.
#[derive(Debug)]
pub struct StateWithCountry {
    pub id: i32,
    pub country_id: i32,
    pub name: String,
    pub country_name: String,
}

/// A user as shown on the detail page.
#[derive(Debug)]
pub struct UserView {
    pub id: u32,
    pub name: String,
    pub email: String,
    pub address: Option<String>,
    pub country: Option<String>,
    pub state: Option<String>,
}

/// A country entry of a select box.
#[derive(Debug)]
pub struct CountryOption {
    pub id: i32,
    pub name: String,
}

/// A state entry of a select box.
#[derive(Debug)]
pub struct StateOption {
    pub id: i32,
    pub country_id: i32,
    pub name: String,
}

/// A row of the admin states table.
#[derive(Debug)]
pub struct AdminStateRow {
    pub id: i32,
    pub country_id: i32,
    pub country_name: String,
    pub name: String,
}

} // verus!
