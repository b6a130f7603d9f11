//! Verified core of a small server-rendered user administration site:
//! form rules, CSRF handling, geo data mapping and caching keys,
//! the DataTables query builder, PDF page layout and the request
//! decision flows of every page handler.

pub mod text;
pub mod entities;
pub mod templates;
pub mod forms;
pub mod csrf;
pub mod geo;
pub mod db;
pub mod passwords;
pub mod filters;
pub mod outcome;
pub mod admin_geo;
pub mod admin_users;
pub mod account;
pub mod datatable;
pub mod datetime;
pub mod pdf;
pub mod config;
