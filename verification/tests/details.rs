use boilerplate::admin_users::{user_edit_page_template, user_states_country, user_view};
use boilerplate::datetime::rfc3339_or_empty;
use boilerplate::pdf::{export_lines, header};
use boilerplate::db::{users_export_query, users_page_query};
use boilerplate::entities::{Country, DateTime, PaginationParams, State, StateOption, User};
use boilerplate::filters::{init, url, BasePath};
use boilerplate::geo::country_delete_cache_keys;
use boilerplate::passwords::verify_password_hash;

fn s(x: &str) -> String {
    x.to_string()
}

fn at(nanosecond: u32, offset_seconds: i32) -> DateTime {
    DateTime { year: 2024, month: 2, day: 29, hour: 23, minute: 59, second: 58, nanosecond, offset_seconds }
}

fn member(country_id: Option<i32>, state_id: Option<i32>) -> User {
    User {
        id: 9,
        username: s("siti"),
        email: s("siti@example.com"),
        password_hash: s("x"),
        created_at: at(0, 0),
        address: Some(s("2 Lorong")),
        country_id,
        state_id,
    }
}

#[test]
fn url_filter_prefixes_paths() {
    let mut b = BasePath::new();
    assert_eq!(url(&b, "/login").ok().unwrap(), "/login");
    init(&mut b, s("/app"));
    assert_eq!(url(&b, "/admin/users").ok().unwrap(), "/app/admin/users");
}

#[test]
fn user_pages_without_country_list_no_states() {
    let states = vec![StateOption { id: 7, country_id: 2, name: s("S7") }];
    let more_states = vec![StateOption { id: 7, country_id: 2, name: s("S7") }];
    assert_eq!(user_states_country(&member(None, Some(7))), None);
    assert_eq!(user_states_country(&member(Some(2), Some(7))), Some(2));
    // a lookup made for an id the user does not have counts for nothing
    let v = user_view::<(), ()>(member(None, Some(7)), Ok(Some(Country { id: 2, name: s("B") })), Ok(Some(State { id: 7, country_id: 2, name: s("S7") })));
    assert_eq!((v.country.as_deref(), v.state.as_deref()), (None, Some("S7")));
    let v = user_view::<(), ()>(member(Some(2), Some(7)), Ok(Some(Country { id: 2, name: s("B") })), Ok(None));
    assert_eq!((v.country.as_deref(), v.state.as_deref()), (Some("B"), None));
    let t = user_edit_page_template(member(None, Some(7)), s("root"), s("tok"), vec![], more_states);
    assert_eq!((t.states.len(), t.selected_country_id, t.selected_state_id), (0, 0, 7));
    let t = user_edit_page_template(member(Some(2), Some(7)), s("root"), s("tok"), vec![], states);
    assert_eq!((t.states.len(), t.selected_country_id), (1, 2));
}

#[test]
fn country_delete_clears_its_own_states_key() {
    let keys = country_delete_cache_keys::<()>(4, Ok(vec![Country { id: 1, name: s("A") }]));
    assert_eq!(keys, vec![s("geo:countries"), s("geo:states:1"), s("geo:states:4")]);
    let keys = country_delete_cache_keys::<()>(4, Err(()));
    assert_eq!(keys, vec![s("geo:countries"), s("geo:states:4")]);
}

#[test]
fn rfc3339_fraction_and_offsets() {
    assert_eq!(rfc3339_or_empty(&at(500_000_000, 0)), "2024-02-29T23:59:58.5Z");
    assert_eq!(rfc3339_or_empty(&at(123_456_789, 0)), "2024-02-29T23:59:58.123456789Z");
    assert_eq!(rfc3339_or_empty(&at(1_000, -(5 * 3600 + 30 * 60))), "2024-02-29T23:59:58.000001-05:30");
    assert_eq!(rfc3339_or_empty(&at(0, 45 * 60)), "2024-02-29T23:59:58+00:45");
    // 25 hours is a valid offset but has no RFC 3339 form
    assert_eq!(rfc3339_or_empty(&at(0, 25 * 3600)), "");
    // 29 February of a common year is no date at all
    let bad = DateTime { year: 2023, ..at(0, 0) };
    assert_eq!(rfc3339_or_empty(&bad), "");
}

#[test]
fn page_query_is_export_query_with_paging() {
    let p = PaginationParams { offset: 20, limit: 10, search: Some(s("ali")), order_column: s("email"), order_direction: s("asc") };
    let page = users_page_query(&p);
    let export = users_export_query(&p.search, &p.order_column, &p.order_direction);
    assert_eq!(page.sql, format!("{} LIMIT ? OFFSET ?", export.sql));
    assert_eq!(page.pattern, export.pattern);
}

#[test]
fn malformed_hashes_match_nothing() {
    assert!(!verify_password_hash(&s("$2b$12$"), &s("pw")));
    assert!(!verify_password_hash(&s("$2b$12$abc$def"), &s("pw")));
}

#[test]
fn export_has_header_and_one_line_per_user_in_order() {
    assert_eq!(header(), "ID    Username                Email                           Created At");
    let users = vec![member(None, None), User { id: 3, username: s("ali"), ..member(None, None) }];
    let lines = export_lines(&users);
    assert_eq!(lines.len(), 2);
    assert!(lines[0].starts_with("9     siti "));
    assert!(lines[0].ends_with(" 2024-02-29T23:59:58Z"));
    assert!(lines[1].starts_with("3     ali "));
}
