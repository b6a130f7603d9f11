use boilerplate::config::{listen_port, parse_i64, parse_u16, session_timeout_secs};
use boilerplate::csrf::{ensure_csrf_token, generate_csrf_token, validate_csrf, SessionError};
use boilerplate::datetime::{format_dmy_hms, format_dmy_hms_option, rfc3339_or_empty};
use boilerplate::db::{
    count_sql, filtered_count_plan, is_duplicate_entry, sanitize_order_column,
    sanitize_order_direction, search_pattern, text_contains, users_export_query, users_page_query,
    DbError, UserCount,
};
use boilerplate::entities::{Country, DateTime, PaginationParams, State, StateWithCountry, User};
use boilerplate::filters::{
    admin_user_path, country_form_action, home_route, init, normalize_base_path, path,
    state_form_action, BasePath,
};
use boilerplate::forms::{
    CountryForm, CreateUserForm, CsrfOnlyForm, LoginForm, RegisterForm, StateForm,
    UpdatePasswordForm, UpdateUserForm,
};
use boilerplate::geo::{
    cache_lookup, countries_after_load, countries_cache_key, country_options_or_empty,
    geo_cache_keys_to_delete, map_admin_state_rows, map_country_options, map_state_options,
    states_after_load, states_cache_key, CacheLookup, CACHE_TTL_SECONDS,
};
use boilerplate::passwords::{hash_password, verify_password_hash};
use boilerplate::pdf::{layout_lines, user_line};
use boilerplate::text::append_decimal_i64;

fn s(x: &str) -> String {
    x.to_string()
}

fn dt(year: i32, month: u8, day: u8, hour: u8, minute: u8, second: u8, offset: i32) -> DateTime {
    DateTime { year, month, day, hour, minute, second, nanosecond: 0, offset_seconds: offset }
}

fn user(id: i32, name: &str) -> User {
    User {
        id,
        username: s(name),
        email: format!("{}@example.com", name),
        password_hash: s("x"),
        created_at: dt(2024, 1, 2, 3, 4, 5, 8 * 3600),
        address: None,
        country_id: None,
        state_id: None,
    }
}

#[test]
fn decimal_text_of_integers() {
    for (n, t) in [(0i64, "0"), (7, "7"), (42, "42"), (-7, "-7"), (1000, "1000"), (i64::MIN, "-9223372036854775808"), (i64::MAX, "9223372036854775807")] {
        let mut out = s("x");
        append_decimal_i64(&mut out, n);
        assert_eq!(out, format!("x{}", t));
    }
}

#[test]
fn country_form_rules() {
    assert!(CountryForm { name: s("Malaysia"), csrf_token: s("t") }.is_valid());
    assert!(!CountryForm { name: s(""), csrf_token: s("t") }.is_valid());
    assert!(!CountryForm { name: s("Malaysia"), csrf_token: s("") }.is_valid());
    assert!(StateForm { country_id: 1, name: s("Selangor"), csrf_token: s("t") }.is_valid());
    assert!(!StateForm { country_id: 0, name: s("Selangor"), csrf_token: s("t") }.is_valid());
    assert!(CsrfOnlyForm { csrf_token: s("t") }.is_valid());
    assert!(!CsrfOnlyForm { csrf_token: s("") }.is_valid());
}

#[test]
fn user_form_rules() {
    let good = CreateUserForm {
        username: s("ali"),
        email: s("ali@example.com"),
        password: s("secret"),
        address: s("1 Jalan"),
        country_id: 1,
        state_id: 2,
        csrf_token: s("t"),
    };
    assert!(good.is_valid());
    let bad_email = CreateUserForm { email: s("ali.example.com"), ..good };
    assert!(!bad_email.is_valid());
    // six bytes but three characters: too short
    let login = LoginForm { username: s("ali"), password: s("ééé"), csrf_token: s("t") };
    assert!(!login.is_valid());
    let login = LoginForm { username: s("ali"), password: s("éééééé"), csrf_token: s("t") };
    assert!(login.is_valid());
    assert!(RegisterForm { username: s("a"), email: s("a@b.com"), password: s("123456"), csrf_token: s("t") }.is_valid());
    assert!(!RegisterForm { username: s("a"), email: s(""), password: s("123456"), csrf_token: s("t") }.is_valid());
    let upd = UpdateUserForm {
        username: s("a"),
        email: s("a@b.com"),
        address: s("x"),
        country_id: 1,
        state_id: 1,
        new_password: s(""),
        csrf_token: s("t"),
    };
    assert!(upd.is_valid());
    let pw = UpdatePasswordForm { current_password: s("123456"), new_password: s("abcdef"), confirm_password: s("abcdef"), csrf_token: s("t") };
    assert!(pw.is_valid());
    let pw = UpdatePasswordForm { current_password: s("12345"), ..pw };
    assert!(!pw.is_valid());
}

#[test]
fn csrf_tokens() {
    let t = generate_csrf_token();
    assert_eq!(t.chars().count(), 32);
    assert!(t.chars().all(|c| c.is_ascii_alphanumeric()));
    let kept = ensure_csrf_token(Ok(Some(s("abc"))));
    assert_eq!(kept.token, "abc");
    assert!(!kept.store);
    let fresh = ensure_csrf_token(Ok(None));
    assert!(fresh.store);
    assert_eq!(fresh.token.len(), 32);
    let fresh = ensure_csrf_token(Err(SessionError));
    assert!(fresh.store);
    assert!(validate_csrf(&Ok(Some(s("abc"))), &s("abc")));
    assert!(!validate_csrf(&Ok(Some(s("abc"))), &s("abd")));
    assert!(!validate_csrf(&Ok(None), &s("abc")));
    assert!(!validate_csrf(&Err(SessionError), &s("")));
}

#[test]
fn issued_token_round_trip() {
    let issued = ensure_csrf_token(Ok(None));
    let session = Ok(Some(issued.token.clone()));
    assert!(validate_csrf(&session, &issued.token));
}

#[test]
fn geo_mappings_keep_order() {
    let c = map_country_options(vec![Country { id: 3, name: s("B") }, Country { id: 1, name: s("A") }]);
    assert_eq!(c.iter().map(|o| o.id).collect::<Vec<_>>(), vec![3, 1]);
    assert_eq!(c[1].name, "A");
    let st = map_state_options(vec![State { id: 9, country_id: 3, name: s("S") }]);
    assert_eq!((st[0].id, st[0].country_id, st[0].name.as_str()), (9, 3, "S"));
    let rows = map_admin_state_rows(vec![StateWithCountry { id: 5, country_id: 2, name: s("N"), country_name: s("C") }]);
    assert_eq!((rows[0].id, rows[0].country_id, rows[0].name.as_str(), rows[0].country_name.as_str()), (5, 2, "N", "C"));
    assert!(country_options_or_empty::<()>(Err(())).is_empty());
    assert_eq!(country_options_or_empty::<()>(Ok(vec![Country { id: 1, name: s("A") }])).len(), 1);
}

#[test]
fn geo_cache_keys() {
    assert_eq!(countries_cache_key(), "geo:countries");
    assert_eq!(states_cache_key(42), "geo:states:42");
    assert_eq!(states_cache_key(-1), "geo:states:-1");
    assert_eq!(CACHE_TTL_SECONDS, 300);
    let keys = geo_cache_keys_to_delete::<()>(Ok(vec![Country { id: 1, name: s("A") }, Country { id: 20, name: s("B") }]));
    assert_eq!(keys, vec![s("geo:countries"), s("geo:states:1"), s("geo:states:20")]);
    let keys = geo_cache_keys_to_delete::<()>(Err(()));
    assert_eq!(keys, vec![s("geo:countries")]);
}

#[test]
fn geo_cache_decisions() {
    match cache_lookup(Some(vec![1, 2])) {
        CacheLookup::Hit(v) => assert_eq!(v, vec![1, 2]),
        CacheLookup::Miss => panic!("expected a hit"),
    }
    assert!(matches!(cache_lookup::<i32>(None), CacheLookup::Miss));
    assert_eq!(countries_after_load::<()>(Err(())).err(), Some(500));
    assert_eq!(countries_after_load::<()>(Ok(vec![Country { id: 1, name: s("A") }])).unwrap()[0].id, 1);
    assert_eq!(states_after_load::<()>(Err(())).err(), Some(500));
}

#[test]
fn sanitized_ordering() {
    assert_eq!(sanitize_order_column(&s("email")), "email");
    assert_eq!(sanitize_order_column(&s("password_hash")), "id");
    assert_eq!(sanitize_order_column(&s("id; DROP TABLE users")), "id");
    assert_eq!(sanitize_order_direction(&s("asc")), "ASC");
    assert_eq!(sanitize_order_direction(&s("ASC")), "ASC");
    assert_eq!(sanitize_order_direction(&s("desc")), "DESC");
    assert_eq!(sanitize_order_direction(&s("Asc")), "DESC");
}

#[test]
fn users_queries() {
    let p = PaginationParams { offset: 20, limit: 10, search: Some(s("ali")), order_column: s("username"), order_direction: s("asc") };
    let q = users_page_query(&p);
    assert_eq!(q.sql, "SELECT id, username, email, password_hash, created_at, address, country_id, state_id FROM users WHERE username LIKE ? OR email LIKE ? ORDER BY username ASC LIMIT ? OFFSET ?");
    assert_eq!(q.pattern.as_deref(), Some("%ali%"));
    assert_eq!((q.limit, q.offset), (Some(10), Some(20)));
    let p = PaginationParams { search: Some(s("")), order_column: s("nope"), order_direction: s("x"), ..p };
    let q = users_page_query(&p);
    assert_eq!(q.sql, "SELECT id, username, email, password_hash, created_at, address, country_id, state_id FROM users ORDER BY id DESC LIMIT ? OFFSET ?");
    assert_eq!(q.pattern, None);
    let q = users_export_query(&None, &s("created_at"), &s("desc"));
    assert_eq!(q.sql, "SELECT id, username, email, password_hash, created_at, address, country_id, state_id FROM users ORDER BY created_at DESC");
    assert_eq!((q.limit, q.offset), (None, None));
    assert_eq!(search_pattern(&s("a%b")), "%a%b%");
}

#[test]
fn filtered_count() {
    let plan = filtered_count_plan(&Some(s("bob")));
    match &plan {
        UserCount::Matching(p) => assert_eq!(p, "%bob%"),
        UserCount::All => panic!("expected a filtered count"),
    }
    assert_eq!(count_sql(&plan), "SELECT COUNT(*) as count FROM users WHERE username LIKE ? OR email LIKE ?");
    let plan = filtered_count_plan(&Some(s("")));
    assert!(matches!(plan, UserCount::All));
    assert_eq!(count_sql(&plan), "SELECT COUNT(*) as count FROM users");
    assert!(matches!(filtered_count_plan(&None), UserCount::All));
}

#[test]
fn duplicate_entry_detection() {
    assert!(is_duplicate_entry(&DbError { message: s("error returned from database: 1062 (23000): Duplicate entry 'ali' for key 'users.username'") }));
    assert!(!is_duplicate_entry(&DbError { message: s("pool timed out") }));
    assert!(text_contains("abc", ""));
    assert!(text_contains("abc", "bc"));
    assert!(!text_contains("ab", "abc"));
}

#[test]
fn password_hash_round_trip() {
    let h = hash_password(&s("hunter22")).expect("hashing works");
    assert_eq!((h.len(), &h[..7]), (60, "$2b$12$"));
    assert!(verify_password_hash(&h, &s("hunter22")));
    assert!(!verify_password_hash(&h, &s("hunter23")));
    assert!(!verify_password_hash(&s("not a hash"), &s("hunter22")));
}

#[test]
fn base_path_and_routes() {
    let mut b = BasePath::new();
    assert_eq!(path(&b, "/login"), "/login");
    init(&mut b, s("/boilerplate"));
    assert_eq!(path(&b, "/login"), "/boilerplate/login");
    init(&mut b, s("/other"));
    assert_eq!(path(&b, "/login"), "/boilerplate/login");
    assert_eq!(normalize_base_path("/boilerplate//"), "/boilerplate");
    assert_eq!(normalize_base_path("/"), "");
    assert_eq!(normalize_base_path(""), "");
    assert_eq!(normalize_base_path("/a/b"), "/a/b");
    assert_eq!(home_route(&s("/boilerplate")), "/boilerplate/");
    assert_eq!(home_route(&s("")), "/");
    assert_eq!(admin_user_path(12), "/admin/users/12");
    assert_eq!(country_form_action(3), "/admin/countries/3");
    assert_eq!(state_form_action(4), "/admin/states/4");
}

#[test]
fn date_formats() {
    assert_eq!(format_dmy_hms(&dt(2024, 1, 2, 3, 4, 5, 0)), "02-01-2024 03:04:05");
    assert_eq!(format_dmy_hms(&dt(987, 12, 31, 23, 59, 0, 0)), "31-12-0987 23:59:00");
    assert_eq!(format_dmy_hms_option(&None), None);
    assert_eq!(format_dmy_hms_option(&Some(dt(2024, 1, 2, 3, 4, 5, 0))).as_deref(), Some("02-01-2024 03:04:05"));
    assert_eq!(rfc3339_or_empty(&dt(2024, 1, 2, 3, 4, 5, 8 * 3600)), "2024-01-02T03:04:05+08:00");
    assert_eq!(rfc3339_or_empty(&dt(2024, 1, 2, 3, 4, 5, 0)), "2024-01-02T03:04:05Z");
    // an offset with seconds has no RFC 3339 form
    assert_eq!(rfc3339_or_empty(&dt(2024, 1, 2, 3, 4, 5, 30)), "");
}

#[test]
fn pdf_pages_fill_then_break() {
    let p = layout_lines(100);
    assert_eq!(p.len(), 100);
    assert_eq!((p[0].page, p[0].y_mm), (0, 270));
    assert_eq!((p[31].page, p[31].y_mm), (0, 22));
    assert_eq!((p[32].page, p[32].y_mm), (1, 280));
    assert_eq!((p[64].page, p[64].y_mm), (1, 24));
    assert_eq!((p[65].page, p[65].y_mm), (2, 280));
    assert!(p.iter().all(|x| x.y_mm >= 20 && x.y_mm <= 280));
    assert_eq!(
        user_line(&user(7, "ali"), &s("2024-01-02T03:04:05+08:00")),
        format!("{:<5} {:<22} {:<30} {}", 7, "ali", "ali@example.com", "2024-01-02T03:04:05+08:00")
    );
    assert_eq!(
        user_line(&user(7, "ali"), &s("2024-01-02T03:04:05+08:00")),
        "7     ali                    ali@example.com                2024-01-02T03:04:05+08:00"
    );
    // a name longer than its column is kept whole
    let long = "a_very_long_user_name_indeed";
    assert_eq!(user_line(&user(123456, long), &s("")), format!("123456 {} {:<30} ", long, format!("{}@example.com", long)));
}

#[test]
fn config_values() {
    assert_eq!(parse_i64("42"), Some(42));
    assert_eq!(parse_i64("+42"), Some(42));
    assert_eq!(parse_i64("-42"), Some(-42));
    assert_eq!(parse_i64("-9223372036854775808"), Some(i64::MIN));
    assert_eq!(parse_i64("9223372036854775808"), None);
    assert_eq!(parse_i64(""), None);
    assert_eq!(parse_i64("-"), None);
    assert_eq!(parse_i64("4x"), None);
    assert_eq!(parse_u16("8080"), Some(8080));
    assert_eq!(parse_u16("65536"), None);
    assert_eq!(parse_u16("-1"), None);
    assert_eq!(session_timeout_secs(Some("3600")), 3600);
    assert_eq!(session_timeout_secs(Some("0")), 604800);
    assert_eq!(session_timeout_secs(Some("abc")), 604800);
    assert_eq!(session_timeout_secs(None), 604800);
    assert_eq!(listen_port(Some("8080")), 8080);
    assert_eq!(listen_port(Some("99999")), 3001);
    assert_eq!(listen_port(None), 3001);
    for text in ["0", "123", "+7", "-7", "00012", "18446744073709551616", "-0", "+", " 1"] {
        assert_eq!(parse_i64(text), text.parse::<i64>().ok(), "{}", text);
        assert_eq!(parse_u16(text), text.parse::<u16>().ok(), "{}", text);
    }
}
