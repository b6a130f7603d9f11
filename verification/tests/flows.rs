use boilerplate::account::{
    admin_index_target, admin_login_after_lookup, admin_login_begin, admin_login_done,
    admin_login_page, admin_login_rerender, admin_logout_target, handle_404, index_page,
    login_after_lookup, login_after_session, login_begin, login_done, login_page, login_rerender,
    logout_target, register_after_create, register_after_login, register_begin, register_done,
    register_page, register_rerender,
    update_password_after_lookup, update_password_begin, update_password_done,
    update_password_template, user_dashboard, Page,
};
use boilerplate::admin_geo::{
    admin_error_template, countries_list_data, countries_list_template, country_create_begin,
    country_create_done, country_delete_after_states, country_delete_after_users,
    country_delete_begin, country_delete_done, country_edit_begin, country_edit_done,
    country_edit_lookup, country_form_template, state_create_begin, state_create_done,
    state_delete_after_users, state_delete_begin, state_delete_done, state_edit_begin,
    state_edit_done, state_edit_lookup, state_form_template, states_list_data,
    states_list_template,
};
use boilerplate::admin_users::{
    user_create_begin, user_create_done, user_create_page_template,
    user_create_rerender, user_delete_begin, user_delete_done, user_detail_template,
    user_edit_after_password, user_edit_after_update, user_edit_begin, user_edit_page_template,
    user_edit_rerender, user_lookup, user_states_country, user_view, users_list_template,
};
use boilerplate::csrf::SessionError;
use boilerplate::datatable::{flat_datatable_result, pdf_export_order, DatatableParams, PdfExportParams};
use boilerplate::db::DbError;
use boilerplate::entities::{Admin, Country, CountryOption, DateTime, State, StateOption, StateWithCountry, User};
use boilerplate::forms::{
    CountryForm, CreateUserForm, CsrfOnlyForm, LoginForm, RegisterForm, StateForm,
    UpdatePasswordForm, UpdateUserForm,
};
use boilerplate::outcome::{Op, Outcome, Step};
use boilerplate::passwords::hash_password;

fn s(x: &str) -> String {
    x.to_string()
}

fn session(t: &str) -> Result<Option<String>, SessionError> {
    Ok(Some(s(t)))
}

fn form_error(step: Step) -> String {
    match step {
        Step::Finish(Outcome::FormError(m)) => m,
        other => panic!("expected a form error, got {:?}", other),
    }
}

fn error_page(step: Step) -> (u16, String) {
    match step {
        Step::Finish(Outcome::ErrorPage { status, message }) => (status, message),
        other => panic!("expected an error page, got {:?}", other),
    }
}

fn redirect_of(o: Outcome) -> (String, bool, Option<String>) {
    match o {
        Outcome::Redirect { to, invalidate_geo_cache, flash_success } => (to, invalidate_geo_cache, flash_success),
        other => panic!("expected a redirect, got {:?}", other),
    }
}

fn dup() -> DbError {
    DbError { message: s("Duplicate entry 'a' for key 'users.username'") }
}

fn other_err() -> DbError {
    DbError { message: s("connection reset") }
}

fn a_user(country_id: Option<i32>, state_id: Option<i32>) -> User {
    User {
        id: 5,
        username: s("ali"),
        email: s("ali@example.com"),
        password_hash: s("x"),
        created_at: DateTime { year: 2024, month: 1, day: 2, hour: 3, minute: 4, second: 5, nanosecond: 0, offset_seconds: 0 },
        address: Some(s("1 Jalan")),
        country_id,
        state_id,
    }
}

#[test]
fn country_create_steps() {
    let form = CountryForm { name: s("Malaysia"), csrf_token: s("t") };
    assert_eq!(form_error(country_create_begin(&session("other"), &form)), "Invalid CSRF token");
    assert_eq!(form_error(country_create_begin(&Ok(None), &form)), "Invalid CSRF token");
    assert_eq!(form_error(country_create_begin(&Err(SessionError), &form)), "Invalid CSRF token");
    let empty = CountryForm { name: s(""), csrf_token: s("t") };
    assert_eq!(form_error(country_create_begin(&session("t"), &empty)), "Invalid country name");
    match country_create_begin(&session("t"), &form) {
        Step::Run(Op::CreateCountry { name }) => assert_eq!(name, "Malaysia"),
        other => panic!("{:?}", other),
    }
    assert_eq!(redirect_of(country_create_done::<i32, ()>(Ok(1))), (s("/admin/countries"), true, None));
    assert!(matches!(country_create_done::<i32, ()>(Err(())), Outcome::FormError(m) if m == "Failed to create country"));
}

#[test]
fn country_edit_steps() {
    let form = CountryForm { name: s("Singapore"), csrf_token: s("t") };
    assert_eq!(form_error(country_edit_begin(3, &session("x"), &form)), "Invalid CSRF token");
    match country_edit_begin(3, &session("t"), &form) {
        Step::Run(Op::UpdateCountry { id, name }) => assert_eq!((id, name.as_str()), (3, "Singapore")),
        other => panic!("{:?}", other),
    }
    assert!(matches!(country_edit_done::<(), ()>(Err(())), Outcome::FormError(m) if m == "Failed to update country"));
    assert_eq!(redirect_of(country_edit_done::<(), ()>(Ok(()))).0, "/admin/countries");
}

#[test]
fn country_delete_steps() {
    let form = CsrfOnlyForm { csrf_token: s("t") };
    assert_eq!(error_page(country_delete_begin(4, &session("u"), &form)), (403, s("Invalid CSRF token")));
    assert!(matches!(country_delete_begin(4, &session("t"), &form), Step::Run(Op::CountStatesOfCountry { country_id: 4 })));
    assert_eq!(
        error_page(country_delete_after_states::<()>(4, Ok(2))),
        (400, s("Cannot delete country with existing states."))
    );
    assert!(matches!(country_delete_after_states::<()>(4, Ok(0)), Step::Run(Op::CountUsersOfCountry { country_id: 4 })));
    assert!(matches!(country_delete_after_states::<()>(4, Err(())), Step::Run(Op::CountUsersOfCountry { country_id: 4 })));
    assert_eq!(
        error_page(country_delete_after_users::<()>(4, Ok(1))),
        (400, s("Cannot delete country assigned to users."))
    );
    assert!(matches!(country_delete_after_users::<()>(4, Ok(0)), Step::Run(Op::DeleteCountry { id: 4 })));
    assert!(matches!(country_delete_after_users::<()>(4, Err(())), Step::Run(Op::DeleteCountry { id: 4 })));
    assert!(matches!(country_delete_done::<(), ()>(Err(())), Outcome::ErrorPage { status: 500, message } if message == "Failed to delete country."));
    assert_eq!(redirect_of(country_delete_done::<(), ()>(Ok(()))), (s("/admin/countries"), true, None));
}

#[test]
fn country_pages() {
    let data = countries_list_data::<()>(&s("root"), Err(()));
    let e = data.err().unwrap();
    assert_eq!((e.status, e.page.error_code, e.page.error_message.as_str()), (500, 500, "Failed to load countries."));
    assert_eq!(e.page.current_admin.as_deref(), Some("root"));
    let ok = countries_list_data::<()>(&s("root"), Ok(vec![Country { id: 1, name: s("A") }])).ok().unwrap();
    let t = countries_list_template(s("root"), s("tok"), ok);
    assert_eq!((t.page_title.as_str(), t.countries.len(), t.csrf_token.as_str()), ("Countries", 1, "tok"));
    let create = country_form_template(None, None, None, None, s("root"), s("tok"));
    assert_eq!((create.form_title.as_str(), create.form_action.as_str(), create.submit_label.as_str()), ("Create Country", "/admin/countries", "Create Country"));
    let edit = country_form_template(Some(7), Some(7), Some(s("X")), Some(s("err")), s("root"), s("tok"));
    assert_eq!((edit.form_title.as_str(), edit.form_action.as_str(), edit.submit_label.as_str()), ("Edit Country", "/admin/countries/7", "Save Changes"));
    assert_eq!(edit.error.as_deref(), Some("err"));
    let e = country_edit_lookup::<()>(&s("root"), Ok(None)).err().unwrap();
    assert_eq!((e.status, e.page.error_message.as_str()), (404, "Country not found."));
    let e = country_edit_lookup::<()>(&s("root"), Err(())).err().unwrap();
    assert_eq!((e.status, e.page.error_message.as_str()), (500, "Failed to load country."));
    assert_eq!(country_edit_lookup::<()>(&s("root"), Ok(Some(Country { id: 2, name: s("B") }))).ok().unwrap().id, 2);
    let t = admin_error_template(403, s("m"), None);
    assert_eq!((t.error_code, t.error_message.as_str(), t.current_admin), (403, "m", None));
}

#[test]
fn state_steps() {
    let form = StateForm { country_id: 1, name: s("Selangor"), csrf_token: s("t") };
    assert_eq!(form_error(state_create_begin(&session("x"), &form)), "Invalid CSRF token");
    let bad = StateForm { country_id: 0, name: s("Selangor"), csrf_token: s("t") };
    assert_eq!(form_error(state_create_begin(&session("t"), &bad)), "Invalid state data");
    match state_create_begin(&session("t"), &form) {
        Step::Run(Op::CreateState { country_id, name }) => assert_eq!((country_id, name.as_str()), (1, "Selangor")),
        other => panic!("{:?}", other),
    }
    assert!(matches!(state_create_done::<i32, ()>(Err(())), Outcome::FormError(m) if m == "Failed to create state"));
    assert_eq!(redirect_of(state_create_done::<i32, ()>(Ok(1))), (s("/admin/states"), true, None));
    assert_eq!(form_error(state_edit_begin(9, &session("t"), &bad)), "Invalid state data");
    match state_edit_begin(9, &session("t"), &form) {
        Step::Run(Op::UpdateState { id, country_id, name }) => assert_eq!((id, country_id, name.as_str()), (9, 1, "Selangor")),
        other => panic!("{:?}", other),
    }
    assert!(matches!(state_edit_done::<(), ()>(Err(())), Outcome::FormError(m) if m == "Failed to update state"));
    assert_eq!(redirect_of(state_edit_done::<(), ()>(Ok(()))).0, "/admin/states");
    let del = CsrfOnlyForm { csrf_token: s("t") };
    assert_eq!(error_page(state_delete_begin(9, &Ok(None), &del)), (403, s("Invalid CSRF token")));
    assert!(matches!(state_delete_begin(9, &session("t"), &del), Step::Run(Op::CountUsersOfState { state_id: 9 })));
    assert_eq!(error_page(state_delete_after_users::<()>(9, Ok(3))), (400, s("Cannot delete state assigned to users.")));
    assert!(matches!(state_delete_after_users::<()>(9, Ok(0)), Step::Run(Op::DeleteState { id: 9 })));
    assert!(matches!(state_delete_done::<(), ()>(Err(())), Outcome::ErrorPage { status: 500, message } if message == "Failed to delete state."));
    assert_eq!(redirect_of(state_delete_done::<(), ()>(Ok(()))), (s("/admin/states"), true, None));
}

#[test]
fn state_pages() {
    let e = states_list_data::<()>(&s("root"), Err(())).err().unwrap();
    assert_eq!((e.status, e.page.error_message.as_str()), (500, "Failed to load states."));
    let rows = states_list_data::<()>(&s("root"), Ok(vec![StateWithCountry { id: 1, country_id: 2, name: s("S"), country_name: s("C") }])).ok().unwrap();
    let t = states_list_template(s("root"), s("tok"), rows);
    assert_eq!((t.page_title.as_str(), t.states[0].country_name.as_str()), ("States", "C"));
    let f = state_form_template(Some(4), Some(4), Some(s("S")), vec![], 2, None, s("root"), s("tok"));
    assert_eq!((f.form_title.as_str(), f.form_action.as_str(), f.submit_label.as_str(), f.selected_country_id), ("Edit State", "/admin/states/4", "Save Changes", 2));
    let f = state_form_template(None, None, None, vec![], 0, None, s("root"), s("tok"));
    assert_eq!((f.form_title.as_str(), f.form_action.as_str(), f.submit_label.as_str()), ("Create State", "/admin/states", "Create State"));
    let e = state_edit_lookup::<()>(&s("root"), Ok(None)).err().unwrap();
    assert_eq!((e.status, e.page.error_message.as_str()), (404, "State not found."));
    let e = state_edit_lookup::<()>(&s("root"), Err(())).err().unwrap();
    assert_eq!((e.status, e.page.error_message.as_str()), (500, "Failed to load state."));
    assert_eq!(state_edit_lookup::<()>(&s("root"), Ok(Some(State { id: 3, country_id: 1, name: s("N") }))).ok().unwrap().id, 3);
}

#[test]
fn user_create_steps() {
    let form = CreateUserForm {
        username: s("ali"),
        email: s("ali@example.com"),
        password: s("secret1"),
        address: s("1 Jalan"),
        country_id: 1,
        state_id: 2,
        csrf_token: s("t"),
    };
    assert_eq!(form_error(user_create_begin(&session("x"), &form)), "Invalid CSRF token");
    let bad = CreateUserForm { password: s("123"), ..form };
    assert_eq!(form_error(user_create_begin(&session("t"), &bad)), "Invalid user data");
    let form = CreateUserForm { password: s("secret1"), ..bad };
    match user_create_begin(&session("t"), &form) {
        Step::Run(Op::CreateUser { username, email, password, address, country_id, state_id }) => {
            assert_eq!((username.as_str(), email.as_str(), password.as_str()), ("ali", "ali@example.com", "secret1"));
            assert_eq!((address.as_deref(), country_id, state_id), (Some("1 Jalan"), Some(1), Some(2)));
        }
        other => panic!("{:?}", other),
    }
    assert_eq!(redirect_of(user_create_done(Ok(12))), (s("/admin/users"), false, None));
    assert!(matches!(user_create_done::<i32>(Err(dup())), Outcome::FormError(m) if m == "Username or email already exists"));
    assert!(matches!(user_create_done::<i32>(Err(other_err())), Outcome::FormError(m) if m == "Failed to create user"));
    let page = user_create_page_template(s("root"), s("tok"), vec![CountryOption { id: 1, name: s("A") }]);
    assert_eq!((page.selected_country_id, page.selected_state_id, page.states.len(), page.countries.len()), (0, 0, 0, 1));
    let again = user_create_rerender(form, s("Invalid user data"), s("root"), s("tok"), vec![], vec![]);
    assert_eq!((again.error.as_deref(), again.username.as_deref(), again.address.as_deref(), again.selected_state_id), (Some("Invalid user data"), Some("ali"), Some("1 Jalan"), 2));
}

#[test]
fn user_pages() {
    let e = user_lookup::<()>(&s("root"), Ok(None)).err().unwrap();
    assert_eq!((e.status, e.page.error_message.as_str()), (404, "User not found."));
    let e = user_lookup::<()>(&s("root"), Err(())).err().unwrap();
    assert_eq!((e.status, e.page.error_message.as_str()), (500, "Failed to load user."));
    let u = user_lookup::<()>(&s("root"), Ok(Some(a_user(Some(2), Some(7))))).ok().unwrap();
    let country: Result<Option<Country>, ()> = Ok(Some(Country { id: 2, name: s("B") }));
    let state: Result<Option<State>, ()> = Ok(Some(State { id: 7, country_id: 2, name: s("S7") }));
    let v = user_view(u, country, state);
    assert_eq!((v.id, v.name.as_str(), v.country.as_deref(), v.state.as_deref()), (5, "ali", Some("B"), Some("S7")));
    let v = user_view::<(), ()>(a_user(Some(9), None), Ok(None), Ok(Some(State { id: 7, country_id: 2, name: s("S7") })));
    assert_eq!((v.country.is_none(), v.state.is_none()), (true, true));
    let v = user_view::<(), ()>(a_user(Some(9), Some(7)), Err(()), Ok(Some(State { id: 7, country_id: 2, name: s("S7") })));
    assert_eq!((v.country.is_none(), v.state.as_deref()), (true, Some("S7")));
    assert_eq!(user_states_country(&a_user(Some(0), None)), None);
    let t = user_detail_template(v, s("root"), s("tok"));
    assert_eq!(t.current_admin.as_deref(), Some("root"));
    let e = user_edit_page_template(a_user(None, None), s("root"), s("tok"), vec![], vec![]);
    assert_eq!((e.selected_country_id, e.selected_state_id, e.user_id), (0, 0, 5));
    let l = users_list_template(s("root"));
    assert_eq!(l.page_title, "All Users");
}

#[test]
fn user_edit_steps() {
    let form = UpdateUserForm {
        username: s("ali"),
        email: s("ali@example.com"),
        address: s("x"),
        country_id: 1,
        state_id: 1,
        new_password: s(""),
        csrf_token: s("t"),
    };
    assert_eq!(form_error(user_edit_begin(5, &session("x"), &form)), "Invalid CSRF token");
    let bad = UpdateUserForm { email: s("nope"), ..form };
    assert_eq!(form_error(user_edit_begin(5, &session("t"), &bad)), "Invalid user data");
    let form = UpdateUserForm { email: s("ali@example.com"), ..bad };
    match user_edit_begin(5, &session("t"), &form) {
        Step::Run(Op::UpdateUser { id, username, address, .. }) => assert_eq!((id, username.as_str(), address.as_deref()), (5, "ali", Some("x"))),
        other => panic!("{:?}", other),
    }
    assert_eq!(form_error(user_edit_after_update::<(), DbError>(5, &form, Err(dup()))), "Failed to update user");
    assert_eq!(form_error(user_edit_after_update::<(), DbError>(5, &form, Err(other_err()))), "Failed to update user");
    match user_edit_after_update::<(), ()>(5, &form, Ok(())) {
        Step::Finish(o) => assert_eq!(redirect_of(o), (s("/admin/users/5"), false, None)),
        other => panic!("{:?}", other),
    }
    // white space alone is no new password
    let blank = UpdateUserForm { new_password: s(" \t\u{3000} "), ..form };
    assert!(matches!(user_edit_after_update::<(), ()>(5, &blank, Ok(())), Step::Finish(Outcome::Redirect { .. })));
    // any other text is stored as typed, however short
    let short = UpdateUserForm { new_password: s(" ab"), ..blank };
    match user_edit_after_update::<(), ()>(5, &short, Ok(())) {
        Step::Run(Op::UpdatePassword { user_id, new_password }) => assert_eq!((user_id, new_password.as_str()), (5, " ab")),
        other => panic!("{:?}", other),
    }
    let wide = UpdateUserForm { new_password: s("ééé"), ..short };
    assert!(matches!(user_edit_after_password::<(), ()>(5, Err(())), Outcome::FormError(m) if m == "Failed to update password"));
    assert_eq!(redirect_of(user_edit_after_password::<(), ()>(5, Ok(()))), (s("/admin/users/5"), false, None));
    let t = user_edit_rerender(5, wide, Outcome::FormSuccess(s("ok")), s("root"), s("tok"), vec![], vec![]);
    assert_eq!((t.success.as_deref(), t.error, t.user_id), (Some("ok"), None, 5));
}

#[test]
fn user_delete_steps() {
    let form = CsrfOnlyForm { csrf_token: s("t") };
    assert_eq!(error_page(user_delete_begin(5, &session("x"), &form)), (403, s("Invalid CSRF token")));
    assert!(matches!(user_delete_begin(5, &session("t"), &form), Step::Run(Op::DeleteUser { id: 5 })));
    assert!(matches!(user_delete_done::<(), ()>(Err(())), Outcome::ErrorPage { status: 500, message } if message == "Failed to delete user."));
    assert_eq!(redirect_of(user_delete_done::<(), ()>(Ok(()))), (s("/admin/users"), false, None));
}

#[test]
fn login_steps() {
    let form = LoginForm { username: s("ali"), password: s("secret1"), csrf_token: s("t") };
    assert_eq!(form_error(login_begin(&session("x"), &form)), "Invalid CSRF token");
    let bad = LoginForm { password: s("123"), ..form };
    assert_eq!(form_error(login_begin(&session("t"), &bad)), "Invalid login data");
    let form = LoginForm { password: s("secret1"), ..bad };
    assert!(matches!(login_begin(&session("t"), &form), Step::Run(Op::FindUserByUsername { username }) if username == "ali"));
    assert!(matches!(admin_login_begin(&session("t"), &form), Step::Run(Op::FindAdminByUsername { username }) if username == "ali"));
    let hash = hash_password(&s("secret1")).ok().unwrap();
    let mut u = a_user(None, None);
    u.password_hash = hash.clone();
    assert!(matches!(login_after_lookup::<()>(Ok(Some(u)), &s("secret1")), Step::Run(Op::LogIn { id: 5, username }) if username == "ali"));
    let mut u = a_user(None, None);
    u.password_hash = hash.clone();
    assert_eq!(form_error(login_after_lookup::<()>(Ok(Some(u)), &s("wrong12"))), "Invalid username or password");
    assert_eq!(form_error(login_after_lookup::<()>(Ok(None), &s("secret1"))), "Invalid username or password");
    assert_eq!(form_error(login_after_lookup::<()>(Err(()), &s("secret1"))), "Database error. Please try again.");
    let admin = Admin { id: 1, username: s("root"), email: s("r@x.com"), password_hash: hash, created_at: None };
    assert!(matches!(admin_login_after_lookup::<()>(Ok(Some(admin)), &s("secret1")), Step::Run(Op::LogIn { id: 1, .. })));
    assert_eq!(form_error(admin_login_after_lookup::<()>(Ok(None), &s("secret1"))), "Invalid username or password");
    assert!(matches!(login_after_session::<(), ()>(Ok(())), Step::Run(Op::RenewSessionId)));
    assert_eq!(form_error(login_after_session::<(), ()>(Err(()))), "Session error. Please try again.");
    assert_eq!(redirect_of(login_done::<(), ()>(Ok(()))).0, "/user/dashboard");
    assert!(matches!(login_done::<(), ()>(Err(())), Outcome::FormError(m) if m == "Session error. Please try again."));
    assert_eq!(redirect_of(admin_login_done::<(), ()>(Ok(()))).0, "/admin/users");
    assert!(matches!(admin_login_done::<(), ()>(Err(())), Outcome::FormError(m) if m == "Session error. Please try again."));
    assert_eq!(login_rerender(s("e"), s("tok")).error.as_deref(), Some("e"));
    assert_eq!(admin_login_rerender(s("e"), s("tok")).csrf_token, "tok");
}

#[test]
fn register_steps() {
    let form = RegisterForm { username: s("bob"), email: s("bob@example.com"), password: s("secret1"), csrf_token: s("t") };
    assert_eq!(form_error(register_begin(&session("x"), &form)), "Invalid CSRF token");
    let bad = RegisterForm { email: s("bob"), ..form };
    assert_eq!(form_error(register_begin(&session("t"), &bad)), "Invalid registration data");
    let form = RegisterForm { email: s("bob@example.com"), ..bad };
    match register_begin(&session("t"), &form) {
        Step::Run(Op::CreateUser { username, address, country_id, state_id, .. }) => {
            assert_eq!((username.as_str(), address, country_id, state_id), ("bob", None, None, None))
        }
        other => panic!("{:?}", other),
    }
    assert!(matches!(register_after_create(&s("bob"), Ok(8)), Step::Run(Op::LogIn { id: 8, username }) if username == "bob"));
    assert_eq!(form_error(register_after_create(&s("bob"), Err(dup()))), "Username or email already exists");
    assert_eq!(form_error(register_after_create(&s("bob"), Err(other_err()))), "Registration failed. Please try again.");
    assert!(matches!(register_after_login::<(), ()>(Ok(())), Step::Run(Op::RenewSessionId)));
    assert_eq!(form_error(register_after_login::<(), ()>(Err(()))), "Registration successful but login failed. Please login manually.");
    assert_eq!(redirect_of(register_done::<(), ()>(Ok(()))), (s("/user/dashboard"), false, Some(s("Registration successful!"))));
    assert!(matches!(register_done::<(), ()>(Err(())), Outcome::FormError(m) if m == "Registration successful but session error. Please login manually."));
    assert_eq!(register_rerender(s("e"), s("tok")).error.as_deref(), Some("e"));
}

#[test]
fn password_change_steps() {
    let form = UpdatePasswordForm { current_password: s("secret1"), new_password: s("better1"), confirm_password: s("better1"), csrf_token: s("t") };
    assert_eq!(form_error(update_password_begin(5, &session("x"), &form)), "Invalid CSRF token");
    let bad = UpdatePasswordForm { new_password: s("abc"), ..form };
    assert_eq!(form_error(update_password_begin(5, &session("t"), &bad)), "Invalid password data");
    let mismatch = UpdatePasswordForm { new_password: s("better2"), ..bad };
    assert_eq!(form_error(update_password_begin(5, &session("t"), &mismatch)), "New password and confirmation do not match");
    let form = UpdatePasswordForm { new_password: s("better1"), ..mismatch };
    assert!(matches!(update_password_begin(5, &session("t"), &form), Step::Run(Op::FindUserById { id: 5 })));
    let mut u = a_user(None, None);
    u.password_hash = hash_password(&s("secret1")).ok().unwrap();
    match update_password_after_lookup::<()>(5, &form, Ok(Some(u))) {
        Step::Run(Op::UpdatePassword { user_id, new_password }) => assert_eq!((user_id, new_password.as_str()), (5, "better1")),
        other => panic!("{:?}", other),
    }
    let wrong = UpdatePasswordForm { current_password: s("secret2"), ..form };
    let mut u = a_user(None, None);
    u.password_hash = hash_password(&s("secret1")).ok().unwrap();
    assert_eq!(form_error(update_password_after_lookup::<()>(5, &wrong, Ok(Some(u)))), "Current password is incorrect");
    assert_eq!(form_error(update_password_after_lookup::<()>(5, &wrong, Ok(None))), "User not found");
    assert_eq!(form_error(update_password_after_lookup::<()>(5, &wrong, Err(()))), "Database error. Please try again.");
    assert!(matches!(update_password_done::<(), ()>(Ok(())), Outcome::FormSuccess(m) if m == "Password updated successfully"));
    assert!(matches!(update_password_done::<(), ()>(Err(())), Outcome::FormError(m) if m == "Failed to update password. Please try again."));
    let t = update_password_template(Some(Outcome::FormError(s("bad"))), s("ali"), s("tok"));
    assert_eq!((t.error.as_deref(), t.success), (Some("bad"), None));
}

#[test]
fn simple_pages() {
    let (t, remove) = index_page(Some(s("ali")), Ok(Some(s("Registration successful!"))));
    assert_eq!((t.title.as_str(), t.message.as_str(), t.flash_success.as_deref(), remove), ("Welcome", "Hello from Axum + Askama!", Some("Registration successful!"), true));
    let (t, remove) = index_page(None, Ok(None));
    assert_eq!((t.flash_success, remove), (None, false));
    let (_, remove) = index_page(None, Err(SessionError));
    assert!(!remove);
    let e = handle_404();
    assert_eq!((e.error_code, e.error_message.as_str()), (404, "Page not found"));
    assert!(matches!(login_page(true, s("tok")), Page::Redirect(to) if to == "/user/dashboard"));
    assert!(matches!(login_page(false, s("tok")), Page::Show(t) if t.csrf_token == "tok" && t.error.is_none()));
    assert!(matches!(register_page(true, s("tok")), Page::Redirect(to) if to == "/user/dashboard"));
    assert!(matches!(admin_login_page(true, s("tok")), Page::Redirect(to) if to == "/admin/users"));
    assert!(matches!(admin_login_page(false, s("tok")), Page::Show(_)));
    assert_eq!(logout_target(), "/login");
    assert_eq!(admin_logout_target(), "/admin/login");
    assert_eq!(admin_index_target(true), "/admin/users");
    assert_eq!(admin_index_target(false), "/admin/login");
    assert_eq!(user_dashboard(s("ali")).current_user.as_deref(), Some("ali"));
}

#[test]
fn pdf_export_requests() {
    let (c, d) = pdf_export_order(&PdfExportParams { search: None, order_column: None, order_direction: None });
    assert_eq!((c.as_str(), d.as_str()), ("id", "desc"));
    let (c, d) = pdf_export_order(&PdfExportParams { search: None, order_column: Some(s("email")), order_direction: Some(s("asc")) });
    assert_eq!((c.as_str(), d.as_str()), ("email", "asc"));
}

#[test]
fn flat_datatable_requests() {
    let p = DatatableParams { draw: 1, start: None, length: None, search_value: Some(s("")), order_column: Some(1), order_dir: Some(s("asc")) };
    let q = p.to_pagination();
    assert_eq!((q.offset, q.limit, q.search, q.order_column.as_str(), q.order_direction.as_str()), (0, 10, None, "username", "asc"));
    let p = DatatableParams { draw: 1, start: Some(5), length: Some(3), search_value: Some(s("x")), order_column: Some(7), order_dir: Some(s("ASC")) };
    let q = p.to_pagination();
    assert_eq!((q.offset, q.limit, q.search.as_deref(), q.order_column.as_str(), q.order_direction.as_str()), (5, 3, Some("x"), "id", "desc"));
    let r = flat_datatable_result::<User, (), ()>(2, Err(()), Ok(vec![]));
    assert_eq!((r.draw, r.records_total, r.records_filtered, r.data.len()), (2, 0, 0, 0));
    let r = flat_datatable_result::<i32, (), ()>(2, Ok(50), Ok(vec![1, 2, 3]));
    assert_eq!((r.records_total, r.records_filtered, r.data.len()), (50, 3, 3));
    let r = flat_datatable_result::<i32, (), ()>(2, Ok(50), Err(()));
    assert_eq!((r.records_total, r.records_filtered, r.data.len()), (50, 0, 0));
}
