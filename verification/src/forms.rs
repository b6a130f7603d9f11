use vstd::prelude::*;

verus! {

/// The text holds at least `n` characters (Unicode scalar values).
pub open spec fn has_min_chars(s: Seq<char>, n: int) -> bool {
    s.len() >= n
}

/// Whether the address validator of the `validator` crate accepts `s`.
pub uninterp spec fn email_accepted(s: Seq<char>) -> bool;

/// Calls `validator::ValidateEmail::validate_email` on a `String`.
/// Claimed: the answer is a function of the text alone (named
/// `email_accepted`), and text without an `@` is refused, as the
/// crate's source returns `false` before any other test.
#[verifier::external_body]
fn check_email(s: &String) -> (r: bool)
    ensures
        r == email_accepted(s@),
        !s@.contains('@') ==> !r,
{
    validator::ValidateEmail::validate_email(s)
}

/// Counts the characters of `s` and compares with `n`.
pub fn min_chars(s: &String, n: usize) -> (r: bool)
    ensures
        r == has_min_chars(s@, n as int),
        r == (s@.len() >= n),
{
    s.as_str().unicode_len() >= n
}

/// Whether `s` is an e-mail address the site accepts.
pub fn valid_email(s: &String) -> (r: bool)
    ensures
        r == email_accepted(s@),
        !s@.contains('@') ==> !r,
{
    check_email(s)
}

/// Form to create or rename a country.
#[derive(Debug)]
pub struct CountryForm {
    pub name: String,
    pub csrf_token: String,
}

/// Form to create or edit a state.
#[derive(Debug)]
pub struct StateForm {
    pub country_id: i32,
    pub name: String,
    pub csrf_token: String,
}

/// Administrator form to create a user.
#[derive(Debug)]
pub struct CreateUserForm {
    pub username: String,
    pub email: String,
    pub password: String,
    pub address: String,
    pub country_id: i32,
    pub state_id: i32,
    pub csrf_token: String,
}

/// Login form (users and administrators).
#[derive(Debug)]
pub struct LoginForm {
    pub username: String,
    pub password: String,
    pub csrf_token: String,
}

/// Self-registration form.
#[derive(Debug)]
pub struct RegisterForm {
    pub username: String,
    pub email: String,
    pub password: String,
    pub csrf_token: String,
}

/// A form that only carries the CSRF token (delete buttons).
#[derive(Debug)]
pub struct CsrfOnlyForm {
    pub csrf_token: String,
}

/// Administrator form to edit a user; an empty `new_password` keeps the password.
#[derive(Debug)]
pub struct UpdateUserForm {
    pub username: String,
    pub email: String,
    pub address: String,
    pub country_id: i32,
    pub state_id: i32,
    pub new_password: String,
    pub csrf_token: String,
}

/// Form to change one's own password.
#[derive(Debug)]
pub struct UpdatePasswordForm {
    pub current_password: String,
    pub new_password: String,
    pub confirm_password: String,
    pub csrf_token: String,
}

impl CountryForm {
    pub open spec fn valid(&self) -> bool {
        &&& has_min_chars(self.name@, 1)
        &&& has_min_chars(self.csrf_token@, 1)
    }

    /// Checks every field rule of the form.
    pub fn is_valid(&self) -> (r: bool)
        ensures
            r == self.valid(),
            r == (self.name@.len() >= 1 && self.csrf_token@.len() >= 1),
    {
        min_chars(&self.name, 1) && min_chars(&self.csrf_token, 1)
    }
}

impl StateForm {
    pub open spec fn valid(&self) -> bool {
        &&& self.country_id >= 1
        &&& has_min_chars(self.name@, 1)
        &&& has_min_chars(self.csrf_token@, 1)
    }

    /// Checks every field rule of the form.
    pub fn is_valid(&self) -> (r: bool)
        ensures
            r == self.valid(),
            r == (self.country_id >= 1 && self.name@.len() >= 1 && self.csrf_token@.len() >= 1),
    {
        self.country_id >= 1 && min_chars(&self.name, 1) && min_chars(&self.csrf_token, 1)
    }
}

impl CreateUserForm {
    pub open spec fn valid(&self) -> bool {
        &&& has_min_chars(self.username@, 1)
        &&& email_accepted(self.email@)
        &&& has_min_chars(self.password@, 6)
        &&& has_min_chars(self.address@, 1)
        &&& self.country_id >= 1
        &&& self.state_id >= 1
        &&& has_min_chars(self.csrf_token@, 1)
    }

    /// Checks every field rule of the form.
    pub fn is_valid(&self) -> (r: bool)
        ensures
            r == self.valid(),
            r == (self.username@.len() >= 1 && email_accepted(self.email@) && self.password@.len() >= 6 && self.address@.len() >= 1 && self.country_id >= 1 && self.state_id >= 1 && self.csrf_token@.len() >= 1),
    {
        min_chars(&self.username, 1) && valid_email(&self.email) && min_chars(&self.password, 6)
            && min_chars(&self.address, 1) && self.country_id >= 1 && self.state_id >= 1
            && min_chars(&self.csrf_token, 1)
    }
}

impl LoginForm {
    pub open spec fn valid(&self) -> bool {
        &&& has_min_chars(self.username@, 1)
        &&& has_min_chars(self.password@, 6)
        &&& has_min_chars(self.csrf_token@, 1)
    }

    /// Checks every field rule of the form.
    pub fn is_valid(&self) -> (r: bool)
        ensures
            r == self.valid(),
            r == (self.username@.len() >= 1 && self.password@.len() >= 6 && self.csrf_token@.len() >= 1),
    {
        min_chars(&self.username, 1) && min_chars(&self.password, 6) && min_chars(
            &self.csrf_token,
            1,
        )
    }
}

impl RegisterForm {
    pub open spec fn valid(&self) -> bool {
        &&& has_min_chars(self.username@, 1)
        &&& email_accepted(self.email@)
        &&& has_min_chars(self.password@, 6)
        &&& has_min_chars(self.csrf_token@, 1)
    }

    /// Checks every field rule of the form.
    pub fn is_valid(&self) -> (r: bool)
        ensures
            r == self.valid(),
            r == (self.username@.len() >= 1 && email_accepted(self.email@) && self.password@.len() >= 6 && self.csrf_token@.len() >= 1),
    {
        min_chars(&self.username, 1) && valid_email(&self.email) && min_chars(&self.password, 6)
            && min_chars(&self.csrf_token, 1)
    }
}

impl CsrfOnlyForm {
    pub open spec fn valid(&self) -> bool {
        has_min_chars(self.csrf_token@, 1)
    }

    /// Checks every field rule of the form.
    pub fn is_valid(&self) -> (r: bool)
        ensures
            r == self.valid(),
            r == (self.csrf_token@.len() >= 1),
    {
        min_chars(&self.csrf_token, 1)
    }
}

impl UpdateUserForm {
    pub open spec fn valid(&self) -> bool {
        &&& has_min_chars(self.username@, 1)
        &&& email_accepted(self.email@)
        &&& has_min_chars(self.address@, 1)
        &&& self.country_id >= 1
        &&& self.state_id >= 1
        &&& has_min_chars(self.csrf_token@, 1)
    }

    /// Checks every field rule of the form (the new password has none).
    pub fn is_valid(&self) -> (r: bool)
        ensures
            r == self.valid(),
            r == (self.username@.len() >= 1 && email_accepted(self.email@) && self.address@.len() >= 1 && self.country_id >= 1 && self.state_id >= 1 && self.csrf_token@.len() >= 1),
    {
        min_chars(&self.username, 1) && valid_email(&self.email) && min_chars(&self.address, 1)
            && self.country_id >= 1 && self.state_id >= 1 && min_chars(&self.csrf_token, 1)
    }
}

impl UpdatePasswordForm {
    pub open spec fn valid(&self) -> bool {
        &&& has_min_chars(self.current_password@, 6)
        &&& has_min_chars(self.new_password@, 6)
        &&& has_min_chars(self.confirm_password@, 6)
        &&& has_min_chars(self.csrf_token@, 1)
    }

    /// Checks every field rule of the form.
    pub fn is_valid(&self) -> (r: bool)
        ensures
            r == self.valid(),
            r == (self.current_password@.len() >= 6 && self.new_password@.len() >= 6 && self.confirm_password@.len() >= 6 && self.csrf_token@.len() >= 1),
    {
        min_chars(&self.current_password, 6) && min_chars(&self.new_password, 6) && min_chars(
            &self.confirm_password,
            6,
        ) && min_chars(&self.csrf_token, 1)
    }
}

/// The field rules of every form, as minimum lengths (in characters) and
/// least ids: a form is valid exactly when each of its fields meets them.
pub proof fn lemma_form_rules(
    country: CountryForm,
    state: StateForm,
    create: CreateUserForm,
    login: LoginForm,
    register: RegisterForm,
    csrf_only: CsrfOnlyForm,
    update: UpdateUserForm,
    password: UpdatePasswordForm,
)
    ensures
        country.valid() <==> country.name@.len() >= 1 && country.csrf_token@.len() >= 1,
        state.valid() <==> state.country_id >= 1 && state.name@.len() >= 1 && state.csrf_token@.len() >= 1,
        create.valid() <==> create.username@.len() >= 1 && email_accepted(create.email@) && create.password@.len() >= 6
            && create.address@.len() >= 1 && create.country_id >= 1 && create.state_id >= 1 && create.csrf_token@.len() >= 1,
        login.valid() <==> login.username@.len() >= 1 && login.password@.len() >= 6 && login.csrf_token@.len() >= 1,
        register.valid() <==> register.username@.len() >= 1 && email_accepted(register.email@) && register.password@.len() >= 6
            && register.csrf_token@.len() >= 1,
        csrf_only.valid() <==> csrf_only.csrf_token@.len() >= 1,
        update.valid() <==> update.username@.len() >= 1 && email_accepted(update.email@) && update.address@.len() >= 1
            && update.country_id >= 1 && update.state_id >= 1 && update.csrf_token@.len() >= 1,
        password.valid() <==> password.current_password@.len() >= 6 && password.new_password@.len() >= 6
            && password.confirm_password@.len() >= 6 && password.csrf_token@.len() >= 1,
{
}

} // verus!
