use vstd::prelude::*;

use crate::text::{append_decimal_i64, decimal};

verus! {

/// The URL prefix the site is mounted under, set once at start-up.
#[derive(Debug)]
pub struct BasePath {
    value: Option<String>,
}

impl BasePath {
    /// The prefix, once set.
    pub closed spec fn prefix(&self) -> Option<Seq<char>> {
        match self.value {
            Some(s) => Some(s@),
            None => None,
        }
    }

    /// The text put in front of every internal path: the prefix, or nothing before `init`.
    pub open spec fn prefix_text(&self) -> Seq<char> {
        match self.prefix() {
            Some(p) => p,
            None => Seq::empty(),
        }
    }

    /// No prefix set yet.
    pub fn new() -> (b: BasePath)
        ensures
            b.prefix() is None,
    {
        BasePath { value: None }
    }

}

/// The prefix after setting `base_path`: the first value set is kept.
pub open spec fn init_spec(prefix: Option<Seq<char>>, base_path: Seq<char>) -> Option<Seq<char>> {
    match prefix {
        Some(p) => Some(p),
        None => Some(base_path),
    }
}

/// Sets the site's URL prefix; only the first call has an effect, later ones are ignored.
pub fn init(base: &mut BasePath, base_path: String)
    ensures
        final(base).prefix() == init_spec(old(base).prefix(), base_path@),
{
    if base.value.is_none() {
        base.value = Some(base_path);
    }
}

/// Puts the site's URL prefix in front of an internal path.
pub fn path(base: &BasePath, p: &str) -> (r: String)
    ensures
        r@ == base.prefix_text() + p@,
{
    match &base.value {
        Some(b) => {
            let mut r = b.clone();
            r.append(p);
            r
        },
        None => String::from_str(p),
    }
}

/// `askama`'s error type, carried opaquely.
#[verifier::external_type_specification]
#[verifier::external_body]
pub struct ExAskamaError(askama::Error);

/// Template filter form of `path`: the site's URL prefix in front of an
/// internal path; it never fails.
pub fn url(base: &BasePath, p: &str) -> (r: askama::Result<String>)
    ensures
        r matches Ok(s) && s@ == base.prefix_text() + p@,
{
    Ok(path(base, p))
}

/// Once set, the prefix is never replaced: a second `init` changes nothing,
/// so every path carries the first value.
pub proof fn lemma_first_init_wins(prefix: Option<Seq<char>>, first: Seq<char>, second: Seq<char>)
    ensures
        init_spec(init_spec(prefix, first), second) == init_spec(prefix, first),
        prefix is None ==> init_spec(init_spec(prefix, first), second) == Some(first),
{
}

/// The home route under a mount point: `/` alone, else the mount point and `/`.
pub fn home_route(base_path: &String) -> (r: String)
    ensures
        r@ == base_path@ + "/"@,
{
    let mut r = base_path.clone();
    r.append("/");
    r
}

/// `s` without its trailing slashes.
pub open spec fn trim_trailing_slashes(s: Seq<char>) -> Seq<char>
    decreases s.len(),
{
    if s.len() > 0 && s.last() == '/' {
        trim_trailing_slashes(s.drop_last())
    } else {
        s
    }
}

proof fn lemma_trim_prefix(s: Seq<char>, k: int)
    requires
        0 <= k <= s.len(),
        forall|j: int| k <= j < s.len() ==> s[j] == '/',
    ensures
        trim_trailing_slashes(s) == trim_trailing_slashes(s.subrange(0, k)),
    decreases s.len() - k,
{
    if k < s.len() {
        assert(s.drop_last() =~= s.subrange(0, s.len() - 1));
        lemma_trim_prefix(s.drop_last(), k);
        assert(s.drop_last().subrange(0, k) =~= s.subrange(0, k));
    } else {
        assert(s.subrange(0, k) =~= s);
    }
}

/// The configured mount point with its trailing slashes removed
/// (`"/boilerplate/"` becomes `"/boilerplate"`, `"/"` becomes `""`).
pub fn normalize_base_path(raw: &str) -> (r: String)
    ensures
        r@ == trim_trailing_slashes(raw@),
{
    let mut k = raw.unicode_len();
    while k > 0 && raw.get_char(k - 1) == '/'
        invariant
            k <= raw@.len(),
            forall|j: int| k <= j < raw@.len() ==> raw@[j] == '/',
        decreases k,
    {
        k = k - 1;
    }
    proof {
        lemma_trim_prefix(raw@, k as int);
        let t = raw@.subrange(0, k as int);
        assert(!(t.len() > 0 && t.last() == '/'));
    }
    String::from_str(raw.substring_char(0, k))
}

/// A path followed by a decimal id.
pub open spec fn path_with_id(prefix: Seq<char>, id: int) -> Seq<char> {
    prefix + decimal(id)
}

/// Page of one user in the admin area.
pub fn admin_user_path(id: i32) -> (r: String)
    ensures
        r@ == path_with_id("/admin/users/"@, id as int),
{
    let mut r = String::from_str("/admin/users/");
    append_decimal_i64(&mut r, id as i64);
    r
}

/// Form target of the country `id`.
pub fn country_form_action(id: i32) -> (r: String)
    ensures
        r@ == path_with_id("/admin/countries/"@, id as int),
{
    let mut r = String::from_str("/admin/countries/");
    append_decimal_i64(&mut r, id as i64);
    r
}

/// Form target of the state `id`.
pub fn state_form_action(id: i32) -> (r: String)
    ensures
        r@ == path_with_id("/admin/states/"@, id as int),
{
    let mut r = String::from_str("/admin/states/");
    append_decimal_i64(&mut r, id as i64);
    r
}

} // verus!
