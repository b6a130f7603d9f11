use vstd::prelude::*;

use crate::entities::PaginationParams;

verus! {

/// A failed database call, with the driver's message.
#[derive(Debug)]
pub struct DbError {
    pub message: String,
}

/// `needle` occurs in `hay` as a contiguous piece.
pub open spec fn contains_text(hay: Seq<char>, needle: Seq<char>) -> bool {
    exists|i: int| 0 <= i <= hay.len() - needle.len() && #[trigger] hay.subrange(i, i + needle.len()) == needle
}

/// Whether `needle` occurs in `hay`.
pub fn text_contains(hay: &str, needle: &str) -> (r: bool)
    ensures
        r == contains_text(hay@, needle@),
{
    let h = hay.unicode_len();
    let n = needle.unicode_len();
    if n > h {
        proof {
            assert forall|i: int| 0 <= i <= hay@.len() - needle@.len() implies #[trigger] hay@.subrange(i, i + needle@.len()) != needle@ by {}
        }
        return false;
    }
    let mut i: usize = 0;
    while i <= h - n
        invariant
            h == hay@.len(),
            n == needle@.len(),
            n <= h,
            i <= h - n + 1,
            forall|k: int| 0 <= k < i ==> #[trigger] hay@.subrange(k, k + n) != needle@,
        decreases h - n + 1 - i,
    {
        let mut j: usize = 0;
        let mut same = true;
        while j < n
            invariant
                h == hay@.len(),
                n == needle@.len(),
                i + n <= h,
                j <= n,
                same <==> (forall|m: int| 0 <= m < j ==> hay@[i + m] == needle@[m]),
            decreases n - j,
        {
            if hay.get_char(i + j) != needle.get_char(j) {
                same = false;
            }
            j = j + 1;
        }
        if same {
            proof {
                assert(hay@.subrange(i as int, i + n) =~= needle@);
            }
            return true;
        }
        proof {
            let m = choose|m: int| 0 <= m < n && hay@[i + m] != needle@[m];
            assert(hay@.subrange(i as int, i + n)[m] != needle@[m]);
        }
        i = i + 1;
    }
    false
}

/// The database refused a row because a unique column already holds the value.
pub open spec fn is_duplicate_spec(message: Seq<char>) -> bool {
    contains_text(message, "Duplicate entry"@)
}

/// Whether a database error reports a unique-key clash (duplicate username or e-mail).
pub fn is_duplicate_entry(err: &DbError) -> (r: bool)
    ensures
        r == is_duplicate_spec(err.message@),
{
    text_contains(err.message.as_str(), "Duplicate entry")
}

fn eq_text(s: &String, lit: &str) -> (r: bool)
    ensures
        r == (s@ == lit@),
{
    *s == String::from_str(lit)
}

/// The column the users table is ordered by: one of the known columns, `id` otherwise.
pub open spec fn order_column_spec(c: Seq<char>) -> Seq<char> {
    if c == "id"@ || c == "username"@ || c == "email"@ || c == "created_at"@ {
        c
    } else {
        "id"@
    }
}

/// The sort direction: `ASC` for `asc`/`ASC`, `DESC` otherwise.
pub open spec fn order_direction_spec(d: Seq<char>) -> Seq<char> {
    if d == "asc"@ || d == "ASC"@ {
        "ASC"@
    } else {
        "DESC"@
    }
}

/// Only a known column name can reach the query text.
pub fn sanitize_order_column(c: &String) -> (r: String)
    ensures
        r@ == order_column_spec(c@),
        (c@ == "id"@ || c@ == "username"@ || c@ == "email"@ || c@ == "created_at"@) ==> r@ == c@,
        !(c@ == "id"@ || c@ == "username"@ || c@ == "email"@ || c@ == "created_at"@) ==> r@ == "id"@,
{
    if eq_text(c, "id") || eq_text(c, "username") || eq_text(c, "email") || eq_text(c, "created_at") {
        c.clone()
    } else {
        String::from_str("id")
    }
}

/// Only `ASC` or `DESC` can reach the query text.
pub fn sanitize_order_direction(d: &String) -> (r: String)
    ensures
        r@ == order_direction_spec(d@),
        (d@ == "asc"@ || d@ == "ASC"@) ==> r@ == "ASC"@,
        !(d@ == "asc"@ || d@ == "ASC"@) ==> r@ == "DESC"@,
{
    if eq_text(d, "asc") || eq_text(d, "ASC") {
        String::from_str("ASC")
    } else {
        String::from_str("DESC")
    }
}

/// A search filters the users only when it is present and not empty.
pub open spec fn search_active(search: Option<String>) -> bool {
    search matches Some(s) && s@.len() > 0
}

/// The `LIKE` pattern of a search text: the text anywhere in the column.
pub open spec fn search_pattern_spec(s: Seq<char>) -> Seq<char> {
    "%"@ + s + "%"@
}

/// The `LIKE` pattern of a search text.
pub fn search_pattern(s: &String) -> (r: String)
    ensures
        r@ == search_pattern_spec(s@),
        r@ == "%"@ + s@ + "%"@,
{
    let mut r = String::from_str("%");
    r.append(s.as_str());
    r.append("%");
    r
}

/// Text of the users query.
pub open spec fn users_sql(filtered: bool, column: Seq<char>, direction: Seq<char>, paged: bool) -> Seq<char> {
    "SELECT id, username, email, password_hash, created_at, address, country_id, state_id FROM users"@
        + (if filtered { " WHERE username LIKE ? OR email LIKE ?"@ } else { Seq::empty() })
        + " ORDER BY "@ + column + " "@ + direction
        + (if paged { " LIMIT ? OFFSET ?"@ } else { Seq::empty() })
}

/// A users query: its text and the values bound to its placeholders, in order
/// (the pattern twice when present, then limit and offset when present).
#[derive(Debug)]
pub struct UserQuery {
    pub sql: String,
    pub pattern: Option<String>,
    pub limit: Option<i64>,
    pub offset: Option<i64>,
}

fn build_users_query(search: &Option<String>, column: &String, direction: &String, page: Option<(i64, i64)>) -> (q: UserQuery)
    ensures
        q.sql@ == users_sql(search_active(*search), order_column_spec(column@), order_direction_spec(direction@), page is Some),
        match *search {
            Some(s) if s@.len() > 0 => q.pattern matches Some(p) && p@ == search_pattern_spec(s@),
            _ => q.pattern is None,
        },
        match page {
            Some((limit, offset)) => q.limit == Some(limit) && q.offset == Some(offset),
            None => q.limit is None && q.offset is None,
        },
{
    let col = sanitize_order_column(column);
    let dir = sanitize_order_direction(direction);
    let mut sql = String::from_str("SELECT id, username, email, password_hash, created_at, address, country_id, state_id FROM users");
    let ghost base = sql@;
    let mut pattern: Option<String> = None;
    match search {
        Some(s) => {
            if s.as_str().unicode_len() > 0 {
                sql.append(" WHERE username LIKE ? OR email LIKE ?");
                pattern = Some(search_pattern(s));
            }
        },
        None => {},
    }
    let ghost filtered = sql@;
    sql.append(" ORDER BY ");
    sql.append(col.as_str());
    sql.append(" ");
    sql.append(dir.as_str());
    let (limit, offset) = match page {
        Some((l, o)) => {
            sql.append(" LIMIT ? OFFSET ?");
            (Some(l), Some(o))
        },
        None => (None, None),
    };
    proof {
        assert(sql@ =~= users_sql(search_active(*search), order_column_spec(column@), order_direction_spec(direction@), page is Some));
    }
    UserQuery { sql, pattern, limit, offset }
}

/// The query of one page of the users table (search, order, limit, offset).
pub fn users_page_query(params: &PaginationParams) -> (q: UserQuery)
    ensures
        q.sql@ == users_sql(search_active(params.search), order_column_spec(params.order_column@), order_direction_spec(params.order_direction@), true),
        match params.search {
            Some(s) if s@.len() > 0 => q.pattern matches Some(p) && p@ == search_pattern_spec(s@),
            _ => q.pattern is None,
        },
        q.limit == Some(params.limit),
        q.offset == Some(params.offset),
{
    build_users_query(&params.search, &params.order_column, &params.order_direction, Some((params.limit, params.offset)))
}

/// The query of all users for the export (search and order, no paging).
pub fn users_export_query(search: &Option<String>, order_column: &String, order_direction: &String) -> (q: UserQuery)
    ensures
        q.sql@ == users_sql(search_active(*search), order_column_spec(order_column@), order_direction_spec(order_direction@), false),
        match *search {
            Some(s) if s@.len() > 0 => q.pattern matches Some(p) && p@ == search_pattern_spec(s@),
            _ => q.pattern is None,
        },
        q.limit is None,
        q.offset is None,
{
    build_users_query(search, order_column, order_direction, None)
}

/// How the number of matching users is counted.
#[derive(Debug)]
pub enum UserCount {
    /// Count every user.
    All,
    /// Count the users whose name or e-mail matches the pattern.
    Matching(String),
}

/// Text of the count of all users.
pub open spec fn count_all_sql() -> Seq<char> {
    "SELECT COUNT(*) as count FROM users"@
}

/// Text of the count of matching users (the pattern is bound twice).
pub open spec fn count_matching_sql() -> Seq<char> {
    "SELECT COUNT(*) as count FROM users WHERE username LIKE ? OR email LIKE ?"@
}

/// With an active search only matching users count; otherwise all of them.
pub fn filtered_count_plan(search: &Option<String>) -> (r: UserCount)
    ensures
        match *search {
            Some(s) if s@.len() > 0 => r matches UserCount::Matching(p) && p@ == search_pattern_spec(s@),
            _ => r is All,
        },
{
    match search {
        Some(s) => {
            if s.as_str().unicode_len() > 0 {
                UserCount::Matching(search_pattern(s))
            } else {
                UserCount::All
            }
        },
        None => UserCount::All,
    }
}

/// The query text of a count plan.
pub fn count_sql(plan: &UserCount) -> (sql: String)
    ensures
        sql@ == match *plan {
            UserCount::All => count_all_sql(),
            UserCount::Matching(_) => count_matching_sql(),
        },
{
    match plan {
        UserCount::All => String::from_str("SELECT COUNT(*) as count FROM users"),
        UserCount::Matching(_) => String::from_str("SELECT COUNT(*) as count FROM users WHERE username LIKE ? OR email LIKE ?"),
    }
}

/// No text from a request ever reaches the users query text: the column and
/// direction are always from the fixed lists, and the search text only
/// decides whether the `WHERE` clause is there (its text is bound, not spliced).
pub proof fn lemma_users_sql_uses_fixed_words(column: Seq<char>, direction: Seq<char>, s1: Option<String>, s2: Option<String>, paged: bool)
    ensures
        order_column_spec(column) == "id"@ || order_column_spec(column) == "username"@
            || order_column_spec(column) == "email"@ || order_column_spec(column) == "created_at"@,
        order_direction_spec(direction) == "ASC"@ || order_direction_spec(direction) == "DESC"@,
        search_active(s1) == search_active(s2) ==>
            users_sql(search_active(s1), order_column_spec(column), order_direction_spec(direction), paged)
                == users_sql(search_active(s2), order_column_spec(column), order_direction_spec(direction), paged),
{
}

/// The export and the table page read the same users in the same order: the
/// page query is the export query with paging added, and the filtered count
/// counts under the very filter those queries use.
pub proof fn lemma_export_page_and_count_agree(filtered: bool, column: Seq<char>, direction: Seq<char>)
    ensures
        users_sql(filtered, column, direction, true) == users_sql(filtered, column, direction, false) + " LIMIT ? OFFSET ?"@,
        count_matching_sql() == count_all_sql() + " WHERE username LIKE ? OR email LIKE ?"@,
{
    assert(users_sql(filtered, column, direction, true) =~= users_sql(filtered, column, direction, false) + " LIMIT ? OFFSET ?"@);
    reveal_strlit("SELECT COUNT(*) as count FROM users WHERE username LIKE ? OR email LIKE ?");
    reveal_strlit("SELECT COUNT(*) as count FROM users");
    reveal_strlit(" WHERE username LIKE ? OR email LIKE ?");
    assert(count_matching_sql() =~= count_all_sql() + " WHERE username LIKE ? OR email LIKE ?"@);
}

/// The users table orders by a known column as asked (`id`, `username`,
/// `email`, `created_at`) and by `id` for anything else; it sorts ascending
/// for `asc` or `ASC` and descending for anything else.
pub proof fn lemma_order_whitelist(c: Seq<char>, d: Seq<char>)
    ensures
        order_column_spec("id"@) == "id"@,
        order_column_spec("username"@) == "username"@,
        order_column_spec("email"@) == "email"@,
        order_column_spec("created_at"@) == "created_at"@,
        !(c == "id"@ || c == "username"@ || c == "email"@ || c == "created_at"@) ==> order_column_spec(c) == "id"@,
        order_direction_spec("asc"@) == "ASC"@,
        order_direction_spec("ASC"@) == "ASC"@,
        order_direction_spec("desc"@) == "DESC"@,
        !(d == "asc"@ || d == "ASC"@) ==> order_direction_spec(d) == "DESC"@,
{
    reveal_strlit("desc");
    reveal_strlit("asc");
    reveal_strlit("ASC");
    assert("desc"@.len() == 4 && "asc"@.len() == 3 && "ASC"@.len() == 3);
}

} // verus!
