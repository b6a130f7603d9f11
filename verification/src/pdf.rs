use vstd::prelude::*;

use crate::entities::User;
use crate::datetime::{rfc3339_or_empty, rfc3339_or_empty_spec};
use crate::text::{append_decimal_i64, decimal};

verus! {

/// Page width and height of the export, in millimetres (A4).
pub const PAGE_WIDTH_MM: i32 = 210;
pub const PAGE_HEIGHT_MM: i32 = 297;
/// Left margin of every text line.
pub const LEFT_MARGIN_MM: i32 = 10;
/// Where the header row stands, and its font size.
pub const HEADER_Y_MM: i32 = 280;
pub const HEADER_SIZE_PT: i32 = 12;
/// Font size of a user line.
pub const LINE_SIZE_PT: i32 = 10;
/// Where a new page's first line stands.
pub const TOP_Y_MM: i32 = 280;
/// Below this height a line goes to a new page.
pub const BOTTOM_Y_MM: i32 = 20;
/// Distance between lines.
pub const LINE_HEIGHT_MM: i32 = 8;

/// The header row above the user lines, in the lines' column widths.
pub open spec fn header_text() -> Seq<char> {
    "ID    Username                Email                           Created At"@
}

/// The header row.
pub fn header() -> (r: String)
    ensures
        r@ == header_text(),
{
    String::from_str("ID    Username                Email                           Created At")
}

/// Where a user line is written: page index (0 is the first page) and height.
#[derive(Debug)]
pub struct Placement {
    pub page: usize,
    pub y_mm: i32,
}

/// Page and height before line `i` is placed: below the header on the first
/// page, then one line lower after each line.
pub open spec fn cursor_before(i: nat) -> (int, int)
    decreases i, 0nat,
{
    if i == 0 {
        (0, HEADER_Y_MM - 10)
    } else {
        let p = placement_of((i - 1) as nat);
        (p.0, p.1 - LINE_HEIGHT_MM)
    }
}

/// Where line `i` goes: at the cursor, or at the top of a new page when the
/// cursor is below the bottom margin.
pub open spec fn placement_of(i: nat) -> (int, int)
    decreases i, 1nat,
{
    let c = cursor_before(i);
    if c.1 < BOTTOM_Y_MM {
        (c.0 + 1, TOP_Y_MM as int)
    } else {
        c
    }
}

/// Lays out `count` user lines below the header row.
pub fn layout_lines(count: usize) -> (r: Vec<Placement>)
    ensures
        r@.len() == count,
        forall|i: int| 0 <= i < count ==> (#[trigger] r@[i]).page == placement_of(i as nat).0 && r@[i].y_mm == placement_of(i as nat).1,
        forall|i: int, j: int| 0 <= i < j < count ==> (#[trigger] r@[i]).page < (#[trigger] r@[j]).page
            || (r@[i].page == r@[j].page && r@[j].y_mm < r@[i].y_mm),
{
    let mut r: Vec<Placement> = Vec::new();
    let mut page: usize = 0;
    let mut y: i32 = HEADER_Y_MM - 10;
    let mut i: usize = 0;
    while i < count
        invariant
            i <= count,
            r@.len() == i,
            page <= i,
            page == cursor_before(i as nat).0,
            y == cursor_before(i as nat).1,
            BOTTOM_Y_MM - LINE_HEIGHT_MM <= y <= TOP_Y_MM,
            forall|k: int| 0 <= k < i ==> (#[trigger] r@[k]).page == placement_of(k as nat).0 && r@[k].y_mm == placement_of(k as nat).1,
        decreases count - i,
    {
        if y < BOTTOM_Y_MM {
            page = page + 1;
            y = TOP_Y_MM;
        }
        r.push(Placement { page, y_mm: y });
        proof {
            assert(placement_of(i as nat) == (page as int, y as int));
            assert(cursor_before((i + 1) as nat) == (page as int, y - LINE_HEIGHT_MM));
        }
        y = y - LINE_HEIGHT_MM;
        i = i + 1;
    }
    proof {
        assert forall|a: int, b: int| 0 <= a < b < count implies (#[trigger] r@[a]).page < (#[trigger] r@[b]).page
            || (r@[a].page == r@[b].page && r@[b].y_mm < r@[a].y_mm) by {
            lemma_places_distinct(a as nat, b as nat);
        }
    }
    r
}

/// Every line stands between the bottom margin and the top line.
pub proof fn lemma_lines_inside_page(i: nat)
    ensures
        BOTTOM_Y_MM <= placement_of(i).1 <= TOP_Y_MM,
        cursor_before(i).1 <= TOP_Y_MM,
        placement_of(i).0 >= cursor_before(i).0,
    decreases i,
{
    if i > 0 {
        lemma_lines_inside_page((i - 1) as nat);
    }
}

/// Lines never go back to an earlier page, and a new page starts only when
/// the previous line left no room.
pub proof fn lemma_pages_in_order(i: nat)
    ensures
        placement_of(i + 1).0 == placement_of(i).0 || (placement_of(i + 1).0 == placement_of(i).0 + 1 && placement_of(i).1 - LINE_HEIGHT_MM < BOTTOM_Y_MM),
{
    assert(cursor_before(i + 1) == (placement_of(i).0, placement_of(i).1 - LINE_HEIGHT_MM));
}

/// Each line stands 8 mm below the previous one on the same page, unless
/// that would fall below 20 mm: then it opens a new page (the next page
/// number) at 280 mm. The first line stands at 270 mm on page 0.
pub proof fn lemma_next_placement(i: nat)
    ensures
        placement_of(0) == (0int, 270int),
        placement_of(i).1 - 8 >= 20 ==> placement_of(i + 1) == (placement_of(i).0, placement_of(i).1 - 8),
        placement_of(i).1 - 8 < 20 ==> placement_of(i + 1) == (placement_of(i).0 + 1, 280int),
        placement_of(i + 1).1 > placement_of(i).1 ==> placement_of(i + 1).0 == placement_of(i).0 + 1,
{
    assert(cursor_before(i + 1) == (placement_of(i).0, placement_of(i).1 - LINE_HEIGHT_MM));
    lemma_lines_inside_page(i);
}

/// Later lines come on a later page, or lower on the same page: no two
/// lines ever share a place.
pub proof fn lemma_places_distinct(i: nat, j: nat)
    requires
        i < j,
    ensures
        placement_of(i).0 < placement_of(j).0 || (placement_of(i).0 == placement_of(j).0 && placement_of(j).1 < placement_of(i).1),
        placement_of(i) != placement_of(j),
    decreases j - i,
{
    let k = (j - 1) as nat;
    lemma_next_placement(k);
    lemma_lines_inside_page(k);
    if i < k {
        lemma_places_distinct(i, k);
    }
}

/// The text padded with spaces on the right to at least `width` characters.
pub open spec fn pad_right(s: Seq<char>, width: nat) -> Seq<char> {
    if s.len() >= width {
        s
    } else {
        s + Seq::new((width - s.len()) as nat, |_i: int| ' ')
    }
}

/// Appends `t` padded with spaces on the right to `width` characters.
fn append_padded_right(r: &mut String, t: &str, width: usize)
    ensures
        final(r)@ == old(r)@ + pad_right(t@, width as nat),
{
    let ghost start = old(r)@;
    r.append(t);
    let n = t.unicode_len();
    if n < width {
        let mut k: usize = n;
        while k < width
            invariant
                n <= k <= width,
                n == t@.len(),
                r@ == start + t@ + Seq::new((k - n) as nat, |_i: int| ' '),
            decreases width - k,
        {
            r.append(" ");
            proof {
                reveal_strlit(" ");
                assert(r@ =~= start + t@ + Seq::new((k + 1 - n) as nat, |_i: int| ' '));
            }
            k = k + 1;
        }
        proof {
            assert(r@ =~= start + pad_right(t@, width as nat));
        }
    } else {
        proof {
            assert(r@ =~= start + pad_right(t@, width as nat));
        }
    }
}

/// The text of a user line: id, name and e-mail in columns of 5, 22 and 30
/// characters, then the creation time, separated by single spaces.
pub open spec fn user_line_text(id: int, username: Seq<char>, email: Seq<char>, created_at: Seq<char>) -> Seq<char> {
    pad_right(decimal(id), 5) + " "@ + pad_right(username, 22) + " "@ + pad_right(email, 30) + " "@ + created_at
}

/// The text of a user line.
pub fn user_line(user: &User, created_at: &String) -> (r: String)
    ensures
        r@ == user_line_text(user.id as int, user.username@, user.email@, created_at@),
{
    let mut id = String::new();
    append_decimal_i64(&mut id, user.id as i64);
    let mut r = String::new();
    append_padded_right(&mut r, id.as_str(), 5);
    r.append(" ");
    append_padded_right(&mut r, user.username.as_str(), 22);
    r.append(" ");
    append_padded_right(&mut r, user.email.as_str(), 30);
    r.append(" ");
    r.append(created_at.as_str());
    proof {
        reveal_strlit(" ");
        assert(r@ =~= user_line_text(user.id as int, user.username@, user.email@, created_at@));
    }
    r
}

/// The line of each exported user, in the order given, with the creation
/// time in RFC 3339 (empty when it has none).
pub fn export_lines(users: &Vec<User>) -> (lines: Vec<String>)
    ensures
        lines@.len() == users@.len(),
        forall|i: int| 0 <= i < users@.len() ==> (#[trigger] lines@[i])@ == user_line_text(
            users@[i].id as int,
            users@[i].username@,
            users@[i].email@,
            rfc3339_or_empty_spec(users@[i].created_at),
        ),
{
    let mut lines: Vec<String> = Vec::new();
    let mut i: usize = 0;
    while i < users.len()
        invariant
            i <= users@.len(),
            lines@.len() == i,
            forall|k: int| 0 <= k < i ==> (#[trigger] lines@[k])@ == user_line_text(
                users@[k].id as int,
                users@[k].username@,
                users@[k].email@,
                rfc3339_or_empty_spec(users@[k].created_at),
            ),
        decreases users@.len() - i,
    {
        let created_at = rfc3339_or_empty(&users[i].created_at);
        lines.push(user_line(&users[i], &created_at));
        i = i + 1;
    }
    lines
}

} // verus!
