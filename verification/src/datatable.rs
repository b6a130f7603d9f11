use vstd::prelude::*;

use crate::entities::PaginationParams;
use crate::text::opt_view;

verus! {

/// Search box of a DataTables request.
#[derive(Debug)]
pub struct DataTablesSearch {
    pub value: String,
}

/// One ordering instruction of a DataTables request.
#[derive(Debug)]
pub struct DataTablesOrder {
    pub column: usize,
    pub dir: String,
}

/// The query a DataTables table sends for one page.
#[derive(Debug)]
pub struct DataTablesRequest {
    pub draw: i32,
    pub start: i64,
    pub length: i64,
    pub search: DataTablesSearch,
    pub order: Vec<DataTablesOrder>,
}

/// A row of the users table.
#[derive(Debug)]
pub struct UserRow {
    pub id: i32,
    pub username: String,
    pub email: String,
    pub created_at: String,
}

/// The answer to a DataTables request.
#[derive(Debug)]
pub struct DataTablesResponse {
    pub draw: i32,
    pub records_total: i64,
    pub records_filtered: i64,
    pub data: Vec<UserRow>,
}

/// The country whose states are asked for.
#[derive(Debug)]
pub struct StatesQuery {
    pub country_id: i32,
}

/// Search and order of the PDF export.
#[derive(Debug)]
pub struct PdfExportParams {
    pub search: Option<String>,
    pub order_column: Option<String>,
    pub order_direction: Option<String>,
}

/// DataTables parameters in their flat query-string form.
#[derive(Debug)]
pub struct DatatableParams {
    pub draw: u32,
    pub start: Option<i64>,
    pub length: Option<i64>,
    pub search_value: Option<String>,
    pub order_column: Option<i32>,
    pub order_dir: Option<String>,
}

/// The answer to a flat-form DataTables request.
#[derive(Debug)]
pub struct DatatableResponse<T> {
    pub draw: u32,
    pub records_total: i64,
    pub records_filtered: i64,
    pub data: Vec<T>,
}

/// Table columns in display order.
pub open spec fn column_name(i: int) -> Seq<char> {
    if i == 0 {
        "id"@
    } else if i == 1 {
        "username"@
    } else if i == 2 {
        "email"@
    } else if i == 3 {
        "created_at"@
    } else {
        "id"@
    }
}

fn column_name_of(i: usize) -> (s: String)
    ensures
        s@ == column_name(i as int),
        i == 0 ==> s@ == "id"@,
        i == 1 ==> s@ == "username"@,
        i == 2 ==> s@ == "email"@,
        i == 3 ==> s@ == "created_at"@,
        i > 3 ==> s@ == "id"@,
{
    if i == 0 {
        String::from_str("id")
    } else if i == 1 {
        String::from_str("username")
    } else if i == 2 {
        String::from_str("email")
    } else if i == 3 {
        String::from_str("created_at")
    } else {
        String::from_str("id")
    }
}

/// Order of the PDF export: `id` and `desc` unless given.
pub fn pdf_export_order(params: &PdfExportParams) -> (r: (String, String))
    ensures
        r.0@ == match params.order_column { Some(c) => c@, None => "id"@ },
        r.1@ == match params.order_direction { Some(d) => d@, None => "desc"@ },
{
    let c = match &params.order_column {
        Some(c) => c.clone(),
        None => String::from_str("id"),
    };
    let d = match &params.order_direction {
        Some(d) => d.clone(),
        None => String::from_str("desc"),
    };
    (c, d)
}

/// Column of a flat-form column index: 0 to 3 as in the table, `id` otherwise.
pub open spec fn flat_column_name(c: Option<i32>) -> Seq<char> {
    match c {
        Some(i) => if 0 <= i <= 3 { column_name(i as int) } else { "id"@ },
        None => "id"@,
    }
}

impl DatatableParams {
    /// Paging from flat-form parameters: offset 0 and 10 rows unless given,
    /// an empty search is none, `asc` only when asked for exactly.
    pub fn to_pagination(&self) -> (p: PaginationParams)
        ensures
            p.offset == match self.start { Some(s) => s, None => 0 },
            p.limit == match self.length { Some(l) => l, None => 10 },
            match self.search_value {
                Some(s) => if s@.len() > 0 { opt_view(p.search) == Some(s@) } else { p.search is None },
                None => p.search is None,
            },
            p.order_column@ == flat_column_name(self.order_column),
            self.order_column == Some(0i32) ==> p.order_column@ == "id"@,
            self.order_column == Some(1i32) ==> p.order_column@ == "username"@,
            self.order_column == Some(2i32) ==> p.order_column@ == "email"@,
            self.order_column == Some(3i32) ==> p.order_column@ == "created_at"@,
            !(self.order_column matches Some(c) && 0 <= c <= 3) ==> p.order_column@ == "id"@,
            self.order_dir matches Some(d) && d@ == "asc"@ ==> p.order_direction@ == "asc"@,
            !(self.order_dir matches Some(d) && d@ == "asc"@) ==> p.order_direction@ == "desc"@,
            p.order_direction@ == (if opt_view(self.order_dir) == Some("asc"@) { "asc"@ } else { "desc"@ }),
    {
        let offset = match self.start {
            Some(s) => s,
            None => 0,
        };
        let limit = match self.length {
            Some(l) => l,
            None => 10,
        };
        let search = match &self.search_value {
            Some(s) => if s.as_str().unicode_len() > 0 {
                Some(s.clone())
            } else {
                None
            },
            None => None,
        };
        let order_column = match self.order_column {
            Some(i) => if 0 <= i && i <= 3 {
                column_name_of(i as usize)
            } else {
                String::from_str("id")
            },
            None => String::from_str("id"),
        };
        let asc = match &self.order_dir {
            Some(d) => *d == String::from_str("asc"),
            None => false,
        };
        let order_direction = if asc {
            String::from_str("asc")
        } else {
            String::from_str("desc")
        };
        PaginationParams { offset, limit, search, order_column, order_direction }
    }
}

/// The flat-form answer: a failed total count gives an empty answer; a failed
/// page gives the total and no rows; otherwise the rows, counted as filtered.
pub fn flat_datatable_result<T, E1, E2>(draw: u32, total: Result<i64, E1>, rows: Result<Vec<T>, E2>) -> (r: DatatableResponse<T>)
    ensures
        r.draw == draw,
        total is Err ==> r.records_total == 0 && r.records_filtered == 0 && r.data@.len() == 0,
        total matches Ok(t) ==> r.records_total == t,
        (total is Ok && rows is Err) ==> r.records_filtered == 0 && r.data@.len() == 0,
        total is Ok ==> (rows matches Ok(v) ==> (r.data@ == v@ && r.records_filtered == v@.len() as i64)),
{
    match total {
        Err(_) => DatatableResponse { draw, records_total: 0, records_filtered: 0, data: Vec::new() },
        Ok(t) => match rows {
            Ok(v) => {
                let n = v.len() as i64;
                DatatableResponse { draw, records_total: t, records_filtered: n, data: v }
            },
            Err(_) => DatatableResponse { draw, records_total: t, records_filtered: 0, data: Vec::new() },
        },
    }
}

/// The table's columns, by index, in display order: `id`, `username`,
/// `email`, `created_at`; any other index (or none) orders by `id`. Every
/// order column is one of the four, and different known indexes name
/// different columns.
pub proof fn lemma_order_columns(a: Option<i32>, b: Option<i32>)
    ensures
        flat_column_name(Some(0i32)) == "id"@,
        flat_column_name(Some(1i32)) == "username"@,
        flat_column_name(Some(2i32)) == "email"@,
        flat_column_name(Some(3i32)) == "created_at"@,
        flat_column_name(None) == "id"@,
        (a matches Some(i) && (i < 0 || i > 3)) ==> flat_column_name(a) == "id"@,
        (a matches Some(i) && 0 <= i <= 3) && (b matches Some(j) && 0 <= j <= 3) && a != b
            ==> flat_column_name(a) != flat_column_name(b),
{
    reveal_strlit("id");
    reveal_strlit("username");
    reveal_strlit("email");
    reveal_strlit("created_at");
    // the four names have four different lengths
    assert("id"@.len() == 2 && "username"@.len() == 8 && "email"@.len() == 5 && "created_at"@.len() == 10);
}

} // verus!
