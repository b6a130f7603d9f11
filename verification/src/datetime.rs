use vstd::prelude::*;

use crate::entities::DateTime;
use crate::text::{append_decimal_u64, decimal_nat, opt_view};

verus! {

/// `n` zeros.
pub open spec fn zeros(n: nat) -> Seq<char>
    decreases n,
{
    if n == 0 {
        Seq::empty()
    } else {
        zeros((n - 1) as nat).push('0')
    }
}

/// Decimal digits of `n`, padded with leading zeros to at least `width`.
pub open spec fn padded(n: nat, width: nat) -> Seq<char> {
    let d = decimal_nat(n);
    if d.len() >= width {
        d
    } else {
        zeros((width - d.len()) as nat) + d
    }
}

proof fn lemma_zeros_push(n: nat)
    ensures
        zeros(n + 1) == zeros(n).push('0'),
{
}

/// Appends `n` padded with zeros to `width` digits.
pub fn append_padded(s: &mut String, n: u64, width: u64)
    requires
        width <= 8,
    ensures
        final(s)@ == old(s)@ + padded(n as nat, width as nat),
{
    let mut digits = String::new();
    append_decimal_u64(&mut digits, n);
    let len = digits.as_str().unicode_len();
    let ghost start = s@;
    if (len as u64) < width {
        let mut k: u64 = 0;
        let missing = width - len as u64;
        while k < missing
            invariant
                k <= missing,
                s@ == start + zeros(k as nat),
            decreases missing - k,
        {
            s.append("0");
            proof {
                reveal_strlit("0");
                lemma_zeros_push(k as nat);
                assert(s@ =~= start + zeros((k + 1) as nat));
            }
            k = k + 1;
        }
    }
    s.append(digits.as_str());
    proof {
        assert(s@ =~= start + padded(n as nat, width as nat));
    }
}

/// A year as `[year]` prints it: at least four digits, `-` before negative years.
pub open spec fn year_text(y: int) -> Seq<char> {
    if y < 0 {
        seq!['-'] + padded((-y) as nat, 4)
    } else {
        padded(y as nat, 4)
    }
}

/// `dd-mm-yyyy hh:mm:ss`, as shown for creation times.
pub open spec fn dmy_hms_text(dt: DateTime) -> Seq<char> {
    padded(dt.day as nat, 2) + "-"@ + padded(dt.month as nat, 2) + "-"@ + year_text(dt.year as int)
        + " "@ + padded(dt.hour as nat, 2) + ":"@ + padded(dt.minute as nat, 2) + ":"@
        + padded(dt.second as nat, 2)
}

/// Formats a date and time as `dd-mm-yyyy hh:mm:ss`.
pub fn format_dmy_hms(dt: &DateTime) -> (r: String)
    ensures
        r@ == dmy_hms_text(*dt),
{
    let mut r = String::new();
    append_padded(&mut r, dt.day as u64, 2);
    r.append("-");
    append_padded(&mut r, dt.month as u64, 2);
    r.append("-");
    if dt.year < 0 {
        r.append("-");
        append_padded(&mut r, (-(dt.year as i64)) as u64, 4);
    } else {
        append_padded(&mut r, dt.year as u64, 4);
    }
    r.append(" ");
    append_padded(&mut r, dt.hour as u64, 2);
    r.append(":");
    append_padded(&mut r, dt.minute as u64, 2);
    r.append(":");
    append_padded(&mut r, dt.second as u64, 2);
    proof {
        reveal_strlit("-");
        reveal_strlit(" ");
        reveal_strlit(":");
        assert(r@ =~= dmy_hms_text(*dt));
    }
    r
}

/// A leap year of the proleptic Gregorian calendar.
pub open spec fn is_leap_year(year: int) -> bool {
    year % 4 == 0 && (year % 100 != 0 || year % 400 == 0)
}

/// Number of days of a month (1 to 12) of a year.
pub open spec fn days_in_month(year: int, month: int) -> int {
    if month == 2 {
        if is_leap_year(year) { 29 } else { 28 }
    } else if month == 4 || month == 6 || month == 9 || month == 11 {
        30
    } else {
        31
    }
}

/// The components form a valid date, time and offset that RFC 3339 can
/// express: a year of four digits, an offset below 24 hours in whole minutes.
pub open spec fn rfc3339_expressible(year: i32, month: u8, day: u8, hour: u8, minute: u8, second: u8, nanosecond: u32, offset_seconds: i32) -> bool {
    &&& 0 <= year <= 9999
    &&& 1 <= month <= 12
    &&& 1 <= day <= days_in_month(year as int, month as int)
    &&& hour < 24 && minute < 60 && second < 60
    &&& nanosecond < 1_000_000_000
    &&& -86400 < offset_seconds < 86400
    &&& offset_seconds % 60 == 0
}

/// The text without its trailing zeros.
pub open spec fn drop_trailing_zeros(s: Seq<char>) -> Seq<char>
    decreases s.len(),
{
    if s.len() > 0 && s.last() == '0' {
        drop_trailing_zeros(s.drop_last())
    } else {
        s
    }
}

/// The fraction of a second: nine digits without their trailing zeros,
/// after a `.`; nothing for a whole second.
pub open spec fn fraction_text(nanosecond: nat) -> Seq<char> {
    if nanosecond == 0 {
        Seq::empty()
    } else {
        "."@ + drop_trailing_zeros(padded(nanosecond, 9))
    }
}

/// The offset: `Z` for UTC, else its sign, hours and minutes as `±hh:mm`.
pub open spec fn offset_text(offset_seconds: int) -> Seq<char> {
    let a: nat = if offset_seconds < 0 { (-offset_seconds) as nat } else { offset_seconds as nat };
    if offset_seconds == 0 {
        "Z"@
    } else {
        (if offset_seconds < 0 { "-"@ } else { "+"@ }) + padded(a / 3600, 2) + ":"@ + padded((a / 60) % 60, 2)
    }
}

/// RFC 3339 text of the components: `yyyy-mm-ddThh:mm:ss`, the fraction of
/// a second when there is one, then the offset.
pub open spec fn rfc3339_spec(year: i32, month: u8, day: u8, hour: u8, minute: u8, second: u8, nanosecond: u32, offset_seconds: i32) -> Seq<char> {
    padded(year as nat, 4) + "-"@ + padded(month as nat, 2) + "-"@ + padded(day as nat, 2) + "T"@
        + padded(hour as nat, 2) + ":"@ + padded(minute as nat, 2) + ":"@ + padded(second as nat, 2)
        + fraction_text(nanosecond as nat) + offset_text(offset_seconds as int)
}

/// Builds a `time::OffsetDateTime` from the components and calls its
/// `format(&Rfc3339)`. Claimed, as the crate's source shows: the
/// constructors refuse invalid components, and formatting refuses a year
/// outside 0..=9999, an offset of 24 hours or more and one with seconds;
/// otherwise the text is `rfc3339_spec` of the components.
#[verifier::external_body]
fn format_rfc3339(year: i32, month: u8, day: u8, hour: u8, minute: u8, second: u8, nanosecond: u32, offset_seconds: i32) -> (r: Option<String>)
    ensures
        match r {
            Some(t) => rfc3339_expressible(year, month, day, hour, minute, second, nanosecond, offset_seconds)
                && t@ == rfc3339_spec(year, month, day, hour, minute, second, nanosecond, offset_seconds),
            None => !rfc3339_expressible(year, month, day, hour, minute, second, nanosecond, offset_seconds),
        },
{
    let date = time::Date::from_calendar_date(year, time::Month::try_from(month).ok()?, day).ok()?;
    let clock = time::Time::from_hms_nano(hour, minute, second, nanosecond).ok()?;
    let offset = time::UtcOffset::from_whole_seconds(offset_seconds).ok()?;
    time::PrimitiveDateTime::new(date, clock).assume_offset(offset).format(&time::format_description::well_known::Rfc3339).ok()
}

/// A creation time in RFC 3339, or empty text when RFC 3339 cannot express
/// it (as the export writes it).
pub open spec fn rfc3339_or_empty_spec(dt: DateTime) -> Seq<char> {
    if rfc3339_expressible(dt.year, dt.month, dt.day, dt.hour, dt.minute, dt.second, dt.nanosecond, dt.offset_seconds) {
        rfc3339_spec(dt.year, dt.month, dt.day, dt.hour, dt.minute, dt.second, dt.nanosecond, dt.offset_seconds)
    } else {
        Seq::empty()
    }
}

/// Formats a creation time in RFC 3339; empty when it cannot be.
pub fn rfc3339_or_empty(dt: &DateTime) -> (r: String)
    ensures
        r@ == rfc3339_or_empty_spec(*dt),
{
    match format_rfc3339(dt.year, dt.month, dt.day, dt.hour, dt.minute, dt.second, dt.nanosecond, dt.offset_seconds) {
        Some(t) => t,
        None => String::new(),
    }
}

/// Creation time of an administrator for serialisation: absent stays absent.
pub fn format_dmy_hms_option(dt: &Option<DateTime>) -> (r: Option<String>)
    ensures
        match *dt {
            Some(d) => opt_view(r) == Some(dmy_hms_text(d)),
            None => r is None,
        },
{
    match dt {
        Some(d) => Some(format_dmy_hms(d)),
        None => None,
    }
}

} // verus!
