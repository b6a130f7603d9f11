use vstd::prelude::*;

verus! {

/// An ASCII decimal digit.
pub open spec fn is_digit(c: char) -> bool {
    '0' <= c && c <= '9'
}

/// Value of a run of decimal digits.
pub open spec fn digits_value(s: Seq<char>) -> int
    decreases s.len(),
{
    if s.len() == 0 {
        0
    } else {
        digits_value(s.drop_last()) * 10 + (s.last() as int - 48)
    }
}

/// Length of the sign in front of the digits: a `+`, or a `-` for signed types.
pub open spec fn sign_len(s: Seq<char>, signed: bool) -> int {
    if s.len() > 0 && (s[0] == '+' || (signed && s[0] == '-')) {
        1
    } else {
        0
    }
}

/// The text has a minus sign (signed types only).
pub open spec fn is_negative(s: Seq<char>, signed: bool) -> bool {
    signed && s.len() > 0 && s[0] == '-'
}

/// Every character is a digit.
pub open spec fn all_digits(b: Seq<char>) -> bool {
    forall|i: int| 0 <= i < b.len() ==> is_digit(#[trigger] b[i])
}

/// What `str::parse` reads from `s` for an integer type, before the range
/// check: an optional `+` (or `-` for signed types), then at least one digit
/// and nothing else.
pub open spec fn parsed_integer(s: Seq<char>, signed: bool) -> Option<int> {
    let body = s.skip(sign_len(s, signed));
    if body.len() > 0 && all_digits(body) {
        Some(if is_negative(s, signed) { -digits_value(body) } else { digits_value(body) })
    } else {
        None
    }
}

proof fn lemma_digits_value_nonneg(s: Seq<char>)
    requires
        forall|i: int| 0 <= i < s.len() ==> is_digit(#[trigger] s[i]),
    ensures
        digits_value(s) >= 0,
    decreases s.len(),
{
    if s.len() > 0 {
        assert forall|i: int| 0 <= i < s.drop_last().len() implies is_digit(#[trigger] s.drop_last()[i]) by {
            assert(s.drop_last()[i] == s[i]);
        }
        lemma_digits_value_nonneg(s.drop_last());
    }
}

/// Large enough that any text whose value passes it is out of range for
/// every supported integer type.
const VALUE_CAP: u128 = 0x1_0000_0000_0000_0000;

/// Reads an optional sign and digits; `None` when the text is not an integer,
/// else the value when at most `VALUE_CAP`, or `VALUE_CAP + 1` standing for
/// any larger magnitude.
fn scan_integer(s: &str, signed: bool) -> (r: Option<(bool, u128)>)
    ensures
        match parsed_integer(s@, signed) {
            None => r is None,
            Some(v) => r matches Some((neg, m)) && neg == is_negative(s@, signed) && (
                if m <= VALUE_CAP { v == (if neg { -(m as int) } else { m as int }) }
                else { m == VALUE_CAP + 1 && (if neg { v < -(VALUE_CAP as int) } else { v > VALUE_CAP as int }) }),
        },
{
    let n = s.unicode_len();
    let mut start: usize = 0;
    let mut neg = false;
    if n > 0 && s.get_char(0) == '+' {
        start = 1;
    } else if signed && n > 0 && s.get_char(0) == '-' {
        start = 1;
        neg = true;
    }
    let ghost body = s@.skip(start as int);
    assert(start == sign_len(s@, signed));
    assert(neg == is_negative(s@, signed));
    if start >= n {
        return None;
    }
    let mut acc: u128 = 0;
    let mut big = false;
    let mut i: usize = start;
    while i < n
        invariant
            n == s@.len(),
            neg == is_negative(s@, signed),
            start == sign_len(s@, signed),
            start <= i <= n,
            body == s@.skip(start as int),
            forall|k: int| 0 <= k < i - start ==> is_digit(#[trigger] body[k]),
            !big ==> acc == digits_value(body.take(i - start)),
            !big ==> acc <= VALUE_CAP,
            big ==> digits_value(body.take(i - start)) > VALUE_CAP && acc == VALUE_CAP + 1,
        decreases n - i,
    {
        let c = s.get_char(i);
        if !('0' <= c && c <= '9') {
            proof {
                assert(body[i - start] == c);
                assert(!is_digit(body[i - start]));
                assert(!all_digits(body));
            }
            return None;
        }
        let d = (c as u32 - 48) as u128;
        proof {
            assert(body[i - start] == c);
            assert(body.take(i - start + 1).drop_last() =~= body.take(i - start));
            assert(body.take(i - start + 1).last() == c);
            assert forall|k: int| 0 <= k < i - start implies is_digit(#[trigger] body.take(i - start)[k]) by {
                assert(body.take(i - start)[k] == body[k]);
            }
            lemma_digits_value_nonneg(body.take(i - start));
        }
        if !big {
            let next = acc * 10 + d;
            if next > VALUE_CAP {
                big = true;
                acc = VALUE_CAP + 1;
            } else {
                acc = next;
            }
        }
        i = i + 1;
    }
    proof {
        assert(body.take(n - start) =~= body);
        assert(forall|k: int| 0 <= k < body.len() ==> is_digit(#[trigger] body[k]));
    }
    Some((neg, acc))
}

/// `str::parse::<i64>`: the value when `s` is an integer in range.
pub open spec fn parse_i64_spec(s: Seq<char>) -> Option<i64> {
    match parsed_integer(s, true) {
        Some(v) => if i64::MIN <= v <= i64::MAX { Some(v as i64) } else { None },
        None => None,
    }
}

/// `str::parse::<u16>`: the value when `s` is an integer in range.
pub open spec fn parse_u16_spec(s: Seq<char>) -> Option<u16> {
    match parsed_integer(s, false) {
        Some(v) => if 0 <= v <= u16::MAX { Some(v as u16) } else { None },
        None => None,
    }
}

/// Reads a signed 64-bit decimal integer.
pub fn parse_i64(s: &str) -> (r: Option<i64>)
    ensures
        r == parse_i64_spec(s@),
{
    match scan_integer(s, true) {
        None => None,
        Some((neg, m)) => {
            if neg {
                if m <= 0x8000_0000_0000_0000 {
                    Some((-(m as i128)) as i64)
                } else {
                    None
                }
            } else {
                if m <= 0x7fff_ffff_ffff_ffff {
                    Some(m as i64)
                } else {
                    None
                }
            }
        },
    }
}

/// Reads an unsigned 16-bit decimal integer.
pub fn parse_u16(s: &str) -> (r: Option<u16>)
    ensures
        r == parse_u16_spec(s@),
{
    match scan_integer(s, false) {
        None => None,
        Some((neg, m)) => {
            if m <= 0xffff {
                Some(m as u16)
            } else {
                None
            }
        },
    }
}

/// Session lifetime when none is configured: one week.
pub const DEFAULT_SESSION_TIMEOUT_SECS: i64 = 604800;

/// Port when none is configured.
pub const DEFAULT_PORT: u16 = 3001;

/// Session lifetime in seconds: the configured value when it is a positive
/// integer, one week otherwise.
pub fn session_timeout_secs(raw: Option<&str>) -> (r: i64)
    ensures
        match raw {
            Some(s) => match parse_i64_spec(s@) {
                Some(v) => r == (if v > 0 { v } else { DEFAULT_SESSION_TIMEOUT_SECS }),
                None => r == DEFAULT_SESSION_TIMEOUT_SECS,
            },
            None => r == DEFAULT_SESSION_TIMEOUT_SECS,
        },
        r > 0,
{
    match raw {
        Some(s) => match parse_i64(s) {
            Some(v) => if v > 0 {
                v
            } else {
                DEFAULT_SESSION_TIMEOUT_SECS
            },
            None => DEFAULT_SESSION_TIMEOUT_SECS,
        },
        None => DEFAULT_SESSION_TIMEOUT_SECS,
    }
}

/// Listening port: the configured value when it is a valid port number, 3001 otherwise.
pub fn listen_port(raw: Option<&str>) -> (r: u16)
    ensures
        match raw {
            Some(s) => match parse_u16_spec(s@) {
                Some(v) => r == v,
                None => r == DEFAULT_PORT,
            },
            None => r == DEFAULT_PORT,
        },
{
    match raw {
        Some(s) => match parse_u16(s) {
            Some(v) => v,
            None => DEFAULT_PORT,
        },
        None => DEFAULT_PORT,
    }
}

} // verus!
