use vstd::prelude::*;
use vstd::utf8::encode_utf8;

verus! {

/// ISO-8601 (week-numbering year, week number) of a date written as
/// `%Y-%m-%d`, or `None` when chrono cannot parse the text as such a date.
pub uninterp spec fn iso_week_of(date: Seq<char>) -> Option<(i32, u32)>;

/// The UTC calendar date, in chrono's `%Y-%m-%d` rendering, of an instant
/// given in milliseconds since the Unix epoch; `None` when the instant lies
/// outside the dates that chrono can represent.
pub uninterp spec fn utc_date_of_millis(ms: i64) -> Option<Seq<char>>;

/// Bound on the distance from the epoch, in milliseconds, inside which every
/// instant has a representable date (about 253,000 years either way).
pub const DATE_SAFE_MILLIS: i64 = 8_000_000_000_000_000;

/// Relies on chrono's `NaiveDate::parse_from_str` with the format `%Y-%m-%d`,
/// followed by `Datelike::iso_week` and the `year` and `week` of the result.
/// The outcome depends on the text alone.
#[verifier::external_body]
pub(crate) fn iso_week_of_date(date: &str) -> (r: Option<(i32, u32)>)
    ensures
        r == iso_week_of(date@),
{
    match chrono::NaiveDate::parse_from_str(date, "%Y-%m-%d") {
        Ok(d) => {
            let w = chrono::Datelike::iso_week(&d);
            Some((w.year(), w.week()))
        },
        Err(_) => None,
    }
}

/// Relies on chrono's `DateTime::from_timestamp_millis` and the `Display` of
/// the `NaiveDate` that `date_naive` gives. chrono documents `None` only for
/// instants more than about 262,000 years away from the common era, and its
/// dates reach the years -262143 to 262142.
#[verifier::external_body]
pub(crate) fn utc_date_string(ms: i64) -> (r: Option<String>)
    ensures
        match r {
            Some(s) => utc_date_of_millis(ms) == Some(s@),
            None => utc_date_of_millis(ms) is None,
        },
        -DATE_SAFE_MILLIS <= ms <= DATE_SAFE_MILLIS ==> r is Some,
{
    match chrono::DateTime::from_timestamp_millis(ms) {
        Some(dt) => Some(dt.date_naive().to_string()),
        None => None,
    }
}

/// Relies on chrono's `Utc::now` and `timestamp_millis`: the current wall
/// clock time. Nothing is known of the value.
#[verifier::external_body]
pub(crate) fn now_millis() -> (r: i64) {
    chrono::Utc::now().timestamp_millis()
}

/// Lexicographic order on byte strings, comparing from position `k` on.
pub open spec fn bytes_lt_from(a: Seq<u8>, b: Seq<u8>, k: int) -> bool
    decreases a.len() - k,
{
    if k < 0 || k >= b.len() {
        false
    } else if k >= a.len() {
        true
    } else if a[k] != b[k] {
        a[k] < b[k]
    } else {
        bytes_lt_from(a, b, k + 1)
    }
}

/// Strict lexicographic order on byte strings.
pub open spec fn bytes_lt(a: Seq<u8>, b: Seq<u8>) -> bool {
    bytes_lt_from(a, b, 0)
}

/// The order of `str`: lexicographic on the UTF-8 bytes. On `YYYY-MM-DD`
/// dates it is the chronological order.
pub open spec fn text_lt(a: Seq<char>, b: Seq<char>) -> bool {
    bytes_lt(encode_utf8(a), encode_utf8(b))
}

/// Whether `a` comes strictly before `b` in the order of `str`.
pub fn text_precedes(a: &str, b: &str) -> (r: bool)
    ensures
        r == text_lt(a@, b@),
{
    let x = a.as_bytes();
    let y = b.as_bytes();
    let mut k: usize = 0;
    while k < x.len() && k < y.len() && x[k] == y[k]
        invariant
            x@ == encode_utf8(a@),
            y@ == encode_utf8(b@),
            k <= x@.len(),
            k <= y@.len(),
            bytes_lt_from(x@, y@, 0) == bytes_lt_from(x@, y@, k as int),
        decreases x@.len() - k,
    {
        k = k + 1;
    }
    if k >= y.len() {
        false
    } else if k >= x.len() {
        true
    } else {
        x[k] < y[k]
    }
}

} // verus!
