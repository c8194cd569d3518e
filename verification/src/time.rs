//! Timestamp handling: the remote service reports instants as RFC 3339
//! strings; the dashboard renders them in the viewer's local time and
//! derives processing durations from pairs of them.
//!
//! Parsing and calendar work come from `chrono` behind trusted items.  What
//! local rendering produces depends on the machine's time zone, so nothing
//! is claimed of its text; parsing and UTC rendering depend on their inputs
//! alone and carry named results.

use crate::strutil::dec_digit;
use crate::strutil::dec_string;
use crate::strutil::na_text;
use chrono::Datelike;
use vstd::prelude::*;

verus! {

/// How a timestamp cell renders: compact (time of day if today, else the
/// date) or the full date and time.
#[derive(Debug, Clone, Copy, PartialEq, Eq, Structural)]
pub enum TimestampStyle {
    Simple,
    Full,
}

/// The instant an RFC 3339 timestamp string denotes, as whole seconds since
/// the epoch and nanoseconds within the second; nothing for a string that
/// does not parse.  Names what `chrono`'s timestamp parser returns.
pub uninterp spec fn utc_parse(s: Seq<char>) -> Option<(i64, u32)>;

/// Relies on `str::parse::<chrono::DateTime<chrono::Utc>>`: the parse
/// depends on the characters alone, and the nanosecond part stays below two
/// billion (the excess marks a leap second).
#[verifier::external_body]
pub fn parse_timestamp(s: &str) -> (r: Option<(i64, u32)>)
    ensures
        r == utc_parse(s@),
        r matches Some(p) ==> p.1 < 2_000_000_000,
{
    match s.parse::<chrono::DateTime<chrono::Utc>>() {
        Ok(dt) => Some((dt.timestamp(), dt.timestamp_subsec_nanos())),
        Err(_) => None,
    }
}

/// The RFC 3339 rendering of an instant.  Names what
/// `chrono::DateTime::<chrono::Utc>::to_rfc3339` returns: a function of the
/// instant alone.
pub uninterp spec fn rfc3339_of(secs: i64, nanos: u32) -> Seq<char>;

/// Whether an instant is comfortably within the range chrono's calendar
/// holds: a non-negative timestamp below about 253,000 years, with a plain
/// sub-second part.
pub open spec fn chrono_representable(secs: i64, nanos: u32) -> bool {
    0 <= secs <= 8_000_000_000_000i64 && nanos < 1_000_000_000
}

/// Whether an instant falls in a four-digit year (before the year 10000),
/// so its RFC 3339 text carries a plain unsigned year.
pub open spec fn four_digit_year(secs: i64, nanos: u32) -> bool {
    0 <= secs < 253_402_300_800i64 && nanos < 1_000_000_000
}

/// Relies on `chrono::DateTime::<chrono::Utc>::from_timestamp` and
/// `to_rfc3339`: an instant chrono can represent renders as its RFC 3339
/// text; one it cannot yields nothing, and every representable instant
/// (the calendar spans years up to six digits) renders.  For four-digit
/// years the writer emits plain RFC 3339 and chrono's timestamp parser
/// reads it back to the same instant.
#[verifier::external_body]
fn utc_rfc3339(secs: i64, nanos: u32) -> (r: Option<String>)
    ensures
        r matches Some(s) ==> s@ == rfc3339_of(secs, nanos),
        chrono_representable(secs, nanos) ==> r is Some,
        r matches Some(s) ==> (four_digit_year(secs, nanos) ==> utc_parse(s@) == Some(
            (secs, nanos),
        )),
{
    chrono::DateTime::<chrono::Utc>::from_timestamp(secs, nanos).map(|dt| dt.to_rfc3339())
}

/// Relies on `chrono::Utc::now`: the present instant; nothing can be
/// promised of a clock reading beyond the leap-second nanosecond bound.
#[verifier::external_body]
fn now_epoch() -> (r: (i64, u32))
    ensures
        r.1 < 2_000_000_000,
{
    let now = chrono::Utc::now();
    (now.timestamp(), now.timestamp_subsec_nanos())
}

/// Relies on `chrono`'s `from_timestamp`, `with_timezone(&chrono::Local)`
/// and the `Datelike` accessors: the civil date of an instant in the
/// machine's local time zone, which depends on the environment; months and
/// days are one-based as documented.
#[verifier::external_body]
fn local_civil_date(secs: i64, nanos: u32) -> (r: Option<(i32, u32, u32)>)
    ensures
        r matches Some(d) ==> 1 <= d.1 <= 12 && 1 <= d.2 <= 31,
        chrono_representable(secs, nanos) ==> r is Some,
{
    chrono::DateTime::<chrono::Utc>::from_timestamp(secs, nanos).map(
        |dt| {
            let local = dt.with_timezone(&chrono::Local);
            (local.year(), local.month(), local.day())
        },
    )
}

/// The compact time-of-day pattern a timestamp from today renders with.
pub open spec fn time_of_day_fmt() -> Seq<char> {
    "%-I:%M:%S %P"@
}

/// The date pattern a compact timestamp from another day renders with.
pub open spec fn day_month_year_fmt() -> Seq<char> {
    "%d/%m/%Y"@
}

/// The full date-and-time pattern.
pub open spec fn full_fmt() -> Seq<char> {
    "%d/%m/%Y, %-I:%M:%S %P"@
}

/// The pattern the compact style picks: the time of day when the instant
/// falls on today's local date, the plain date otherwise (also when either
/// date is unavailable).
pub open spec fn simple_pattern_spec(
    day: Option<(i32, u32, u32)>,
    today: Option<(i32, u32, u32)>,
) -> Seq<char> {
    if day matches Some(d) && today matches Some(t) && d == t {
        time_of_day_fmt()
    } else {
        day_month_year_fmt()
    }
}

/// Picks the compact style's pattern, exactly as `simple_pattern_spec`
/// states.
pub fn simple_pattern(day: Option<(i32, u32, u32)>, today: Option<(i32, u32, u32)>) -> (r:
    &'static str)
    ensures
        r@ == simple_pattern_spec(day, today),
{
    let same_day = match (day, today) {
        (Some(d), Some(t)) => d.0 == t.0 && d.1 == t.1 && d.2 == t.2,
        _ => false,
    };
    if same_day {
        "%-I:%M:%S %P"
    } else {
        "%d/%m/%Y"
    }
}

/// The full style's pattern: always the full date and time.
pub fn full_pattern() -> (r: &'static str)
    ensures
        r@ == full_fmt(),
{
    "%d/%m/%Y, %-I:%M:%S %P"
}

/// Relies on `chrono`'s `format` over the local time zone: renders an
/// instant with one of the three fixed patterns above (all three are valid
/// chrono patterns, so formatting cannot fail); the text depends on the
/// machine's time zone, so nothing is claimed of it.
#[verifier::external_body]
fn chrono_format_local(secs: i64, nanos: u32, fmt: &str) -> (r: Option<String>)
    requires
        fmt@ == time_of_day_fmt() || fmt@ == day_month_year_fmt() || fmt@ == full_fmt(),
    ensures
        chrono_representable(secs, nanos) ==> r is Some,
{
    chrono::DateTime::<chrono::Utc>::from_timestamp(secs, nanos).map(
        |dt| dt.with_timezone(&chrono::Local).format(fmt).to_string(),
    )
}

/// Renders a service timestamp for display in local time.  A string that
/// does not parse, or an instant the calendar cannot hold, renders as the
/// placeholder instead of failing.
pub fn timestamp_formatted(ts_str: &str, style: TimestampStyle) -> (r: String)
    ensures
        utc_parse(ts_str@) is None ==> r@ == na_text(),
{
    match parse_timestamp(ts_str) {
        None => String::from_str("N/A"),
        Some((secs, nanos)) => {
            let fmt: &str = match style {
                TimestampStyle::Full => full_pattern(),
                TimestampStyle::Simple => {
                    let now = now_epoch();
                    simple_pattern(
                        local_civil_date(secs, nanos),
                        local_civil_date(now.0, now.1),
                    )
                },
            };
            match chrono_format_local(secs, nanos, fmt) {
                Some(s) => s,
                None => String::from_str("N/A"),
            }
        },
    }
}

/// Renders an epoch instant as RFC 3339 text, or the placeholder for an
/// instant the calendar cannot hold.  Law: within four-digit years the text
/// parses back to exactly the instant it came from.
pub fn epoch_to_rfc3339(secs: u64, nanos: u32) -> (r: String)
    ensures
        secs > i64::MAX as u64 ==> r@ == na_text(),
        r@ == na_text() || (secs <= i64::MAX as u64 && r@ == rfc3339_of(secs as i64, nanos)),
        secs <= i64::MAX as u64 && chrono_representable(secs as i64, nanos) ==> r@ == rfc3339_of(
            secs as i64,
            nanos,
        ),
        secs <= i64::MAX as u64 && four_digit_year(secs as i64, nanos) ==> utc_parse(r@) == Some(
            (secs as i64, nanos),
        ),
{
    if secs > i64::MAX as u64 {
        return String::from_str("N/A");
    }
    match utc_rfc3339(secs as i64, nanos) {
        Some(s) => s,
        None => String::from_str("N/A"),
    }
}

/// The elapsed time from one parsed instant to a later one, as whole
/// seconds and leftover nanoseconds; nothing when either string does not
/// parse, the order is reversed, or the span exceeds what the result can
/// hold.
pub open spec fn elapsed_spec(start: Option<Seq<char>>, finish: Option<Seq<char>>) -> Option<
    (u64, u32),
> {
    match (start, finish) {
        (Some(s), Some(e)) => match (utc_parse(s), utc_parse(e)) {
            (Some(ps), Some(pe)) => {
                let d = (pe.0 - ps.0) * 1_000_000_000 + pe.1 - ps.1;
                if 0 <= d && d / 1_000_000_000 <= u64::MAX {
                    Some(((d / 1_000_000_000) as u64, (d % 1_000_000_000) as u32))
                } else {
                    None
                }
            },
            _ => None,
        },
        _ => None,
    }
}

/// The processing span of a task: the elapsed time from its start to its
/// finish timestamp, exactly as `elapsed_spec` states.
pub fn calc_processing_time_secs(start_in: Option<String>, end_in: Option<String>) -> (r: Option<
    (u64, u32),
>)
    ensures
        r == elapsed_spec(
            match start_in {
                Some(s) => Some(s@),
                None => None,
            },
            match end_in {
                Some(e) => Some(e@),
                None => None,
            },
        ),
{
    let (s, e) = match (start_in, end_in) {
        (Some(s), Some(e)) => (s, e),
        _ => {
            return None;
        },
    };
    let ps = match parse_timestamp(s.as_str()) {
        Some(p) => p,
        None => {
            return None;
        },
    };
    let pe = match parse_timestamp(e.as_str()) {
        Some(p) => p,
        None => {
            return None;
        },
    };
    let d: i128 = (pe.0 as i128 - ps.0 as i128) * 1_000_000_000 + pe.1 as i128 - ps.1 as i128;
    if d < 0 {
        return None;
    }
    let secs: i128 = d / 1_000_000_000;
    if secs > u64::MAX as i128 {
        return None;
    }
    Some((secs as u64, (d % 1_000_000_000) as u32))
}

/// The number of seconds in the four full weeks the node statistics page
/// looks back over.
pub open spec fn four_weeks_secs() -> int {
    (4 * 7 * 24 * 60 * 60) as int
}

/// The time range a node's recent statistics are queried over: the four
/// weeks up to the given instant, clamped at the epoch.
pub fn last_month_range(now_secs: u64) -> (r: (u64, u64))
    ensures
        r.1 == now_secs,
        r.0 == (if now_secs >= four_weeks_secs() {
            now_secs - four_weeks_secs()
        } else {
            0int
        }),
{
    let start = if now_secs >= 2419200 {
        now_secs - 2419200
    } else {
        0
    };
    (start, now_secs)
}

/// Zero-padded decimal rendering of `n` at exactly `width` digits (the
/// low digits of `n`, when it has more).
pub open spec fn pad_dec(n: nat, width: nat) -> Seq<char>
    decreases width,
{
    if width == 0 {
        Seq::empty()
    } else {
        pad_dec(n / 10, (width - 1) as nat).push(dec_digit(n % 10))
    }
}

/// The fractional digits shown for a sub-second part: the nanoseconds
/// zero-padded to `width` digits, with trailing zeros dropped.
pub open spec fn frac_string(n: nat, width: nat) -> Seq<char>
    decreases width,
{
    if width == 0 {
        Seq::empty()
    } else if n % 10 == 0 {
        frac_string(n / 10, (width - 1) as nat)
    } else {
        pad_dec(n, width)
    }
}

pub fn pad_dec_str(n: u32, width: u32) -> (r: String)
    ensures
        r@ == pad_dec(n as nat, width as nat),
    decreases width,
{
    if width == 0 {
        String::new()
    } else {
        let prefix = pad_dec_str(n / 10, width - 1);
        let r = prefix.concat(crate::strutil::dec_digit_str((n % 10) as u64));
        proof {
            assert(r@ =~= pad_dec((n / 10) as nat, (width - 1) as nat).push(
                dec_digit((n % 10) as nat),
            ));
        }
        r
    }
}

fn frac_str(n: u32, width: u32) -> (r: String)
    ensures
        r@ == frac_string(n as nat, width as nat),
    decreases width,
{
    if width == 0 {
        String::new()
    } else if n % 10 == 0 {
        frac_str(n / 10, width - 1)
    } else {
        pad_dec_str(n, width)
    }
}

/// The text of a processing span: whole seconds, with the sub-second part
/// as a decimal fraction when there is one.
pub open spec fn elapsed_string(secs: nat, nanos: nat) -> Seq<char> {
    if nanos == 0 {
        dec_string(secs)
    } else {
        dec_string(secs) + seq!['.'] + frac_string(nanos, 9)
    }
}

/// The "Processing Time" cell text: the elapsed seconds and the word
/// `seconds`, or the literal `NA` where the span cannot be computed.
pub open spec fn processing_time_text(start: Option<Seq<char>>, finish: Option<Seq<char>>) -> Seq<
    char,
> {
    match elapsed_spec(start, finish) {
        Some(t) => elapsed_string(t.0 as nat, t.1 as nat) + " seconds"@,
        None => "NA"@,
    }
}

/// Renders the "Processing Time" cell, exactly as `processing_time_text`
/// states.
pub fn processing_time_label(start_in: Option<String>, end_in: Option<String>) -> (r: String)
    ensures
        r@ == processing_time_text(
            match start_in {
                Some(s) => Some(s@),
                None => None,
            },
            match end_in {
                Some(e) => Some(e@),
                None => None,
            },
        ),
{
    match calc_processing_time_secs(start_in, end_in) {
        Some((secs, nanos)) => {
            let base = crate::strutil::u64_to_string(secs);
            let text = if nanos == 0 {
                base
            } else {
                base.concat(".").concat(frac_str(nanos, 9).as_str())
            };
            proof {
                reveal_strlit(".");
            }
            text.concat(" seconds")
        },
        None => String::from_str("NA"),
    }
}

} // verus!
