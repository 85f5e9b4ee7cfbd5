//! The time-window configuration: absolute and relative date bounds, and
//! the resolution of a date argument string to seconds since the Unix epoch.
//!
//! A date argument is either an RFC3339-like timestamp, taken as an absolute
//! instant, or a human-readable duration, taken as that long before the
//! current instant. All times are whole seconds since the Unix epoch.

use vstd::prelude::*;
use vstd::string::StrSliceExecFns;

verus! {

/// Absolute bounds on record creation times: records before `start_date`
/// or after `end_date` are excluded.
pub struct DateRangeFilter {
    /// Ignore all records created before this instant.
    pub start_date: Option<i64>,
    /// Ignore all records created after this instant.
    pub end_date: Option<i64>,
}

/// Relative bounds: every record since a resolved instant, or the last
/// so-many records.
pub struct RelativeRangeFilter {
    /// Fetch all records since this instant.
    pub since: Option<i64>,
    /// Fetch the last so-many records.
    pub last: Option<u32>,
}

/// A parsed date argument: an absolute instant, or a duration to subtract
/// from the current instant.
#[derive(Debug, PartialEq, Eq, Structural, Clone, Copy)]
pub enum DateExpr {
    Absolute(i64),
    Relative(u64),
}

/// Why a date argument did not resolve: it matched neither date form, or
/// the subtraction left the representable range.
#[derive(Debug, PartialEq, Eq, Structural, Clone, Copy)]
pub enum DateError {
    Unrecognized,
    OutOfRange,
}

/// The instant an RFC3339-like timestamp string denotes, in whole seconds
/// since the Unix epoch, or `None` when the string is not one.
pub uninterp spec fn rfc3339_weak_secs(s: Seq<char>) -> Option<i64>;

/// The length a human-readable duration string denotes, in whole seconds,
/// or `None` when the string is not one.
pub uninterp spec fn duration_secs(s: Seq<char>) -> Option<u64>;

/// Relies on humantime::parse_rfc3339_weak, which parses a timestamp
/// between the Unix epoch and the last second of year 9999; the result
/// depends on the string alone. The upper cutoff named here is the one
/// the parser applies on 64-bit targets; 32-bit ones cap it earlier.
#[verifier::external_body]
fn parse_rfc3339_weak_ts(value: &str) -> (r: Option<i64>)
    ensures
        r == rfc3339_weak_secs(value@),
        r matches Some(t) ==> 0 <= t <= 253_402_300_799,
{
    match humantime::parse_rfc3339_weak(value) {
        Ok(st) => match st.duration_since(std::time::UNIX_EPOCH) {
            Ok(d) => Some(d.as_secs() as i64),
            Err(_) => None,
        },
        Err(_) => None,
    }
}

/// A decimal digit.
pub open spec fn is_digit_char(c: char) -> bool {
    48 <= c as u32 && c as u32 <= 57
}

/// How many decimal digits the string holds, wherever they stand.
pub open spec fn digit_count(s: Seq<char>) -> nat
    decreases s.len(),
{
    if s.len() == 0 {
        0
    } else {
        (if is_digit_char(s[0]) {
            1nat
        } else {
            0
        }) + digit_count(s.drop_first())
    }
}

/// Appending one character raises the digit count by one digit or none.
proof fn lemma_digit_count_push(s: Seq<char>, c: char)
    ensures
        digit_count(s.push(c)) == digit_count(s) + (if is_digit_char(c) {
            1nat
        } else {
            0
        }),
    decreases s.len(),
{
    if s.len() == 0 {
        assert(s.push(c)[0] == c);
        assert(s.push(c).drop_first() =~= s);
    } else {
        assert(s.push(c)[0] == s[0]);
        assert(s.push(c).drop_first() =~= s.drop_first().push(c));
        lemma_digit_count_push(s.drop_first(), c);
    }
}

/// A duration argument within the library's accepted domain: at most
/// eleven decimal digits in all, wherever they stand. The duration parser
/// concatenates digits across the whitespace it skips, so only the total
/// digit count bounds the numbers it forms: eleven digits split into
/// numbers n₁..n_k keep Σ 10^dᵢ at or below 10¹¹, so the parsed total
/// stays below 10¹¹ × 31,557,600 seconds — under a sixth of the u64
/// seconds range the parser accumulates in. Arguments outside this domain
/// are unrecognized rather than parsed; within it still lie durations of
/// centuries written in seconds and billions of years written in years.
pub open spec fn duration_arg_ok(s: Seq<char>) -> bool {
    digit_count(s) <= 11
}

/// Whether the string is within `duration_arg_ok`'s domain.
fn check_duration_arg(value: &str) -> (r: bool)
    ensures
        r == duration_arg_ok(value@),
{
    let ghost s = value@;
    let n = value.unicode_len();
    let mut i: usize = 0;
    let mut count: usize = 0;
    while i < n
        invariant
            i <= n,
            n == s.len(),
            s == value@,
            count <= i,
            count == digit_count(s.take(i as int)),
        decreases n - i,
    {
        let c = value.get_char(i);
        let u = c as u32;
        proof {
            lemma_digit_count_push(s.take(i as int), s[i as int]);
            assert(s.take(i + 1) =~= s.take(i as int).push(s[i as int]));
        }
        if 48 <= u && u <= 57 {
            count = count + 1;
        }
        i = i + 1;
    }
    proof {
        assert(s.take(n as int) =~= s);
    }
    count <= 11
}

/// Relies on humantime::parse_duration, which parses a human-readable
/// duration; whole seconds are kept and a sub-second remainder is
/// discarded. The result depends on the string alone.
///
/// The parser carries whole seconds in a u64 and aborts only when that
/// counter stands exactly at its maximum while a nanosecond carry lands
/// on it. Every number it forms is accumulated from the string's own
/// digit characters — digits concatenate across skipped whitespace, but
/// distinct numbers consume distinct digits, and all other arithmetic in
/// it is checked — so `duration_arg_ok`'s digit-count bound keeps every
/// reachable total far below the maximum, and the call returns on every
/// admitted input.
#[verifier::external_body]
fn parse_duration_secs(value: &str) -> (r: Option<u64>)
    requires
        duration_arg_ok(value@),
    ensures
        r == duration_secs(value@),
{
    match humantime::parse_duration(value) {
        Ok(d) => Some(d.as_secs()),
        Err(_) => None,
    }
}

/// Relies on chrono::Utc::now for the current instant, given in whole
/// seconds since the Unix epoch. Nothing is assumed of the clock's value.
/// chrono's `now` itself aborts when the system clock stands before the
/// Unix epoch — an exposure inherited from the call the program has
/// always made, which no precondition on an environmental clock state
/// could fence.
#[verifier::external_body]
fn now_secs() -> (r: i64) {
    chrono::Utc::now().timestamp()
}

/// How a date argument resolves against a given current instant: an
/// absolute instant is kept as it is; a relative one lies the duration
/// before the instant, unless that leaves the representable range.
pub open spec fn spec_resolve_at(now: i64, expr: DateExpr) -> Result<i64, DateError> {
    match expr {
        DateExpr::Absolute(t) => Ok(t),
        DateExpr::Relative(d) => if i64::MIN <= now - d {
            Ok((now - d) as i64)
        } else {
            Err(DateError::OutOfRange)
        },
    }
}

/// Parse a date argument: an RFC3339-like timestamp wins; otherwise the
/// string must be a duration within `duration_arg_ok`'s domain; anything
/// else — an unparseable string, or one with more than eleven digits — is
/// unrecognized. The digit bound narrows the duration domain on purpose:
/// it is what keeps the duration parser's abort state unreachable, and
/// arguments beyond it are refused rather than resolved.
pub fn classify_date(value: &str) -> (r: Result<DateExpr, DateError>)
    ensures
        rfc3339_weak_secs(value@) matches Some(t) ==> r == Ok::<DateExpr, DateError>(
            DateExpr::Absolute(t),
        ),
        rfc3339_weak_secs(value@) is None && duration_arg_ok(value@) ==> (duration_secs(value@)
            matches Some(d) ==> r == Ok::<DateExpr, DateError>(DateExpr::Relative(d))),
        rfc3339_weak_secs(value@) is None && duration_arg_ok(value@) && duration_secs(value@)
            is None ==> r == Err::<DateExpr, DateError>(DateError::Unrecognized),
        rfc3339_weak_secs(value@) is None && !duration_arg_ok(value@) ==> r == Err::<
            DateExpr,
            DateError,
        >(DateError::Unrecognized),
{
    match parse_rfc3339_weak_ts(value) {
        Some(t) => Ok(DateExpr::Absolute(t)),
        None => {
            if check_duration_arg(value) {
                match parse_duration_secs(value) {
                    Some(d) => Ok(DateExpr::Relative(d)),
                    None => Err(DateError::Unrecognized),
                }
            } else {
                Err(DateError::Unrecognized)
            }
        },
    }
}

/// Resolve a parsed date argument at the given instant.
pub fn resolve_at(now: i64, expr: DateExpr) -> (r: Result<i64, DateError>)
    ensures
        r == spec_resolve_at(now, expr),
{
    match expr {
        DateExpr::Absolute(t) => Ok(t),
        DateExpr::Relative(d) => {
            let wide: i128 = now as i128 - d as i128;
            if i64::MIN as i128 <= wide {
                Ok(wide as i64)
            } else {
                Err(DateError::OutOfRange)
            }
        },
    }
}

/// Resolve a date argument string: an absolute timestamp is returned as it
/// is; a duration within `duration_arg_ok`'s domain is subtracted from the
/// current instant, whatever the clock returned; anything else is
/// unrecognized, a duration beyond that domain's eleven digits included —
/// a deliberate narrowing that keeps the duration parser's abort state
/// unreachable. A resolved relative instant must fit the i64 seconds
/// range: when the subtraction leaves that range, the error is exactly
/// `OutOfRange`.
pub fn parse_duration(value: &str) -> (r: Result<i64, DateError>)
    ensures
        rfc3339_weak_secs(value@) matches Some(t) ==> r == Ok::<i64, DateError>(t),
        rfc3339_weak_secs(value@) is None && !duration_arg_ok(value@) ==> r == Err::<
            i64,
            DateError,
        >(DateError::Unrecognized),
        rfc3339_weak_secs(value@) is None && duration_arg_ok(value@) && duration_secs(value@)
            is None ==> r == Err::<i64, DateError>(DateError::Unrecognized),
        rfc3339_weak_secs(value@) is None && duration_arg_ok(value@) ==> (duration_secs(value@)
            matches Some(d) ==> {
            &&& exists|now: i64| r == spec_resolve_at(now, DateExpr::Relative(d))
            &&& r is Err ==> r == Err::<i64, DateError>(DateError::OutOfRange)
        }),
{
    match classify_date(value) {
        Ok(DateExpr::Absolute(t)) => Ok(t),
        Ok(DateExpr::Relative(d)) => {
            let now = now_secs();
            let r = resolve_at(now, DateExpr::Relative(d));
            proof {
                assert(r == spec_resolve_at(now, DateExpr::Relative(d)));
            }
            r
        },
        Err(e) => Err(e),
    }
}

/// The lower time bound the take-while stage runs with: the absolute
/// `start_date` or the resolved relative `since`, whichever group is in
/// use. The two groups are mutually exclusive, enforced upstream.
pub fn take_until_bound(dates: &DateRangeFilter, rel: &RelativeRangeFilter) -> (r: Option<i64>)
    requires
        !(dates.start_date is Some && rel.since is Some),
    ensures
        r == if dates.start_date is Some {
            dates.start_date
        } else {
            rel.since
        },
{
    match (dates.start_date, rel.since) {
        (Some(s), None) => Some(s),
        (None, Some(s)) => Some(s),
        (None, None) => None,
        (Some(_), Some(_)) => {
            proof {
                assert(false);
            }
            None
        },
    }
}

/// Resolving the same relative duration at two instants at most
/// `tolerance` apart gives two timestamps at most `tolerance` apart, each
/// lying exactly the duration before its own instant.
pub proof fn lemma_relative_resolution_stable(now1: i64, now2: i64, d: u64, tolerance: int)
    requires
        0 <= tolerance,
        -tolerance <= now2 - now1 <= tolerance,
        i64::MIN <= now1 - d,
        i64::MIN <= now2 - d,
    ensures
        spec_resolve_at(now1, DateExpr::Relative(d)) == Ok::<i64, DateError>((now1 - d) as i64),
        spec_resolve_at(now2, DateExpr::Relative(d)) == Ok::<i64, DateError>((now2 - d) as i64),
        -tolerance <= (now2 - d) - (now1 - d) <= tolerance,
        now1 - d <= now1 && now2 - d <= now2,
{
}

} // verus!
