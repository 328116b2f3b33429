use vstd::prelude::*;

verus! {

/// Upper bound (exclusive) on the timestamps the formatting functions
/// accept: the first second of year 10000. chrono documents that
/// `DateTime::from_timestamp` is defined well beyond this range, so inside
/// it the conversion never fails.
pub const MAX_TIMESTAMP: i64 = 253402300800;

/// The RFC 3339 rendering ("1970-01-01T00:00:00Z") of a Unix timestamp.
pub uninterp spec fn rfc3339_of(secs: int) -> Seq<char>;

/// The RFC 2822 rendering ("Thu, 1 Jan 1970 00:00:00 +0000") of a Unix
/// timestamp.
pub uninterp spec fn rfc2822_of(secs: int) -> Seq<char>;

/// The compact "%Y-%m-%d_%H-%M-%S" rendering of a Unix timestamp, used in
/// export archive names.
pub uninterp spec fn export_stamp_of(secs: int) -> Seq<char>;

/// Relies on chrono's `Utc::now`: the current wall-clock reading. Nothing
/// is promised of it; callers clamp the value into the range they need.
#[verifier::external_body]
pub fn now_utc_seconds() -> i64 {
    chrono::Utc::now().timestamp()
}

/// Relies on chrono's `DateTime::from_timestamp` (the argument conversion)
/// and `to_rfc3339_opts` with second precision and a `Z` suffix: the text
/// depends on the seconds alone.
#[verifier::external_body]
pub fn format_rfc3339(secs: i64) -> (r: String)
    requires
        0 <= secs < MAX_TIMESTAMP,
    ensures
        r@ == rfc3339_of(secs as int),
{
    match chrono::DateTime::<chrono::Utc>::from_timestamp(secs, 0) {
        Some(dt) => dt.to_rfc3339_opts(chrono::SecondsFormat::Secs, true),
        None => String::new(),
    }
}

/// Relies on chrono's `DateTime::from_timestamp` (the argument conversion)
/// and `to_rfc2822`: the text depends on the seconds alone.
#[verifier::external_body]
pub fn format_rfc2822(secs: i64) -> (r: String)
    requires
        0 <= secs < MAX_TIMESTAMP,
    ensures
        r@ == rfc2822_of(secs as int),
{
    match chrono::DateTime::<chrono::Utc>::from_timestamp(secs, 0) {
        Some(dt) => dt.to_rfc2822(),
        None => String::new(),
    }
}

/// Relies on chrono's `DateTime::from_timestamp` (the argument conversion)
/// and `format` with the fixed pattern `%Y-%m-%d_%H-%M-%S`: the text
/// depends on the seconds alone.
#[verifier::external_body]
pub fn format_export_stamp(secs: i64) -> (r: String)
    requires
        0 <= secs < MAX_TIMESTAMP,
    ensures
        r@ == export_stamp_of(secs as int),
{
    match chrono::DateTime::<chrono::Utc>::from_timestamp(secs, 0) {
        Some(dt) => dt.format("%Y-%m-%d_%H-%M-%S").to_string(),
        None => String::new(),
    }
}

/// The clock reading clamped into the range the formatting functions
/// accept. Only a clock set before 1970 or past year 9999 is altered.
pub fn now_clamped() -> (r: i64)
    ensures
        0 <= r < MAX_TIMESTAMP,
{
    let t = now_utc_seconds();
    if t < 0 {
        0
    } else if t >= MAX_TIMESTAMP {
        MAX_TIMESTAMP - 1
    } else {
        t
    }
}

} // verus!
