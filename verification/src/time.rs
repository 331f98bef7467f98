//! Expiration timestamps: instants as Unix seconds, rendered to and read
//! from the fixed RFC 2822 format the storage backend carries.

use vstd::prelude::*;

verus! {

/// The last second the expiration formatter accepts:
/// 9999-12-31 23:59:59 UTC, far inside chrono's documented range.
pub const MAX_FORMAT_SECS: i64 = 253402300799;

/// The instant an RFC 2822 string denotes, in Unix seconds, or nothing
/// when the string does not parse. chrono decides; the name stands for its
/// answer, a function of the string alone.
pub uninterp spec fn rfc2822_secs(s: Seq<char>) -> Option<int>;

/// The RFC 2822 rendering of the instant `t` Unix seconds after the epoch.
/// chrono decides; the name stands for its answer, a function of the
/// instant alone.
pub uninterp spec fn rfc2822_of(t: int) -> Seq<char>;

/// Relies on chrono's `DateTime::parse_from_rfc2822` and `timestamp`: the
/// outcome depends on the string alone.
#[verifier::external_body]
pub(crate) fn parse_rfc2822(s: &str) -> (r: Option<i64>)
    ensures
        r is Some <==> rfc2822_secs(s@) is Some,
        r matches Some(t) ==> rfc2822_secs(s@) == Some(t as int),
{
    match chrono::DateTime::parse_from_rfc2822(s) {
        Ok(d) => Some(d.timestamp()),
        Err(_) => None,
    }
}

/// Relies on chrono's `DateTime::from_timestamp` and `to_rfc2822`: the
/// rendering depends on the instant alone, and every second from the epoch
/// to year 9999 is inside the documented supported range.
#[verifier::external_body]
pub(crate) fn format_rfc2822(t: i64) -> (r: String)
    requires
        0 <= t <= MAX_FORMAT_SECS,
    ensures
        r@ == rfc2822_of(t as int),
{
    match chrono::DateTime::from_timestamp(t, 0) {
        Some(d) => d.to_rfc2822(),
        None => String::new(),
    }
}

/// Relies on chrono's `Utc::now` and `timestamp`: seconds since the Unix
/// epoch, whatever the clock says.
#[verifier::external_body]
pub(crate) fn now_unix_seconds() -> i64 {
    chrono::Utc::now().timestamp()
}

/// The expiration instant for an upload made at `now` that should live
/// `duration_secs`: their sum, clamped into the formatter's range.
pub open spec fn expiry_at(now: int, duration_secs: int) -> int {
    let s = now + (if duration_secs > MAX_FORMAT_SECS {
        MAX_FORMAT_SECS as int
    } else {
        duration_secs
    });
    if s < 0 {
        0
    } else if s > MAX_FORMAT_SECS {
        MAX_FORMAT_SECS as int
    } else {
        s
    }
}

/// Computes `expiry_at` without overflow.
pub fn compute_expiry(now: i64, duration_secs: u64) -> (r: i64)
    ensures
        r == expiry_at(now as int, duration_secs as int),
        0 <= r <= MAX_FORMAT_SECS,
{
    let d: i64 = if duration_secs > MAX_FORMAT_SECS as u64 {
        MAX_FORMAT_SECS
    } else {
        duration_secs as i64
    };
    match now.checked_add(d) {
        Some(s) => {
            if s < 0 {
                0
            } else if s > MAX_FORMAT_SECS {
                MAX_FORMAT_SECS
            } else {
                s
            }
        },
        None => MAX_FORMAT_SECS,
    }
}

} // verus!
