//! Timestamps: UTC instants held as whole seconds since the Unix epoch, and
//! their RFC 2822 text rendering.

use vstd::prelude::*;

verus! {

/// One second past the last instant of year 9999; the RFC 2822 rendering is
/// defined for non-negative timestamps below this bound (four-digit years).
pub const TS_RENDER_LIMIT: i64 = 253402300800;

/// Timestamps whose RFC 2822 rendering is defined: from the Unix epoch up to
/// the end of year 9999.
pub open spec fn ts_renderable(t: int) -> bool {
    0 <= t < TS_RENDER_LIMIT
}

/// The RFC 2822 date-and-time text of the UTC instant `t` seconds after the
/// Unix epoch. Left uninterpreted: the text is a fixed function of the
/// instant alone, produced by the `chrono` crate.
pub uninterp spec fn rfc2822_of(t: int) -> Seq<char>;

/// Relies on `chrono`: `DateTime::<Utc>::from_timestamp` succeeds on every
/// renderable number of seconds, and `to_rfc2822` of a UTC instant depends on
/// the instant alone and returns (years 1970 to 9999 fit its format).
#[verifier::external_body]
pub(crate) fn format_rfc2822(t: i64) -> (r: String)
    requires
        ts_renderable(t as int),
    ensures
        r@ == rfc2822_of(t as int),
{
    let instant = chrono::DateTime::<chrono::Utc>::from_timestamp(t, 0).unwrap();
    instant.to_rfc2822()
}

/// Relies on `chrono::Utc::now`: the system clock's reading as whole seconds
/// since the Unix epoch; non-negative whenever the call returns.
#[verifier::external_body]
pub(crate) fn current_timestamp() -> (t: i64)
    ensures
        t >= 0,
{
    chrono::Utc::now().timestamp()
}

} // verus!
