//! The one place the library touches the wall clock: producing the text
//! of the `Date` response header.  Nothing is or can be promised about
//! the value that comes back, so everything downstream treats the date
//! as an arbitrary string.

use vstd::prelude::*;

verus! {

/// `time::OffsetDateTime` carried opaquely through the library.
#[verifier::external_type_specification]
#[verifier::external_body]
pub struct ExOffsetDateTime(time::OffsetDateTime);

/// Relies on `time::OffsetDateTime::now_utc`: reads the wall clock, so
/// nothing holds of the result.
#[verifier::external_body]
pub(crate) fn now_utc() -> time::OffsetDateTime {
    time::OffsetDateTime::now_utc()
}

/// Relies on `time::OffsetDateTime::format`: renders the instant in the
/// RFC 2822 shape; the value depends on the instant, so nothing holds
/// of the result.
#[verifier::external_body]
pub(crate) fn format_rfc2822(t: time::OffsetDateTime) -> Option<String> {
    t.format(&time::format_description::well_known::Rfc2822).ok()
}

} // verus!
