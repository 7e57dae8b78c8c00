//! What only the machine knows: the time, fresh identifiers, where the
//! user's data lives. Nothing can be said of these values in advance, so
//! whatever uses them is written for every value they may have.

use vstd::prelude::*;

verus! {

/// The current time in UTC as an RFC 3339 text.
///
/// Trusted: wraps `chrono::Utc::now` and renders its result with
/// `DateTime::to_rfc3339`. Nothing is claimed of the text. `Utc::now` gives
/// up where the system clock stands before 1970.
#[verifier::external_body]
pub(crate) fn now_rfc3339() -> (now: String) {
    chrono::Utc::now().to_rfc3339()
}

/// A fresh random identifier, as text.
///
/// Trusted: wraps `uuid::Uuid::new_v4` and renders its result. Nothing is
/// claimed of the text. `new_v4` gives up where the system's source of
/// random numbers fails.
#[verifier::external_body]
pub(crate) fn fresh_uuid() -> (id: String) {
    uuid::Uuid::new_v4().to_string()
}

/// The directory for the user's local data, where the system has one.
///
/// Trusted: wraps `dirs::data_local_dir` and renders the path as text.
/// Nothing is claimed of the result.
#[verifier::external_body]
pub(crate) fn data_local_dir() -> (dir: Option<String>) {
    dirs::data_local_dir().map(|path| path.to_string_lossy().to_string())
}

} // verus!
