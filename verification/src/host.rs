//! What the library asks of the machine it runs on: a fresh identifier, the
//! current time, and the user's directories. None of these is computed from
//! arguments, so their contracts say only what holds of every answer.

use vstd::prelude::*;

verus! {

/// A fresh random identifier.
///
/// Calls `uuid::Uuid::new_v4` and formats the result with its `Display`
/// impl, which writes the hyphenated lower-case form: 36 characters. Nothing
/// is claimed about which identifier comes back.
#[verifier::external_body]
pub(crate) fn fresh_id() -> (r: String)
    ensures
        r@.len() == 36,
{
    uuid::Uuid::new_v4().to_string()
}

/// The current time in seconds since the Unix epoch; negative on a machine
/// whose clock is set before 1970.
///
/// Reads the clock with `std::time::SystemTime::now`, converts with
/// chrono's `From<SystemTime> for DateTime<Utc>` and takes
/// `DateTime::timestamp`. Nothing is claimed about the value.
#[verifier::external_body]
pub(crate) fn unix_now() -> (r: i64)
{
    chrono::DateTime::<chrono::Utc>::from(std::time::SystemTime::now()).timestamp()
}

/// The user's home directory, if the machine knows one.
///
/// Calls `dirs::home_dir`; a path that is not valid Unicode is converted
/// lossily. Nothing is claimed about the answer.
#[verifier::external_body]
pub(crate) fn home_dir() -> (r: Option<String>)
{
    dirs::home_dir().map(|p| p.to_string_lossy().into_owned())
}

/// The user's data directory, if the machine knows one.
///
/// Calls `dirs::data_dir`; a path that is not valid Unicode is converted
/// lossily. Nothing is claimed about the answer.
#[verifier::external_body]
pub(crate) fn data_dir() -> (r: Option<String>)
{
    dirs::data_dir().map(|p| p.to_string_lossy().into_owned())
}

} // verus!
