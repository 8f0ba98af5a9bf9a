//! The one place the library reads the wall clock. Nothing is promised of
//! the value; every function that consumes a timestamp takes it as an
//! argument and is verified for all values of it.
use vstd::prelude::*;

verus! {

/// Relies on time::OffsetDateTime::now_utc and unix_timestamp: the current
/// moment as whole seconds since the Unix epoch. No contract is stated: the
/// clock's value cannot be pinned down.
#[verifier::external_body]
pub(crate) fn current_unix_seconds() -> i64 {
    time::OffsetDateTime::now_utc().unix_timestamp()
}

} // verus!
