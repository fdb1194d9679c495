use vstd::prelude::*;

verus! {

/// Reads the wall clock. Relies on chrono's `Utc::now` together with
/// `DateTime::timestamp_nanos_opt`: nanoseconds since the Unix epoch, or
/// `None` when the instant falls outside the representable range. Nothing
/// can be promised about the clock's value.
#[verifier::external_body]
fn clock_now_nanos() -> Option<i64> {
    chrono::Utc::now().timestamp_nanos_opt()
}

/// The instant now in nanoseconds since the Unix epoch; zero when the
/// clock cannot express it. The value depends on the environment, so
/// callers state what holds of every outcome.
pub fn now_unix_nanos() -> i64 {
    match clock_now_nanos() {
        Some(t) => t,
        None => 0,
    }
}

/// The server-assigned instant when one was reported, else the local clock.
pub fn timestamp_or_now(server: Option<i64>) -> (r: i64)
    ensures
        server matches Some(t) ==> r == t,
{
    match server {
        Some(t) => t,
        None => now_unix_nanos(),
    }
}

} // verus!
