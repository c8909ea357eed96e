//! The time of generation, as the report shows it.

use vstd::prelude::*;

verus! {

/// Reads the local time through `chrono::Local::now` and writes it as
/// `YYYY-MM-DD HH:MM:SS`. The text depends on the clock and on the time zone
/// of the machine, so nothing is claimed of it. On a machine whose clock
/// stands before the year 1970 the call panics instead of returning.
#[verifier::external_body]
pub(crate) fn local_timestamp() -> (stamp: String) {
    chrono::Local::now().format("%Y-%m-%d %H:%M:%S").to_string()
}

} // verus!
