//! Identifiers that the server makes up.

use vstd::prelude::*;

verus! {

/// Draws an id at random.
///
/// Trusted: calls `uuid::Uuid::new_v4()` and writes the result with its
/// `Display` impl. The id comes from the operating system's random numbers,
/// so nothing is claimed of it.
#[verifier::external_body]
pub(crate) fn fresh_id() -> (id: String) {
    uuid::Uuid::new_v4().to_string()
}

} // verus!
