//! The graphics backend's error value, carried opaquely.

use vstd::prelude::*;

verus! {

#[verifier::external_type_specification]
#[verifier::external_body]
pub struct ExBackendError(windows::core::Error);

/// Relies on `windows::core::Error::message`: the error's own text, or the
/// system's text for its code.
#[verifier::external_body]
pub(crate) fn backend_message(error: &windows::core::Error) -> (r: String) {
    error.message().to_string()
}

} // verus!
