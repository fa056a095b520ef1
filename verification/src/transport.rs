//! The transport's failure, as the library carries it.

use vstd::prelude::*;
use http_client::http_types::Error as TransportError;

verus! {

/// The transport's error type. The library hands it on and never looks inside.
#[verifier::external_type_specification]
#[verifier::external_body]
pub struct ExTransportError(TransportError);

/// `Display` of the transport's error, through `format!`. Nothing is claimed
/// of the text.
#[verifier::external_body]
pub(crate) fn describe(failure: &TransportError) -> (r: String) {
    format!("{}", failure)
}

} // verus!
