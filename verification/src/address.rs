//! Resolving a relative reference against a base address.

use vstd::prelude::*;
use http_client::http_types::Url;
use crate::codec::text_of;

verus! {

/// The absolute address that a reference resolves to against a base, or none
/// where the base is no absolute address or the reference cannot be resolved
/// against it. The rules are those of the URL parser; the library does not
/// restate them.
pub uninterp spec fn resolved(base: Seq<char>, reference: Seq<char>) -> Option<Seq<char>>;

/// `Url::join` of the transport's URL type, on a base read with `Url::parse`.
/// The contract only names the outcome: the serialised address where both
/// calls succeed, none where either fails. Both depend on their arguments
/// alone and neither panics.
#[verifier::external_body]
pub(crate) fn resolve(base: &str, reference: &str) -> (r: Option<String>)
    ensures
        text_of(r) == resolved(base@, reference@),
{
    let base = Url::parse(base).ok()?;
    base.join(reference).ok().map(String::from)
}

} // verus!
