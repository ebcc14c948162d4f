use vstd::prelude::*;

verus! {

/// The template engine's error, carried through opaquely.
#[verifier::external_type_specification]
#[verifier::external_body]
pub struct ExTeraError(tera::Error);

} // verus!
