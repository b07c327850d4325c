//! The outside type that a rustdoc JSON artifact deserializes into.
use vstd::prelude::*;

verus! {

/// A crate as `rustdoc_types` deserializes it from rustdoc JSON.
#[verifier::external_type_specification]
#[verifier::external_body]
pub struct ExRustdocCrate(rustdoc_types::Crate);

} // verus!
