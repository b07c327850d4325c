//! Cargo metadata JSON: parsing a blob that cargo wrote earlier.
use vstd::prelude::*;

use crate::cargo::CargoUniverse;
use crate::error::IndexError;

verus! {

/// What `cargo metadata` reports, as `cargo_metadata` deserializes it.
#[verifier::external_type_specification]
#[verifier::external_body]
pub struct ExMetadata(cargo_metadata::Metadata);

/// Whether `serde_json` deserializes `json` into a
/// `cargo_metadata::Metadata`: `None` when it does, else the text of its
/// error.
pub uninterp spec fn metadata_parse_error(json: Seq<char>) -> Option<Seq<char>>;

/// Deserializes `json` into a `cargo_metadata::Metadata` with
/// `serde_json::from_str`; an error comes back as its text.
#[verifier::external_body]
fn parse_metadata(json: &str) -> (r: Result<cargo_metadata::Metadata, String>)
    ensures
        match r {
            Ok(_) => metadata_parse_error(json@) is None,
            Err(e) => metadata_parse_error(json@) == Some(e@),
        },
{
    match serde_json::from_str::<cargo_metadata::Metadata>(json) {
        Ok(m) => Ok(m),
        Err(e) => Err(e.to_string()),
    }
}

impl CargoUniverse {
    /// Parses an existing cargo metadata JSON blob (format version 1) and
    /// builds the universe of what it reports with `convert`. A blob that
    /// does not parse is a `CargoMetadata` error carrying the parser's
    /// words.
    pub fn from_metadata_json<F>(json: &str, convert: F) -> (r: Result<CargoUniverse, IndexError>) where
        F: Fn(&cargo_metadata::Metadata) -> CargoUniverse,

        requires
            forall|m: &cargo_metadata::Metadata| call_requires(convert, (m,)),
        ensures
            match metadata_parse_error(json@) {
                Some(cause) => r matches Err(IndexError::CargoMetadata { message }) && message@
                    == cause,
                None => r matches Ok(u) && exists|m: cargo_metadata::Metadata|
                    #[trigger] call_ensures(convert, (&m,), u),
            },
    {
        match parse_metadata(json) {
            Ok(m) => Ok(convert(&m)),
            Err(cause) => Err(IndexError::cargo_metadata(cause)),
        }
    }
}

} // verus!
