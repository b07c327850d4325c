//! Thin wrappers over base64.
use vstd::prelude::*;

verus! {

/// The padded standard-alphabet base64 encoding of `data`.
pub uninterp spec fn base64_standard(data: Seq<u8>) -> Seq<char>;

/// The unpadded URL-safe base64 encoding of `data`.
pub uninterp spec fn base64_urlsafe_no_pad(data: Seq<u8>) -> Seq<char>;

/// Encodes bytes as standard base64 (padded standard alphabet,
/// `base64::engine::general_purpose::STANDARD`).
#[verifier::external_body]
pub fn encode_standard(data: &[u8]) -> (r: String)
    ensures
        r@ == base64_standard(data@),
{
    <base64::engine::GeneralPurpose as base64::Engine>::encode(
        &base64::engine::general_purpose::STANDARD,
        data,
    )
}

/// Encodes bytes as URL-safe base64 without padding
/// (`base64::engine::general_purpose::URL_SAFE_NO_PAD`).
#[verifier::external_body]
pub fn encode_urlsafe(data: &[u8]) -> (r: String)
    ensures
        r@ == base64_urlsafe_no_pad(data@),
{
    <base64::engine::GeneralPurpose as base64::Engine>::encode(
        &base64::engine::general_purpose::URL_SAFE_NO_PAD,
        data,
    )
}

} // verus!
