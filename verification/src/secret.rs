//! Reading a Google console client secret, used by callers that submit the
//! parsed events to a calendar service.
//!
//! The caller reads the secret file; this module parses its bytes through the
//! OAuth crate. The parsed value is opaque to the library and is only handed
//! back to the caller.

use vstd::prelude::*;

verus! {

/// An application secret of the OAuth crate, opaque to the library.
#[verifier::external_type_specification]
#[verifier::external_body]
pub struct ExApplicationSecret(yup_oauth2::ApplicationSecret);

/// Whether the OAuth crate's parser accepts these bytes as a console
/// application secret; the outcome depends on the bytes alone.
pub uninterp spec fn secret_parse_ok(b: Seq<u8>) -> bool;

/// Relies on `yup_oauth2::parse_application_secret`: parses the JSON bytes of
/// a console application secret, succeeding or failing by the bytes alone.
/// The parsed value itself is opaque to the library, so nothing is promised
/// of it.
#[verifier::external_body]
fn parse_secret_bytes(bytes: &[u8]) -> (r: Option<yup_oauth2::ApplicationSecret>)
    ensures
        r is Some <==> secret_parse_ok(bytes@),
{
    yup_oauth2::parse_application_secret(bytes).ok()
}

/// Parses the bytes of a client-secret file, read by the caller, into an
/// application secret; `None` when the bytes are no console secret.
pub fn read_client_secret(bytes: &[u8]) -> (r: Option<yup_oauth2::ApplicationSecret>)
    ensures
        r is Some <==> secret_parse_ok(bytes@),
{
    parse_secret_bytes(bytes)
}

} // verus!
