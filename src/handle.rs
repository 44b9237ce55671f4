use vstd::prelude::*;
use sequoia_openpgp::KeyHandle;
use crate::error::{SequoiaError, SequoiaErrorKind};

verus! {

#[verifier::external_type_specification]
#[verifier::external_body]
pub struct ExKeyHandle(sequoia_openpgp::KeyHandle);

/// Whether OpenPGP's key-handle syntax (a fingerprint or key ID in hex)
/// accepts the text.
pub uninterp spec fn key_handle_syntax_ok(s: Seq<char>) -> bool;

/// Relies on `<sequoia_openpgp::KeyHandle as FromStr>::from_str`: it parses
/// the text into a structured handle, and whether it succeeds depends on the
/// text alone.
#[verifier::external_body]
fn parse_with_openpgp(s: &str) -> (r: Option<KeyHandle>)
    ensures
        r is Some <==> key_handle_syntax_ok(s@),
{
    s.parse::<KeyHandle>().ok()
}

/// Turns the parser's answer for `key_handle` into the handle or an
/// `InvalidArgument` error that names the text.
pub fn key_handle_from_parsed(key_handle: &str, parsed: Option<KeyHandle>) -> (r: Result<KeyHandle, SequoiaError>)
    ensures
        r is Ok <==> parsed is Some,
        r is Ok ==> r->Ok_0 == parsed->Some_0,
        r is Err ==> r->Err_0.kind == SequoiaErrorKind::InvalidArgument
            && r->Err_0.message@ == "Invalid key handle: "@ + key_handle@,
{
    match parsed {
        Some(h) => Ok(h),
        None => Err(SequoiaError::with_detail(SequoiaErrorKind::InvalidArgument, "Invalid key handle: ", key_handle)),
    }
}

/// Parses a caller-supplied key handle. Bad syntax is an `InvalidArgument`
/// error, kept apart from a handle that is well formed but not found.
pub fn parse_key_handle(key_handle: &str) -> (r: Result<KeyHandle, SequoiaError>)
    ensures
        r is Ok <==> key_handle_syntax_ok(key_handle@),
        r is Err ==> r->Err_0.kind == SequoiaErrorKind::InvalidArgument
            && r->Err_0.message@ == "Invalid key handle: "@ + key_handle@,
{
    let parsed = parse_with_openpgp(key_handle);
    key_handle_from_parsed(key_handle, parsed)
}

} // verus!
