//! Trusted boundary to the `hawk` crate's credential-grammar parser.
//!
//! The credential grammar itself (field names, timestamp and MAC syntax) is
//! an external collaborator: this library treats the parser as a black box
//! whose acceptance of a payload is named by [`hawk_accepts`].

use crate::payload::digits_bounded;
use std::str::FromStr;
use vstd::prelude::*;

verus! {

/// `hawk::Header`, the structured credential the external parser produces.
/// Opaque here: this library carries it through without reading its fields.
#[verifier::external_type_specification]
#[verifier::external_body]
pub struct ExHawkHeader(hawk::Header);

/// `hawk::Error`, the external parser's error type. Opaque here: it is
/// wrapped verbatim into a guard failure and surfaced to the caller.
#[verifier::external_type_specification]
#[verifier::external_body]
pub struct ExHawkError(hawk::Error);

/// Whether the external credential grammar accepts a payload. The result of
/// `hawk::Header::from_str` is a function of the characters of its argument
/// alone.
pub uninterp spec fn hawk_accepts(payload: Seq<char>) -> bool;

/// Relies on `hawk::Header::from_str`: parses a credential payload into a
/// structured credential or a grammar error. The parser reads only its
/// argument, but it does not return on every input: a `ts` field whose
/// seconds exceed `i64::MAX` makes its `SystemTime` arithmetic panic. A
/// payload with bounded digit runs keeps every `ts` the parser can read
/// below `10^18` seconds, so the call returns on all admitted inputs.
#[verifier::external_body]
pub(crate) fn parse_credential(payload: &str) -> (r: Result<hawk::Header, hawk::Error>)
    requires
        digits_bounded(payload@),
    ensures
        r is Ok <==> hawk_accepts(payload@),
{
    hawk::Header::from_str(payload)
}

} // verus!
