//! The guard logic shared by the `authorization` and `server-authorization`
//! headers: locate the single header value, split off the `Hawk` scheme, and
//! hand the credential payload to the external parser.

use crate::error::{HawkError, Status};
use crate::hawk_api::{hawk_accepts, parse_credential};
use crate::payload::{digits_bounded, payload_digits_bounded};
use crate::scheme::{
    eq_fold, fold_char, is_first_space, lemma_first_space_unique, payload_of, split_scheme,
    splits_as, token_of,
};
use vstd::prelude::*;

verus! {

/// The scheme token both guards expect, compared under ASCII case folding.
pub open spec fn spec_scheme() -> Seq<char> {
    "Hawk"@
}

/// The outcome a guard owes for a given sequence of raw header values.
pub enum Decision {
    /// Exactly one header value, the scheme matches, and the payload parses.
    Accept,
    /// No usable header: absent, duplicated, without a space, or with a wrong
    /// scheme token; reported as `NoHeader` at the carried status.
    RejectNoHeader(Status),
    /// The scheme matched but the payload failed credential parsing;
    /// reported as `BadHawk` at 401.
    RejectMalformed,
}

/// The decision owed for the raw values `hs` of one request's header: a pure
/// function of the values alone, shared by both guards.
pub open spec fn decision_of(hs: Seq<Seq<char>>) -> Decision {
    if hs.len() == 0 {
        Decision::RejectNoHeader(Status::Unauthorized)
    } else if hs.len() > 1 {
        Decision::RejectNoHeader(Status::BadRequest)
    } else if !splits_as(hs[0], spec_scheme()) {
        Decision::RejectNoHeader(Status::Unauthorized)
    } else if !hawk_accepts(payload_of(hs[0])) {
        Decision::RejectMalformed
    } else {
        Decision::Accept
    }
}

/// The precondition guard evaluation places on a request's header values:
/// when a single header value splits as `Hawk <payload>`, the payload's
/// digit runs must be bounded, so that the external parser's timestamp
/// arithmetic cannot overflow (see [`digits_bounded`]). Callers that cannot
/// establish this decide it with [`admissible_values`].
pub open spec fn admissible(hs: Seq<Seq<char>>) -> bool {
    hs.len() == 1 && splits_as(hs[0], spec_scheme()) ==> digits_bounded(payload_of(hs[0]))
}

/// Decides [`admissible`] for a request's header values.
pub fn admissible_values(headers: &Vec<String>) -> (r: bool)
    ensures
        r == admissible(headers.deep_view()),
{
    if headers.len() == 1 {
        match split_scheme(headers[0].as_str(), "Hawk") {
            Some(p) => payload_digits_bounded(p.as_str()),
            None => true,
        }
    } else {
        true
    }
}

/// A guard outcome obeys the decision owed for the header values `hs`: its
/// shape, error kind and status are exactly those of `decision_of(hs)`.
pub open spec fn outcome_obeys<T>(hs: Seq<Seq<char>>, r: Result<T, (Status, HawkError)>) -> bool {
    match r {
        Ok(_) => decision_of(hs) == Decision::Accept,
        Err(f) => match f.1 {
            HawkError::NoHeader => decision_of(hs) == Decision::RejectNoHeader(f.0),
            HawkError::BadHawk(_) => decision_of(hs) == Decision::RejectMalformed
                && f.0 == Status::Unauthorized,
        },
    }
}

/// Law: a request with no matching header is rejected as `NoHeader` at 401.
pub proof fn lemma_absent_header(hs: Seq<Seq<char>>)
    requires
        hs.len() == 0,
    ensures
        decision_of(hs) == Decision::RejectNoHeader(Status::Unauthorized),
{
}

/// Law: a request with two or more matching headers is rejected as
/// `NoHeader` at 400, whatever the header values hold — even when they are
/// identical, well-formed Hawk values.
pub proof fn lemma_duplicate_headers(hs: Seq<Seq<char>>)
    requires
        hs.len() >= 2,
    ensures
        decision_of(hs) == Decision::RejectNoHeader(Status::BadRequest),
{
}

/// Law: a header value whose first whitespace-delimited token differs from
/// the expected scheme under ASCII case folding is rejected as `NoHeader`
/// at 401, whatever follows the token.
pub proof fn lemma_wrong_scheme(v: Seq<char>, i: int)
    requires
        is_first_space(v, i),
        !eq_fold(v.subrange(0, i), spec_scheme()),
    ensures
        decision_of(seq![v]) == Decision::RejectNoHeader(Status::Unauthorized),
{
    lemma_first_space_unique(v, i);
}

/// Law: a header value containing no space at all is rejected as `NoHeader`
/// at 401, even when the whole value equals the scheme token.
pub proof fn lemma_no_space(v: Seq<char>)
    requires
        forall|j: int| 0 <= j < v.len() ==> v[j] != ' ',
    ensures
        decision_of(seq![v]) == Decision::RejectNoHeader(Status::Unauthorized),
{
    assert(forall|i: int| !is_first_space(v, i));
}

/// Law: scheme recognition is ASCII case-insensitive. Two header values
/// whose scheme tokens agree under ASCII case folding and whose payloads are
/// identical receive the same decision.
pub proof fn lemma_scheme_case_insensitive(u: Seq<char>, v: Seq<char>, i: int)
    requires
        is_first_space(u, i),
        is_first_space(v, i),
        eq_fold(u.subrange(0, i), v.subrange(0, i)),
        u.subrange(i + 1, u.len() as int) == v.subrange(i + 1, v.len() as int),
    ensures
        decision_of(seq![u]) == decision_of(seq![v]),
{
    lemma_first_space_unique(u, i);
    lemma_first_space_unique(v, i);
    let s = spec_scheme();
    if eq_fold(token_of(u), s) {
        assert forall|k: int| 0 <= k < token_of(v).len() implies fold_char(token_of(v)[k])
            == fold_char(s[k]) by {
            assert(fold_char(token_of(u)[k]) == fold_char(token_of(v)[k]));
        }
        assert(eq_fold(token_of(v), s));
    }
    if eq_fold(token_of(v), s) {
        assert forall|k: int| 0 <= k < token_of(u).len() implies fold_char(token_of(u)[k])
            == fold_char(s[k]) by {
            assert(fold_char(token_of(u)[k]) == fold_char(token_of(v)[k]));
        }
        assert(eq_fold(token_of(u), s));
    }
}

/// Selects the single value of the inspected header: exactly one value
/// succeeds, absence fails at 401, duplication fails at 400.
pub fn locate_header(headers: &Vec<String>) -> (r: Result<String, Status>)
    ensures
        match r {
            Ok(v) => headers@.len() == 1 && v@ == headers@[0]@,
            Err(st) => (headers@.len() == 0 && st == Status::Unauthorized) || (headers@.len() > 1
                && st == Status::BadRequest),
        },
{
    if headers.len() == 0 {
        Err(Status::Unauthorized)
    } else if headers.len() == 1 {
        Ok(headers[0].clone())
    } else {
        Err(Status::BadRequest)
    }
}

/// The guard logic shared by both header names: locate the single header
/// value, split off the `Hawk` scheme, and parse the credential payload.
pub fn parse_header(headers: &Vec<String>) -> (r: Result<hawk::Header, (Status, HawkError)>)
    requires
        admissible(headers.deep_view()),
    ensures
        outcome_obeys(headers.deep_view(), r),
{
    let raw = match locate_header(headers) {
        Ok(v) => v,
        Err(st) => {
            return Err((st, HawkError::NoHeader));
        },
    };
    let payload = match split_scheme(raw.as_str(), "Hawk") {
        Some(p) => p,
        None => {
            return Err((Status::Unauthorized, HawkError::NoHeader));
        },
    };
    match parse_credential(payload.as_str()) {
        Ok(h) => Ok(h),
        Err(e) => Err((Status::Unauthorized, HawkError::BadHawk(e))),
    }
}

/// A request guard requiring an `authorization` header with a syntactically
/// valid Hawk value. It is up to the user to validate the credential itself.
///
/// Symmetric to [`ServerAuthorizationHeader`]: both guards owe the outcome
/// that [`decision_of`] gives for the header values they inspect, differing
/// only in which header name the caller reads the values from.
#[derive(Debug)]
pub struct AuthorizationHeader {
    /// The parsed credential.
    pub header: hawk::Header,
}

impl AuthorizationHeader {
    /// Evaluates the guard on the values a request carries for the
    /// `authorization` header.
    pub fn from_header_values(headers: &Vec<String>) -> (r: Result<
        AuthorizationHeader,
        (Status, HawkError),
    >)
        requires
            admissible(headers.deep_view()),
        ensures
            outcome_obeys(headers.deep_view(), r),
    {
        match parse_header(headers) {
            Ok(h) => Ok(AuthorizationHeader { header: h }),
            Err(f) => Err(f),
        }
    }

    /// Read-only access to the parsed credential.
    pub fn header(&self) -> (r: &hawk::Header)
        ensures
            *r == self.header,
    {
        &self.header
    }
}

/// Like [`AuthorizationHeader`], but for the Hawk-specific
/// `server-authorization` header sent by a server to its client.
#[derive(Debug)]
pub struct ServerAuthorizationHeader {
    /// The parsed credential.
    pub header: hawk::Header,
}

impl ServerAuthorizationHeader {
    /// Evaluates the guard on the values a response carries for the
    /// `server-authorization` header.
    pub fn from_header_values(headers: &Vec<String>) -> (r: Result<
        ServerAuthorizationHeader,
        (Status, HawkError),
    >)
        requires
            admissible(headers.deep_view()),
        ensures
            outcome_obeys(headers.deep_view(), r),
    {
        match parse_header(headers) {
            Ok(h) => Ok(ServerAuthorizationHeader { header: h }),
            Err(f) => Err(f),
        }
    }

    /// Read-only access to the parsed credential.
    pub fn header(&self) -> (r: &hawk::Header)
        ensures
            *r == self.header,
    {
        &self.header
    }
}

} // verus!
