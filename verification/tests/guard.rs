use hawk_guard::{
    admissible_values, AuthorizationHeader, HawkError, ServerAuthorizationHeader, Status,
};

const HEADER: &str = "id=\"xyz\", ts=\"1353832234\", nonce=\"abc\", mac=\"6R4rV5iE+NPoym+WwjeHzjAGXUtLNIxmo1vpMofpLAE=\"";

fn values(vs: &[&str]) -> Vec<String> {
    vs.iter().map(|v| v.to_string()).collect()
}

#[test]
fn test_noheader() {
    match AuthorizationHeader::from_header_values(&values(&[])) {
        Err((st, HawkError::NoHeader)) => {
            assert_eq!(st, Status::Unauthorized);
        }
        _ => panic!("did not get NoHeader"),
    }
}

#[test]
fn test_header_diff_scheme() {
    match AuthorizationHeader::from_header_values(&values(&["bearer 123"])) {
        Err((st, HawkError::NoHeader)) => {
            assert_eq!(st, Status::Unauthorized);
        }
        _ => panic!("did not get NoHeader"),
    }
}

#[test]
fn test_header_bad_header_no_space() {
    match AuthorizationHeader::from_header_values(&values(&["abcdefg"])) {
        Err((st, HawkError::NoHeader)) => {
            assert_eq!(st, Status::Unauthorized);
        }
        _ => panic!("did not get NoHeader"),
    }
}

#[test]
fn test_header_bad_header_bad_hawk() {
    match AuthorizationHeader::from_header_values(&values(&["Hawk nosuchfield=\"abc\""])) {
        Err((st, HawkError::BadHawk(hawk::Error::HeaderParseError(ref msg))))
            if msg == "Invalid Hawk field nosuchfield" =>
        {
            assert_eq!(st, Status::Unauthorized);
        }
        _ => panic!("did not get BadHawk"),
    }
}

#[test]
fn test_header_multiple_header() {
    // note that even two Hawk headers are not allowed
    let hdr = format!("Hawk {}", HEADER);
    match AuthorizationHeader::from_header_values(&values(&[&hdr, &hdr])) {
        Err((st, HawkError::NoHeader)) => {
            assert_eq!(st, Status::BadRequest);
        }
        _ => panic!("did not get NoHeader"),
    }
}

#[test]
fn test_header_good_header() {
    let hdr = format!("Hawk {}", HEADER);
    match AuthorizationHeader::from_header_values(&values(&[&hdr])) {
        Ok(ref h) if h.header().id == Some("xyz".to_string()) => {}
        _ => panic!("did not get header"),
    }
}

// Just one test for ServerAuthorization, since it shares its implementation
// with Authorization.
#[test]
fn test_header_good_server_auth_header() {
    let hdr = format!("Hawk {}", HEADER);
    match ServerAuthorizationHeader::from_header_values(&values(&[&hdr])) {
        Ok(ref h) if h.header().id == Some("xyz".to_string()) => {}
        _ => panic!("did not get header"),
    }
}

#[test]
fn test_status_codes() {
    assert_eq!(Status::Unauthorized.code(), 401);
    assert_eq!(Status::BadRequest.code(), 400);
}

#[test]
fn test_scheme_case_insensitive() {
    for scheme in ["Hawk", "hawk", "HAWK", "hAwK"] {
        let hdr = format!("{} {}", scheme, HEADER);
        match AuthorizationHeader::from_header_values(&values(&[&hdr])) {
            Ok(ref h) => {
                assert_eq!(h.header().id, Some("xyz".to_string()));
                assert_eq!(h.header().nonce, Some("abc".to_string()));
            }
            _ => panic!("scheme {} was not accepted", scheme),
        }
    }
}

#[test]
fn test_scheme_alone_without_space() {
    // the whole value equals the scheme token, but without the delimiting
    // space it is not usable
    match AuthorizationHeader::from_header_values(&values(&["Hawk"])) {
        Err((st, HawkError::NoHeader)) => {
            assert_eq!(st, Status::Unauthorized);
        }
        _ => panic!("did not get NoHeader"),
    }
}

#[test]
fn test_empty_payload_parses_as_empty_credential() {
    // the payload after the single delimiting space may be empty; the
    // external grammar accepts it as a credential with no fields
    match AuthorizationHeader::from_header_values(&values(&["Hawk "])) {
        Ok(ref h) => {
            assert_eq!(h.header().id, None);
            assert_eq!(h.header().nonce, None);
            assert_eq!(h.header().mac, None);
        }
        _ => panic!("did not get header"),
    }
}

#[test]
fn test_payload_passed_unmodified() {
    // the payload begins immediately after the first space; a second space
    // belongs to the payload and reaches the external parser as-is
    match AuthorizationHeader::from_header_values(&values(&["Hawk  id=\"xyz\""])) {
        Ok(ref h) => {
            assert_eq!(h.header().id, Some("xyz".to_string()));
        }
        _ => panic!("did not get header"),
    }
}

#[test]
fn test_admissible_values() {
    // ordinary inputs are admissible, including every case the other tests use
    assert!(admissible_values(&values(&[])));
    assert!(admissible_values(&values(&["bearer 123"])));
    assert!(admissible_values(&values(&["abcdefg"])));
    assert!(admissible_values(&values(&[&format!("Hawk {}", HEADER)])));
    assert!(admissible_values(&values(&["Hawk nosuchfield=\"abc\""])));
    // a `ts` above i64::MAX would make the external parser's SystemTime
    // arithmetic panic; such values are not admissible
    assert!(!admissible_values(&values(&["Hawk ts=\"9223372036854775808\""])));
    assert!(!admissible_values(&values(&["hawk ts=\"18446744073709551615\""])));
    // a value that does not split as `Hawk <payload>` never reaches the
    // parser, so its digit runs do not matter
    assert!(admissible_values(&values(&["bearer 9223372036854775808"])));
    // an 18-significant-digit timestamp stays within bounds
    assert!(admissible_values(&values(&["Hawk ts=\"999999999999999999\""])));
}

#[test]
fn test_large_admissible_ts_parses() {
    // the largest `ts` the digit-run bound admits is parsed successfully
    match AuthorizationHeader::from_header_values(&values(&["Hawk ts=\"999999999999999999\""])) {
        Ok(ref h) => assert!(h.header().ts.is_some()),
        _ => panic!("did not get header"),
    }
}

#[test]
fn test_guards_behave_identically() {
    let good = format!("Hawk {}", HEADER);
    let cases: Vec<Vec<String>> = vec![
        values(&[]),
        values(&["bearer 123"]),
        values(&["abcdefg"]),
        values(&["Hawk nosuchfield=\"abc\""]),
        values(&[&good, &good]),
        values(&[&good]),
    ];
    for case in cases {
        let a = AuthorizationHeader::from_header_values(&case);
        let s = ServerAuthorizationHeader::from_header_values(&case);
        match (a, s) {
            (Ok(ha), Ok(hs)) => assert_eq!(ha.header(), hs.header()),
            (Err((sta, HawkError::NoHeader)), Err((sts, HawkError::NoHeader))) => {
                assert_eq!(sta, sts)
            }
            (Err((sta, HawkError::BadHawk(_))), Err((sts, HawkError::BadHawk(_)))) => {
                assert_eq!(sta, sts)
            }
            _ => panic!("guards disagree"),
        }
    }
}
