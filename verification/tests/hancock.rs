use commune::hancock::chars::parse_maybe_quoted;
use commune::hancock::{
    InvalidHeaderName, ParseError, SignError, Signature, SignatureHeaderName, VerifyError,
};
use http::header::{HeaderMap, HeaderValue};

fn sample_headers() -> HeaderMap {
    let mut headers = HeaderMap::new();
    headers.insert("host", HeaderValue::from_static("example.com"));
    headers.insert("date", HeaderValue::from_static("Tue, 07 Jun 2014 20:51:35 GMT"));
    headers.append("accept", HeaderValue::from_static("text/html"));
    headers.append("accept", HeaderValue::from_static("application/json"));
    headers
}

/// A toy signing function: the bytes of the body in reverse, after a key byte.
fn toy_sign(key: u8, body: &[u8]) -> Vec<u8> {
    let mut out = vec![key];
    out.extend(body.iter().rev());
    out
}

fn names(sig: &Signature) -> Vec<String> {
    sig.headers
        .as_ref()
        .unwrap()
        .iter()
        .map(|n: &SignatureHeaderName| n.as_str().to_string())
        .collect()
}

#[test]
fn create_at_builds_the_signing_string() {
    let headers = sample_headers();
    let mut seen: Vec<u8> = Vec::new();
    let sig = Signature::create_at(
        1000,
        "https://example.com/users/alice#main-key",
        "POST",
        "/inbox?x=1",
        300,
        &headers,
        |body: Vec<u8>| -> Result<Vec<u8>, ()> {
            seen = body.clone();
            Ok(vec![1, 2, 3])
        },
    )
    .unwrap();
    let expected = "(request-target): post /inbox?x=1\n(created): 1000\n(expires): 1300\nhost: example.com\ndate: Tue, 07 Jun 2014 20:51:35 GMT\naccept: text/html, application/json";
    assert_eq!(String::from_utf8(seen).unwrap(), expected);
    assert_eq!(sig.created, Some(1000));
    assert_eq!(sig.expires, Some(1300));
    assert_eq!(sig.algorithm, Some(String::from("hs2019")));
    assert_eq!(sig.key_id, Some(String::from("https://example.com/users/alice#main-key")));
    assert_eq!(sig.signature, vec![1, 2, 3]);
    assert_eq!(
        names(&sig),
        vec!["(request-target)", "(created)", "(expires)", "host", "date", "accept"]
    );
    assert_eq!(
        sig.to_header(),
        "headers=\"(request-target) (created) (expires) host date accept\",algorithm=hs2019,created=1000,expires=1300,keyId=\"https://example.com/users/alice#main-key\",signature=\"AQID\""
    );
}

#[test]
fn create_round_trips_and_verifies_again() {
    let headers = sample_headers();
    let made = Signature::create_at(
        1000,
        "https://example.com/users/alice#main-key",
        "POST",
        "/inbox",
        300,
        &headers,
        |body: Vec<u8>| -> Result<Vec<u8>, ()> { Ok(toy_sign(7, &body)) },
    )
    .unwrap();
    let text = made.to_header();
    let read = Signature::parse(&text).unwrap();
    assert_eq!(read.algorithm, made.algorithm);
    assert_eq!(read.created, made.created);
    assert_eq!(read.expires, made.expires);
    assert_eq!(read.key_id, made.key_id);
    assert_eq!(read.signature, made.signature);
    assert_eq!(names(&read), names(&made));
    assert_eq!(read, made);
    assert_eq!(read.to_header(), text);
    let ok = read
        .verify_at(1300, "POST", "/inbox", &headers, |body: &[u8], sig: &[u8]| -> Result<bool, ()> {
            Ok(toy_sign(7, body) == sig)
        })
        .unwrap();
    assert!(ok);
    let other_key = read
        .verify_at(1300, "POST", "/inbox", &headers, |body: &[u8], sig: &[u8]| -> Result<bool, ()> {
            Ok(toy_sign(8, body) == sig)
        })
        .unwrap();
    assert!(!other_key);
}

#[test]
fn create_and_verify_by_the_clock() {
    let headers = sample_headers();
    let made = Signature::create(
        "k#main-key",
        "GET",
        "/users/alice",
        300,
        &headers,
        |body: Vec<u8>| -> Result<Vec<u8>, ()> { Ok(toy_sign(1, &body)) },
    )
    .unwrap();
    let created = made.created.unwrap();
    assert!(created > 1_600_000_000);
    assert_eq!(made.expires, Some(created + 300));
    let ok = made
        .verify("GET", "/users/alice", &headers, |body: &[u8], sig: &[u8]| -> Result<bool, ()> {
            Ok(toy_sign(1, body) == sig)
        })
        .unwrap();
    assert!(ok);
}

#[test]
fn verify_is_false_once_expired_even_with_a_good_signature() {
    let headers = sample_headers();
    let made = Signature::create_at(
        1000,
        "k",
        "POST",
        "/inbox",
        300,
        &headers,
        |body: Vec<u8>| -> Result<Vec<u8>, ()> { Ok(toy_sign(7, &body)) },
    )
    .unwrap();
    let mut called = false;
    let at_expiry = made
        .verify_at(1300, "POST", "/inbox", &headers, |_: &[u8], _: &[u8]| -> Result<bool, ()> {
            Ok(true)
        })
        .unwrap();
    assert!(at_expiry);
    let late = made
        .verify_at(1301, "POST", "/inbox", &headers, |_: &[u8], _: &[u8]| -> Result<bool, ()> {
            called = true;
            Ok(true)
        })
        .unwrap();
    assert!(!late);
    assert!(!called);
    // in the past by the clock as well
    let by_clock = made
        .verify("POST", "/inbox", &headers, |_: &[u8], _: &[u8]| -> Result<bool, ()> { Ok(true) })
        .unwrap();
    assert!(!by_clock);
}

#[test]
fn verify_fails_when_a_signed_header_is_altered_or_missing() {
    let headers = sample_headers();
    let made = Signature::create_at(
        1000,
        "k",
        "POST",
        "/inbox",
        300,
        &headers,
        |body: Vec<u8>| -> Result<Vec<u8>, ()> { Ok(toy_sign(7, &body)) },
    )
    .unwrap();
    let check = |body: &[u8], sig: &[u8]| -> Result<bool, ()> { Ok(toy_sign(7, body) == sig) };

    let mut altered = sample_headers();
    altered.insert("host", HeaderValue::from_static("evil.example"));
    assert!(!made.verify_at(1100, "POST", "/inbox", &altered, check).unwrap());

    let mut missing = sample_headers();
    missing.remove("date");
    assert!(!made.verify_at(1100, "POST", "/inbox", &missing, check).unwrap());
    let yes = |_: &[u8], _: &[u8]| -> Result<bool, ()> { Ok(true) };
    assert!(!made.verify_at(1100, "POST", "/inbox", &missing, yes).unwrap());

    // headers that the signature does not name may change
    let mut more = sample_headers();
    more.insert("x-other", HeaderValue::from_static("1"));
    assert!(made.verify_at(1100, "POST", "/inbox", &more, check).unwrap());

    // another target
    assert!(!made.verify_at(1100, "POST", "/outbox", &headers, check).unwrap());
    assert!(!made.verify_at(1100, "GET", "/inbox", &headers, check).unwrap());
}

#[test]
fn verify_rebuilds_the_string_from_the_names_of_the_signature() {
    let mut headers = sample_headers();
    headers.insert("x-empty", HeaderValue::from_static(""));
    let sig = Signature {
        algorithm: None,
        created: Some(5),
        expires: None,
        headers: Some(vec![
            SignatureHeaderName::NormalHeader(String::from("accept")),
            SignatureHeaderName::Created,
            SignatureHeaderName::RequestTarget,
            SignatureHeaderName::NormalHeader(String::from("x-empty")),
        ]),
        key_id: None,
        signature: vec![9],
    };
    let mut seen = Vec::new();
    let mut seen_sig = Vec::new();
    let r = sig
        .verify_at(0, "PoSt", "/a", &headers, |body: &[u8], s: &[u8]| -> Result<bool, ()> {
            seen = body.to_vec();
            seen_sig = s.to_vec();
            Ok(true)
        })
        .unwrap();
    assert!(r);
    assert_eq!(
        String::from_utf8(seen).unwrap(),
        "accept: text/html, application/json\n(created): 5\n(request-target): post /a\nx-empty: "
    );
    assert_eq!(seen_sig, vec![9]);
}

#[test]
fn verify_is_false_without_a_check_where_a_named_header_is_missing() {
    let mut headers = sample_headers();
    headers.insert("x-empty", HeaderValue::from_static(""));
    let sig = Signature {
        algorithm: None,
        created: Some(5),
        expires: None,
        headers: Some(vec![
            SignatureHeaderName::RequestTarget,
            SignatureHeaderName::NormalHeader(String::from("x-empty")),
        ]),
        key_id: None,
        signature: vec![9],
    };
    let yes = |_: &[u8], _: &[u8]| -> Result<bool, ()> { Ok(true) };
    assert!(sig.verify_at(0, "GET", "/", &headers, yes).unwrap());
    // the header taken away, a check that accepts everything is not even asked
    headers.remove("x-empty");
    let mut called = false;
    let r = sig
        .verify_at(0, "GET", "/", &headers, |_: &[u8], _: &[u8]| -> Result<bool, ()> {
            called = true;
            Ok(true)
        })
        .unwrap();
    assert!(!r);
    assert!(!called);
    // a name that is no header name names no header of the request
    let odd = Signature {
        algorithm: None,
        created: None,
        expires: None,
        headers: Some(vec![SignatureHeaderName::NormalHeader(String::from("no header"))]),
        key_id: None,
        signature: vec![],
    };
    assert!(!odd.verify_at(0, "GET", "/", &headers, yes).unwrap());
    // a name in upper case finds the header and is written as it stands
    let upper = Signature {
        algorithm: None,
        created: None,
        expires: None,
        headers: Some(vec![SignatureHeaderName::NormalHeader(String::from("Host"))]),
        key_id: None,
        signature: vec![],
    };
    let mut seen = Vec::new();
    assert!(upper
        .verify_at(0, "GET", "/", &headers, |body: &[u8], _: &[u8]| -> Result<bool, ()> {
            seen = body.to_vec();
            Ok(true)
        })
        .unwrap());
    assert_eq!(seen, b"Host: example.com".to_vec());
}

#[test]
fn verify_is_false_where_a_time_is_named_that_the_signature_lacks() {
    let headers = sample_headers();
    let mut sig = Signature {
        algorithm: None,
        created: None,
        expires: None,
        headers: Some(vec![SignatureHeaderName::RequestTarget, SignatureHeaderName::Created]),
        key_id: None,
        signature: vec![],
    };
    let yes = |_: &[u8], _: &[u8]| -> Result<bool, ()> { Ok(true) };
    assert!(!sig.verify_at(0, "GET", "/", &headers, yes).unwrap());
    sig.headers = Some(vec![SignatureHeaderName::Expires]);
    assert!(!sig.verify_at(0, "GET", "/", &headers, yes).unwrap());
    // without a list of names the (created) line alone is signed
    sig.headers = None;
    assert!(!sig.verify_at(0, "GET", "/", &headers, yes).unwrap());
    sig.created = Some(12);
    let mut seen = Vec::new();
    assert!(sig
        .verify_at(0, "GET", "/", &headers, |body: &[u8], _: &[u8]| -> Result<bool, ()> {
            seen = body.to_vec();
            Ok(true)
        })
        .unwrap());
    assert_eq!(seen, b"(created): 12".to_vec());
}

#[test]
fn verify_hands_on_the_error_of_the_checking_function() {
    let headers = sample_headers();
    let sig = Signature {
        algorithm: None,
        created: Some(1),
        expires: None,
        headers: None,
        key_id: None,
        signature: vec![],
    };
    let r = sig.verify_at(0, "GET", "/", &headers, |_: &[u8], _: &[u8]| -> Result<bool, u8> {
        Err(42)
    });
    assert!(matches!(r, Err(VerifyError::User(42))));
}

#[test]
fn create_errors() {
    let headers = sample_headers();
    let r = Signature::create_at(
        u64::MAX,
        "k",
        "GET",
        "/",
        1,
        &headers,
        |_: Vec<u8>| -> Result<Vec<u8>, u8> { Ok(vec![]) },
    );
    assert!(matches!(r, Err(SignError::Lifetime)));
    let r = Signature::create_at(
        u64::MAX - 1,
        "k",
        "GET",
        "/",
        1,
        &headers,
        |_: Vec<u8>| -> Result<Vec<u8>, u8> { Ok(vec![]) },
    );
    assert_eq!(r.unwrap().expires, Some(u64::MAX));
    let r = Signature::create_at(
        1,
        "k",
        "GET",
        "/",
        1,
        &headers,
        |_: Vec<u8>| -> Result<Vec<u8>, u8> { Err(3) },
    );
    assert!(matches!(r, Err(SignError::User(3))));
}

#[test]
fn create_legacy_needs_a_date() {
    let mut headers = HeaderMap::new();
    headers.insert("host", HeaderValue::from_static("example.com"));
    let r = Signature::create_legacy("k", "GET", "/", &headers, |_: Vec<u8>| -> Result<Vec<u8>, ()> {
        Ok(vec![])
    });
    assert!(matches!(r, Err(SignError::MissingDate)));

    headers.insert("Date", HeaderValue::from_static("today"));
    let mut seen = Vec::new();
    let sig = Signature::create_legacy(
        "k",
        "GET",
        "/x",
        &headers,
        |body: Vec<u8>| -> Result<Vec<u8>, ()> {
            seen = body.clone();
            Ok(toy_sign(2, &body))
        },
    )
    .unwrap();
    assert_eq!(String::from_utf8(seen).unwrap(), "(request-target): get /x\nhost: example.com\ndate: today");
    assert_eq!(sig.created, None);
    assert_eq!(sig.expires, None);
    assert_eq!(names(&sig), vec!["(request-target)", "host", "date"]);
    let read = Signature::parse(&sig.to_header()).unwrap();
    assert!(read
        .verify_at(u64::MAX, "GET", "/x", &headers, |body: &[u8], s: &[u8]| -> Result<bool, ()> {
            Ok(toy_sign(2, body) == s)
        })
        .unwrap());
    let r = Signature::create_legacy("k", "GET", "/", &headers, |_: Vec<u8>| -> Result<Vec<u8>, u8> {
        Err(9)
    });
    assert!(matches!(r, Err(SignError::User(9))));
}

#[test]
fn parse_reads_every_parameter() {
    let sig = Signature::parse(
        "keyId=\"k\",algorithm=HS2019,created=+5,expires=17,headers=\"(request-target) Date (created)\",signature=\"AQID\",other=1",
    )
    .unwrap();
    assert_eq!(sig.key_id, Some(String::from("k")));
    assert_eq!(sig.algorithm, Some(String::from("hs2019")));
    assert_eq!(sig.created, Some(5));
    assert_eq!(sig.expires, Some(17));
    assert_eq!(sig.signature, vec![1, 2, 3]);
    assert_eq!(names(&sig), vec!["(request-target)", "date", "(created)"]);
}

#[test]
fn parse_keeps_the_last_of_a_repeated_parameter_and_what_follows_the_first_equals_sign() {
    let sig = Signature::parse("keyId=a=b,signature=\"AQID\",keyId=\"c\"").unwrap();
    assert_eq!(sig.key_id, Some(String::from("c")));
    let sig = Signature::parse("signature=AQID,keyId=a=b").unwrap();
    assert_eq!(sig.key_id, Some(String::from("a=b")));
    assert_eq!(sig.headers.is_none(), true);
    assert_eq!(sig.algorithm, None);
    // a minimal header: the signature alone, which may be empty
    let sig = Signature::parse("signature=").unwrap();
    assert_eq!(sig.signature, Vec::<u8>::new());
}

#[test]
fn parse_errors() {
    assert_eq!(Signature::parse("").unwrap_err(), ParseError::MissingEquals);
    assert_eq!(Signature::parse("signature=\"AQID\",").unwrap_err(), ParseError::MissingEquals);
    assert_eq!(Signature::parse("keyId=\"k\"").unwrap_err(), ParseError::MissingSignature);
    assert_eq!(Signature::parse("created=12x,signature=\"AQID\"").unwrap_err(), ParseError::Number);
    assert_eq!(Signature::parse("created=,signature=\"AQID\"").unwrap_err(), ParseError::Number);
    assert_eq!(Signature::parse("expires=-1,signature=\"AQID\"").unwrap_err(), ParseError::Number);
    assert_eq!(
        Signature::parse("expires=18446744073709551616,signature=\"AQID\"").unwrap_err(),
        ParseError::Number
    );
    assert_eq!(
        Signature::parse("expires=18446744073709551615,signature=\"AQID\"").unwrap().expires,
        Some(u64::MAX)
    );
    assert_eq!(Signature::parse("signature=\"@@\"").unwrap_err(), ParseError::Base64);
    assert_eq!(
        Signature::parse("signature=\"AQID\",headers=\"a b(\"").unwrap_err(),
        ParseError::InvalidCharacters
    );
    assert_eq!(
        Signature::parse("signature=\"AQID\",headers=\"\"").unwrap_err(),
        ParseError::InvalidCharacters
    );
    assert_eq!(
        Signature::parse("signature=\"AQID\",algorithm=a b").unwrap_err(),
        ParseError::InvalidCharacters
    );
    assert_eq!(Signature::parse("signature=\"AQID\"\u{7f}").unwrap_err(), ParseError::InvalidCharacters);
    assert_eq!(Signature::parse("signature=\"AQID\",keyId=\"\u{e9}\"").unwrap_err(), ParseError::InvalidCharacters);
    // the first segment that cannot be read decides
    assert_eq!(Signature::parse("created=x,nothing").unwrap_err(), ParseError::Number);
    assert_eq!(Signature::parse("nothing,created=x").unwrap_err(), ParseError::MissingEquals);
}

#[test]
fn to_header_of_a_bare_signature() {
    let sig = Signature {
        algorithm: None,
        created: None,
        expires: None,
        headers: None,
        key_id: None,
        signature: vec![0xff],
    };
    assert_eq!(sig.to_header(), "headers=\"(created)\",signature=\"/w==\"");
    let sig = Signature {
        algorithm: None,
        created: Some(0),
        expires: Some(u64::MAX),
        headers: Some(vec![SignatureHeaderName::NormalHeader(String::from("date"))]),
        key_id: Some(String::new()),
        signature: vec![],
    };
    assert_eq!(
        sig.to_header(),
        "headers=\"date\",created=0,expires=18446744073709551615,keyId=\"\",signature=\"\""
    );
}

#[test]
fn header_names() {
    assert!(matches!(
        SignatureHeaderName::from_str("(request-target)"),
        Ok(SignatureHeaderName::RequestTarget)
    ));
    assert!(matches!(SignatureHeaderName::from_str("(created)"), Ok(SignatureHeaderName::Created)));
    assert!(matches!(SignatureHeaderName::from_str("(expires)"), Ok(SignatureHeaderName::Expires)));
    match SignatureHeaderName::from_str("Content-Type") {
        Ok(SignatureHeaderName::NormalHeader(name)) => assert_eq!(name, "content-type"),
        other => panic!("{:?}", other),
    }
    assert_eq!(SignatureHeaderName::from_str("(other)").unwrap_err(), InvalidHeaderName);
    assert_eq!(SignatureHeaderName::from_str("").unwrap_err(), InvalidHeaderName);
    assert_eq!(SignatureHeaderName::from_str("a b").unwrap_err(), InvalidHeaderName);
    assert_eq!(SignatureHeaderName::from_str("d\u{e9}j\u{e0}").unwrap_err(), InvalidHeaderName);
    assert_eq!(SignatureHeaderName::RequestTarget.as_str(), "(request-target)");
    assert_eq!(SignatureHeaderName::Created.as_str(), "(created)");
    assert_eq!(SignatureHeaderName::Expires.as_str(), "(expires)");
    assert_eq!(SignatureHeaderName::NormalHeader(String::from("date")).as_str(), "date");
}

#[test]
fn quotes() {
    assert_eq!(parse_maybe_quoted("\"abc\""), "abc");
    assert_eq!(parse_maybe_quoted("abc"), "abc");
    assert_eq!(parse_maybe_quoted("\"abc"), "\"abc");
    assert_eq!(parse_maybe_quoted("abc\""), "abc\"");
    assert_eq!(parse_maybe_quoted("\"\""), "");
    assert_eq!(parse_maybe_quoted("\""), "\"");
    assert_eq!(parse_maybe_quoted(""), "");
    assert_eq!(parse_maybe_quoted("\"\"a\"\""), "\"a\"");
    assert_eq!(parse_maybe_quoted("\"d\u{e9}j\u{e0}\""), "d\u{e9}j\u{e0}");
}
