use ar_proxy::auth::{ApiCredentials, COLON};

fn creds(user: &str, key: &str) -> ApiCredentials {
    ApiCredentials { user: user.to_string(), key: key.to_string() }
}

#[test]
fn configured_pair_is_admitted() {
    let creds = creds("admin", "secret");
    let admitted = creds.from_request(Some("Basic YWRtaW46c2VjcmV0"));
    assert!(admitted.is_some());
    assert_eq!(admitted.unwrap().user, "admin");
    assert_eq!(admitted.unwrap().key, "secret");
}

#[test]
fn request_without_header_is_turned_away() {
    assert!(creds("admin", "secret").from_request(None).is_none());
    assert!(creds("", "").from_request(None).is_none());
}

#[test]
fn other_schemes_are_turned_away() {
    let creds = creds("admin", "secret");
    assert!(creds.from_request(Some("Bearer YWRtaW46c2VjcmV0")).is_none());
    assert!(creds.from_request(Some("basic YWRtaW46c2VjcmV0")).is_none());
    assert!(creds.from_request(Some("BasicYWRtaW46c2VjcmV0")).is_none());
    assert!(creds.from_request(Some(" Basic YWRtaW46c2VjcmV0")).is_none());
    assert!(creds.from_request(Some("YWRtaW46c2VjcmV0")).is_none());
    assert!(creds.from_request(Some("Basic")).is_none());
    assert!(creds.from_request(Some("")).is_none());
}

#[test]
fn payload_that_is_not_base64_is_turned_away() {
    let creds = creds("admin", "secret");
    assert!(creds.from_request(Some("Basic admin:secret")).is_none());
    assert!(creds.from_request(Some("Basic YWRtaW46c2VjcmV0 ")).is_none());
    assert!(creds.from_request(Some("Basic  YWRtaW46c2VjcmV0")).is_none());
    assert!(creds.from_request(Some("Basic YWRtaW46c2VjcmV")).is_none());
    assert!(creds.from_request(Some("Basic ")).is_none());
}

#[test]
fn pair_without_colon_is_turned_away() {
    // "admin"
    assert!(creds("admin", "").from_request(Some("Basic YWRtaW4=")).is_none());
    assert!(!creds("admin", "").verify(b"admin"));
    assert!(!creds("", "").verify(b""));
}

#[test]
fn wrong_pair_is_turned_away() {
    let creds = creds("admin", "secret");
    // "admin:wrong"
    assert!(creds.from_request(Some("Basic YWRtaW46d3Jvbmc=")).is_none());
    assert!(!creds.verify(b"admin:secre"));
    assert!(!creds.verify(b"admin:secret "));
    assert!(!creds.verify(b"Admin:secret"));
    assert!(!creds.verify(b"admi:nsecret"));
    assert!(!creds.verify(b":admin:secret"));
    assert!(creds.verify(b"admin:secret"));
}

#[test]
fn key_is_all_that_follows_the_first_colon() {
    // "user:a:b"
    assert!(creds("user", "a:b").from_request(Some("Basic dXNlcjphOmI=")).is_some());
    assert!(creds("user:a", "b").from_request(Some("Basic dXNlcjphOmI=")).is_none());
    assert!(creds("user", "a:b").verify(b"user:a:b"));
    assert!(!creds("user:a", "b").verify(b"user:a:b"));
}

#[test]
fn empty_pair_is_a_pair() {
    // ":"
    assert!(creds("", "").from_request(Some("Basic Og==")).is_some());
    assert!(creds("", "").verify(b":"));
    assert!(!creds("", "x").verify(b":"));
    assert_eq!(COLON, b':');
}

#[test]
fn pair_is_told_apart_byte_for_byte() {
    let creds = creds("üser", "kéy");
    assert!(creds.verify("üser:kéy".as_bytes()));
    assert!(!creds.verify("user:key".as_bytes()));
    assert!(!creds.verify(&[0xff, 0x3a, 0xfe]));
}
