use vimania_uri_rs::validate_url;
use vimania_uri_rs::UriError;

#[test]
fn test_validate_url_security() {
    // Valid URLs should pass
    assert!(validate_url("https://www.google.com").is_ok());
    assert!(validate_url("http://example.com").is_ok());

    // Invalid schemes should fail
    assert!(matches!(
        validate_url("ftp://example.com"),
        Err(UriError::UnsupportedScheme(_))
    ));
    assert!(matches!(
        validate_url("file:///etc/passwd"),
        Err(UriError::UnsupportedScheme(_))
    ));

    // Local/internal networks should fail
    assert!(matches!(
        validate_url("http://localhost"),
        Err(UriError::ForbiddenHost(_))
    ));
    assert!(matches!(
        validate_url("http://127.0.0.1"),
        Err(UriError::ForbiddenHost(_))
    ));
    assert!(matches!(
        validate_url("http://192.168.1.1"),
        Err(UriError::ForbiddenHost(_))
    ));
    assert!(matches!(
        validate_url("http://10.0.0.1"),
        Err(UriError::ForbiddenHost(_))
    ));
    assert!(matches!(
        validate_url("http://172.16.0.1"),
        Err(UriError::ForbiddenHost(_))
    ));
}

#[test]
fn unsupported_schemes_carry_the_scheme() {
    match validate_url("ftp://x") {
        Err(UriError::UnsupportedScheme(s)) => assert_eq!(s, "ftp"),
        other => panic!("expected UnsupportedScheme, got {:?}", other),
    }
    match validate_url("javascript:alert(1)") {
        Err(UriError::UnsupportedScheme(s)) => assert_eq!(s, "javascript"),
        other => panic!("expected UnsupportedScheme, got {:?}", other),
    }
    match validate_url("file:///etc/passwd") {
        Err(UriError::UnsupportedScheme(s)) => assert_eq!(s, "file"),
        other => panic!("expected UnsupportedScheme, got {:?}", other),
    }
}

#[test]
fn forbidden_hosts_carry_the_host() {
    match validate_url("http://192.168.1.1") {
        Err(UriError::ForbiddenHost(h)) => assert_eq!(h, "192.168.1.1"),
        other => panic!("expected ForbiddenHost, got {:?}", other),
    }
    match validate_url("http://localhost:8080/admin") {
        Err(UriError::ForbiddenHost(h)) => assert_eq!(h, "localhost"),
        other => panic!("expected ForbiddenHost, got {:?}", other),
    }
}

#[test]
fn every_private_172_block_is_denied() {
    for second in 16..=31 {
        let url = format!("http://172.{}.0.1", second);
        assert!(
            matches!(validate_url(&url), Err(UriError::ForbiddenHost(_))),
            "{} should be denied",
            url
        );
    }
    // Neighbours of the range are not denied.
    assert!(validate_url("http://172.15.0.1").is_ok());
    assert!(validate_url("http://172.32.0.1").is_ok());
}

#[test]
fn ipv6_loopback_is_denied_in_url_form() {
    // URL hosts carry an IPv6 literal in brackets; the denylist covers
    // that spelling too.
    match validate_url("http://[::1]/") {
        Err(UriError::ForbiddenHost(h)) => assert_eq!(h, "[::1]"),
        other => panic!("expected ForbiddenHost, got {:?}", other),
    }
    assert!(matches!(
        validate_url("https://[::1]:8080/admin"),
        Err(UriError::ForbiddenHost(_))
    ));
}

#[test]
fn prefix_match_is_exact_not_substring() {
    // Starts with "10" but not "10." — must pass.
    assert!(validate_url("http://10lies.com").is_ok());
    // Contains "192.168." but does not start with it — must pass.
    assert!(validate_url("http://evil-192.168.com").is_ok());
}

#[test]
fn malformed_input_is_invalid_url() {
    assert!(matches!(
        validate_url("not a url"),
        Err(UriError::InvalidUrl(_))
    ));
    assert!(matches!(validate_url(""), Err(UriError::InvalidUrl(_))));
    // An http URL cannot have an empty host.
    assert!(matches!(
        validate_url("http://"),
        Err(UriError::InvalidUrl(_))
    ));
}

#[test]
fn accepted_urls_expose_normalized_parts() {
    let parts = validate_url("HTTPS://WWW.Example.COM/Path?q=1").unwrap();
    assert_eq!(parts.scheme, "https");
    assert_eq!(parts.host.as_deref(), Some("www.example.com"));
    assert_eq!(parts.serialized, "https://www.example.com/Path?q=1");

    let parts = validate_url("http://example.com").unwrap();
    assert_eq!(parts.serialized, "http://example.com/");
}

#[test]
fn validation_is_idempotent() {
    let inputs = [
        "https://www.google.com",
        "http://example.com",
        "ftp://example.com",
        "http://localhost",
        "http://192.168.1.1",
        "not a url",
    ];
    for input in inputs {
        let first = validate_url(input);
        let second = validate_url(input);
        assert_eq!(format!("{:?}", first), format!("{:?}", second));
        match (validate_url(input), validate_url(input)) {
            (Ok(a), Ok(b)) => {
                assert_eq!(a.scheme, b.scheme);
                assert_eq!(a.host, b.host);
                assert_eq!(a.serialized, b.serialized);
            }
            (Err(a), Err(b)) => assert_eq!(a.message(), b.message()),
            _ => panic!("verdict changed between calls for {}", input),
        }
    }
}

#[test]
fn error_messages_name_their_kind() {
    let e = validate_url("ftp://example.com").unwrap_err();
    assert_eq!(e.message(), "Unsupported URL scheme: ftp");
    let e = validate_url("http://10.0.0.1").unwrap_err();
    assert_eq!(
        e.message(),
        "Access to internal/local networks is not allowed: 10.0.0.1"
    );
    let e = validate_url("not a url").unwrap_err();
    assert!(e.message().starts_with("Invalid URL: "));
}
