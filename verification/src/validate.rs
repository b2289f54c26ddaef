//! The URL validation gate: parse the input, accept only `http`/`https`
//! schemes, and refuse hosts on the local/private-network denylist, so
//! that a caller cannot be used to probe internal services.
//!
//! The check is purely textual: it does not resolve DNS, so a public
//! hostname that resolves to a private address is out of its scope.

use vstd::prelude::*;

use crate::errors::UriError;
use crate::text::str_equal;
use crate::text::str_starts_with;

verus! {

/// What `url::Url::parse` makes of an input string: on success the
/// scheme, the host (if any) and the serialization, with scheme and
/// host normalized to lowercase; on failure the parser's diagnostic
/// text, which is fixed per error kind. Parsing is a pure function of
/// the input text, so both sides depend on the input characters alone.
pub uninterp spec fn spec_parse_url(s: Seq<char>) -> Result<
    (Seq<char>, Option<Seq<char>>, Seq<char>),
    Seq<char>,
>;

/// A validated URL: what the checks look at, and the exact text that
/// an accepted URL is fetched by.
#[derive(Debug, Clone)]
pub struct UrlParts {
    /// The scheme, normalized to lowercase.
    pub scheme: String,
    /// The host text, if the URL has one, normalized to lowercase.
    pub host: Option<String>,
    /// The whole URL as the parser serializes it back.
    pub serialized: String,
}

impl View for UrlParts {
    type V = (Seq<char>, Option<Seq<char>>, Seq<char>);

    open spec fn view(&self) -> Self::V {
        (self.scheme@, self.host.deep_view(), self.serialized@)
    }
}

/// Relies on `url::Url::parse` and the accessors `Url::scheme`,
/// `Url::host_str` and `Url::as_str`: whether a string parses, the
/// scheme, host and serialization extracted from it, and the diagnostic
/// shown on failure (one fixed text per `ParseError` kind) all depend
/// on the input characters alone.
#[verifier::external_body]
fn parse_url_parts(s: &str) -> (r: Result<UrlParts, String>)
    ensures
        r matches Ok(p) ==> (spec_parse_url(s@) matches Ok(q) && q == p@),
        r matches Err(m) ==> (spec_parse_url(s@) matches Err(t) && t == m@),
{
    match url::Url::parse(s) {
        Ok(u) => {
            let scheme = u.scheme().to_owned();
            let host = u.host_str().map(|h| h.to_owned());
            let serialized = u.as_str().to_owned();
            Ok(UrlParts { scheme, host, serialized })
        },
        Err(e) => Err(e.to_string()),
    }
}

/// The schemes that may be dereferenced.
pub open spec fn scheme_ok(scheme: Seq<char>) -> bool {
    scheme == "http"@ || scheme == "https"@
}

/// The local/private-network denylist: the loopback spellings —
/// `localhost`, the IPv4 literal, and the IPv6 literal both bare and in
/// the brackets URL hosts carry it in — and the textual prefixes of the
/// private IPv4 ranges `192.168.0.0/16`, `10.0.0.0/8` and
/// `172.16.0.0/12` (the sixteen `172.16.` through `172.31.` blocks
/// enumerated individually). A strict prefix match, not a substring
/// match.
pub open spec fn host_forbidden(host: Seq<char>) -> bool {
    ||| host == "localhost"@
    ||| host == "127.0.0.1"@
    ||| host == "::1"@
    ||| host == "[::1]"@
    ||| "192.168."@.is_prefix_of(host)
    ||| "10."@.is_prefix_of(host)
    ||| "172.16."@.is_prefix_of(host)
    ||| "172.17."@.is_prefix_of(host)
    ||| "172.18."@.is_prefix_of(host)
    ||| "172.19."@.is_prefix_of(host)
    ||| "172.20."@.is_prefix_of(host)
    ||| "172.21."@.is_prefix_of(host)
    ||| "172.22."@.is_prefix_of(host)
    ||| "172.23."@.is_prefix_of(host)
    ||| "172.24."@.is_prefix_of(host)
    ||| "172.25."@.is_prefix_of(host)
    ||| "172.26."@.is_prefix_of(host)
    ||| "172.27."@.is_prefix_of(host)
    ||| "172.28."@.is_prefix_of(host)
    ||| "172.29."@.is_prefix_of(host)
    ||| "172.30."@.is_prefix_of(host)
    ||| "172.31."@.is_prefix_of(host)
}

/// The verdict of validation over the view of the input: the spec-level
/// counterpart of `validate_url`'s result.
#[allow(inconsistent_fields)]
pub enum Verdict {
    /// The input does not parse as an absolute URL; carries the
    /// parser's diagnostic.
    Invalid { message: Seq<char> },
    /// The scheme is not `http` or `https`.
    BadScheme { scheme: Seq<char> },
    /// The host is on the local/private-network denylist.
    BadHost { host: Seq<char> },
    /// The URL is safe to dereference.
    Accepted { scheme: Seq<char>, host: Option<Seq<char>>, serialized: Seq<char> },
}

/// The verdict for an input: parse, then check the scheme, then check
/// the host. All-or-nothing; the first failing stage decides.
pub open spec fn spec_validate(s: Seq<char>) -> Verdict {
    match spec_parse_url(s) {
        Err(message) => Verdict::Invalid { message },
        Ok((scheme, host, serialized)) => if !scheme_ok(scheme) {
            Verdict::BadScheme { scheme }
        } else if host matches Some(h) && host_forbidden(h) {
            Verdict::BadHost { host: host->0 }
        } else {
            Verdict::Accepted { scheme, host, serialized }
        },
    }
}

fn scheme_allowed(scheme: &str) -> (r: bool)
    ensures
        r == scheme_ok(scheme@),
{
    str_equal(scheme, "http") || str_equal(scheme, "https")
}

fn host_denied(host: &str) -> (r: bool)
    ensures
        r == host_forbidden(host@),
{
    str_equal(host, "localhost") || str_equal(host, "127.0.0.1") || str_equal(host, "::1")
        || str_equal(host, "[::1]") || str_starts_with(host, "192.168.") || str_starts_with(host, "10.") || str_starts_with(
        host,
        "172.16.",
    ) || str_starts_with(host, "172.17.") || str_starts_with(host, "172.18.") || str_starts_with(
        host,
        "172.19.",
    ) || str_starts_with(host, "172.20.") || str_starts_with(host, "172.21.") || str_starts_with(
        host,
        "172.22.",
    ) || str_starts_with(host, "172.23.") || str_starts_with(host, "172.24.") || str_starts_with(
        host,
        "172.25.",
    ) || str_starts_with(host, "172.26.") || str_starts_with(host, "172.27.") || str_starts_with(
        host,
        "172.28.",
    ) || str_starts_with(host, "172.29.") || str_starts_with(host, "172.30.") || str_starts_with(
        host,
        "172.31.",
    )
}

/// Decide whether `url_str` is safe to dereference. Accepts exactly the
/// inputs that parse as absolute URLs with scheme `http` or `https` and
/// with no host on the local/private-network denylist; each rejection
/// carries its reason and the offending text.
pub fn validate_url(url_str: &str) -> (r: Result<UrlParts, UriError>)
    ensures
        match spec_validate(url_str@) {
            Verdict::Invalid { message } => r matches Err(e) && e matches UriError::InvalidUrl(m)
                && m@ == message,
            Verdict::BadScheme { scheme } => r matches Err(e) && e matches UriError::UnsupportedScheme(m)
                && m@ == scheme,
            Verdict::BadHost { host } => r matches Err(e) && e matches UriError::ForbiddenHost(m)
                && m@ == host,
            Verdict::Accepted { scheme, host, serialized } => r matches Ok(p) && p@ == (
                scheme,
                host,
                serialized,
            ),
        },
{
    let parts = match parse_url_parts(url_str) {
        Ok(p) => p,
        Err(message) => {
            return Err(UriError::InvalidUrl(message));
        },
    };
    if !scheme_allowed(parts.scheme.as_str()) {
        return Err(UriError::UnsupportedScheme(parts.scheme));
    }
    match &parts.host {
        Some(h) => {
            if host_denied(h.as_str()) {
                return Err(UriError::ForbiddenHost(h.clone()));
            }
        },
        None => {},
    }
    Ok(parts)
}

/// Law: an input that parses with a scheme other than `http` or `https`
/// is rejected for its scheme, whatever its host.
pub proof fn lemma_unsupported_scheme_rejected(
    s: Seq<char>,
    scheme: Seq<char>,
    host: Option<Seq<char>>,
    serialized: Seq<char>,
)
    requires
        spec_parse_url(s) matches Ok(p) && p == (scheme, host, serialized),
        !scheme_ok(scheme),
    ensures
        spec_validate(s) == (Verdict::BadScheme { scheme }),
{
}

/// Law: an input that parses with an allowed scheme and a host on the
/// denylist — exactly `localhost`, `127.0.0.1`, `::1` or `[::1]`, or starting
/// with `192.168.`, `10.`, or one of `172.16.` through `172.31.` — is
/// rejected for its host.
pub proof fn lemma_forbidden_host_rejected(
    s: Seq<char>,
    scheme: Seq<char>,
    host: Seq<char>,
    serialized: Seq<char>,
)
    requires
        spec_parse_url(s) matches Ok(p) && p == (scheme, Some(host), serialized),
        scheme_ok(scheme),
        host_forbidden(host),
    ensures
        spec_validate(s) == (Verdict::BadHost { host }),
{
}

/// Law: an input that parses with an allowed scheme and whose host is
/// absent or off the denylist is accepted; merely containing a denied
/// token without starting with it does not reject.
pub proof fn lemma_safe_host_accepted(
    s: Seq<char>,
    scheme: Seq<char>,
    host: Option<Seq<char>>,
    serialized: Seq<char>,
)
    requires
        spec_parse_url(s) matches Ok(p) && p == (scheme, host, serialized),
        scheme_ok(scheme),
        host matches Some(h) ==> !host_forbidden(h),
    ensures
        spec_validate(s) == (Verdict::Accepted { scheme, host, serialized }),
{
}

/// Law: nothing forbidden slips through — whatever validation accepts
/// has scheme `http` or `https`, and its host, when there is one, is
/// not on the local/private-network denylist.
pub proof fn lemma_accepted_is_safe(
    s: Seq<char>,
    scheme: Seq<char>,
    host: Option<Seq<char>>,
    serialized: Seq<char>,
)
    requires
        spec_validate(s) == (Verdict::Accepted { scheme, host, serialized }),
    ensures
        scheme_ok(scheme),
        host matches Some(h) ==> !host_forbidden(h),
{
}

/// Law: validation is deterministic and has no memory across calls —
/// the verdict is a pure function of the input text, so validating the
/// same input twice yields the same verdict.
pub proof fn lemma_validation_idempotent(s: Seq<char>, first: Verdict, second: Verdict)
    requires
        first == spec_validate(s),
        second == spec_validate(s),
    ensures
        first == second,
{
}

} // verus!
