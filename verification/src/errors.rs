//! The error taxonomy of the library.

use vstd::prelude::*;

verus! {

/// Why a fetch failed: one variant per stage of the pipeline, each
/// carrying enough text to let the caller display a precise diagnostic.
#[derive(Debug, Clone)]
pub enum UriError {
    /// The input is not a syntactically valid URL; carries the parser's
    /// diagnostic.
    InvalidUrl(String),
    /// The network request failed (timeout, connection refused, TLS
    /// failure, non-decodable response); carries the transport's
    /// diagnostic.
    HttpError(String),
    /// The response body yielded no usable `<title>` element.
    HtmlError(String),
    /// The URL's scheme is not `http` or `https`; carries the offending
    /// scheme.
    UnsupportedScheme(String),
    /// The URL's host is on the local/private-network denylist; carries
    /// the offending host.
    ForbiddenHost(String),
}

impl UriError {
    /// A human-readable description of the error, prefixed by its kind.
    pub fn message(&self) -> (r: String)
        ensures
            match self {
                UriError::InvalidUrl(m) => r@ == "Invalid URL: "@ + m@,
                UriError::HttpError(m) => r@ == "HTTP request failed: "@ + m@,
                UriError::HtmlError(m) => r@ == "HTML parsing failed: "@ + m@,
                UriError::UnsupportedScheme(m) => r@ == "Unsupported URL scheme: "@ + m@,
                UriError::ForbiddenHost(m) => (r@ == "Access to internal/local networks is not allowed: "@
                    + m@),
            },
    {
        match self {
            UriError::InvalidUrl(m) => String::from_str("Invalid URL: ").concat(m.as_str()),
            UriError::HttpError(m) => String::from_str("HTTP request failed: ").concat(m.as_str()),
            UriError::HtmlError(m) => String::from_str("HTML parsing failed: ").concat(m.as_str()),
            UriError::UnsupportedScheme(m) => String::from_str("Unsupported URL scheme: ").concat(
                m.as_str(),
            ),
            UriError::ForbiddenHost(m) => String::from_str(
                "Access to internal/local networks is not allowed: ",
            ).concat(m.as_str()),
        }
    }
}

} // verus!
