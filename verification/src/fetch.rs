//! The title-fetching pipeline: validate the URL, issue one HTTP GET
//! through a pooled transport with fixed 3-second connect and total
//! timeouts, parse the response as HTML, and return the trimmed text of
//! the first `<title>` element. Each stage is terminal on failure; no
//! retries, no state kept across calls.

use vstd::prelude::*;

use crate::errors::UriError;
use crate::text::trim;
use crate::text::trim_spec;
use crate::validate::spec_validate;
use crate::validate::validate_url;
use crate::validate::Verdict;

verus! {

/// `reqwest::blocking::Client` as an opaque type, so that the transport
/// can hold one.
#[verifier::external_type_specification]
#[verifier::external_body]
pub struct ExClient(reqwest::blocking::Client);

/// One configured HTTP client, reusable across calls for connection
/// pooling; passed to the fetcher as an explicit dependency.
pub struct HttpTransport {
    client: reqwest::blocking::Client,
}

/// Both the connect timeout and the total-request timeout of every
/// request, in seconds.
pub const REQUEST_TIMEOUT_SECS: u64 = 3;

/// Relies on `reqwest::blocking::ClientBuilder` (`connect_timeout`,
/// `timeout`, `user_agent`, `build`): builds a client whose connect and
/// total timeouts are both `timeout_secs` seconds and whose user agent
/// is `user_agent`. `build` fails only when the TLS backend or resolver
/// cannot initialize; the returned text is then its diagnostic.
#[verifier::external_body]
fn build_client(timeout_secs: u64, user_agent: &str) -> (r: Result<HttpTransport, String>)
{
    let builder = reqwest::blocking::Client::builder()
        .connect_timeout(core::time::Duration::from_secs(timeout_secs))
        .timeout(core::time::Duration::from_secs(timeout_secs))
        .user_agent(user_agent);
    match builder.build() {
        Ok(client) => Ok(HttpTransport { client }),
        Err(e) => Err(e.to_string()),
    }
}

/// Relies on `reqwest::blocking::Client::get`, `RequestBuilder::send`
/// and `Response::text`: one GET of `url`, the body decoded as text.
/// The outcome depends on the network, so nothing is stated of it; on
/// failure (timeout, refused connection, TLS error, undecodable body)
/// the returned text is the transport's diagnostic.
#[verifier::external_body]
fn http_get_text(transport: &HttpTransport, url: &str) -> (r: Result<String, String>)
{
    let response = match transport.client.get(url).send() {
        Ok(resp) => resp,
        Err(e) => {
            return Err(e.to_string());
        },
    };
    match response.text() {
        Ok(body) => Ok(body),
        Err(e) => Err(e.to_string()),
    }
}

impl HttpTransport {
    /// Build the shared transport, with both timeouts fixed at
    /// `REQUEST_TIMEOUT_SECS` seconds. On failure the error is
    /// `HttpError` carrying the builder's diagnostic.
    pub fn new() -> (r: Result<HttpTransport, UriError>)
        ensures
            r matches Err(e) ==> e matches UriError::HttpError(_),
    {
        match build_client(REQUEST_TIMEOUT_SECS, "vimania-uri-rs/0.1.0") {
            Ok(transport) => Ok(transport),
            Err(message) => Err(UriError::HttpError(message)),
        }
    }
}

/// The inner HTML of the first `<title>` element of a document, in
/// document order, as the `scraper` crate parses it; `None` when the
/// document has no `<title>` element. A pure function of the document
/// text.
pub uninterp spec fn spec_title_of(body: Seq<char>) -> Option<Seq<char>>;

/// Relies on `scraper`'s `Html::parse_document`, `Selector::parse` (on
/// the fixed, valid selector text `title`), `Html::select` and
/// `ElementRef::inner_html`: the inner HTML of the first `<title>`
/// element, a pure function of the document text.
#[verifier::external_body]
fn extract_raw_title(body: &str) -> (r: Option<String>)
    ensures
        r matches Some(t) ==> spec_title_of(body@) == Some(t@),
        r is None ==> spec_title_of(body@) is None,
{
    let document = scraper::Html::parse_document(body);
    let selector = scraper::Selector::parse("title").ok()?;
    let element = document.select(&selector).next()?;
    Some(element.inner_html())
}

/// Extract the trimmed title from a fetched document body: the text of
/// the first `<title>` element with leading and trailing whitespace
/// removed. A body with no `<title>` element yields `HtmlError` with
/// the fixed text `no title element found`; an empty trimmed title is
/// accepted unless `reject_empty_title` asks to refuse it (then also
/// `HtmlError`, with a fixed text of its own).
pub fn title_from_body(body: &str, reject_empty_title: bool) -> (r: Result<String, UriError>)
    ensures
        match spec_title_of(body@) {
            None => r matches Err(e) && e matches UriError::HtmlError(m) && m@
                == "no title element found"@,
            Some(raw) => if reject_empty_title && trim_spec(raw).len() == 0 {
                r matches Err(e) && e matches UriError::HtmlError(m) && m@
                    == "Title element is empty"@
            } else {
                r matches Ok(t) && t@ == trim_spec(raw)
            },
        },
{
    let raw = match extract_raw_title(body) {
        Some(t) => t,
        None => {
            return Err(UriError::HtmlError(String::from_str("no title element found")));
        },
    };
    let title = trim(raw.as_str());
    if reject_empty_title && title.as_str().unicode_len() == 0 {
        return Err(UriError::HtmlError(String::from_str("Title element is empty")));
    }
    Ok(title)
}

/// Fetch the title of the page at `url`: validate, GET, parse, extract,
/// trim. Validation failures surface unchanged; on an accepted URL the
/// outcome depends on the network, and any failure is `HttpError` (the
/// transport failed) or `HtmlError` (the body yielded no usable title).
/// Any returned title is the trimmed title of some document body.
pub fn fetch_title(transport: &HttpTransport, url: &str, reject_empty_title: bool) -> (r: Result<
    String,
    UriError,
>)
    ensures
        spec_validate(url@) matches Verdict::Invalid { message } ==> (r matches Err(e)
            && e matches UriError::InvalidUrl(m) && m@ == message),
        spec_validate(url@) matches Verdict::BadScheme { scheme } ==> (r matches Err(e)
            && e matches UriError::UnsupportedScheme(m) && m@ == scheme),
        spec_validate(url@) matches Verdict::BadHost { host } ==> (r matches Err(e)
            && e matches UriError::ForbiddenHost(m) && m@ == host),
        spec_validate(url@) is Accepted ==> (r matches Err(e) ==> (e matches UriError::HttpError(_)
            || e matches UriError::HtmlError(_))),
        r matches Ok(t) ==> spec_validate(url@) is Accepted && exists|body: Seq<char>|
            (#[trigger] spec_title_of(body)) matches Some(raw) && t@ == trim_spec(raw) && (
            reject_empty_title ==> t@.len() > 0),
{
    let parts = match validate_url(url) {
        Ok(p) => p,
        Err(e) => {
            return Err(e);
        },
    };
    let body = match http_get_text(transport, parts.serialized.as_str()) {
        Ok(b) => b,
        Err(message) => {
            return Err(UriError::HttpError(message));
        },
    };
    let r = title_from_body(body.as_str(), reject_empty_title);
    proof {
        if r is Ok {
            assert(spec_title_of(body@) matches Some(raw) && r->Ok_0@ == trim_spec(raw));
        }
    }
    r
}

/// Fetch the title of the page at `url` under the default policy: an
/// empty (trimmed) title is accepted.
pub fn get_url_title(transport: &HttpTransport, url: &str) -> (r: Result<String, UriError>)
    ensures
        spec_validate(url@) matches Verdict::Invalid { message } ==> (r matches Err(e)
            && e matches UriError::InvalidUrl(m) && m@ == message),
        spec_validate(url@) matches Verdict::BadScheme { scheme } ==> (r matches Err(e)
            && e matches UriError::UnsupportedScheme(m) && m@ == scheme),
        spec_validate(url@) matches Verdict::BadHost { host } ==> (r matches Err(e)
            && e matches UriError::ForbiddenHost(m) && m@ == host),
        spec_validate(url@) is Accepted ==> (r matches Err(e) ==> (e matches UriError::HttpError(_)
            || e matches UriError::HtmlError(_))),
        r matches Ok(t) ==> spec_validate(url@) is Accepted && exists|body: Seq<char>|
            (#[trigger] spec_title_of(body)) matches Some(raw) && t@ == trim_spec(raw),
{
    fetch_title(transport, url, false)
}

} // verus!
