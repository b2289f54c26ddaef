//! Safe fetching of web-page titles.
//!
//! The library validates a URL against a denylist of local and private
//! hosts before any request is made, so that a caller embedding it cannot
//! be used as a proxy to probe internal network services, then fetches the
//! page and extracts the text of its first `<title>` element.

pub mod errors;
pub mod fetch;
pub mod text;
pub mod validate;

pub use errors::UriError;
pub use fetch::fetch_title;
pub use fetch::get_url_title;
pub use fetch::title_from_body;
pub use fetch::HttpTransport;
pub use text::reverse_line;
pub use validate::validate_url;
pub use validate::UrlParts;
