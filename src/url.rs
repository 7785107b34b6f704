//! The shorten request and response, and the checks and formatting around them.
use validator::ValidateUrl;
use vstd::prelude::*;
use vstd::string::StringExecFns;

verus! {

/// Whether the text parses as an absolute URL. The answer depends on the
/// text alone.
pub uninterp spec fn url_accepted(s: Seq<char>) -> bool;

/// Relies on `<str as validator::ValidateUrl>::validate_url`, which reports
/// whether `url::Url::parse` accepts the text.
#[verifier::external_body]
fn validate_url_text(s: &str) -> (r: bool)
    ensures
        r == url_accepted(s@),
{
    <str as ValidateUrl>::validate_url(s)
}

/// Body of a shorten request: the long URL to shorten.
pub struct ShortenRequest {
    pub url: String,
}

/// Body of a shorten response: the full short URL.
pub struct ShortenResponse {
    pub short_url: String,
}

impl ShortenRequest {
    /// Whether the requested URL is well formed.
    pub fn validate(&self) -> (r: bool)
        ensures
            r == url_accepted(self.url@),
    {
        validate_url_text(self.url.as_str())
    }
}

/// The short URL `scheme://host/code` under which `code` is served.
pub open spec fn short_url_text(scheme: Seq<char>, host: Seq<char>, code: Seq<char>) -> Seq<char> {
    scheme + "://"@ + host + "/"@ + code
}

impl ShortenResponse {
    /// The response for `code`, served from `host` over `scheme`.
    pub fn for_code(scheme: &str, host: &str, code: &str) -> (r: ShortenResponse)
        ensures
            r.short_url@ == short_url_text(scheme@, host@, code@),
    {
        let mut s = String::from_str(scheme);
        s.append("://");
        s.append(host);
        s.append("/");
        s.append(code);
        ShortenResponse { short_url: s }
    }
}

} // verus!
