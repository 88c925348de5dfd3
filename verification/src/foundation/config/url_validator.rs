//! `server_endpoint` URL parsing with the `https` scheme enforced.

use vstd::prelude::*;

use crate::text::{push_str, string_of};

verus! {

/// The `url::Url` type, carried opaquely.
#[verifier::external_type_specification]
#[verifier::external_body]
pub struct ExUrl(url::Url);

/// What `url::Url::parse` gives for a text: `Ok` with the parsed URL's
/// scheme, or `Err` with the parse error's message.
pub uninterp spec fn url_parse_outcome(raw: Seq<char>) -> Result<Seq<char>, Seq<char>>;

/// Parses a URL and reads its scheme.
///
/// Trusted: calls `url::Url::parse`, then `Url::scheme` on the result
/// (documented as the lower-cased scheme without the `:`), or renders the
/// parse error with `to_string`. The contract only ties the scheme or the
/// error text to the input through `url_parse_outcome`; it says nothing of
/// which texts parse.
#[verifier::external_body]
fn parse_url(raw: &str) -> (r: Result<(url::Url, String), String>)
    ensures
        match r {
            Ok((_, scheme)) => url_parse_outcome(raw@) == Ok::<Seq<char>, Seq<char>>(scheme@),
            Err(msg) => url_parse_outcome(raw@) == Err::<Seq<char>, Seq<char>>(msg@),
        },
{
    match url::Url::parse(raw) {
        Ok(u) => {
            let scheme = u.scheme().to_string();
            Ok((u, scheme))
        },
        Err(e) => Err(e.to_string()),
    }
}

/// Why an endpoint URL is refused.
#[derive(Debug, Clone, PartialEq, Eq)]
pub enum UrlValidationError {
    /// The URL does not parse (no scheme, bad authority or port, ...).
    Malformed(String),
    /// The URL parses but its scheme is not `https`.
    NotHttps(String),
}

/// The human-readable message of a URL validation error.
pub open spec fn spec_url_error_message(e: UrlValidationError) -> Seq<char> {
    match e {
        UrlValidationError::Malformed(m) => "URL 파싱 실패: "@ + m@,
        UrlValidationError::NotHttps(s) => "허용되지 않는 스킴 `"@ + s@ + "`(https 만 허용)"@,
    }
}

impl UrlValidationError {
    /// The human-readable message.
    pub fn message(&self) -> (m: String)
        ensures
            m@ == spec_url_error_message(*self),
    {
        match self {
            UrlValidationError::Malformed(msg) => {
                let mut out = string_of("URL 파싱 실패: ");
                push_str(&mut out, msg.as_str());
                out
            },
            UrlValidationError::NotHttps(scheme) => {
                let mut out = string_of("허용되지 않는 스킴 `");
                push_str(&mut out, scheme.as_str());
                push_str(&mut out, "`(https 만 허용)");
                out
            },
        }
    }
}

/// Parses the endpoint and enforces the `https` scheme; the parsed URL is
/// returned on success.
pub fn validate_https_url(raw: &str) -> (r: Result<url::Url, UrlValidationError>)
    ensures
        match r {
            Ok(_) => url_parse_outcome(raw@) == Ok::<Seq<char>, Seq<char>>("https"@),
            Err(UrlValidationError::Malformed(m)) => url_parse_outcome(raw@) == Err::<
                Seq<char>,
                Seq<char>,
            >(m@),
            Err(UrlValidationError::NotHttps(s)) => url_parse_outcome(raw@) == Ok::<
                Seq<char>,
                Seq<char>,
            >(s@) && s@ != "https"@,
        },
{
    match parse_url(raw) {
        Err(msg) => Err(UrlValidationError::Malformed(msg)),
        Ok((url, scheme)) => {
            if scheme == string_of("https") {
                Ok(url)
            } else {
                Err(UrlValidationError::NotHttps(scheme))
            }
        },
    }
}

} // verus!
