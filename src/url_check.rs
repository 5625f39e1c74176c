//! Validation of the target URL before any request is made.

use vstd::prelude::*;
use vstd::string::StrSliceExecFns;

verus! {

/// How the URL parser rejected a string, as far as the validator tells
/// the reasons apart.
#[derive(Clone, Copy, Debug, PartialEq, Eq, Structural)]
pub enum UrlParseFailure {
    RelativeUrlWithoutBase,
    InvalidIpv6Address,
    InvalidIpv4Address,
    InvalidPort,
    Other,
}

/// Why a URL was refused.
#[derive(Clone, Copy, Debug, PartialEq, Eq, Structural)]
pub enum UrlError {
    /// The scheme is missing, relative, or `data://`.
    NoBaseProtocol,
    InvalidIpv6Address,
    InvalidIpv4Address,
    InvalidPort,
    /// Any other parse failure; it carries no diagnostic.
    Unrecognized,
}

/// What `url::Url::parse` makes of a string.
pub uninterp spec fn url_parse_outcome(s: Seq<char>) -> Result<(), UrlParseFailure>;

/// Relies on `url::Url::parse`: parses an absolute URL, and on failure reports a
/// `url::ParseError` variant; the outcome depends on the string alone.
#[verifier::external_body]
fn parse_url(s: &str) -> (r: Result<(), UrlParseFailure>)
    ensures
        r == url_parse_outcome(s@),
{
    match url::Url::parse(s) {
        Ok(_) => Ok(()),
        Err(url::ParseError::RelativeUrlWithoutBase) => Err(UrlParseFailure::RelativeUrlWithoutBase),
        Err(url::ParseError::InvalidIpv6Address) => Err(UrlParseFailure::InvalidIpv6Address),
        Err(url::ParseError::InvalidIpv4Address) => Err(UrlParseFailure::InvalidIpv4Address),
        Err(url::ParseError::InvalidPort) => Err(UrlParseFailure::InvalidPort),
        Err(_) => Err(UrlParseFailure::Other),
    }
}

/// The scheme prefix that is refused before parsing.
pub open spec fn data_scheme() -> Seq<char> {
    seq!['d', 'a', 't', 'a', ':', '/', '/']
}

pub open spec fn starts_with_data_scheme(s: Seq<char>) -> bool {
    s.len() >= 7 && s.subrange(0, 7) == data_scheme()
}

/// The error reported for a given parser failure.
pub open spec fn error_of_failure(f: UrlParseFailure) -> UrlError {
    match f {
        UrlParseFailure::RelativeUrlWithoutBase => UrlError::NoBaseProtocol,
        UrlParseFailure::InvalidIpv6Address => UrlError::InvalidIpv6Address,
        UrlParseFailure::InvalidIpv4Address => UrlError::InvalidIpv4Address,
        UrlParseFailure::InvalidPort => UrlError::InvalidPort,
        UrlParseFailure::Other => UrlError::Unrecognized,
    }
}

/// The verdict on the URL `s`, given what the parser made of it.
pub open spec fn url_verdict(s: Seq<char>, parsed: Result<(), UrlParseFailure>) -> Result<(), UrlError> {
    if starts_with_data_scheme(s) {
        Err(UrlError::NoBaseProtocol)
    } else {
        match parsed {
            Ok(()) => Ok(()),
            Err(f) => Err(error_of_failure(f)),
        }
    }
}

/// Whether `url` begins with `data://`.
pub fn has_data_scheme(url: &str) -> (r: bool)
    ensures
        r == starts_with_data_scheme(url@),
{
    let prefix: [char; 7] = ['d', 'a', 't', 'a', ':', '/', '/'];
    let n: usize = url.unicode_len();
    if n < 7 {
        return false;
    }
    let mut i: usize = 0;
    while i < 7
        invariant
            i <= 7 <= n,
            n == url@.len(),
            prefix@ == data_scheme(),
            forall|j: int| 0 <= j < i ==> url@[j] == data_scheme()[j],
        decreases 7 - i,
    {
        if url.get_char(i) != prefix[i] {
            assert(url@.subrange(0, 7)[i as int] != data_scheme()[i as int]);
            return false;
        }
        i = i + 1;
    }
    assert(url@.subrange(0, 7) =~= data_scheme());
    true
}

/// Decides on `url` from the parser's outcome `parsed`.
pub fn judge_url(url: &str, parsed: Result<(), UrlParseFailure>) -> (r: Result<(), UrlError>)
    ensures
        r == url_verdict(url@, parsed),
{
    if has_data_scheme(url) {
        return Err(UrlError::NoBaseProtocol);
    }
    match parsed {
        Ok(()) => Ok(()),
        Err(UrlParseFailure::RelativeUrlWithoutBase) => Err(UrlError::NoBaseProtocol),
        Err(UrlParseFailure::InvalidIpv6Address) => Err(UrlError::InvalidIpv6Address),
        Err(UrlParseFailure::InvalidIpv4Address) => Err(UrlError::InvalidIpv4Address),
        Err(UrlParseFailure::InvalidPort) => Err(UrlError::InvalidPort),
        Err(UrlParseFailure::Other) => Err(UrlError::Unrecognized),
    }
}

/// Checks that `url` is an absolute URL with a usable scheme. A `data://` URL
/// is refused without being parsed; otherwise the parser decides.
pub fn validate_url(url: &str) -> (r: Result<(), UrlError>)
    ensures
        r == url_verdict(url@, url_parse_outcome(url@)),
        starts_with_data_scheme(url@) ==> r == Err::<(), UrlError>(UrlError::NoBaseProtocol),
        !starts_with_data_scheme(url@) && url_parse_outcome(url@) is Ok ==> r is Ok,
{
    if has_data_scheme(url) {
        return Err(UrlError::NoBaseProtocol);
    }
    let parsed = parse_url(url);
    judge_url(url, parsed)
}

impl UrlError {
    /// The line shown to the user, if this error has one.
    pub fn diagnostic(&self) -> (r: Option<&'static str>)
        ensures
            r is None <==> *self == UrlError::Unrecognized,
            *self == UrlError::NoBaseProtocol ==> r == Some(
                "Error: The URL does not have a valid base protocol.",
            ),
            *self == UrlError::InvalidIpv6Address ==> r == Some(
                "Error: The URL contains an invalid IPv6 address.",
            ),
            *self == UrlError::InvalidIpv4Address ==> r == Some(
                "Error: The URL contains an invalid IPv4 address.",
            ),
            *self == UrlError::InvalidPort ==> r == Some(
                "Error: The URL contains an invalid port number.",
            ),
    {
        match self {
            UrlError::NoBaseProtocol => Some("Error: The URL does not have a valid base protocol."),
            UrlError::InvalidIpv6Address => Some("Error: The URL contains an invalid IPv6 address."),
            UrlError::InvalidIpv4Address => Some("Error: The URL contains an invalid IPv4 address."),
            UrlError::InvalidPort => Some("Error: The URL contains an invalid port number."),
            UrlError::Unrecognized => None,
        }
    }
}

} // verus!
