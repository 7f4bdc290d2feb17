//! URL parsing and resolution, delegated to the `url` crate.
//!
//! What the `url` crate computes is named, not restated: `url_parse_error`,
//! `url_serialization`, `url_host`, `url_path` and `url_join_outcome` stand
//! for the results of `Url::parse`, `Url::as_str`, `Url::host_str`,
//! `Url::path` and `Url::join` on the text a URL was parsed from.
use vstd::prelude::*;

verus! {

#[verifier::external_type_specification]
#[verifier::external_body]
pub struct ExUrl(url::Url);

#[verifier::external_type_specification]
#[verifier::external_body]
pub struct ExParseError(url::ParseError);

/// Why a URL could not be parsed (the variants of `url::ParseError`).
#[derive(Clone, Copy, PartialEq, Eq, Structural, Debug)]
pub enum UrlError {
    EmptyHost,
    IdnaError,
    InvalidPort,
    InvalidIpv4Address,
    InvalidIpv6Address,
    InvalidDomainCharacter,
    RelativeUrlWithoutBase,
    RelativeUrlWithCannotBeABaseBase,
    SetHostOnCannotBeABaseUrl,
    Overflow,
    /// A kind of parse error this library does not know by name.
    Other,
}

/// The message `url` displays for each parse error.
pub open spec fn url_error_text(e: UrlError) -> Seq<char> {
    match e {
        UrlError::EmptyHost => "empty host"@,
        UrlError::IdnaError => "invalid international domain name"@,
        UrlError::InvalidPort => "invalid port number"@,
        UrlError::InvalidIpv4Address => "invalid IPv4 address"@,
        UrlError::InvalidIpv6Address => "invalid IPv6 address"@,
        UrlError::InvalidDomainCharacter => "invalid domain character"@,
        UrlError::RelativeUrlWithoutBase => "relative URL without a base"@,
        UrlError::RelativeUrlWithCannotBeABaseBase => "relative URL with a cannot-be-a-base base"@,
        UrlError::SetHostOnCannotBeABaseUrl => "a cannot-be-a-base URL doesn’t have a host to set"@,
        UrlError::Overflow => "URLs more than 4 GB are not supported"@,
        UrlError::Other => "invalid URL"@,
    }
}

impl UrlError {
    /// The message of this error.
    pub fn message(&self) -> (s: String)
        ensures
            s@ == url_error_text(*self),
    {
        match self {
            UrlError::EmptyHost => "empty host".to_owned(),
            UrlError::IdnaError => "invalid international domain name".to_owned(),
            UrlError::InvalidPort => "invalid port number".to_owned(),
            UrlError::InvalidIpv4Address => "invalid IPv4 address".to_owned(),
            UrlError::InvalidIpv6Address => "invalid IPv6 address".to_owned(),
            UrlError::InvalidDomainCharacter => "invalid domain character".to_owned(),
            UrlError::RelativeUrlWithoutBase => "relative URL without a base".to_owned(),
            UrlError::RelativeUrlWithCannotBeABaseBase => "relative URL with a cannot-be-a-base base".to_owned(),
            UrlError::SetHostOnCannotBeABaseUrl => "a cannot-be-a-base URL doesn’t have a host to set".to_owned(),
            UrlError::Overflow => "URLs more than 4 GB are not supported".to_owned(),
            UrlError::Other => "invalid URL".to_owned(),
        }
    }
}

/// The error `Url::parse` reports for `input`, or `None` when it parses.
pub uninterp spec fn url_parse_error(input: Seq<char>) -> Option<UrlError>;

/// The serialization of the URL parsed from `input`.
pub uninterp spec fn url_serialization(input: Seq<char>) -> Seq<char>;

/// The host of the URL parsed from `input`, if it has one.
pub uninterp spec fn url_host(input: Seq<char>) -> Option<Seq<char>>;

/// The path of the URL parsed from `input`.
pub uninterp spec fn url_path(input: Seq<char>) -> Seq<char>;

/// The serialization of `input` resolved against the URL parsed from
/// `base`, or the error that resolution reports.
pub uninterp spec fn url_join_outcome(base: Seq<char>, input: Seq<char>) -> Result<Seq<char>, UrlError>;

/// A parsed URL together with the text it was parsed from.
pub struct ParsedUrl {
    url: url::Url,
    source: Ghost<Seq<char>>,
}

/// Tells the variants of `url::ParseError` apart.
#[verifier::external_body]
fn parse_error_kind(e: url::ParseError) -> UrlError {
    match e {
        url::ParseError::EmptyHost => UrlError::EmptyHost,
        url::ParseError::IdnaError => UrlError::IdnaError,
        url::ParseError::InvalidPort => UrlError::InvalidPort,
        url::ParseError::InvalidIpv4Address => UrlError::InvalidIpv4Address,
        url::ParseError::InvalidIpv6Address => UrlError::InvalidIpv6Address,
        url::ParseError::InvalidDomainCharacter => UrlError::InvalidDomainCharacter,
        url::ParseError::RelativeUrlWithoutBase => UrlError::RelativeUrlWithoutBase,
        url::ParseError::RelativeUrlWithCannotBeABaseBase => UrlError::RelativeUrlWithCannotBeABaseBase,
        url::ParseError::SetHostOnCannotBeABaseUrl => UrlError::SetHostOnCannotBeABaseUrl,
        url::ParseError::Overflow => UrlError::Overflow,
        _ => UrlError::Other,
    }
}

impl ParsedUrl {
    /// The text this URL was parsed from.
    pub closed spec fn source(&self) -> Seq<char> {
        self.source@
    }

    /// Parses an absolute URL (`Url::parse`).  Fails exactly when
    /// `url_parse_error` names an error for `input`, with that error.
    #[verifier::external_body]
    pub(crate) fn parse(input: &str) -> (r: Result<ParsedUrl, UrlError>)
        ensures
            match r {
                Ok(p) => url_parse_error(input@) is None && p.source() == input@,
                Err(e) => url_parse_error(input@) == Some(e),
            },
    {
        match url::Url::parse(input) {
            Ok(url) => Ok(ParsedUrl { url, source: Ghost(input@) }),
            Err(e) => Err(parse_error_kind(e)),
        }
    }

    /// The serialization of this URL (`Url::as_str`).
    #[verifier::external_body]
    pub(crate) fn as_str(&self) -> (s: String)
        ensures
            s@ == url_serialization(self.source()),
    {
        self.url.as_str().to_owned()
    }

    /// The host of this URL (`Url::host_str`).
    #[verifier::external_body]
    pub(crate) fn host_str(&self) -> (h: Option<String>)
        ensures
            match h {
                Some(t) => url_host(self.source()) == Some(t@),
                None => url_host(self.source()) is None,
            },
    {
        match self.url.host_str() {
            Some(h) => Some(h.to_owned()),
            None => None,
        }
    }

    /// The path of this URL (`Url::path`).
    #[verifier::external_body]
    pub(crate) fn path(&self) -> (p: String)
        ensures
            p@ == url_path(self.source()),
    {
        self.url.path().to_owned()
    }

    /// Resolves `input` against this URL and serializes the result
    /// (`Url::join`).
    #[verifier::external_body]
    pub(crate) fn join(&self, input: &str) -> (r: Result<String, UrlError>)
        ensures
            match r {
                Ok(s) => url_join_outcome(self.source(), input@) == Ok::<Seq<char>, UrlError>(s@),
                Err(e) => url_join_outcome(self.source(), input@) == Err::<Seq<char>, UrlError>(e),
            },
    {
        match self.url.join(input) {
            Ok(url) => Ok(url.as_str().to_owned()),
            Err(e) => Err(parse_error_kind(e)),
        }
    }
}

} // verus!
