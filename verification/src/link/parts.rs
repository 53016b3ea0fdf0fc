//! What the two address parsers report, as plain values.
//!
//! A page address is read with `hyper::Uri`, a link with `url::Url`. Neither
//! parser is verified here: each is called in one place, and only its result,
//! copied into the types below, reaches the rest of the library.

use crate::text::option_text;
use std::str::FromStr;
use vstd::prelude::*;

verus! {

/// The parts of a parsed URI that the link constructor reads.
pub struct UriParts {
    /// The scheme, where the text has one.
    pub scheme: Option<String>,
    /// Host and optional port, where the text has them.
    pub authority: Option<String>,
    /// The path, possibly empty.
    pub path: String,
}

/// `UriParts` over sequences of characters.
pub struct UriPartsView {
    pub scheme: Option<Seq<char>>,
    pub authority: Option<Seq<char>>,
    pub path: Seq<char>,
}

impl View for UriParts {
    type V = UriPartsView;

    open spec fn view(&self) -> UriPartsView {
        UriPartsView {
            scheme: option_text(self.scheme),
            authority: option_text(self.authority),
            path: self.path@,
        }
    }
}

/// What the URI parser gave for a text: the parts, or its complaint.
pub open spec fn uri_outcome(parsed: Result<UriParts, String>) -> Result<UriPartsView, Seq<char>> {
    match parsed {
        Ok(parts) => Ok(parts@),
        Err(detail) => Err(detail@),
    }
}

/// The parts of a parsed URL that the library reads.
pub struct UrlParts {
    /// The URL as the parser writes it out.
    pub text: String,
    /// The host, where the URL has one.
    pub host: Option<String>,
}

/// `UrlParts` over sequences of characters.
pub struct UrlPartsView {
    pub text: Seq<char>,
    pub host: Option<Seq<char>>,
}

impl View for UrlParts {
    type V = UrlPartsView;

    open spec fn view(&self) -> UrlPartsView {
        UrlPartsView { text: self.text@, host: option_text(self.host) }
    }
}

/// Why the URL parser turned a text down.
pub struct UrlRejection {
    /// The text is a relative reference, and there was no base to resolve it
    /// against.
    pub relative_without_base: bool,
    /// The parser's name for the failure.
    pub detail: String,
}

/// `UrlRejection` over sequences of characters.
pub struct UrlRejectionView {
    pub relative_without_base: bool,
    pub detail: Seq<char>,
}

impl View for UrlRejection {
    type V = UrlRejectionView;

    open spec fn view(&self) -> UrlRejectionView {
        UrlRejectionView {
            relative_without_base: self.relative_without_base,
            detail: self.detail@,
        }
    }
}

/// What the URL parser gave for a text: the parts, or why it turned the
/// text down.
pub open spec fn url_outcome(parsed: Result<UrlParts, UrlRejection>) -> Result<
    UrlPartsView,
    UrlRejectionView,
> {
    match parsed {
        Ok(parts) => Ok(parts@),
        Err(rejection) => Err(rejection@),
    }
}

/// Whether an outcome of the URL parser is the failure "relative URL without
/// a base".
pub open spec fn is_relative_without_base(
    outcome: Result<UrlPartsView, UrlRejectionView>,
) -> bool {
    outcome is Err && outcome->Err_0.relative_without_base
}

/// The outcome of `hyper::Uri::from_str` on a text.
pub uninterp spec fn uri_parse(text: Seq<char>) -> Result<UriPartsView, Seq<char>>;

/// The outcome of `url::Url::parse` on a text.
pub uninterp spec fn url_parse(text: Seq<char>) -> Result<UrlPartsView, UrlRejectionView>;

/// Calls `hyper::Uri::from_str` (the `http` crate's `Uri`).
///
/// Trusted: the result is a function of the text alone, named `uri_parse`.
/// On success the parts are what `scheme_str`, `authority` and `path` return
/// for the parsed value; on failure the text is the `Debug` form of the
/// parser's `InvalidUri`. Nothing else is claimed of the parser.
#[verifier::external_body]
pub(crate) fn parse_uri(text: &str) -> (parsed: Result<UriParts, String>)
    ensures
        uri_outcome(parsed) == uri_parse(text@),
{
    match hyper::Uri::from_str(text) {
        Ok(uri) => Ok(
            UriParts {
                scheme: uri.scheme_str().map(|scheme| scheme.to_string()),
                authority: uri.authority().map(|authority| authority.as_str().to_string()),
                path: uri.path().to_string(),
            },
        ),
        Err(error) => Err(format!("{:?}", error)),
    }
}

/// Calls `url::Url::parse`.
///
/// Trusted: the result is a function of the text alone, named `url_parse`.
/// On success `text` is the parsed URL written out again and `host` is its
/// `host_str`; on failure `detail` is the `Debug` form of the parser's
/// `ParseError`, and the flag tells the variant `RelativeUrlWithoutBase`
/// from the others.
///
/// Two facts are taken from the parser's source. It looks for a scheme
/// first, which must begin with an ASCII letter and end at a colon, and
/// without a scheme and without a base it fails with
/// `RelativeUrlWithoutBase`. So a text with no colon in it fails that way,
/// and so does a text that begins with a slash.
#[verifier::external_body]
pub(crate) fn parse_url(text: &str) -> (parsed: Result<UrlParts, UrlRejection>)
    ensures
        url_outcome(parsed) == url_parse(text@),
        !text@.contains(':') ==> is_relative_without_base(url_outcome(parsed)),
        text@.len() > 0 && text@[0] == '/' ==> is_relative_without_base(url_outcome(parsed)),
{
    match url::Url::parse(text) {
        Ok(url) => Ok(
            UrlParts { text: url.to_string(), host: url.host_str().map(|host| host.to_string()) },
        ),
        Err(error) => Err(
            UrlRejection {
                relative_without_base: matches!(error, url::ParseError::RelativeUrlWithoutBase),
                detail: format!("{:?}", error),
            },
        ),
    }
}

} // verus!
