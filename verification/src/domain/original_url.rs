//! Original URLs: the validated targets that short codes stand for.

use crate::error::{ErrorView, UrlShortenerError};
use crate::text::same_text;
use vstd::prelude::*;
use vstd::string::StringExecFns;

verus! {

/// What the library reads of a parsed URL.
#[derive(Debug, PartialEq, Eq)]
pub struct UrlParts {
    /// The whole URL in its normalized form.
    pub text: String,
    /// The scheme, in lower case and without the colon.
    pub scheme: String,
    /// The host, where it is a domain name.
    pub domain: Option<String>,
}

/// The mathematical value of [`UrlParts`], and of an [`OriginalUrl`].
pub struct UrlPartsView {
    pub text: Seq<char>,
    pub scheme: Seq<char>,
    pub domain: Option<Seq<char>>,
}

impl View for UrlParts {
    type V = UrlPartsView;

    open spec fn view(&self) -> UrlPartsView {
        UrlPartsView {
            text: self.text@,
            scheme: self.scheme@,
            domain: match self.domain {
                Some(domain) => Some(domain@),
                None => None,
            },
        }
    }
}

impl Clone for UrlParts {
    fn clone(&self) -> (copy: Self)
        ensures
            copy@ == self@,
    {
        UrlParts {
            text: self.text.clone(),
            scheme: self.scheme.clone(),
            domain: match &self.domain {
                Some(domain) => Some(domain.clone()),
                None => None,
            },
        }
    }
}

/// The mathematical value of what parsing returns: the parts of the URL, or
/// the text of the parser's complaint.
pub open spec fn outcome_view(outcome: Result<UrlParts, String>) -> Result<
    UrlPartsView,
    Seq<char>,
> {
    match outcome {
        Ok(parts) => Ok(parts@),
        Err(reason) => Err(reason@),
    }
}

/// What the URL parser makes of `input`: the parts of the absolute URL that
/// it reads there, or the text of its complaint. The parser follows the URL
/// standard, which is not restated here.
pub uninterp spec fn parsed_url(input: Seq<char>) -> Result<UrlPartsView, Seq<char>>;

/// Parses `input` with `url::Url::parse`. On success the parts are the URL's
/// serialization, scheme and domain as the parsed URL reports them; on failure
/// the text is that of the parse error. The contract claims only that the
/// outcome depends on nothing but `input`.
#[verifier::external_body]
fn parse_url(input: &str) -> (outcome: Result<UrlParts, String>)
    ensures
        outcome_view(outcome) == parsed_url(input@),
{
    match url::Url::parse(input) {
        Ok(parsed) => Ok(
            UrlParts {
                text: parsed.as_str().to_string(),
                scheme: parsed.scheme().to_string(),
                domain: parsed.domain().map(str::to_string),
            },
        ),
        Err(e) => Err(e.to_string()),
    }
}

/// The scheme of plain web addresses.
pub const HTTP: &'static str = "http";

/// The scheme of secured web addresses.
pub const HTTPS: &'static str = "https";

/// How the reason for a refused scheme begins; the scheme follows.
pub const UNSUPPORTED_SCHEME: &'static str = "Unsupported scheme: ";

/// How the reason for a refused scheme ends.
pub const ALLOWED_SCHEMES: &'static str = ". Only http and https are allowed";

/// Whether URLs of this scheme are accepted.
pub open spec fn is_allowed_scheme(scheme: Seq<char>) -> bool {
    scheme == HTTP@ || scheme == HTTPS@
}

/// The reason given for a URL whose scheme is not accepted.
pub open spec fn unsupported_scheme_reason(scheme: Seq<char>) -> Seq<char> {
    UNSUPPORTED_SCHEME@ + scheme + ALLOWED_SCHEMES@
}

/// What becomes of a parsing outcome: a parsed URL is admitted where its
/// scheme is allowed and refused with [`unsupported_scheme_reason`] where it
/// is not, and the parser's complaint is passed on as the reason.
pub open spec fn admission(outcome: Result<UrlPartsView, Seq<char>>) -> Result<
    UrlPartsView,
    ErrorView,
> {
    match outcome {
        Ok(parts) => if is_allowed_scheme(parts.scheme) {
            Ok(parts)
        } else {
            Err(ErrorView::InvalidUrl(unsupported_scheme_reason(parts.scheme)))
        },
        Err(reason) => Err(ErrorView::InvalidUrl(reason)),
    }
}

/// The mathematical value of what a constructor of [`OriginalUrl`] returns.
pub open spec fn construction_view(r: Result<OriginalUrl, UrlShortenerError>) -> Result<
    UrlPartsView,
    ErrorView,
> {
    match r {
        Ok(url) => Ok(url@),
        Err(e) => Err(e@),
    }
}

/// A URL that has passed validation: its scheme is `http` or `https`. One
/// made from a text is absolute and is held in the normalized form that the
/// parser gave it.
#[derive(Debug, PartialEq, Eq)]
pub struct OriginalUrl(UrlParts);

impl View for OriginalUrl {
    type V = UrlPartsView;

    closed spec fn view(&self) -> UrlPartsView {
        self.0@
    }
}

impl Clone for OriginalUrl {
    fn clone(&self) -> (copy: Self)
        ensures
            copy@ == self@,
    {
        proof {
            use_type_invariant(self);
        }
        OriginalUrl(self.0.clone())
    }
}

impl OriginalUrl {
    /// What holds of every original URL: its scheme is an allowed one.
    /// Verus checks this wherever an original URL is made, so
    /// `use_type_invariant` gives it of any original URL at hand.
    #[verifier::type_invariant]
    pub open spec fn is_valid(&self) -> bool {
        is_allowed_scheme(self@.scheme)
    }

    /// Create a validated URL from the text `url`.
    ///
    /// The text is parsed as an absolute URL, and the outcome is judged as
    /// [`admission`] says: see [`OriginalUrl::from_parsed`].
    pub fn new(url: String) -> (r: Result<Self, UrlShortenerError>)
        ensures
            construction_view(r) == admission(parsed_url(url@)),
    {
        Self::from_parsed(parse_url(url.as_str()))
    }

    /// Create a validated URL from the outcome of parsing.
    ///
    /// Parts with the scheme `http` or `https` are accepted as they are.
    /// Parts with another scheme are refused with a reason that names the
    /// scheme, and a parser's complaint is refused with that complaint as the
    /// reason.
    pub fn from_parsed(outcome: Result<UrlParts, String>) -> (r: Result<Self, UrlShortenerError>)
        ensures
            construction_view(r) == admission(outcome_view(outcome)),
    {
        match outcome {
            Ok(parts) => {
                if same_text(parts.scheme.as_str(), HTTP) || same_text(
                    parts.scheme.as_str(),
                    HTTPS,
                ) {
                    Ok(OriginalUrl(parts))
                } else {
                    let mut reason = UNSUPPORTED_SCHEME.to_owned();
                    reason.append(parts.scheme.as_str());
                    reason.append(ALLOWED_SCHEMES);
                    Err(UrlShortenerError::InvalidUrl(reason))
                }
            },
            Err(reason) => Err(UrlShortenerError::InvalidUrl(reason)),
        }
    }

    /// Get the scheme, which is always `http` or `https`.
    pub fn scheme(&self) -> (s: &str)
        ensures
            s@ == self@.scheme,
            is_allowed_scheme(s@),
    {
        proof {
            use_type_invariant(self);
        }
        self.0.scheme.as_str()
    }

    /// Get the domain name of the host, if the host is one.
    pub fn domain(&self) -> (domain: Option<&str>)
        ensures
            match domain {
                Some(name) => self@.domain == Some(name@),
                None => self@.domain is None,
            },
    {
        match &self.0.domain {
            Some(name) => Some(name.as_str()),
            None => None,
        }
    }

    /// The normalized URL as an owned text, as it is shown to a reader.
    pub fn to_string(&self) -> (text: String)
        ensures
            text@ == self@.text,
    {
        self.0.text.clone()
    }

    /// Get the normalized URL as a string slice.
    pub fn as_str(&self) -> (s: &str)
        ensures
            s@ == self@.text,
    {
        self.0.text.as_str()
    }
}

} // verus!
