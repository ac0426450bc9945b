//! The part of a parsed URL that validation looks at, and the call that
//! obtains it from the `url` parser re-exported by `reqwest`.

use vstd::prelude::*;

verus! {

/// Scheme and host of an absolute URL, as mathematical text.
pub struct UrlParts {
    pub scheme: Seq<char>,
    pub host: Option<Seq<char>>,
}

/// Scheme and host of an absolute URL. The value lives only for the
/// duration of one classification.
#[derive(Clone, Debug, PartialEq, Eq)]
pub struct ParsedUrl {
    pub scheme: String,
    pub host: Option<String>,
}

impl View for ParsedUrl {
    type V = UrlParts;

    open spec fn view(&self) -> UrlParts {
        UrlParts {
            scheme: self.scheme@,
            host: match self.host {
                Some(h) => Some(h@),
                None => None,
            },
        }
    }
}

/// The view of an optional parse result.
pub open spec fn parts_of(parsed: Option<ParsedUrl>) -> Option<UrlParts> {
    match parsed {
        Some(url) => Some(url@),
        None => None,
    }
}

/// What `reqwest::Url::parse` makes of a text: `None` where it rejects the
/// text, otherwise the scheme and host string of the URL it returns.
pub uninterp spec fn url_parse(input: Seq<char>) -> Option<UrlParts>;

/// Calls `reqwest::Url::parse` and copies out what `Url::scheme` and
/// `Url::host_str` report. Nothing is proved of the parser: the contract
/// only gives its answer the name [`url_parse`], which is sound because the
/// parser reads nothing but its argument.
#[verifier::external_body]
pub(crate) fn parse_url(input: &str) -> (parsed: Option<ParsedUrl>)
    ensures
        parts_of(parsed) == url_parse(input@),
{
    match reqwest::Url::parse(input) {
        Ok(url) => Some(
            ParsedUrl {
                scheme: url.scheme().to_string(),
                host: url.host_str().map(|h| h.to_string()),
            },
        ),
        Err(_) => None,
    }
}

} // verus!
