//! Sorting a candidate routing URL into one of four classes.

use vstd::prelude::*;
use crate::text::same_text;
use crate::url::{parse_url, parts_of, url_parse, ParsedUrl, UrlParts};

verus! {

/// The judgment passed on a candidate routing URL.
#[derive(Clone, Debug, PartialEq, Eq)]
pub enum Classification {
    /// The text is no absolute URL.
    Unparsable,
    /// The URL's scheme, carried here, is neither `http` nor `https`.
    UnsupportedScheme(String),
    /// The URL's host, carried here, is one of the two local literals.
    LocalHost(String),
    /// A URL a router can reach.
    ValidPublic,
}

/// [`Classification`] as mathematical text.
pub enum ClassificationView {
    Unparsable,
    UnsupportedScheme(Seq<char>),
    LocalHost(Seq<char>),
    ValidPublic,
}

impl View for Classification {
    type V = ClassificationView;

    open spec fn view(&self) -> ClassificationView {
        match self {
            Classification::Unparsable => ClassificationView::Unparsable,
            Classification::UnsupportedScheme(s) => ClassificationView::UnsupportedScheme(s@),
            Classification::LocalHost(h) => ClassificationView::LocalHost(h@),
            Classification::ValidPublic => ClassificationView::ValidPublic,
        }
    }
}

/// The schemes a router can be reached by. The match is exact, case included.
pub open spec fn is_supported_scheme(scheme: Seq<char>) -> bool {
    scheme == "http"@ || scheme == "https"@
}

/// The hosts that cannot be reached from the public internet. Only these two
/// literals count: no address ranges, no wildcard.
pub open spec fn is_local_host(host: Seq<char>) -> bool {
    host == "localhost"@ || host == "127.0.0.1"@
}

/// The class of a parse result.
pub open spec fn classification_of(parsed: Option<UrlParts>) -> ClassificationView {
    match parsed {
        None => ClassificationView::Unparsable,
        Some(parts) => if !is_supported_scheme(parts.scheme) {
            ClassificationView::UnsupportedScheme(parts.scheme)
        } else {
            match parts.host {
                Some(host) if is_local_host(host) => ClassificationView::LocalHost(host),
                _ => ClassificationView::ValidPublic,
            }
        },
    }
}

/// The class of a candidate text: that of what the URL parser makes of it.
pub open spec fn classify_spec(candidate: Seq<char>) -> ClassificationView {
    classification_of(url_parse(candidate))
}

/// Whether `scheme` is `http` or `https`.
pub fn supported_scheme(scheme: &str) -> (supported: bool)
    ensures
        supported == is_supported_scheme(scheme@),
{
    same_text(scheme, "http") || same_text(scheme, "https")
}

/// Whether `host` is `localhost` or `127.0.0.1`.
pub fn local_host(host: &str) -> (local: bool)
    ensures
        local == is_local_host(host@),
{
    same_text(host, "localhost") || same_text(host, "127.0.0.1")
}

/// Classifies the outcome of parsing a candidate.
pub fn classify_parsed(parsed: Option<ParsedUrl>) -> (class: Classification)
    ensures
        class@ == classification_of(parts_of(parsed)),
{
    match parsed {
        None => Classification::Unparsable,
        Some(url) => {
            if !supported_scheme(url.scheme.as_str()) {
                Classification::UnsupportedScheme(url.scheme)
            } else {
                match url.host {
                    Some(host) => {
                        if local_host(host.as_str()) {
                            Classification::LocalHost(host)
                        } else {
                            Classification::ValidPublic
                        }
                    },
                    None => Classification::ValidPublic,
                }
            }
        },
    }
}

/// Parses and classifies a candidate. Every call parses anew.
pub fn classify(candidate: &str) -> (class: Classification)
    ensures
        class@ == classify_spec(candidate@),
{
    classify_parsed(parse_url(candidate))
}

/// Classifies an optional candidate. An absent candidate is not classified:
/// the caller has to obtain a URL first and come back with it. A present but
/// empty one is classified like any other text.
pub fn classify_candidate(candidate: &Option<String>) -> (class: Option<Classification>)
    ensures
        candidate is None <==> class is None,
        candidate matches Some(text) ==> class matches Some(c) && c@ == classify_spec(text@),
{
    match candidate {
        None => None,
        Some(text) => Some(classify(text.as_str())),
    }
}

} // verus!
