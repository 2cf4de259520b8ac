//! URLs together with the text they were parsed from.

use vstd::prelude::*;

verus! {

#[verifier::external_type_specification]
#[verifier::external_body]
pub struct ExUrl(url::Url);

/// Whether `url::Url::parse` accepts `text` as an absolute URL.
pub uninterp spec fn url_accepts(text: Seq<char>) -> bool;

/// A URL and the text it was parsed from. Only `parse_url` makes one, so
/// the URL held is always the parse of the text held.
#[derive(Debug)]
pub struct ParsedUrl {
    url: url::Url,
    text: String,
}

impl View for ParsedUrl {
    type V = Seq<char>;

    /// The text the URL was parsed from.
    closed spec fn view(&self) -> Seq<char> {
        self.text@
    }
}

impl ParsedUrl {
    /// The parsed URL.
    pub fn url(&self) -> &url::Url {
        &self.url
    }

    /// The parsed URL, taken out.
    pub fn into_url(self) -> url::Url {
        self.url
    }

    /// The text the URL was parsed from.
    pub fn source_text(&self) -> (s: &str)
        ensures
            s@ == self@,
    {
        self.text.as_str()
    }
}

/// Calls `url::Url::parse` on `text` and keeps the text with the URL. The
/// contract claims that it succeeds exactly on the texts named as
/// accepted, and that the value carries the input text; the URL's parts
/// are not restated.
#[verifier::external_body]
pub(crate) fn parse_url(text: &str) -> (r: Option<ParsedUrl>)
    ensures
        r is Some == url_accepts(text@),
        r matches Some(u) ==> u@ == text@,
{
    match url::Url::parse(text) {
        Ok(url) => Some(ParsedUrl { url, text: text.to_owned() }),
        Err(_) => None,
    }
}

} // verus!
