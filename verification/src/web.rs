//! Web addresses, parsed with the `url` crate.

use vstd::prelude::*;

use crate::text::opt_view;

verus! {

/// The serialization of the URL that `url::Url::parse` makes of a text, or
/// `None` when it rejects the text.
pub uninterp spec fn parsed_url(text: Seq<char>) -> Option<Seq<char>>;

/// Parses a URL with `url::Url::parse` and gives back its serialization
/// (`Url::as_str`); `None` where the parser returns an error.
#[verifier::external_body]
pub(crate) fn parse_url(text: &str) -> (r: Option<String>)
    ensures
        opt_view(r) == parsed_url(text@),
{
    match url::Url::parse(text) {
        Ok(u) => Some(u.as_str().to_string()),
        Err(_) => None,
    }
}

/// The URL of a new article typed by the user, when it parses: the action
/// that saves it is then enabled.
pub fn new_article_url(text: &str) -> (r: Option<String>)
    ensures
        opt_view(r) == parsed_url(text@),
{
    parse_url(text)
}

} // verus!
