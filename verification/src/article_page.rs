//! The HTML page that shows one article.

use vstd::prelude::*;

use crate::article::{article_info, Article};
use crate::text::{chars_of, replace_all, replace_all_chars, string_of};

verus! {

/// The page of an article: the layout with `{title}`, `{article_info}` and
/// `{content}` replaced by the article's title, information line and content
/// (the title and content only when the article has them), then `{css}` and
/// `{js}` by the style sheet and the script.
pub open spec fn article_page(layout: Seq<char>, a: Article, css: Seq<char>, js: Seq<char>) -> Seq<
    char,
> {
    let h1 = match a.title {
        Some(t) => replace_all(layout, "{title}"@, t@),
        None => layout,
    };
    let h2 = replace_all(h1, "{article_info}"@, article_info(a, true));
    let h3 = match a.content {
        Some(c) => replace_all(h2, "{content}"@, c@),
        None => h2,
    };
    let h4 = replace_all(h3, "{css}"@, css);
    replace_all(h4, "{js}"@, js)
}

/// `text` with every `pat` replaced by `rep`.
fn replace(text: &[char], pat: &str, rep: &str) -> (r: Vec<char>)
    requires
        pat@.len() > 0,
    ensures
        r@ == replace_all(text@, pat@, rep@),
{
    replace_all_chars(text, chars_of(pat).as_slice(), chars_of(rep).as_slice())
}

/// Fills the page layout for `article`.
pub fn render_article(layout: &str, article: &Article, css: &str, js: &str) -> (r: String)
    ensures
        r@ == article_page(layout@, *article, css@, js@),
{
    proof {
        reveal_strlit("{title}");
        reveal_strlit("{article_info}");
        reveal_strlit("{content}");
        reveal_strlit("{css}");
        reveal_strlit("{js}");
    }
    let mut html = chars_of(layout);
    if let Some(title) = &article.title {
        html = replace(html.as_slice(), "{title}", title.as_str());
    }
    let article_info = article.get_article_info(true);
    html = replace(html.as_slice(), "{article_info}", article_info.as_str());
    if let Some(content) = &article.content {
        html = replace(html.as_slice(), "{content}", content.as_str());
    }
    html = replace(html.as_slice(), "{css}", css);
    html = replace(html.as_slice(), "{js}", js);
    string_of(html.as_slice())
}

} // verus!

verus! {

/// The address to open in the web browser when the article page is asked to
/// navigate: for a navigation caused by a click on a link with an address,
/// that address (the page itself then stays), otherwise none.
pub fn link_to_open(is_navigation: bool, link_clicked: bool, uri: Option<String>) -> (r: Option<
    String,
>)
    ensures
        r == (if is_navigation && link_clicked {
            uri
        } else {
            None
        }),
{
    if is_navigation && link_clicked {
        uri
    } else {
        None
    }
}

/// An entry of the article page's context menu.
#[derive(Clone, Copy, Debug, PartialEq, Eq)]
pub enum ContextMenuAction {
    OpenLink,
    OpenLinkInNewWindow,
    OpenImageInNewWindow,
    GoBack,
    GoForward,
    Stop,
    Reload,
    InspectElement,
    DownloadLinkToDisk,
    DownloadImageToDisk,
    /// Any other entry.
    Other,
}

/// Whether a context menu entry is removed: every navigation, inspection and
/// download entry is.
pub fn is_forbidden(action: ContextMenuAction) -> (r: bool)
    ensures
        r == (action != ContextMenuAction::Other),
{
    match action {
        ContextMenuAction::Other => false,
        _ => true,
    }
}

} // verus!
