//! The pages of the main window and how the window moves between them.

use vstd::prelude::*;
use vstd::view::View as _;

use crate::text::same_text;

verus! {

/// A view that the window can be asked to show.
#[derive(Clone, Copy, Debug, PartialEq, Eq)]
pub enum View {
    /// The article that was opened.
    Article,
    /// The login form.
    Login,
    /// The article lists.
    Articles,
    /// Whether a synchronization is running.
    Syncing(bool),
}

/// What the window does to its navigation stack for a view.
#[derive(Clone, Copy, Debug, PartialEq, Eq)]
pub enum Navigation {
    /// Push the article page.
    PushArticle,
    /// Pop back to the article lists, which are on the stack.
    PopToArticles,
    /// Replace the whole stack with the article lists.
    ReplaceWithArticles,
    /// Replace the whole stack with the login page, whose login button
    /// becomes the default widget.
    ReplaceWithLogin,
    /// Show or hide the progress bars.
    Progress(bool),
}

/// Whether one of the pages on the stack carries the tag `tag`.
pub open spec fn stack_has_tag(tags: Seq<String>, tag: Seq<char>) -> bool {
    exists|i: int| 0 <= i < tags.len() && #[trigger] tags[i]@ == tag
}

/// The navigation for `view` when the stack holds pages with the tags `tags`.
pub open spec fn navigation_for(view: View, tags: Seq<String>) -> Navigation {
    match view {
        View::Article => Navigation::PushArticle,
        View::Articles => if stack_has_tag(tags, "articles"@) {
            Navigation::PopToArticles
        } else {
            Navigation::ReplaceWithArticles
        },
        View::Login => Navigation::ReplaceWithLogin,
        View::Syncing(state) => Navigation::Progress(state),
    }
}

/// Whether a page with the tag `tag` is on the navigation stack.
pub fn navigation_stack_has_page_tag(tags: &[String], tag: &str) -> (r: bool)
    ensures
        r == stack_has_tag(tags@, tag@),
{
    let n = tags.len();
    for i in 0..n
        invariant
            n == tags@.len(),
            forall|j: int| 0 <= j < i ==> #[trigger] tags@[j]@ != tag@,
    {
        if same_text(tags[i].as_str(), tag) {
            return true;
        }
    }
    false
}

/// The navigation that shows `view`.
pub fn set_view(view: View, tags: &[String]) -> (r: Navigation)
    ensures
        r == navigation_for(view, tags@),
{
    match view {
        View::Article => Navigation::PushArticle,
        View::Articles => {
            if navigation_stack_has_page_tag(tags, "articles") {
                Navigation::PopToArticles
            } else {
                Navigation::ReplaceWithArticles
            }
        },
        View::Login => Navigation::ReplaceWithLogin,
        View::Syncing(state) => Navigation::Progress(state),
    }
}

/// The page that an article list shows: `empty` when it has no article,
/// `list` otherwise.
pub fn articles_list_page(n_items: u32) -> (r: &'static str)
    ensures
        r@ == (if n_items == 0 {
            "empty"@
        } else {
            "list"@
        }),
{
    if n_items == 0 {
        "empty"
    } else {
        "list"
    }
}

/// Whether the actions on the open article are enabled: exactly when the
/// visible page is the article page.
pub fn article_actions_enabled(visible_tag: &str) -> (r: bool)
    ensures
        r == (visible_tag@ == "article"@),
{
    same_text(visible_tag, "article")
}

} // verus!
