//! The filters that split the saved articles into the three lists.

use vstd::prelude::*;

use crate::article::Article;

verus! {

/// A filter on the archived and starred flags; a flag that is `None` is not
/// looked at.
#[derive(Clone, Copy, Debug)]
pub struct ArticlesFilter {
    pub archived: Option<bool>,
    pub starred: Option<bool>,
}

/// Whether `filter` keeps `article`: each flag that the filter sets must match.
pub open spec fn accepts(filter: ArticlesFilter, article: Article) -> bool {
    &&& (filter.archived matches Some(v) ==> article.is_archived == v)
    &&& (filter.starred matches Some(v) ==> article.is_starred == v)
}

/// The filter of the favorites list: starred articles, archived or not.
pub open spec fn favorites_filter() -> ArticlesFilter {
    ArticlesFilter { archived: None, starred: Some(true) }
}

/// The filter of the archive list: archived articles.
pub open spec fn archive_filter() -> ArticlesFilter {
    ArticlesFilter { archived: Some(true), starred: None }
}

/// The filter of the unread list: articles neither archived nor starred.
pub open spec fn unread_filter() -> ArticlesFilter {
    ArticlesFilter { archived: Some(false), starred: Some(false) }
}

impl Default for ArticlesFilter {
    fn default() -> (r: Self)
        ensures
            r.archived is None,
            r.starred is None,
    {
        ArticlesFilter { archived: None, starred: None }
    }
}

impl ArticlesFilter {
    /// The filter that sets no flag.
    pub fn none() -> (r: Self)
        ensures
            r.archived is None,
            r.starred is None,
    {
        Self::default()
    }

    /// The filter of the favorites list.
    pub fn favorites() -> (r: Self)
        ensures
            r == favorites_filter(),
    {
        ArticlesFilter { starred: Some(true), ..Default::default() }
    }

    /// The filter of the archive list.
    pub fn archive() -> (r: Self)
        ensures
            r == archive_filter(),
    {
        ArticlesFilter { archived: Some(true), ..Default::default() }
    }

    /// The filter of the unread list.
    pub fn unread() -> (r: Self)
        ensures
            r == unread_filter(),
    {
        ArticlesFilter { archived: Some(false), starred: Some(false) }
    }

    /// Whether the filter keeps `article`. A filter must set at least one flag.
    pub fn matches(&self, article: &Article) -> (r: bool)
        requires
            self.archived is Some || self.starred is Some,
        ensures
            r == accepts(*self, *article),
    {
        let archived_ok = match self.archived {
            Some(filter_archived) => article.is_archived == filter_archived,
            None => true,
        };
        let starred_ok = match self.starred {
            Some(filter_starred) => article.is_starred == filter_starred,
            None => true,
        };
        archived_ok && starred_ok
    }
}

/// The favorites list holds exactly the starred articles, whether archived
/// or not; the archive list exactly the archived ones; the unread list exactly
/// those neither archived nor starred.
pub proof fn lemma_lists_by_flags(article: Article)
    ensures
        accepts(favorites_filter(), article) <==> article.is_starred,
        accepts(archive_filter(), article) <==> article.is_archived,
        accepts(unread_filter(), article) <==> (!article.is_archived && !article.is_starred),
{
}

/// An article of the unread list is in neither the favorites nor the
/// archive list, and every article is in at least one of the three lists.
pub proof fn lemma_lists_cover_without_unread_overlap(article: Article)
    ensures
        accepts(unread_filter(), article) ==> !accepts(favorites_filter(), article) && !accepts(
            archive_filter(),
            article,
        ),
        accepts(unread_filter(), article) || accepts(favorites_filter(), article) || accepts(
            archive_filter(),
            article,
        ),
{
}

} // verus!
