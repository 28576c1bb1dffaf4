//! The actions on articles and the decisions of the article manager.

use vstd::prelude::*;

use crate::article::{Article, PatchEntry};
use crate::articles_view::{with_added, with_updated, without_first, new_articles, ArticlesView};

verus! {

/// Something to do with articles.
#[derive(Clone, Debug, PartialEq, Eq)]
pub enum ArticleAction {
    Add(Article),
    AddMultiple(Vec<Article>),
    Delete(Article),
    Archive(Article),
    Favorite(Article),
    Open(Article),
    Update(Article),
}

/// The change of the local article database that an action needs first.
#[derive(Clone, Copy, Debug, PartialEq, Eq)]
pub enum StorageRequest {
    Nothing,
    DeleteArticle { id: i32 },
    SetArchived { id: i32, archived: bool },
    SetStarred { id: i32, starred: bool },
}

/// The request to the wallabag server that an action needs.
#[derive(Clone, Copy, Debug, PartialEq, Eq)]
pub enum RemoteRequest {
    Nothing,
    UpdateEntry { id: i32, patch: PatchEntry },
    DeleteEntry { id: i32 },
}

/// A copy of a list of articles.
pub fn copy_articles(articles: &Vec<Article>) -> (r: Vec<Article>)
    ensures
        r@ == articles@,
{
    let mut r: Vec<Article> = Vec::new();
    let n = articles.len();
    for i in 0..n
        invariant
            n == articles@.len(),
            r@ == articles@.take(i as int),
    {
        r.push(articles[i].copy());
        assert(articles@.take(i + 1) =~= articles@.take(i as int).push(articles@[i as int]));
    }
    assert(articles@.take(n as int) =~= articles@);
    r
}

/// The database change that the article manager makes before it passes an
/// action on: deleting the article, or flipping its archived or starred flag.
pub fn storage_request(action: &ArticleAction) -> (r: StorageRequest)
    ensures
        r == match *action {
            ArticleAction::Delete(a) => StorageRequest::DeleteArticle { id: a.id },
            ArticleAction::Archive(a) => StorageRequest::SetArchived {
                id: a.id,
                archived: !a.is_archived,
            },
            ArticleAction::Favorite(a) => StorageRequest::SetStarred { id: a.id, starred: !a.is_starred },
            _ => StorageRequest::Nothing,
        },
{
    match action {
        ArticleAction::Delete(a) => StorageRequest::DeleteArticle { id: a.id },
        ArticleAction::Archive(a) => StorageRequest::SetArchived { id: a.id, archived: !a.is_archived },
        ArticleAction::Favorite(a) => StorageRequest::SetStarred { id: a.id, starred: !a.is_starred },
        _ => StorageRequest::Nothing,
    }
}

/// The action that the article manager passes on to the application once
/// the database change of `storage_request` has been made (`stored`) or has
/// failed: nothing when it failed, the flipped article for archive and
/// favorite, the action itself otherwise.
pub fn forward_action(action: ArticleAction, stored: bool) -> (r: Option<ArticleAction>)
    ensures
        r == match action {
            ArticleAction::Delete(a) => if stored {
                Some(ArticleAction::Delete(a))
            } else {
                None
            },
            ArticleAction::Archive(a) => if stored {
                Some(ArticleAction::Archive(Article { is_archived: !a.is_archived, ..a }))
            } else {
                None
            },
            ArticleAction::Favorite(a) => if stored {
                Some(ArticleAction::Favorite(Article { is_starred: !a.is_starred, ..a }))
            } else {
                None
            },
            other => Some(other),
        },
{
    match action {
        ArticleAction::Delete(a) => {
            if stored {
                Some(ArticleAction::Delete(a))
            } else {
                None
            }
        },
        ArticleAction::Archive(a) => {
            if stored {
                let mut a = a;
                a.toggle_archive();
                Some(ArticleAction::Archive(a))
            } else {
                None
            }
        },
        ArticleAction::Favorite(a) => {
            if stored {
                let mut a = a;
                a.toggle_favorite();
                Some(ArticleAction::Favorite(a))
            } else {
                None
            }
        },
        other => Some(other),
    }
}

/// The request that the application sends to the server for an action it
/// receives: the new flags after archive and favorite, the deletion after
/// delete.
pub fn remote_request(action: &ArticleAction) -> (r: RemoteRequest)
    ensures
        r == match *action {
            ArticleAction::Archive(a) => RemoteRequest::UpdateEntry {
                id: a.id,
                patch: PatchEntry { starred: Some(a.is_starred), archive: Some(a.is_archived) },
            },
            ArticleAction::Favorite(a) => RemoteRequest::UpdateEntry {
                id: a.id,
                patch: PatchEntry { starred: Some(a.is_starred), archive: Some(a.is_archived) },
            },
            ArticleAction::Delete(a) => RemoteRequest::DeleteEntry { id: a.id },
            _ => RemoteRequest::Nothing,
        },
{
    match action {
        ArticleAction::Archive(a) => RemoteRequest::UpdateEntry { id: a.id, patch: a.get_patch() },
        ArticleAction::Favorite(a) => RemoteRequest::UpdateEntry { id: a.id, patch: a.get_patch() },
        ArticleAction::Delete(a) => RemoteRequest::DeleteEntry { id: a.id },
        _ => RemoteRequest::Nothing,
    }
}

/// The article lists after the application handles `action`.
pub open spec fn applied(s: Seq<Article>, action: ArticleAction) -> Seq<Article> {
    match action {
        ArticleAction::Add(a) => with_added(s, a),
        ArticleAction::AddMultiple(v) => s + new_articles(v@, s),
        ArticleAction::Delete(a) => without_first(s, a.id),
        ArticleAction::Archive(a) => with_updated(s, a),
        ArticleAction::Favorite(a) => with_updated(s, a),
        ArticleAction::Update(a) => with_updated(s, a),
        ArticleAction::Open(_) => s,
    }
}

impl ArticlesView {
    /// Applies to the lists what an action received by the application
    /// changes in them.
    pub fn apply(&mut self, action: &ArticleAction)
        ensures
            final(self)@ == applied(old(self)@, *action),
    {
        match action {
            ArticleAction::Add(a) => self.add(a),
            ArticleAction::AddMultiple(v) => self.add_multiple(copy_articles(v)),
            ArticleAction::Delete(a) => self.delete(a),
            ArticleAction::Archive(a) => self.archive(a),
            ArticleAction::Favorite(a) => self.favorite(a),
            ArticleAction::Update(a) => self.update(a),
            ArticleAction::Open(_) => {},
        }
    }
}

/// Archiving an article twice gives it back unchanged.
pub proof fn lemma_toggle_twice(a: Article)
    ensures
        (Article { is_archived: !(Article { is_archived: !a.is_archived, ..a }).is_archived, ..a })
            == a,
        (Article { is_starred: !(Article { is_starred: !a.is_starred, ..a }).is_starred, ..a }) == a,
{
}

} // verus!
