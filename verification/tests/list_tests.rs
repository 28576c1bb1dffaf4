use std::cmp::Ordering;

use read_it_later::article::{Article, PatchEntry};
use read_it_later::article_filter::ArticlesFilter;
use read_it_later::article_sorter::ArticleSorter;
use read_it_later::articles::{
    copy_articles, forward_action, remote_request, storage_request, ArticleAction, RemoteRequest,
    StorageRequest,
};
use read_it_later::articles_view::ArticlesView;

fn art(id: i32, archived: bool, starred: bool, published_at: Option<(i64, u32)>) -> Article {
    Article {
        id,
        title: Some(format!("Article {}", id)),
        is_archived: archived,
        is_public: false,
        is_starred: starred,
        mimetype: None,
        language: None,
        preview_picture: None,
        content: None,
        published_by: None,
        published_at,
        reading_time: 0,
        base_url: None,
        url: None,
    }
}

fn ids(view: &ArticlesView) -> Vec<i32> {
    view.articles().iter().map(|a| a.id).collect()
}

#[test]
fn filters_of_the_three_lists() {
    let f = ArticlesFilter::favorites();
    assert_eq!((f.archived, f.starred), (None, Some(true)));
    let a = ArticlesFilter::archive();
    assert_eq!((a.archived, a.starred), (Some(true), None));
    let u = ArticlesFilter::unread();
    assert_eq!((u.archived, u.starred), (Some(false), Some(false)));
    let n = ArticlesFilter::none();
    assert_eq!((n.archived, n.starred), (None, None));
    let d = ArticlesFilter::default();
    assert_eq!((d.archived, d.starred), (None, None));
}

#[test]
fn filters_split_articles_by_flags() {
    let plain = art(1, false, false, None);
    let starred = art(2, false, true, None);
    let archived = art(3, true, false, None);
    let both = art(4, true, true, None);
    let (f, a, u) = (ArticlesFilter::favorites(), ArticlesFilter::archive(), ArticlesFilter::unread());
    assert_eq!((f.matches(&plain), a.matches(&plain), u.matches(&plain)), (false, false, true));
    assert_eq!((f.matches(&starred), a.matches(&starred), u.matches(&starred)), (true, false, false));
    assert_eq!((f.matches(&archived), a.matches(&archived), u.matches(&archived)), (false, true, false));
    assert_eq!((f.matches(&both), a.matches(&both), u.matches(&both)), (true, true, false));
}

#[test]
fn sorter_puts_newest_first_and_undated_last() {
    let old = art(1, false, false, Some((100, 0)));
    let new = art(2, false, false, Some((200, 0)));
    let undated = art(3, false, false, None);
    assert_eq!(ArticleSorter::compare_published_at(&new, &old), Ordering::Less);
    assert_eq!(ArticleSorter::compare_published_at(&old, &new), Ordering::Greater);
    assert_eq!(ArticleSorter::compare_published_at(&old, &old), Ordering::Equal);
    assert_eq!(ArticleSorter::compare_published_at(&old, &undated), Ordering::Less);
    assert_eq!(ArticleSorter::compare_published_at(&undated, &old), Ordering::Greater);
    assert_eq!(ArticleSorter::compare_published_at(&undated, &undated), Ordering::Equal);
    assert_eq!(Article::compare(&new, &old), Ordering::Less);
    let mut v = vec![old.clone(), undated.clone(), new.clone()];
    v.sort_by(ArticleSorter::compare_published_at);
    assert_eq!(v.iter().map(|a| a.id).collect::<Vec<_>>(), vec![2, 1, 3]);
}

#[test]
fn sorter_orders_within_a_second_by_nanoseconds() {
    let earlier = art(1, false, false, Some((100, 250_000_000)));
    let later = art(2, false, false, Some((100, 750_000_000)));
    let next = art(3, false, false, Some((101, 0)));
    assert_eq!(ArticleSorter::compare_published_at(&later, &earlier), Ordering::Less);
    assert_eq!(ArticleSorter::compare_published_at(&earlier, &later), Ordering::Greater);
    assert_eq!(ArticleSorter::compare_published_at(&next, &later), Ordering::Less);
    assert_eq!(ArticleSorter::compare_published_at(&later, &later), Ordering::Equal);
}

#[test]
fn view_adds_once_per_id() {
    let mut view = ArticlesView::new();
    view.add(&art(1, false, false, None));
    view.add(&art(2, false, false, None));
    view.add(&art(1, true, true, None));
    assert_eq!(ids(&view), vec![1, 2]);
    assert!(!view.articles()[0].is_archived);
    assert_eq!(view.index(&art(2, false, false, None)), Some(1));
    assert_eq!(view.index(&art(9, false, false, None)), None);
}

#[test]
fn view_add_multiple_skips_stored_ids() {
    let mut view = ArticlesView::new();
    view.add(&art(1, false, false, None));
    view.add_multiple(vec![art(2, false, false, None), art(1, true, false, None), art(3, false, false, None)]);
    assert_eq!(ids(&view), vec![1, 2, 3]);
}

#[test]
fn view_add_multiple_keeps_duplicates_within_a_batch() {
    let mut view = ArticlesView::new();
    view.add_multiple(vec![art(5, false, false, None), art(5, true, false, None)]);
    assert_eq!(ids(&view), vec![5, 5]);
}

#[test]
fn view_delete_update_clear() {
    let mut view = ArticlesView::new();
    view.add_multiple(vec![art(1, false, false, None), art(2, false, false, None), art(3, false, false, None)]);
    view.delete(&art(2, false, false, None));
    assert_eq!(ids(&view), vec![1, 3]);
    view.delete(&art(7, false, false, None));
    assert_eq!(ids(&view), vec![1, 3]);
    view.update(&art(1, true, false, None));
    assert_eq!(ids(&view), vec![3, 1]);
    assert!(view.articles()[1].is_archived);
    view.favorite(&art(3, false, true, None));
    assert_eq!(ids(&view), vec![1, 3]);
    assert!(view.articles()[1].is_starred);
    view.archive(&art(9, true, false, None));
    assert_eq!(ids(&view), vec![1, 3, 9]);
    view.clear();
    assert!(view.articles().is_empty());
}

#[test]
fn view_applies_actions() {
    let mut view = ArticlesView::new();
    view.apply(&ArticleAction::AddMultiple(vec![art(1, false, false, None), art(2, false, false, None)]));
    view.apply(&ArticleAction::Add(art(3, false, false, None)));
    view.apply(&ArticleAction::Open(art(4, false, false, None)));
    view.apply(&ArticleAction::Delete(art(1, false, false, None)));
    view.apply(&ArticleAction::Archive(art(2, true, false, None)));
    view.apply(&ArticleAction::Update(art(3, false, false, Some((9, 0)))));
    assert_eq!(ids(&view), vec![2, 3]);
    assert!(view.articles()[0].is_archived);
    assert_eq!(view.articles()[1].published_at, Some((9, 0)));
}

#[test]
fn storage_requests_of_actions() {
    assert_eq!(storage_request(&ArticleAction::Delete(art(1, false, false, None))), StorageRequest::DeleteArticle { id: 1 });
    assert_eq!(
        storage_request(&ArticleAction::Archive(art(2, false, true, None))),
        StorageRequest::SetArchived { id: 2, archived: true }
    );
    assert_eq!(
        storage_request(&ArticleAction::Favorite(art(3, true, true, None))),
        StorageRequest::SetStarred { id: 3, starred: false }
    );
    assert_eq!(storage_request(&ArticleAction::Open(art(4, false, false, None))), StorageRequest::Nothing);
}

#[test]
fn forwarded_actions_after_storage() {
    let a = art(2, false, true, None);
    assert_eq!(forward_action(ArticleAction::Archive(a.clone()), true), Some(ArticleAction::Archive(art(2, true, true, None))));
    assert_eq!(forward_action(ArticleAction::Archive(a.clone()), false), None);
    assert_eq!(forward_action(ArticleAction::Favorite(a.clone()), true), Some(ArticleAction::Favorite(art(2, false, false, None))));
    assert_eq!(forward_action(ArticleAction::Delete(a.clone()), true), Some(ArticleAction::Delete(a.clone())));
    assert_eq!(forward_action(ArticleAction::Delete(a.clone()), false), None);
    assert_eq!(forward_action(ArticleAction::Open(a.clone()), false), Some(ArticleAction::Open(a.clone())));
    assert_eq!(forward_action(ArticleAction::AddMultiple(vec![a.clone()]), true), Some(ArticleAction::AddMultiple(vec![a])));
}

#[test]
fn remote_requests_of_actions() {
    assert_eq!(
        remote_request(&ArticleAction::Archive(art(2, true, false, None))),
        RemoteRequest::UpdateEntry { id: 2, patch: PatchEntry { starred: Some(false), archive: Some(true) } }
    );
    assert_eq!(
        remote_request(&ArticleAction::Favorite(art(3, false, true, None))),
        RemoteRequest::UpdateEntry { id: 3, patch: PatchEntry { starred: Some(true), archive: Some(false) } }
    );
    assert_eq!(remote_request(&ArticleAction::Delete(art(4, false, false, None))), RemoteRequest::DeleteEntry { id: 4 });
    assert_eq!(remote_request(&ArticleAction::Add(art(5, false, false, None))), RemoteRequest::Nothing);
}

#[test]
fn copied_articles_are_equal() {
    let v = vec![art(1, false, false, None), art(2, true, true, Some((3, 0)))];
    assert_eq!(copy_articles(&v), v);
}
