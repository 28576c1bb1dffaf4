use read_it_later::account::Account;
use read_it_later::application::{
    initial_view, latest_sync_setting, load_result, login_outcome, sync_since, LoginOutcome,
};
use read_it_later::article::Article;
use read_it_later::articles::ArticleAction;
use read_it_later::client::{articles_from_entries, sync_query, SortBy, SortOrder};
use read_it_later::article::Entry;
use read_it_later::key::Key;
use read_it_later::login::get_account;
use read_it_later::preview_image::PreviewImage;
use read_it_later::web::new_article_url;
use read_it_later::window::{
    article_actions_enabled, articles_list_page, navigation_stack_has_page_tag, set_view,
    Navigation, View,
};
use read_it_later::window_state::{load, WindowGeometry, WindowRestore};

const KEYS: [Key; 7] = [
    Key::Username,
    Key::LatestSync,
    Key::WindowWidth,
    Key::WindowHeight,
    Key::WindowX,
    Key::WindowY,
    Key::IsMaximized,
];

#[test]
fn key_names_are_kebab_case() {
    let names: Vec<String> = KEYS.iter().map(|k| k.to_string()).collect();
    assert_eq!(
        names,
        vec!["username", "latest-sync", "window-width", "window-height", "window-x", "window-y", "is-maximized"]
    );
}

#[test]
fn key_names_parse_back() {
    for k in KEYS.iter() {
        assert_eq!(Key::parse(k.as_str()), Some(*k));
    }
    assert_eq!(Key::parse("Username"), None);
    assert_eq!(Key::parse(""), None);
}

#[test]
fn login_form_account() {
    let a = get_account("https://app.wallabag.it//", "id", "secret", "me", "pw").unwrap();
    assert_eq!(a.instance_url, "https://app.wallabag.it");
    assert_eq!((a.client_id.as_str(), a.client_secret.as_str()), ("id", "secret"));
    assert_eq!((a.username.as_str(), a.password.as_str()), ("me", "pw"));
    assert_eq!(get_account("not a url/", "id", "secret", "me", "pw"), None);
    assert_eq!(get_account("", "id", "secret", "me", "pw"), None);
}

#[test]
fn account_default_is_empty() {
    let a = Account::default();
    assert!(a.instance_url.is_empty() && a.client_id.is_empty() && a.client_secret.is_empty());
    assert!(a.username.is_empty() && a.password.is_empty());
}

#[test]
fn new_article_urls_are_normalized() {
    assert_eq!(new_article_url("https://example.com").as_deref(), Some("https://example.com/"));
    assert_eq!(new_article_url("HTTPS://Example.com/a b").as_deref(), Some("https://example.com/a%20b"));
    assert_eq!(new_article_url("example.com"), None);
}

#[test]
fn preview_cache_name_is_sha1_hex() {
    assert_eq!(PreviewImage::get_cache_of("abc"), "a9993e364706816aba3e25717850c26c9cd0d89d");
    let p = PreviewImage::new("abc".to_string());
    assert_eq!(p.url, "abc");
    assert_eq!(p.cache, "a9993e364706816aba3e25717850c26c9cd0d89d");
    let q = PreviewImage::from_address("https://example.com").unwrap();
    assert_eq!(q.url, "https://example.com/");
    assert_eq!(q.cache, PreviewImage::get_cache_of("https://example.com/"));
    assert!(PreviewImage::from_address("nope").is_none());
}

#[test]
fn navigation_for_views() {
    let tags = vec!["login".to_string(), "articles".to_string()];
    assert!(navigation_stack_has_page_tag(&tags, "articles"));
    assert!(!navigation_stack_has_page_tag(&tags, "article"));
    assert_eq!(set_view(View::Articles, &tags), Navigation::PopToArticles);
    assert_eq!(set_view(View::Articles, &["login".to_string()]), Navigation::ReplaceWithArticles);
    assert_eq!(set_view(View::Article, &tags), Navigation::PushArticle);
    assert_eq!(set_view(View::Login, &tags), Navigation::ReplaceWithLogin);
    assert_eq!(set_view(View::Syncing(true), &[]), Navigation::Progress(true));
    assert!(article_actions_enabled("article"));
    assert!(!article_actions_enabled("articles"));
    assert_eq!(articles_list_page(0), "empty");
    assert_eq!(articles_list_page(3), "list");
}

#[test]
fn window_geometry_restore() {
    let g = WindowGeometry { width: 800, height: 600, x: 10, y: 20, is_maximized: true };
    assert_eq!(load(&g), WindowRestore { resize: Some((800, 600)), move_to: Some((10, 20)), maximize: false });
    let g = WindowGeometry { width: -1, height: 600, x: -1, y: 20, is_maximized: true };
    assert_eq!(load(&g), WindowRestore { resize: None, move_to: None, maximize: true });
    let g = WindowGeometry { width: 0, height: 0, x: -1, y: -1, is_maximized: false };
    assert_eq!(load(&g), WindowRestore { resize: Some((0, 0)), move_to: None, maximize: false });
}

#[test]
fn application_decisions() {
    assert_eq!(sync_since(0), 0);
    assert_eq!(sync_since(1700000000), 1700000000);
    assert_eq!(sync_since(-5), -5);
    assert_eq!(latest_sync_setting((1i64 << 32) + 7), 7);
    assert_eq!(latest_sync_setting(1700000000), 1700000000);
    assert_eq!(
        login_outcome(true, true, "me", "you"),
        LoginOutcome::LoggedIn { remember_username: true }
    );
    assert_eq!(
        login_outcome(true, true, "me", "me"),
        LoginOutcome::LoggedIn { remember_username: false }
    );
    assert_eq!(login_outcome(true, false, "me", "me"), LoginOutcome::Failed);
    assert_eq!(login_outcome(false, true, "me", "me"), LoginOutcome::Failed);
    assert_eq!(initial_view(true), View::Articles);
    assert_eq!(initial_view(false), View::Login);
}

fn entry(id: i64) -> Entry {
    Entry {
        id,
        title: None,
        is_archived: false,
        is_public: false,
        is_starred: false,
        mimetype: None,
        language: None,
        preview_picture: None,
        content: None,
        published_by: None,
        published_at: None,
        reading_time: 1,
        domain_name: None,
        url: None,
    }
}

#[test]
fn loaded_articles_are_added_or_updated() {
    let a = Article::from(entry(3));
    assert_eq!(load_result(a.clone(), true), ArticleAction::Add(a.clone()));
    assert_eq!(load_result(a.clone(), false), ArticleAction::Update(a));
}

#[test]
fn synchronization_query_and_results() {
    let q = sync_query(123);
    assert_eq!((q.archive, q.starred, q.public), (None, None, None));
    assert_eq!((q.sort, q.order, q.since), (SortBy::Created, SortOrder::Asc, 123));
    assert!(q.tags.is_empty());
    let articles = articles_from_entries(vec![entry(1), entry(2), entry(3)]);
    assert_eq!(articles.iter().map(|a| a.id).collect::<Vec<_>>(), vec![1, 2, 3]);
    assert!(articles_from_entries(vec![]).is_empty());
}
