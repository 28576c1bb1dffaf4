use read_it_later::article::{Article, Entry, PatchEntry};
use read_it_later::article_object::ArticleObject;
use read_it_later::article_page::{is_forbidden, link_to_open, render_article, ContextMenuAction};

fn entry() -> Entry {
    Entry {
        id: 42,
        title: Some("A title".to_string()),
        is_archived: false,
        is_public: true,
        is_starred: true,
        mimetype: Some("text/html".to_string()),
        language: Some("en".to_string()),
        preview_picture: Some("https://example.com/p.png".to_string()),
        content: Some("<p>Body</p>".to_string()),
        published_by: Some(vec![Some("Ann".to_string()), None, Some("Bob".to_string())]),
        published_at: Some((0, 500_000_000)),
        reading_time: 5,
        domain_name: Some("example.com".to_string()),
        url: Some("https://example.com/a".to_string()),
    }
}

fn article() -> Article {
    Article::from(entry())
}

#[test]
fn from_entry_copies_fields_and_joins_authors() {
    let a = article();
    assert_eq!(a.id, 42);
    assert_eq!(a.title.as_deref(), Some("A title"));
    assert!(!a.is_archived);
    assert!(a.is_public);
    assert!(a.is_starred);
    assert_eq!(a.mimetype.as_deref(), Some("text/html"));
    assert_eq!(a.language.as_deref(), Some("en"));
    assert_eq!(a.published_by.as_deref(), Some("Ann, Bob"));
    assert_eq!(a.published_at, Some((0, 500_000_000)));
    assert_eq!(a.reading_time, 5);
    assert_eq!(a.base_url.as_deref(), Some("example.com"));
    assert_eq!(a.url.as_deref(), Some("https://example.com/a"));
}

#[test]
fn from_entry_without_authors_and_with_wide_numbers() {
    let mut e = entry();
    e.published_by = None;
    e.id = (1i64 << 32) + 7;
    e.reading_time = u32::MAX;
    let a = Article::from(e);
    assert_eq!(a.published_by, None);
    assert_eq!(a.id, 7);
    assert_eq!(a.reading_time, -1);
}

#[test]
fn from_entry_with_only_missing_authors_gives_empty_text() {
    let mut e = entry();
    e.published_by = Some(vec![None, None]);
    assert_eq!(Article::from(e).published_by.as_deref(), Some(""));
}

#[test]
fn patch_holds_the_flags() {
    let a = article();
    assert_eq!(a.get_patch(), PatchEntry { starred: Some(true), archive: Some(false) });
}

#[test]
fn reading_time_text() {
    let mut a = article();
    assert_eq!(a.get_reading_time().as_deref(), Some("5 minutes"));
    a.reading_time = 0;
    assert_eq!(a.get_reading_time(), None);
    a.reading_time = -12;
    assert_eq!(a.get_reading_time().as_deref(), Some("-12 minutes"));
}

#[test]
fn article_info_without_and_with_date() {
    let a = article();
    assert_eq!(a.get_article_info(false), "example.com | by Ann, Bob  | 5 minutes ");
    assert_eq!(
        a.get_article_info(true),
        "example.com | by Ann, Bob  | on 01 Jan 1970  | 5 minutes "
    );
}

#[test]
fn article_info_dates_far_from_the_epoch() {
    let mut a = article();
    a.published_at = Some((1_431_648_000, 0));
    assert_eq!(
        a.get_article_info(true),
        "example.com | by Ann, Bob  | on 15 May 2015  | 5 minutes "
    );
    a.published_at = Some((-8_000_000_000_000, 0));
    assert!(a.get_article_info(true).contains(" | on "));
    a.published_at = Some((8_000_000_000_000, 0));
    assert!(a.get_article_info(true).contains(" | on "));
    a.published_at = Some((i64::MAX, 0));
    assert_eq!(a.get_article_info(true), "example.com | by Ann, Bob  | 5 minutes ");
}

#[test]
fn article_info_of_bare_article_is_empty() {
    let mut a = article();
    a.base_url = None;
    a.published_by = None;
    a.published_at = None;
    a.reading_time = 0;
    assert_eq!(a.get_article_info(true), "");
}

#[test]
fn article_info_skips_dates_out_of_range() {
    let mut a = article();
    a.published_at = Some((i64::MAX, 0));
    assert_eq!(a.get_article_info(true), "example.com | by Ann, Bob  | 5 minutes ");
}

#[test]
fn preview_takes_first_long_line_and_collapses_spaces() {
    let mut a = article();
    a.content = Some(
        "<p>Short line</p>\n<p>This  line   is   long enough to pass the limit of fifty bytes easily.</p>\n<p>Another long line that is not used in the preview at all, really.</p>"
            .to_string(),
    );
    assert_eq!(
        a.get_preview().as_deref(),
        Some("This line is long enough to pass the limit of fifty bytes easily.")
    );
}

#[test]
fn preview_of_short_content_is_empty() {
    let mut a = article();
    a.content = Some("<p>tiny</p><br><img src=\"x.png\">".to_string());
    assert_eq!(a.get_preview().as_deref(), Some(""));
}

#[test]
fn preview_without_content_is_none() {
    let mut a = article();
    a.content = None;
    assert_eq!(a.get_preview(), None);
}

#[test]
fn toggles_flip_flags_and_twice_restores() {
    let original = article();
    let mut a = original.clone();
    a.toggle_archive();
    assert!(a.is_archived);
    a.toggle_favorite();
    assert!(!a.is_starred);
    a.toggle_archive();
    a.toggle_favorite();
    assert_eq!(a, original);
}

#[test]
fn copy_is_equal() {
    let a = article();
    assert_eq!(a.copy(), a);
}

#[test]
fn article_object_properties() {
    let a = article();
    let o = ArticleObject::new(a.clone());
    assert_eq!(o.article(), &a);
    assert_eq!(o.property("title").as_deref(), Some("A title"));
    assert_eq!(o.property("description").as_deref(), Some("example.com | by Ann, Bob  | 5 minutes "));
    assert_eq!(o.property("cover-picture-url").as_deref(), Some("https://example.com/p.png"));
    assert_eq!(o.property("preview-text").as_deref(), Some(""));
}

#[test]
fn page_fills_the_layout() {
    let a = article();
    let page = render_article(
        "<h1>{title}</h1><p>{article_info}</p><div>{content}</div><style>{css}</style><script>{js}</script>",
        &a,
        "body{}",
        "run();",
    );
    assert_eq!(
        page,
        "<h1>A title</h1><p>example.com | by Ann, Bob  | on 01 Jan 1970  | 5 minutes </p><div><p>Body</p></div><style>body{}</style><script>run();</script>"
    );
}

#[test]
fn page_keeps_placeholders_of_missing_parts() {
    let mut a = article();
    a.title = None;
    a.content = None;
    let page = render_article("{title}|{content}|{title}{css}", &a, "C", "J");
    assert_eq!(page, "{title}|{content}|{title}C");
}

#[test]
fn page_replaces_placeholders_inside_content() {
    let mut a = article();
    a.content = Some("x{css}y".to_string());
    let page = render_article("{content}", &a, "S", "J");
    assert_eq!(page, "xSy");
}

#[test]
fn links_open_in_the_browser() {
    let uri = Some("https://example.org/".to_string());
    assert_eq!(link_to_open(true, true, uri.clone()), uri);
    assert_eq!(link_to_open(true, false, uri.clone()), None);
    assert_eq!(link_to_open(false, true, uri), None);
    assert_eq!(link_to_open(true, true, None), None);
}

#[test]
fn context_menu_keeps_only_other_entries() {
    assert!(is_forbidden(ContextMenuAction::OpenLink));
    assert!(is_forbidden(ContextMenuAction::DownloadImageToDisk));
    assert!(is_forbidden(ContextMenuAction::Reload));
    assert!(!is_forbidden(ContextMenuAction::Other));
}
