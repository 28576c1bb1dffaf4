use read_it_later::application::{login_outcome, messages, Action, Event, LoginOutcome};
use read_it_later::article::{Article, Entry};
use read_it_later::articles::{ArticleAction, RemoteRequest};
use read_it_later::client::{ClientSession, ServerUser};
use read_it_later::window::View;

fn user(name: &str) -> ServerUser {
    ServerUser {
        username: name.to_string(),
        email: format!("{}@example.com", name),
        created_at: Some(0),
        updated_at: Some(1_431_648_000),
    }
}

fn article(id: i64) -> Article {
    Article::from(Entry {
        id,
        title: None,
        is_archived: false,
        is_public: false,
        is_starred: false,
        mimetype: None,
        language: None,
        preview_picture: None,
        content: None,
        published_by: None,
        published_at: None,
        reading_time: 0,
        domain_name: None,
        url: None,
    })
}

fn views(actions: &[Action]) -> Vec<Option<View>> {
    actions
        .iter()
        .map(|a| match a {
            Action::SetView(v) => Some(*v),
            _ => None,
        })
        .collect()
}

#[test]
fn session_starts_without_user() {
    let s = ClientSession::new();
    assert!(!s.has_user());
    assert!(s.user().is_none());
}

#[test]
fn wrong_credentials_after_a_login_drop_the_user() {
    let mut s = ClientSession::new();
    s.set_config_result(Some(user("ann")));
    assert!(s.has_user());
    assert_eq!(s.user().as_ref().unwrap().username, "ann");
    s.set_config_result(None);
    assert!(!s.has_user());
    assert_eq!(login_outcome(true, s.has_user(), "bob", "ann"), LoginOutcome::Failed);
}

#[test]
fn logout_clears_the_session() {
    let mut s = ClientSession::new();
    s.set_config_result(Some(user("ann")));
    s.clear();
    assert!(!s.has_user());
    assert!(s.user().is_none());
}

#[test]
fn account_details_format_the_times() {
    let d = user("ann").details();
    assert_eq!(d.username, "ann");
    assert_eq!(d.email, "ann@example.com");
    assert_eq!(d.created_at.as_deref(), Some("1970-01-01 00:00:00"));
    assert_eq!(d.updated_at.as_deref(), Some("2015-05-15 00:00:00"));
    let mut u = user("ann");
    u.created_at = None;
    u.updated_at = Some(i64::MIN);
    let d = u.details();
    assert_eq!(d.created_at, None);
    assert_eq!(d.updated_at, None);
}

#[test]
fn server_work_switches_progress_on_and_off() {
    let start = messages(Event::ServerWorkStarting);
    assert_eq!(views(&start), vec![Some(View::Syncing(true))]);
    let none = messages(Event::ArticleActionStarting(RemoteRequest::Nothing));
    assert!(none.is_empty());
    let update = messages(Event::ArticleActionStarting(RemoteRequest::DeleteEntry { id: 3 }));
    assert_eq!(views(&update), vec![Some(View::Syncing(true))]);
}

#[test]
fn deleting_leads_back_to_the_lists() {
    let done = messages(Event::RequestDone(RemoteRequest::DeleteEntry { id: 3 }));
    assert_eq!(views(&done), vec![Some(View::Syncing(false)), Some(View::Articles)]);
    let patch = read_it_later::article::PatchEntry { starred: Some(true), archive: Some(false) };
    let done = messages(Event::RequestDone(RemoteRequest::UpdateEntry { id: 3, patch }));
    assert_eq!(views(&done), vec![Some(View::Syncing(false))]);
}

#[test]
fn login_messages() {
    let ok = messages(Event::LoginEnded {
        outcome: LoginOutcome::LoggedIn { remember_username: true },
        failure_notice: "no".to_string(),
    });
    assert_eq!(ok.len(), 1);
    assert!(matches!(ok[0], Action::Login));
    let failed = messages(Event::LoginEnded {
        outcome: LoginOutcome::Failed,
        failure_notice: "Failed to log in".to_string(),
    });
    assert_eq!(failed.len(), 2);
    assert!(matches!(&failed[0], Action::Notify(m) if m == "Failed to log in"));
    assert!(matches!(failed[1], Action::SetView(View::Syncing(false))));
    let after = messages(Event::LoginSyncStarted);
    assert_eq!(views(&after), vec![Some(View::Articles)]);
}

#[test]
fn save_and_sync_messages() {
    let start = messages(Event::SaveStarting);
    assert_eq!(views(&start), vec![Some(View::Articles), Some(View::Syncing(true))]);
    let saved = messages(Event::SaveEnded(Some(article(7))));
    assert_eq!(saved.len(), 3);
    assert!(matches!(&saved[0], Action::Articles(a) if **a == ArticleAction::Add(article(7))));
    assert!(matches!(saved[1], Action::SetView(View::Syncing(false))));
    assert!(matches!(saved[2], Action::Sync));
    let not_saved = messages(Event::SaveEnded(None));
    assert_eq!(not_saved.len(), 2);
    let synced = messages(Event::SyncEnded(Some(vec![article(1), article(2)])));
    assert_eq!(synced.len(), 2);
    assert!(matches!(&synced[0], Action::LoadArticles(v) if v.len() == 2));
    let failed = messages(Event::SyncEnded(None));
    assert_eq!(views(&failed), vec![Some(View::Syncing(false))]);
}

#[test]
fn logout_messages() {
    let ok = messages(Event::LogoutEnded { succeeded: true, failure_notice: "x".to_string() });
    assert_eq!(views(&ok), vec![Some(View::Login)]);
    let failed = messages(Event::LogoutEnded { succeeded: false, failure_notice: "x".to_string() });
    assert!(matches!(&failed[0], Action::Notify(m) if m == "x"));
}
