//! The messages of the application and the decisions it takes on them.

use vstd::prelude::*;
use vstd::view::View as _;

use crate::account::Account;
use crate::article::Article;
use crate::articles::{ArticleAction, RemoteRequest};
use crate::text::same_text;
use crate::window::View;

verus! {

/// A message to the application.
pub enum Action {
    /// An action on articles.
    Articles(Box<ArticleAction>),
    /// Save the article at this URL.
    SaveArticle(String),
    /// Show a view.
    SetView(View),
    /// Show a notification.
    Notify(String),
    /// Log in with these credentials.
    SetClientConfig(Account),
    /// Store the articles of a synchronization.
    LoadArticles(Vec<Article>),
    Sync,
    Login,
    Logout,
}

/// How an attempt to log in ended.
#[derive(Clone, Copy, Debug, PartialEq, Eq)]
pub enum LoginOutcome {
    /// The server knows the user; `remember_username` tells whether the
    /// stored user name must change to the new one.
    LoggedIn { remember_username: bool },
    /// The client could not be set up or the user could not be fetched.
    Failed,
}

/// The time (seconds since the epoch) from which a synchronization asks for
/// changes: the stored time of the latest synchronization, `0` meaning never.
pub fn sync_since(last_sync: i32) -> (r: i64)
    ensures
        r == (if last_sync != 0 {
            last_sync as i64
        } else {
            0
        }),
{
    if last_sync != 0 {
        last_sync as i64
    } else {
        0
    }
}

/// The value stored as the time of the latest synchronization: the time
/// stamp cut to 32 bits.
pub fn latest_sync_setting(now: i64) -> (r: i32)
    ensures
        r == now as i32,
{
    now as i32
}

/// The action for an article of a synchronization: added when it could be
/// inserted into the database, updated when it was already there.
pub fn load_result(article: Article, inserted: bool) -> (r: ArticleAction)
    ensures
        r == (if inserted {
            ArticleAction::Add(article)
        } else {
            ArticleAction::Update(article)
        }),
{
    if inserted {
        ArticleAction::Add(article)
    } else {
        ArticleAction::Update(article)
    }
}

/// How a login ended: the client was `configured`, and `has_user` tells
/// whether the user could then be fetched; the user name is remembered when
/// it differs from `logged_username`.
pub fn login_outcome(
    configured: bool,
    has_user: bool,
    config_username: &str,
    logged_username: &str,
) -> (r: LoginOutcome)
    ensures
        r == (if configured && has_user {
            LoginOutcome::LoggedIn { remember_username: config_username@ != logged_username@ }
        } else {
            LoginOutcome::Failed
        }),
{
    if configured && has_user {
        LoginOutcome::LoggedIn { remember_username: !same_text(config_username, logged_username) }
    } else {
        LoginOutcome::Failed
    }
}

/// The view shown at start: the article lists when the stored credentials
/// are complete, the login form otherwise.
pub fn initial_view(logged_in: bool) -> (r: View)
    ensures
        r == (if logged_in {
            View::Articles
        } else {
            View::Login
        }),
{
    if logged_in {
        View::Articles
    } else {
        View::Login
    }
}

/// What happened in the work of the application that it answers with
/// messages to itself.
pub enum Event {
    /// A login or a synchronization is about to ask the server.
    ServerWorkStarting,
    /// An article action is about to be carried out; it asks the server for
    /// `RemoteRequest`.
    ArticleActionStarting(RemoteRequest),
    /// The server answered the request of an article action.
    RequestDone(RemoteRequest),
    /// An article is about to be saved on the server.
    SaveStarting,
    /// Saving an article ended, with the new article when the server made one.
    SaveEnded(Option<Article>),
    /// A login ended; `failure_notice` is the text shown when it failed.
    LoginEnded { outcome: LoginOutcome, failure_notice: String },
    /// The synchronization that follows a login was started.
    LoginSyncStarted,
    /// A synchronization ended, with the articles it got when it succeeded.
    SyncEnded(Option<Vec<Article>>),
    /// A logout ended: whether it succeeded, and the text shown when it failed.
    LogoutEnded { succeeded: bool, failure_notice: String },
}

/// The messages that the application sends itself after an event, in order:
/// the progress indicator is switched on before the server is asked and off
/// once it answered, a deleted article leads back to the lists, a login that
/// succeeded goes on with a synchronization and shows the lists, one that
/// failed is notified, and a logout shows the login form.
pub open spec fn messages_for(event: Event) -> Seq<Action> {
    match event {
        Event::ServerWorkStarting => seq![Action::SetView(View::Syncing(true))],
        Event::ArticleActionStarting(request) => match request {
            RemoteRequest::Nothing => Seq::empty(),
            _ => seq![Action::SetView(View::Syncing(true))],
        },
        Event::RequestDone(request) => match request {
            RemoteRequest::DeleteEntry { .. } => seq![
                Action::SetView(View::Syncing(false)),
                Action::SetView(View::Articles),
            ],
            _ => seq![Action::SetView(View::Syncing(false))],
        },
        Event::SaveStarting => seq![
            Action::SetView(View::Articles),
            Action::SetView(View::Syncing(true)),
        ],
        Event::SaveEnded(saved) => match saved {
            Some(a) => seq![
                Action::Articles(Box::new(ArticleAction::Add(a))),
                Action::SetView(View::Syncing(false)),
                Action::Sync,
            ],
            None => seq![Action::SetView(View::Syncing(false)), Action::Sync],
        },
        Event::LoginEnded { outcome, failure_notice } => match outcome {
            LoginOutcome::LoggedIn { .. } => seq![Action::Login],
            LoginOutcome::Failed => seq![
                Action::Notify(failure_notice),
                Action::SetView(View::Syncing(false)),
            ],
        },
        Event::LoginSyncStarted => seq![Action::SetView(View::Articles)],
        Event::SyncEnded(result) => match result {
            Some(articles) => seq![
                Action::LoadArticles(articles),
                Action::SetView(View::Syncing(false)),
            ],
            None => seq![Action::SetView(View::Syncing(false))],
        },
        Event::LogoutEnded { succeeded, failure_notice } => if succeeded {
            seq![Action::SetView(View::Login)]
        } else {
            seq![Action::Notify(failure_notice)]
        },
    }
}

/// Whether `event` ends work that asked the server: an answered request, a
/// finished save or synchronization, or a login that failed.
pub open spec fn ends_server_work(event: Event) -> bool {
    ||| event is RequestDone
    ||| event is SaveEnded
    ||| event is SyncEnded
    ||| (event is LoginEnded && event->outcome is Failed)
}

/// Whether `event` starts work that asks the server.
pub open spec fn starts_server_work(event: Event) -> bool {
    ||| event is ServerWorkStarting
    ||| event is SaveStarting
    ||| (event is ArticleActionStarting && event->ArticleActionStarting_0 !is Nothing)
}

/// The progress indicator follows the work with the server: work that starts
/// switches it on and never off, work that ends switches it off and never
/// on, and after a synchronization or a save the indicator is off. A deleted
/// article leads back to the lists, and a logout that succeeded shows the
/// login form.
pub proof fn lemma_progress_follows_server_work(event: Event)
    ensures
        ends_server_work(event) ==> messages_for(event).contains(
            Action::SetView(View::Syncing(false)),
        ) && !messages_for(event).contains(Action::SetView(View::Syncing(true))),
        starts_server_work(event) ==> messages_for(event).contains(
            Action::SetView(View::Syncing(true)),
        ) && !messages_for(event).contains(Action::SetView(View::Syncing(false))),
        !ends_server_work(event) && !starts_server_work(event) ==> !messages_for(event).contains(
            Action::SetView(View::Syncing(true)),
        ) && !messages_for(event).contains(Action::SetView(View::Syncing(false))),
        event is SyncEnded ==> messages_for(event).last() == Action::SetView(View::Syncing(false)),
        event is SaveEnded ==> messages_for(event).last() == Action::Sync && messages_for(
            event,
        ).contains(Action::SetView(View::Syncing(false))),
        event is RequestDone && event->RequestDone_0 is DeleteEntry ==> messages_for(event).last()
            == Action::SetView(View::Articles),
        event is LogoutEnded && event->succeeded ==> messages_for(event) == seq![
            Action::SetView(View::Login),
        ],
{
}

/// The messages that the application sends itself after `event`.
pub fn messages(event: Event) -> (r: Vec<Action>)
    ensures
        r@ == messages_for(event),
{
    let ghost e = event;
    let r = match event {
        Event::ServerWorkStarting => vec![Action::SetView(View::Syncing(true))],
        Event::ArticleActionStarting(request) => match request {
            RemoteRequest::Nothing => Vec::new(),
            _ => vec![Action::SetView(View::Syncing(true))],
        },
        Event::RequestDone(request) => match request {
            RemoteRequest::DeleteEntry { .. } => vec![
                Action::SetView(View::Syncing(false)),
                Action::SetView(View::Articles),
            ],
            _ => vec![Action::SetView(View::Syncing(false))],
        },
        Event::SaveStarting => vec![
            Action::SetView(View::Articles),
            Action::SetView(View::Syncing(true)),
        ],
        Event::SaveEnded(saved) => match saved {
            Some(a) => vec![
                Action::Articles(Box::new(ArticleAction::Add(a))),
                Action::SetView(View::Syncing(false)),
                Action::Sync,
            ],
            None => vec![Action::SetView(View::Syncing(false)), Action::Sync],
        },
        Event::LoginEnded { outcome, failure_notice } => match outcome {
            LoginOutcome::LoggedIn { .. } => vec![Action::Login],
            LoginOutcome::Failed => vec![
                Action::Notify(failure_notice),
                Action::SetView(View::Syncing(false)),
            ],
        },
        Event::LoginSyncStarted => vec![Action::SetView(View::Articles)],
        Event::SyncEnded(result) => match result {
            Some(articles) => vec![
                Action::LoadArticles(articles),
                Action::SetView(View::Syncing(false)),
            ],
            None => vec![Action::SetView(View::Syncing(false))],
        },
        Event::LogoutEnded { succeeded, failure_notice } => if succeeded {
            vec![Action::SetView(View::Login)]
        } else {
            vec![Action::Notify(failure_notice)]
        },
    };
    assert(r@ =~= messages_for(e));
    r
}

} // verus!
