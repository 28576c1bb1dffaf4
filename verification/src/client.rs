//! What the reader asks of the wallabag server when it synchronizes.

use vstd::prelude::*;

use crate::article::{
    date_time_format, format_timestamp, formatted_timestamp, in_date_range, is_article_of, Article,
    Entry,
};
use crate::text::opt_view;

verus! {

/// The field by which the server sorts entries.
#[derive(Clone, Copy, Debug, PartialEq, Eq)]
pub enum SortBy {
    Created,
    Updated,
}

/// The direction in which the server sorts entries.
#[derive(Clone, Copy, Debug, PartialEq, Eq)]
pub enum SortOrder {
    Asc,
    Desc,
}

/// A query for entries: the flags to filter on (`None` for all), the order,
/// the tags, the time (seconds since the epoch) since which entries changed,
/// and the public flag.
#[derive(Clone, Debug, PartialEq, Eq)]
pub struct EntriesQuery {
    pub archive: Option<bool>,
    pub starred: Option<bool>,
    pub sort: SortBy,
    pub order: SortOrder,
    pub tags: Vec<String>,
    pub since: i64,
    pub public: Option<bool>,
}

/// The query of a synchronization: all entries changed since `since`, oldest
/// first.
pub fn sync_query(since: i64) -> (r: EntriesQuery)
    ensures
        r.archive is None,
        r.starred is None,
        r.sort == SortBy::Created,
        r.order == SortOrder::Asc,
        r.tags@.len() == 0,
        r.since == since,
        r.public is None,
{
    EntriesQuery {
        archive: None,
        starred: None,
        sort: SortBy::Created,
        order: SortOrder::Asc,
        tags: Vec::new(),
        since,
        public: None,
    }
}

/// The articles for the entries that a synchronization returned, in order.
pub fn articles_from_entries(entries: Vec<Entry>) -> (r: Vec<Article>)
    ensures
        r@.len() == entries@.len(),
        forall|i: int| 0 <= i < r@.len() ==> is_article_of(#[trigger] r@[i], entries@[i]),
{
    let ghost all = entries@;
    let mut source = entries;
    let mut rest: Vec<Entry> = Vec::new();
    while source.len() > 0
        invariant
            source@.len() + rest@.len() == all.len(),
            forall|i: int| 0 <= i < source@.len() ==> #[trigger] source@[i] == all[i],
            forall|i: int| 0 <= i < rest@.len() ==> #[trigger] rest@[i] == all[all.len() - 1 - i],
        decreases source@.len(),
    {
        let entry = source.pop().unwrap();
        rest.push(entry);
    }
    let mut r: Vec<Article> = Vec::new();
    while rest.len() > 0
        invariant
            r@.len() + rest@.len() == all.len(),
            forall|i: int| 0 <= i < rest@.len() ==> #[trigger] rest@[i] == all[all.len() - 1 - i],
            forall|i: int| 0 <= i < r@.len() ==> is_article_of(#[trigger] r@[i], all[i]),
        decreases rest@.len(),
    {
        let entry = rest.pop().unwrap();
        r.push(Article::from(entry));
    }
    r
}

/// The user of the server, reduced to what the reader shows of it. Times
/// are seconds since the Unix epoch, in UTC, where the server gives them.
pub struct ServerUser {
    pub username: String,
    pub email: String,
    pub created_at: Option<i64>,
    pub updated_at: Option<i64>,
}

/// The account details as the settings show them.
pub struct AccountDetails {
    pub username: String,
    pub email: String,
    /// The creation time, formatted; none when it is unknown or cannot be
    /// formatted.
    pub created_at: Option<String>,
    /// The time of the latest change, formatted; none when it is unknown or
    /// cannot be formatted.
    pub updated_at: Option<String>,
}

/// A time of the account details as text.
pub open spec fn shown_time(timestamp: Option<i64>) -> Option<Seq<char>> {
    match timestamp {
        Some(t) => formatted_timestamp(t, date_time_format()),
        None => None,
    }
}

/// Whether a time of the account details is known and can be shown.
pub open spec fn showable(timestamp: Option<i64>) -> bool {
    timestamp matches Some(t) && in_date_range(t)
}

/// A time of the account details as text.
fn show_time(timestamp: Option<i64>, format: &str) -> (r: Option<String>)
    requires
        format@ == date_time_format(),
    ensures
        opt_view(r) == shown_time(timestamp),
        showable(timestamp) ==> r is Some,
{
    match timestamp {
        Some(t) => format_timestamp(t, format),
        None => None,
    }
}

impl ServerUser {
    /// The account details of this user: its name and e-mail address, and
    /// its creation and change times formatted as `%Y-%m-%d %H:%M:%S`.
    pub fn details(&self) -> (r: AccountDetails)
        ensures
            r.username@ == self.username@,
            r.email@ == self.email@,
            opt_view(r.created_at) == shown_time(self.created_at),
            opt_view(r.updated_at) == shown_time(self.updated_at),
            showable(self.created_at) ==> r.created_at is Some,
            showable(self.updated_at) ==> r.updated_at is Some,
    {
        let format = "%Y-%m-%d %H:%M:%S";
        proof {
            reveal_strlit("%Y-%m-%d %H:%M:%S");
        }
        assert(format@ =~= date_time_format());
        AccountDetails {
            username: self.username.clone(),
            email: self.email.clone(),
            created_at: show_time(self.created_at, format),
            updated_at: show_time(self.updated_at, format),
        }
    }
}

/// The client's record of the user it is logged in as.
pub struct ClientSession {
    user: Option<ServerUser>,
}

impl View for ClientSession {
    type V = Option<ServerUser>;

    closed spec fn view(&self) -> Option<ServerUser> {
        self.user
    }
}

impl ClientSession {
    /// A session with no user.
    pub fn new() -> (r: Self)
        ensures
            r@ is None,
    {
        ClientSession { user: None }
    }

    /// Records the outcome of fetching the user with a new configuration:
    /// the session holds the user fetched with it, or none when fetching
    /// failed. A user of an earlier configuration is not kept, so wrong
    /// credentials after an earlier login do not count as logged in.
    pub fn set_config_result(&mut self, fetched: Option<ServerUser>)
        ensures
            final(self)@ == fetched,
    {
        self.user = fetched;
    }

    /// Ends the session at logout: no user is held any more.
    pub fn clear(&mut self)
        ensures
            final(self)@ is None,
    {
        self.user = None;
    }

    /// Whether the session holds a user.
    pub fn has_user(&self) -> (r: bool)
        ensures
            r == self@ is Some,
    {
        self.user.is_some()
    }

    /// The user of the session.
    pub fn user(&self) -> (r: &Option<ServerUser>)
        ensures
            *r == self@,
    {
        &self.user
    }
}

} // verus!
