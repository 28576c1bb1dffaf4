//! Articles: the entries of a wallabag account as the reader keeps them.

use vstd::prelude::*;
use vstd::string::*;
use vstd::utf8::encode_utf8;

use crate::text::{
    chars_of, collapse_white_space, copy_opt_string, decimal, join, lines, lines_of, opt_view,
    push_decimal, string_of, trim, trim_chars,
};

verus! {

/// An entry as the wallabag server describes it, reduced to the values that
/// the reader keeps. A time is the whole seconds since the Unix epoch, in
/// UTC, and the nanoseconds past them.
pub struct Entry {
    pub id: i64,
    pub title: Option<String>,
    pub is_archived: bool,
    pub is_public: bool,
    pub is_starred: bool,
    pub mimetype: Option<String>,
    pub language: Option<String>,
    pub preview_picture: Option<String>,
    pub content: Option<String>,
    pub published_by: Option<Vec<Option<String>>>,
    pub published_at: Option<(i64, u32)>,
    pub reading_time: u32,
    pub domain_name: Option<String>,
    pub url: Option<String>,
}

/// A saved article. `published_at` is the whole seconds since the Unix
/// epoch, in UTC, and the nanoseconds past them.
#[derive(Clone, Debug, PartialEq, Eq)]
pub struct Article {
    pub id: i32,
    pub title: Option<String>,
    pub is_archived: bool,
    pub is_public: bool,
    pub is_starred: bool,
    pub mimetype: Option<String>,
    pub language: Option<String>,
    pub preview_picture: Option<String>,
    pub content: Option<String>,
    pub published_by: Option<String>,
    pub published_at: Option<(i64, u32)>,
    pub reading_time: i32,
    pub base_url: Option<String>,
    pub url: Option<String>,
}

/// The change of an entry that the server is asked for: its starred and
/// archived flags.
#[derive(Clone, Copy, Debug, PartialEq, Eq)]
pub struct PatchEntry {
    pub starred: Option<bool>,
    pub archive: Option<bool>,
}

/// The names that are present in a list of authors, in order.
pub open spec fn present_names(authors: Seq<Option<String>>) -> Seq<Seq<char>>
    decreases authors.len(),
{
    if authors.len() == 0 {
        Seq::empty()
    } else {
        let rest = present_names(authors.drop_last());
        match authors.last() {
            Some(name) => rest.push(name@),
            None => rest,
        }
    }
}

/// The text that names the authors of an entry.
pub open spec fn authors_text(authors: Option<Vec<Option<String>>>) -> Option<Seq<char>> {
    match authors {
        Some(v) => Some(join(present_names(v@), ", "@)),
        None => None,
    }
}

/// Whether `a` is the article for the entry `e`: the same values, the id and
/// reading time cast to `i32`, the named authors joined, the domain as base URL.
pub open spec fn is_article_of(a: Article, e: Entry) -> bool {
    &&& a.id == e.id as i32
    &&& a.title == e.title
    &&& a.is_archived == e.is_archived
    &&& a.is_public == e.is_public
    &&& a.is_starred == e.is_starred
    &&& a.mimetype == e.mimetype
    &&& a.language == e.language
    &&& a.preview_picture == e.preview_picture
    &&& a.content == e.content
    &&& opt_view(a.published_by) == authors_text(e.published_by)
    &&& a.published_at == e.published_at
    &&& a.reading_time == e.reading_time as i32
    &&& a.base_url == e.domain_name
    &&& a.url == e.url
}

/// What `chrono` formats for a time stamp (seconds since the epoch, UTC) with
/// a format string, when the time stamp lies in its range.
pub uninterp spec fn formatted_timestamp(timestamp: i64, format: Seq<char>) -> Option<Seq<char>>;

/// What `sanitize_html::sanitize_str` returns for `content` under rules that
/// delete the elements named in `deleted` and allow comments or not.
pub uninterp spec fn sanitized_html(
    content: Seq<char>,
    deleted: Seq<Seq<char>>,
    allow_comments: bool,
) -> Option<Seq<char>>;

/// What replacing every match of the regular expression `pattern` in `text`
/// by `replacement` gives, when `pattern` compiles.
pub uninterp spec fn regex_replaced(
    pattern: Seq<char>,
    text: Seq<char>,
    replacement: Seq<char>,
) -> Option<Seq<char>>;

/// The whole seconds of a time.
pub open spec fn seconds_of(t: (i64, u32)) -> i64 {
    t.0
}

/// The nanoseconds of a time past its whole seconds.
pub open spec fn nanos_of(t: (i64, u32)) -> u32 {
    t.1
}

/// The date format of the article information line.
pub open spec fn date_format() -> Seq<char> {
    "%d %b %Y"@
}

/// The format of a full date and time, as the account details show it.
pub open spec fn date_time_format() -> Seq<char> {
    "%Y-%m-%d %H:%M:%S"@
}

/// Whether a time stamp (seconds since the epoch) lies well inside the dates
/// that `chrono` represents, years -262142 to 262142.
pub open spec fn in_date_range(timestamp: i64) -> bool {
    -8_000_000_000_000 <= timestamp <= 8_000_000_000_000
}

/// The elements that the preview drops from the content.
pub open spec fn preview_deleted_elements() -> Seq<Seq<char>> {
    seq!["br"@, "img"@, "figcaption"@]
}

/// The regular expression for a run of white space.
pub open spec fn white_space_run_pattern() -> Seq<char> {
    seq!['\\', 's', '+']
}

/// Formats a time stamp with `chrono`: the `DateTime<Utc>` of the time stamp,
/// taken as a naive date-time, formatted with `format`. `None` when
/// `DateTime::from_timestamp` rejects the time stamp, which it does only for
/// time stamps outside the dates that `chrono` represents; the clause states
/// success on a range inside them, not the exact edge.
#[verifier::external_body]
pub(crate) fn format_timestamp(timestamp: i64, format: &str) -> (r: Option<String>)
    requires
        format@ == date_format() || format@ == date_time_format(),
    ensures
        opt_view(r) == formatted_timestamp(timestamp, format@),
        in_date_range(timestamp) ==> r is Some,
{
    match chrono::DateTime::from_timestamp(timestamp, 0) {
        Some(d) => Some(d.naive_utc().format(format).to_string()),
        None => None,
    }
}

/// Sanitizes HTML with `sanitize_html::sanitize_str`, under `Rules::new()`
/// extended by `delete` for each name in `deleted` and by `allow_comments`.
/// `None` where `sanitize_str` returns an error.
#[verifier::external_body]
fn sanitize_html_content(content: &str, deleted: &Vec<&str>, allow_comments: bool) -> (r: Option<
    String,
>)
    ensures
        opt_view(r) == sanitized_html(content@, deleted@.map_values(|d: &str| d@), allow_comments),
{
    let mut rules = sanitize_html::rules::Rules::new();
    for name in deleted.iter() {
        rules = rules.delete(name);
    }
    match sanitize_html::sanitize_str(&rules.allow_comments(allow_comments), content) {
        Ok(s) => Some(s),
        Err(_) => None,
    }
}

/// Replaces every match of `pattern` in `text` with `replacement`, with
/// `regex::Regex::new(pattern)` and `Regex::replace_all`; `None` where the
/// pattern does not compile. For `\s+` and a single space the regex crate
/// documents `\s` as the Unicode `White_Space` class and `replace_all` as
/// replacing leftmost non-overlapping matches, which the second clause states.
#[verifier::external_body]
fn regex_replace_all(pattern: &str, text: &str, replacement: &str) -> (r: Option<String>)
    ensures
        opt_view(r) == regex_replaced(pattern@, text@, replacement@),
        pattern@ == white_space_run_pattern() && replacement@ == seq![' '] ==> opt_view(r) == Some(
            collapse_white_space(text@),
        ),
{
    match regex::Regex::new(pattern) {
        Ok(re) => Some(re.replace_all(text, replacement).to_string()),
        Err(_) => None,
    }
}

/// The byte length that `str::len` reports for a text.
pub open spec fn byte_len(s: Seq<char>) -> usize {
    encode_utf8(s).len() as usize
}

/// The first line longer than fifty bytes, or the empty text.
pub open spec fn first_long_line(ls: Seq<Seq<char>>) -> Seq<char>
    decreases ls.len(),
{
    if ls.len() == 0 {
        Seq::empty()
    } else if byte_len(ls[0]) > 50 {
        ls[0]
    } else {
        first_long_line(ls.drop_first())
    }
}

/// The text of the reading time: the minutes, if there are any.
pub open spec fn reading_time_text(minutes: i32) -> Option<Seq<char>> {
    if minutes != 0 {
        Some(decimal(minutes as int) + " minutes"@)
    } else {
        None
    }
}

/// The information line of an article: domain, authors, optionally the
/// publication date, and the reading time.
pub open spec fn article_info(a: Article, display_date: bool) -> Seq<char> {
    let s1 = match a.base_url {
        Some(b) => b@,
        None => Seq::empty(),
    };
    let s2 = match a.published_by {
        Some(p) => s1 + " | by "@ + p@ + " "@,
        None => s1,
    };
    let s3 = if display_date && a.published_at is Some && formatted_timestamp(
        seconds_of(a.published_at->0),
        date_format(),
    ) is Some {
        s2 + " | on "@ + formatted_timestamp(seconds_of(a.published_at->0), date_format())->0 + " "@
    } else {
        s2
    };
    match reading_time_text(a.reading_time) {
        Some(t) => s3 + " | "@ + t + " "@,
        None => s3,
    }
}

/// The preview of an article: the first long line of its sanitized content,
/// with white space collapsed.
pub open spec fn preview_text(a: Article) -> Option<Seq<char>> {
    match a.content {
        None => None,
        Some(c) => match sanitized_html(c@, preview_deleted_elements(), false) {
            None => None,
            Some(h) => Some(collapse_white_space(first_long_line(lines(trim(h))))),
        },
    }
}

impl Article {
    /// The article for an entry of the server: the authors that are named
    /// are joined with ", ", the domain becomes the base URL.
    pub fn from(entry: Entry) -> (r: Article)
        ensures
            is_article_of(r, entry),
    {
        let published_by = match &entry.published_by {
            Some(authors) => Some(join_authors(authors)),
            None => None,
        };
        Article {
            id: entry.id as i32,
            title: entry.title,
            is_archived: entry.is_archived,
            is_public: entry.is_public,
            is_starred: entry.is_starred,
            mimetype: entry.mimetype,
            language: entry.language,
            preview_picture: entry.preview_picture,
            content: entry.content,
            published_by,
            published_at: entry.published_at,
            reading_time: entry.reading_time as i32,
            base_url: entry.domain_name,
            url: entry.url,
        }
    }

    /// A copy of this article.
    pub fn copy(&self) -> (r: Article)
        ensures
            r == *self,
    {
        Article {
            id: self.id,
            title: copy_opt_string(&self.title),
            is_archived: self.is_archived,
            is_public: self.is_public,
            is_starred: self.is_starred,
            mimetype: copy_opt_string(&self.mimetype),
            language: copy_opt_string(&self.language),
            preview_picture: copy_opt_string(&self.preview_picture),
            content: copy_opt_string(&self.content),
            published_by: copy_opt_string(&self.published_by),
            published_at: self.published_at,
            reading_time: self.reading_time,
            base_url: copy_opt_string(&self.base_url),
            url: copy_opt_string(&self.url),
        }
    }

    /// The change to send to the server: the starred and archived flags.
    pub fn get_patch(&self) -> (r: PatchEntry)
        ensures
            r.starred == Some(self.is_starred),
            r.archive == Some(self.is_archived),
    {
        PatchEntry { starred: Some(self.is_starred), archive: Some(self.is_archived) }
    }

    /// The reading time as text, such as "5 minutes"; none when it is zero.
    pub fn get_reading_time(&self) -> (r: Option<String>)
        ensures
            opt_view(r) == reading_time_text(self.reading_time),
    {
        if self.reading_time != 0 {
            let mut s = String::new();
            push_decimal(&mut s, self.reading_time as i64);
            s.append(" minutes");
            return Some(s);
        }
        None
    }

    /// The information line shown with the article.
    pub fn get_article_info(&self, display_date: bool) -> (r: String)
        ensures
            r@ == article_info(*self, display_date),
            display_date && self.published_at is Some && in_date_range(seconds_of(self.published_at->0))
                ==> formatted_timestamp(seconds_of(self.published_at->0), date_format()) is Some,
    {
        let mut article_info = String::new();
        if let Some(base_url) = &self.base_url {
            article_info.append(base_url.as_str());
        }
        if let Some(authors) = &self.published_by {
            article_info.append(" | by ");
            article_info.append(authors.as_str());
            article_info.append(" ");
        }
        if display_date {
            if let Some((published_secs, _)) = self.published_at {
                if let Some(formatted_date) = format_timestamp(published_secs, "%d %b %Y") {
                    article_info.append(" | on ");
                    article_info.append(formatted_date.as_str());
                    article_info.append(" ");
                }
            }
        }
        if let Some(reading_time) = self.get_reading_time() {
            article_info.append(" | ");
            article_info.append(reading_time.as_str());
            article_info.append(" ");
        }
        article_info
    }

    /// The preview of the article's content: the first line of more than
    /// fifty bytes of the sanitized content, white space collapsed.
    pub fn get_preview(&self) -> (r: Option<String>)
        ensures
            opt_view(r) == preview_text(*self),
    {
        match &self.content {
            Some(content) => {
                let deleted: Vec<&str> = vec!["br", "img", "figcaption"];
                assert(deleted@.map_values(|d: &str| d@) =~= preview_deleted_elements());
                let sanitized = match sanitize_html_content(content.as_str(), &deleted, false) {
                    Some(s) => s,
                    None => return None,
                };
                let trimmed = trim_chars(chars_of(sanitized.as_str()).as_slice());
                let all_lines = lines_of(trimmed.as_slice());
                let line = first_long_line_of(&all_lines);
                let pattern = "\\s+";
                proof {
                    reveal_strlit("\\s+");
                    reveal_strlit(" ");
                }
                assert(pattern@ =~= white_space_run_pattern());
                assert(" "@ =~= seq![' ']);
                regex_replace_all(pattern, line.as_str(), " ")
            },
            None => None,
        }
    }

    /// Flips the archived flag.
    pub fn toggle_archive(&mut self)
        ensures
            *final(self) == (Article { is_archived: !old(self).is_archived, ..*old(self) }),
    {
        self.is_archived = !self.is_archived;
    }

    /// Flips the starred flag.
    pub fn toggle_favorite(&mut self)
        ensures
            *final(self) == (Article { is_starred: !old(self).is_starred, ..*old(self) }),
    {
        self.is_starred = !self.is_starred;
    }
}

/// A preview line is either empty or longer than fifty bytes and one of the
/// lines.
pub proof fn lemma_first_long_line(ls: Seq<Seq<char>>)
    ensures
        first_long_line(ls).len() == 0 || (byte_len(first_long_line(ls)) > 50 && ls.contains(
            first_long_line(ls),
        )),
    decreases ls.len(),
{
    if ls.len() > 0 && byte_len(ls[0]) <= 50 {
        lemma_first_long_line(ls.drop_first());
        if first_long_line(ls.drop_first()).len() != 0 {
            let k = choose|k: int|
                0 <= k < ls.drop_first().len() && ls.drop_first()[k] == first_long_line(
                    ls.drop_first(),
                );
            assert(ls[k + 1] == ls.drop_first()[k]);
        }
    }
}

/// A non-zero reading time is appended at the end of the information line,
/// as " | N minutes ", whatever the domain, authors and date are: the line
/// is the line of the same article without a reading time, followed by it.
pub proof fn lemma_article_info_ends_with_reading_time(a: Article, display_date: bool)
    requires
        a.reading_time != 0,
    ensures
        article_info(a, display_date) == article_info(
            Article { reading_time: 0, ..a },
            display_date,
        ) + " | "@ + decimal(a.reading_time as int) + " minutes "@,
{
    reveal_strlit(" minutes");
    reveal_strlit(" minutes ");
    reveal_strlit(" ");
    let s3 = article_info(Article { reading_time: 0, ..a }, display_date);
    let d = decimal(a.reading_time as int);
    assert(s3 + " | "@ + (d + " minutes"@) + " "@ =~= s3 + " | "@ + d + " minutes "@);
}

/// The information line starts with the domain, and names the authors right
/// after it: without a date and a reading time it is exactly the domain
/// followed by " | by " and the authors and a space.
pub proof fn lemma_article_info_domain_and_authors(a: Article)
    requires
        a.reading_time == 0,
    ensures
        article_info(a, false) == (match a.base_url {
            Some(b) => b@,
            None => Seq::<char>::empty(),
        }) + (match a.published_by {
            Some(p) => " | by "@ + p@ + " "@,
            None => Seq::<char>::empty(),
        }),
{
    match a.base_url {
        Some(b) => {},
        None => {
            assert(Seq::<char>::empty() + " | by "@ =~= " | by "@);
        },
    }
    match a.published_by {
        Some(p) => {
            let base = match a.base_url {
                Some(b) => b@,
                None => Seq::<char>::empty(),
            };
            assert(base + " | by "@ + p@ + " "@ =~= base + (" | by "@ + p@ + " "@));
        },
        None => {
            let base = match a.base_url {
                Some(b) => b@,
                None => Seq::<char>::empty(),
            };
            assert(base + Seq::<char>::empty() =~= base);
        },
    }
}

/// The preview is taken from the content sanitized under the rules that
/// delete the `br`, `img` and `figcaption` elements and drop comments: it is
/// there exactly when that sanitizing succeeds, and it is then a line of the
/// trimmed result longer than fifty bytes, or empty, with white space
/// collapsed.
pub proof fn lemma_preview_from_sanitized(a: Article)
    ensures
        a.content is None ==> preview_text(a) is None,
        a.content is Some ==> (preview_text(a) is Some <==> sanitized_html(
            a.content->0@,
            seq!["br"@, "img"@, "figcaption"@],
            false,
        ) is Some),
        a.content is Some && sanitized_html(
            a.content->0@,
            seq!["br"@, "img"@, "figcaption"@],
            false,
        ) is Some ==> exists|line: Seq<char>|
            #![trigger collapse_white_space(line)]
            {
                &&& preview_text(a) == Some(collapse_white_space(line))
                &&& (line.len() == 0 || (byte_len(line) > 50 && lines(
                    trim(
                        sanitized_html(
                            a.content->0@,
                            seq!["br"@, "img"@, "figcaption"@],
                            false,
                        )->0,
                    ),
                ).contains(line)))
            },
{
    if let Some(c) = a.content {
        if let Some(h) = sanitized_html(c@, seq!["br"@, "img"@, "figcaption"@], false) {
            let line = first_long_line(lines(trim(h)));
            lemma_first_long_line(lines(trim(h)));
            assert(preview_text(a) == Some(collapse_white_space(line)));
        }
    }
}

/// The first line longer than fifty bytes, or the empty string.
fn first_long_line_of(all_lines: &Vec<Vec<char>>) -> (r: String)
    ensures
        r@ == first_long_line(all_lines@.map_values(|l: Vec<char>| l@)),
{
    let ghost ls = all_lines@.map_values(|l: Vec<char>| l@);
    let n = all_lines.len();
    let mut i: usize = 0;
    assert(ls.skip(0) =~= ls);
    while i < n
        invariant
            n == all_lines@.len(),
            ls == all_lines@.map_values(|l: Vec<char>| l@),
            i <= n,
            first_long_line(ls) == first_long_line(ls.skip(i as int)),
        decreases n - i,
    {
        let line = string_of(all_lines[i].as_slice());
        assert(ls.skip(i as int)[0] == line@);
        assert(ls.skip(i as int).drop_first() =~= ls.skip(i + 1));
        if line.as_str().len() > 50 {
            return line;
        }
        i = i + 1;
    }
    assert(ls.skip(n as int) =~= Seq::<Seq<char>>::empty());
    String::new()
}

/// The names that are present in `authors`, joined with ", ".
fn join_authors(authors: &Vec<Option<String>>) -> (r: String)
    ensures
        r@ == join(present_names(authors@), ", "@),
{
    let mut r = String::new();
    let mut first = true;
    let n = authors.len();
    for i in 0..n
        invariant
            n == authors@.len(),
            r@ == join(present_names(authors@.take(i as int)), ", "@),
            first == (present_names(authors@.take(i as int)).len() == 0),
    {
        let ghost before = present_names(authors@.take(i as int));
        assert(authors@.take(i + 1).drop_last() =~= authors@.take(i as int));
        match &authors[i] {
            Some(name) => {
                if !first {
                    r.append(", ");
                }
                r.append(name.as_str());
                first = false;
                assert(before.push(name@).drop_last() =~= before);
            },
            None => {},
        }
    }
    assert(authors@.take(n as int) =~= authors@);
    r
}

} // verus!
