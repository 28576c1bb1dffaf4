//! The order of the article lists: newest publication first.

use std::cmp::Ordering;

use vstd::prelude::*;

use crate::article::{nanos_of, seconds_of, Article};

verus! {

/// Sorts articles by publication time.
#[derive(Clone, Copy, Debug)]
pub struct ArticleSorter {}

/// Whether time `p` (whole seconds, nanoseconds past them) comes before `q`.
pub open spec fn time_before(p: (i64, u32), q: (i64, u32)) -> bool {
    p.0 < q.0 || (p.0 == q.0 && p.1 < q.1)
}

/// Whether publication time `x` comes before `y` in time, where an unknown
/// time comes before every known one.
pub open spec fn published_before(x: Option<(i64, u32)>, y: Option<(i64, u32)>) -> bool {
    match (x, y) {
        (None, Some(_)) => true,
        (Some(p), Some(q)) => time_before(p, q),
        _ => false,
    }
}

/// The order of two articles with publication times `a` and `b`: the later
/// publication comes first, and articles without a date come last.
pub open spec fn newest_first(a: Option<(i64, u32)>, b: Option<(i64, u32)>) -> Ordering {
    if published_before(b, a) {
        Ordering::Less
    } else if published_before(a, b) {
        Ordering::Greater
    } else {
        Ordering::Equal
    }
}

impl Default for ArticleSorter {
    fn default() -> (r: Self) {
        ArticleSorter {  }
    }
}

impl ArticleSorter {
    /// Compares two articles, the one published later first.
    pub fn compare_published_at(a: &Article, b: &Article) -> (r: Ordering)
        ensures
            r == newest_first(a.published_at, b.published_at),
    {
        match (b.published_at, a.published_at) {
            (None, None) => Ordering::Equal,
            (None, Some(_)) => Ordering::Less,
            (Some(_), None) => Ordering::Greater,
            (Some(pb), Some(pa)) => {
                if pb.0 < pa.0 || (pb.0 == pa.0 && pb.1 < pa.1) {
                    Ordering::Less
                } else if pb.0 == pa.0 && pb.1 == pa.1 {
                    Ordering::Equal
                } else {
                    Ordering::Greater
                }
            },
        }
    }
}

impl Article {
    /// Compares two articles in the order of the article lists.
    pub fn compare(a: &Article, b: &Article) -> (r: Ordering)
        ensures
            r == newest_first(a.published_at, b.published_at),
    {
        ArticleSorter::compare_published_at(a, b)
    }
}

/// Two articles compare as equal exactly when their publication times are
/// equal, and swapping the two reverses the order.
pub proof fn lemma_newest_first_antisymmetric(a: Option<(i64, u32)>, b: Option<(i64, u32)>)
    ensures
        newest_first(a, b) == Ordering::Equal <==> a == b,
        newest_first(a, b) == Ordering::Less <==> newest_first(b, a) == Ordering::Greater,
{
}

/// Of two articles with known publication times, the one published later
/// (by whole seconds, then by nanoseconds) comes first, and an article with
/// a known time comes before one without.
pub proof fn lemma_newest_first_follows_time(a: Article, b: Article)
    ensures
        a.published_at is Some && b.published_at is Some && (seconds_of(b.published_at->0)
            < seconds_of(a.published_at->0) || (seconds_of(b.published_at->0) == seconds_of(
            a.published_at->0,
        ) && nanos_of(b.published_at->0) < nanos_of(a.published_at->0))) ==> newest_first(
            a.published_at,
            b.published_at,
        ) == Ordering::Less && newest_first(b.published_at, a.published_at) == Ordering::Greater,
        a.published_at is Some && b.published_at is None ==> newest_first(
            a.published_at,
            b.published_at,
        ) == Ordering::Less,
        a.published_at == b.published_at ==> newest_first(a.published_at, b.published_at)
            == Ordering::Equal,
{
}

/// The order is transitive.
pub proof fn lemma_newest_first_transitive(
    a: Option<(i64, u32)>,
    b: Option<(i64, u32)>,
    c: Option<(i64, u32)>,
)
    requires
        newest_first(a, b) == Ordering::Less,
        newest_first(b, c) == Ordering::Less,
    ensures
        newest_first(a, c) == Ordering::Less,
{
}

} // verus!
