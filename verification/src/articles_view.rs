//! The store behind the article lists: the saved articles, in the order in
//! which they were added, found again by their id.

use vstd::prelude::*;

use crate::article::Article;

verus! {

/// Whether some article of `s` has the id `id`.
pub open spec fn has_id(s: Seq<Article>, id: i32) -> bool {
    exists|i: int| 0 <= i < s.len() && #[trigger] s[i].id == id
}

/// Whether `i` is the first position of `s` that holds the id `id`.
pub open spec fn is_first_index(s: Seq<Article>, id: i32, i: int) -> bool {
    &&& 0 <= i < s.len()
    &&& s[i].id == id
    &&& forall|j: int| 0 <= j < i ==> #[trigger] s[j].id != id
}

/// The first position of `s` that holds the id `id` (meaningful when
/// `has_id(s, id)`).
pub open spec fn first_index(s: Seq<Article>, id: i32) -> int {
    choose|i: int| is_first_index(s, id, i)
}

/// `s` after adding `a`: unchanged when its id is already there.
pub open spec fn with_added(s: Seq<Article>, a: Article) -> Seq<Article> {
    if has_id(s, a.id) {
        s
    } else {
        s.push(a)
    }
}

/// `s` after deleting the first article with the id `id`, if any.
pub open spec fn without_first(s: Seq<Article>, id: i32) -> Seq<Article> {
    if has_id(s, id) {
        s.remove(first_index(s, id))
    } else {
        s
    }
}

/// The articles of `batch` whose ids `existing` does not hold, in order.
pub open spec fn new_articles(batch: Seq<Article>, existing: Seq<Article>) -> Seq<Article>
    decreases batch.len(),
{
    if batch.len() == 0 {
        Seq::empty()
    } else {
        let rest = new_articles(batch.drop_last(), existing);
        if has_id(existing, batch.last().id) {
            rest
        } else {
            rest.push(batch.last())
        }
    }
}

/// `s` after `update(a)`: the first article with `a`'s id deleted, then `a`
/// added.
pub open spec fn with_updated(s: Seq<Article>, a: Article) -> Seq<Article> {
    with_added(without_first(s, a.id), a)
}

/// Whether no two articles of `s` share an id.
pub open spec fn unique_ids(s: Seq<Article>) -> bool {
    forall|i: int, j: int| 0 <= i < s.len() && 0 <= j < s.len() && i != j ==> #[trigger] s[i].id
        != #[trigger] s[j].id
}

/// The first position that holds an id exists when the id is there.
pub proof fn lemma_first_index(s: Seq<Article>, id: i32)
    requires
        has_id(s, id),
    ensures
        is_first_index(s, id, first_index(s, id)),
{
    let k = choose|i: int| 0 <= i < s.len() && #[trigger] s[i].id == id;
    lemma_first_index_below(s, id, k);
}

proof fn lemma_first_index_below(s: Seq<Article>, id: i32, k: int)
    requires
        0 <= k < s.len(),
        s[k].id == id,
    ensures
        exists|i: int| is_first_index(s, id, i),
    decreases k,
{
    if exists|j: int| 0 <= j < k && #[trigger] s[j].id == id {
        let j = choose|j: int| 0 <= j < k && #[trigger] s[j].id == id;
        lemma_first_index_below(s, id, j);
    } else {
        assert(is_first_index(s, id, k));
    }
}

/// The saved articles behind the article lists.
pub struct ArticlesView {
    articles: Vec<Article>,
}

impl View for ArticlesView {
    type V = Seq<Article>;

    closed spec fn view(&self) -> Seq<Article> {
        self.articles@
    }
}

impl ArticlesView {
    /// An empty store.
    pub fn new() -> (r: Self)
        ensures
            r@ == Seq::<Article>::empty(),
    {
        ArticlesView { articles: Vec::new() }
    }

    /// The stored articles, in order.
    pub fn articles(&self) -> (r: &[Article])
        ensures
            r@ == self@,
    {
        self.articles.as_slice()
    }

    /// The position of the first stored article with the id of `article`.
    pub fn index(&self, article: &Article) -> (r: Option<usize>)
        ensures
            r matches Some(i) ==> is_first_index(self@, article.id, i as int),
            r is None <==> !has_id(self@, article.id),
    {
        let n = self.articles.len();
        let mut i: usize = 0;
        while i < n
            invariant
                n == self@.len(),
                i <= n,
                forall|j: int| 0 <= j < i ==> #[trigger] self@[j].id != article.id,
            decreases n - i,
        {
            if article.id == self.articles[i].id {
                return Some(i);
            }
            i = i + 1;
        }
        None
    }

    /// Adds the articles of `articles` whose ids were not stored before.
    pub fn add_multiple(&mut self, articles: Vec<Article>)
        ensures
            final(self)@ == old(self)@ + new_articles(articles@, old(self)@),
    {
        let ghost existing = self@;
        let mut additions: Vec<Article> = Vec::new();
        let mut batch = articles;
        let ghost all = batch@;
        let mut i: usize = 0;
        let n = batch.len();
        while i < n
            invariant
                n == batch@.len(),
                batch@ == all,
                i <= n,
                self@ == existing,
                additions@ == new_articles(all.take(i as int), existing),
            decreases n - i,
        {
            assert(all.take(i + 1).drop_last() =~= all.take(i as int));
            let article = batch[i].copy();
            if self.index(&article).is_none() {
                additions.push(article);
            }
            i = i + 1;
        }
        assert(all.take(n as int) =~= all);
        let ghost added = additions@;
        self.articles.append(&mut additions);
        assert(self@ =~= existing + added);
    }

    /// Adds `article` unless its id is already stored.
    pub fn add(&mut self, article: &Article)
        ensures
            final(self)@ == with_added(old(self)@, *article),
    {
        let mut batch: Vec<Article> = Vec::new();
        batch.push(article.copy());
        let ghost b = batch@;
        assert(b.drop_last() =~= Seq::<Article>::empty());
        assert(new_articles(b.drop_last(), old(self)@) =~= Seq::<Article>::empty());
        assert(b.last() == *article);
        self.add_multiple(batch);
        proof {
            if has_id(old(self)@, article.id) {
                assert(self@ =~= old(self)@);
            } else {
                assert(self@ =~= old(self)@.push(*article));
            }
        }
    }

    /// Removes every stored article.
    pub fn clear(&mut self)
        ensures
            final(self)@ == Seq::<Article>::empty(),
    {
        self.articles = Vec::new();
    }

    /// Deletes the first stored article with the id of `article`.
    pub fn delete(&mut self, article: &Article)
        ensures
            final(self)@ == without_first(old(self)@, article.id),
    {
        if let Some(pos) = self.index(article) {
            proof {
                lemma_first_index(self@, article.id);
            }
            self.articles.remove(pos);
        }
    }

    /// Replaces the stored article with the id of `article` by `article`.
    pub fn update(&mut self, article: &Article)
        ensures
            final(self)@ == with_updated(old(self)@, *article),
    {
        self.delete(article);
        self.add(article);
    }

    /// Records a change of the starred flag of `article`.
    pub fn favorite(&mut self, article: &Article)
        ensures
            final(self)@ == with_updated(old(self)@, *article),
    {
        self.update(article);
    }

    /// Records a change of the archived flag of `article`.
    pub fn archive(&mut self, article: &Article)
        ensures
            final(self)@ == with_updated(old(self)@, *article),
    {
        self.update(article);
    }
}

/// After adding an article its id is stored, and a store whose ids were
/// distinct keeps them distinct.
pub proof fn lemma_add_keeps_ids_unique(s: Seq<Article>, a: Article)
    ensures
        has_id(with_added(s, a), a.id),
        unique_ids(s) ==> unique_ids(with_added(s, a)),
{
    if !has_id(s, a.id) {
        let t = s.push(a);
        assert(t[s.len() as int].id == a.id);
    }
}

/// In a store whose ids are distinct, deleting an article removes its id.
pub proof fn lemma_delete_removes_id(s: Seq<Article>, id: i32)
    requires
        unique_ids(s),
    ensures
        !has_id(without_first(s, id), id),
        unique_ids(without_first(s, id)),
{
    if has_id(s, id) {
        lemma_first_index(s, id);
        let k = first_index(s, id);
        let t = s.remove(k);
        assert forall|i: int| 0 <= i < t.len() implies #[trigger] t[i].id != id by {
            if i < k {
                assert(t[i] == s[i]);
            } else {
                assert(t[i] == s[i + 1]);
            }
        }
        assert forall|i: int, j: int|
            0 <= i < t.len() && 0 <= j < t.len() && i != j implies #[trigger] t[i].id
            != #[trigger] t[j].id by {
            let si = if i < k {
                i
            } else {
                i + 1
            };
            let sj = if j < k {
                j
            } else {
                j + 1
            };
            assert(t[i] == s[si]);
            assert(t[j] == s[sj]);
        }
    }
}

/// In a store whose ids are distinct, after `update(a)` the ids stay
/// distinct and `a` is the article stored under its id.
pub proof fn lemma_update_replaces(s: Seq<Article>, a: Article)
    requires
        unique_ids(s),
    ensures
        unique_ids(with_updated(s, a)),
        with_updated(s, a).len() > 0,
        with_updated(s, a).last() == a,
        forall|i: int|
            0 <= i < with_updated(s, a).len() && #[trigger] with_updated(s, a)[i].id == a.id
                ==> with_updated(s, a)[i] == a,
{
    lemma_delete_removes_id(s, a.id);
    let m = without_first(s, a.id);
    lemma_add_keeps_ids_unique(m, a);
    let t = m.push(a);
    assert(with_updated(s, a) == t);
    assert forall|i: int| 0 <= i < t.len() && #[trigger] t[i].id == a.id implies t[i] == a by {
        if i < m.len() {
            assert(m[i].id == a.id);
        }
    }
}

/// Adding a batch whose ids are distinct to a store whose ids are distinct
/// keeps them distinct, and stores every id of the batch.
pub proof fn lemma_add_multiple_keeps_ids_unique(s: Seq<Article>, batch: Seq<Article>)
    requires
        unique_ids(s),
        unique_ids(batch),
    ensures
        unique_ids(s + new_articles(batch, s)),
        forall|k: int| 0 <= k < batch.len() ==> has_id(s + new_articles(batch, s), #[trigger] batch[k].id),
    decreases batch.len(),
{
    if batch.len() > 0 {
        let b = batch.drop_last();
        assert forall|i: int, j: int|
            0 <= i < b.len() && 0 <= j < b.len() && i != j implies #[trigger] b[i].id
            != #[trigger] b[j].id by {
            assert(b[i] == batch[i]);
            assert(b[j] == batch[j]);
        }
        lemma_add_multiple_keeps_ids_unique(s, b);
        let prev = s + new_articles(b, s);
        let x = batch.last();
        lemma_new_articles_from_batch(b, s);
        if !has_id(s, x.id) {
            let t = prev.push(x);
            assert(s + new_articles(batch, s) =~= t);
            assert(!has_id(prev, x.id)) by {
                if has_id(prev, x.id) {
                    let i = choose|i: int| 0 <= i < prev.len() && #[trigger] prev[i].id == x.id;
                    if i >= s.len() {
                        let e = new_articles(b, s)[i - s.len()];
                        assert(prev[i] == e);
                        let kk = choose|kk: int| 0 <= kk < b.len() && b[kk] == e;
                        assert(b[kk] == batch[kk]);
                        assert(batch[kk].id != batch[batch.len() - 1].id);
                    } else {
                        assert(prev[i] == s[i]);
                    }
                }
            }
            assert forall|i: int, j: int|
                0 <= i < t.len() && 0 <= j < t.len() && i != j implies #[trigger] t[i].id
                != #[trigger] t[j].id by {
                if i < prev.len() && j < prev.len() {
                    assert(t[i] == prev[i]);
                    assert(t[j] == prev[j]);
                } else if i < prev.len() {
                    assert(t[i] == prev[i]);
                } else if j < prev.len() {
                    assert(t[j] == prev[j]);
                }
            }
            assert forall|k: int| 0 <= k < batch.len() implies has_id(t, #[trigger] batch[k].id) by {
                if k < b.len() {
                    assert(b[k] == batch[k]);
                    let i = choose|i: int| 0 <= i < prev.len() && #[trigger] prev[i].id == b[k].id;
                    assert(t[i] == prev[i]);
                } else {
                    assert(t[prev.len() as int] == x);
                }
            }
        } else {
            assert(s + new_articles(batch, s) =~= prev);
            assert forall|k: int| 0 <= k < batch.len() implies has_id(prev, #[trigger] batch[k].id) by {
                if k < b.len() {
                    assert(b[k] == batch[k]);
                } else {
                    let i = choose|i: int| 0 <= i < s.len() && #[trigger] s[i].id == x.id;
                    assert(prev[i] == s[i]);
                }
            }
        }
    }
}

/// Every article that a batch adds comes from the batch.
proof fn lemma_new_articles_from_batch(batch: Seq<Article>, s: Seq<Article>)
    ensures
        forall|i: int|
            0 <= i < new_articles(batch, s).len() ==> exists|k: int|
                0 <= k < batch.len() && batch[k] == #[trigger] new_articles(batch, s)[i],
    decreases batch.len(),
{
    if batch.len() > 0 {
        let b = batch.drop_last();
        lemma_new_articles_from_batch(b, s);
        let rest = new_articles(b, s);
        assert forall|i: int| 0 <= i < new_articles(batch, s).len() implies exists|k: int|
            0 <= k < batch.len() && batch[k] == #[trigger] new_articles(batch, s)[i] by {
            if i < rest.len() {
                let k = choose|k: int| 0 <= k < b.len() && b[k] == #[trigger] rest[i];
                assert(batch[k] == b[k]);
                assert(new_articles(batch, s)[i] == rest[i]);
            } else {
                assert(new_articles(batch, s)[i] == batch[batch.len() - 1]);
            }
        }
    }
}

} // verus!
