//! An article as the list rows see it: a set of named text properties.

use vstd::prelude::*;

use crate::article::{article_info, preview_text, Article};
use crate::text::{copy_opt_string, opt_view, same_text};

verus! {

/// Whether `name` is one of the properties of an article object.
pub open spec fn is_property_name(name: Seq<char>) -> bool {
    name == "title"@ || name == "preview-text"@ || name == "description"@ || name
        == "cover-picture-url"@
}

/// The value of the property `name` of an article: its title, its preview,
/// its information line without date, or its preview picture.
pub open spec fn property_value(a: Article, name: Seq<char>) -> Option<Seq<char>> {
    if name == "title"@ {
        opt_view(a.title)
    } else if name == "preview-text"@ {
        preview_text(a)
    } else if name == "description"@ {
        Some(article_info(a, false))
    } else {
        opt_view(a.preview_picture)
    }
}

/// An article shown in a list.
pub struct ArticleObject {
    article: Article,
}

impl View for ArticleObject {
    type V = Article;

    closed spec fn view(&self) -> Article {
        self.article
    }
}

impl ArticleObject {
    /// The object of an article.
    pub fn new(article: Article) -> (r: Self)
        ensures
            r@ == article,
    {
        ArticleObject { article }
    }

    /// The article of the object.
    pub fn article(&self) -> (r: &Article)
        ensures
            *r == self@,
    {
        &self.article
    }

    /// The value of the property `name`, one of `title`, `preview-text`,
    /// `description` and `cover-picture-url`.
    pub fn property(&self, name: &str) -> (r: Option<String>)
        requires
            is_property_name(name@),
        ensures
            opt_view(r) == property_value(self@, name@),
    {
        let article = &self.article;
        if same_text(name, "title") {
            copy_opt_string(&article.title)
        } else if same_text(name, "preview-text") {
            article.get_preview()
        } else if same_text(name, "description") {
            Some(article.get_article_info(false))
        } else {
            copy_opt_string(&article.preview_picture)
        }
    }
}

} // verus!
