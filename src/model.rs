use vstd::prelude::*;

verus! {

/// A configured feed: a label used in notification subjects and the
/// address the feed is fetched from.
#[derive(Debug)]
pub struct Site {
    pub title: String,
    pub url: String,
}

/// One item of a feed that carries both a title and a link.
/// The link identifies the article.
#[derive(Debug)]
pub struct Article {
    pub title: String,
    pub url: String,
}

/// Mathematical model of a [`Site`].
pub struct SiteView {
    pub title: Seq<char>,
    pub url: Seq<char>,
}

/// Mathematical model of an [`Article`].
pub struct ArticleView {
    pub title: Seq<char>,
    pub url: Seq<char>,
}

impl View for Site {
    type V = SiteView;

    open spec fn view(&self) -> SiteView {
        SiteView { title: self.title@, url: self.url@ }
    }
}

impl View for Article {
    type V = ArticleView;

    open spec fn view(&self) -> ArticleView {
        ArticleView { title: self.title@, url: self.url@ }
    }
}

impl Site {
    pub fn new(title: String, url: String) -> (r: Site)
        ensures
            r.title@ == title@,
            r.url@ == url@,
    {
        Site { title, url }
    }
}

impl Article {
    pub fn new(title: String, url: String) -> (r: Article)
        ensures
            r.title@ == title@,
            r.url@ == url@,
    {
        Article { title, url }
    }
}

} // verus!
