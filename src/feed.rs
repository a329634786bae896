use vstd::prelude::*;

use crate::model::{Article, ArticleView};

verus! {

/// An entry of a fetched feed as the feed reader delivers it: either field
/// may be absent.
#[derive(Debug)]
pub struct FeedItem {
    pub title: Option<String>,
    pub link: Option<String>,
}

/// The article an entry stands for: present only when it has both a title
/// and a link.
pub open spec fn item_article(item: FeedItem) -> Option<ArticleView> {
    match (item.title, item.link) {
        (Some(t), Some(l)) => Some(ArticleView { title: t@, url: l@ }),
        _ => None,
    }
}

/// The articles of a feed, in feed order, with malformed entries left out.
pub open spec fn kept_articles(items: Seq<FeedItem>) -> Seq<ArticleView>
    decreases items.len(),
{
    if items.len() == 0 {
        Seq::empty()
    } else {
        let front = kept_articles(items.drop_last());
        match item_article(items.last()) {
            Some(a) => front.push(a),
            None => front,
        }
    }
}

impl FeedItem {
    pub fn new(title: Option<String>, link: Option<String>) -> (r: FeedItem)
        ensures
            r == (FeedItem { title, link }),
    {
        FeedItem { title, link }
    }

    /// The article this entry stands for, or `None` when its title or its
    /// link is missing.
    pub fn to_article(&self) -> (r: Option<Article>)
        ensures
            match r {
                Some(a) => item_article(*self) == Some(a@),
                None => item_article(*self).is_none(),
            },
    {
        match (&self.title, &self.link) {
            (Some(t), Some(l)) => Some(Article { title: t.clone(), url: l.clone() }),
            _ => None,
        }
    }
}

/// Turns the entries of a fetched feed into articles, keeping their order
/// and silently dropping every entry without a title or without a link.
pub fn articles_from_items(items: &Vec<FeedItem>) -> (r: Vec<Article>)
    ensures
        r@.map_values(|a: Article| a@) == kept_articles(items@),
{
    let mut out: Vec<Article> = Vec::new();
    let mut i: usize = 0;
    while i < items.len()
        invariant
            i <= items@.len(),
            out@.map_values(|a: Article| a@) == kept_articles(items@.subrange(0, i as int)),
        decreases items@.len() - i,
    {
        proof {
            assert(items@.subrange(0, i + 1).drop_last() =~= items@.subrange(0, i as int));
        }
        match items[i].to_article() {
            Some(a) => {
                out.push(a);
            },
            None => {},
        }
        i = i + 1;
        proof {
            assert(out@.map_values(|a: Article| a@) =~= kept_articles(items@.subrange(0, i as int)));
        }
    }
    proof {
        assert(items@.subrange(0, items@.len() as int) =~= items@);
    }
    out
}

/// Every article kept from a feed comes from an entry that has both a title
/// and a link, and carries exactly those: an entry missing either yields no
/// article, so it is never looked up, notified or recorded.
pub proof fn lemma_kept_are_complete(items: Seq<FeedItem>)
    ensures
        forall|j: int|
            0 <= j < kept_articles(items).len() ==> exists|i: int|
                0 <= i < items.len() && (#[trigger] items[i]).title is Some && items[i].link is Some
                    && #[trigger] kept_articles(items)[j] == (ArticleView {
                    title: items[i].title.unwrap()@,
                    url: items[i].link.unwrap()@,
                }),
    decreases items.len(),
{
    if items.len() > 0 {
        let front = items.drop_last();
        lemma_kept_are_complete(front);
        assert forall|j: int| 0 <= j < kept_articles(items).len() implies exists|i: int|
            0 <= i < items.len() && (#[trigger] items[i]).title is Some && items[i].link is Some
                && #[trigger] kept_articles(items)[j] == (ArticleView {
                title: items[i].title.unwrap()@,
                url: items[i].link.unwrap()@,
            }) by {
            if j < kept_articles(front).len() {
                let i = choose|i: int|
                    0 <= i < front.len() && (#[trigger] front[i]).title is Some && front[i].link is Some
                        && kept_articles(front)[j] == (ArticleView {
                        title: front[i].title.unwrap()@,
                        url: front[i].link.unwrap()@,
                    });
                assert(items[i] == front[i]);
            } else {
                assert(items[items.len() - 1] == items.last());
            }
        }
    }
}

} // verus!
