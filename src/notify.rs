use vstd::prelude::*;
use vstd::string::StringExecFns;

use crate::model::{Article, Site};

verus! {

/// The subject of the notification for `article` of `site`:
/// the site's title, a colon and a space, and the article's title.
pub open spec fn subject_of(site_title: Seq<char>, article_title: Seq<char>) -> Seq<char> {
    site_title + ": "@ + article_title
}

/// A notification message: one per new article.
#[derive(Debug)]
pub struct Message {
    pub subject: String,
    pub body: String,
}

/// Builds the message announcing `article` of `site`. The subject names the
/// site and the article; the body is the article's URL.
pub fn message_for(site: &Site, article: &Article) -> (r: Message)
    ensures
        r.subject@ == subject_of(site.title@, article.title@),
        r.body@ == article.url@,
{
    let subject = site.title.clone().concat(": ").concat(article.title.as_str());
    Message { subject, body: article.url.clone() }
}

} // verus!
