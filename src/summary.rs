//! Summaries of news articles and tweets through one trait.
use vstd::prelude::*;

verus! {

pub open spec fn read_more(author: Seq<char>) -> Seq<char> {
    "(Read more from "@ + author + "...)"@
}

pub trait Summarizable {
    /// Who wrote the item, as shown in summaries.
    spec fn author_summary_spec(&self) -> Seq<char>;

    /// The summary of the item.
    spec fn summary_spec(&self) -> Seq<char>;

    fn author_summary(&self) -> (r: String)
        ensures
            r@ == self.author_summary_spec(),
    ;

    fn summary(&self) -> (r: String)
        ensures
            r@ == self.summary_spec(),
    ;
}

/// The summary that an item gets when it has no summary of its own.
pub fn read_more_from(author: &str) -> (r: String)
    ensures
        r@ == read_more(author@),
{
    let mut r = String::from_str("(Read more from ");
    r.append(author);
    r.append("...)");
    r
}

pub struct NewsArticle {
    pub headline: String,
    pub location: String,
    pub author: String,
    pub content: String,
}

impl Summarizable for NewsArticle {
    open spec fn author_summary_spec(&self) -> Seq<char> {
        "Author: "@ + self.author@
    }

    open spec fn summary_spec(&self) -> Seq<char> {
        read_more(self.author_summary_spec())
    }

    fn author_summary(&self) -> (r: String) {
        let mut r = String::from_str("Author: ");
        r.append(self.author.as_str());
        r
    }

    fn summary(&self) -> (r: String) {
        let a = self.author_summary();
        read_more_from(a.as_str())
    }
}

pub struct Tweet {
    pub username: String,
    pub content: String,
    pub reply: bool,
    pub retweet: bool,
}

impl Summarizable for Tweet {
    open spec fn author_summary_spec(&self) -> Seq<char> {
        "User: "@ + self.username@
    }

    open spec fn summary_spec(&self) -> Seq<char> {
        self.username@ + ": "@ + self.content@
    }

    fn author_summary(&self) -> (r: String) {
        let mut r = String::from_str("User: ");
        r.append(self.username.as_str());
        r
    }

    fn summary(&self) -> (r: String) {
        let mut r = self.username.clone();
        r.append(": ");
        r.append(self.content.as_str());
        r
    }
}

impl Tweet {
    /// How a tweet is displayed.
    pub fn display(&self) -> (r: String)
        ensures
            r@ == "Tweet from "@ + self.username@ + ": "@ + self.content@,
    {
        let mut r = String::from_str("Tweet from ");
        r.append(self.username.as_str());
        r.append(": ");
        r.append(self.content.as_str());
        r
    }
}

} // verus!
