//! One-line summaries of news articles and tweets.
use vstd::prelude::*;

verus! {

/// Something that can be summed up in one line.
pub trait Summary {
    /// The summary's text.
    spec fn summary_text(&self) -> Seq<char>;

    fn summarize(&self) -> (s: String)
        ensures
            s@ == self.summary_text(),
    ;
}

pub struct NewsArticle {
    pub headline: String,
    pub location: String,
    pub author: String,
    pub content: String,
}

impl Summary for NewsArticle {
    /// `headline, by author (location)`.
    open spec fn summary_text(&self) -> Seq<char> {
        self.headline@ + ", by "@ + self.author@ + " ("@ + self.location@ + ")"@
    }

    fn summarize(&self) -> (s: String) {
        let mut s = self.headline.clone();
        s.append(", by ");
        s.append(self.author.as_str());
        s.append(" (");
        s.append(self.location.as_str());
        s.append(")");
        assert(s@ =~= self.summary_text());
        s
    }
}

pub struct Tweet {
    pub username: String,
    pub content: String,
    pub reply: bool,
    pub retweet: bool,
}

impl Summary for Tweet {
    /// `username: content`.
    open spec fn summary_text(&self) -> Seq<char> {
        self.username@ + ": "@ + self.content@
    }

    fn summarize(&self) -> (s: String) {
        let mut s = self.username.clone();
        s.append(": ");
        s.append(self.content.as_str());
        assert(s@ =~= self.summary_text());
        s
    }
}

/// The notice announcing `item`: `news! : ` and its summary.
pub fn notify<T: Summary>(item: &T) -> (s: String)
    ensures
        s@ == "news! : "@ + item.summary_text(),
{
    let summary = item.summarize();
    let mut s = String::from_str("news! : ");
    s.append(summary.as_str());
    s
}

/// A sample tweet.
pub fn return_tweet() -> (t: Tweet)
    ensures
        t.username@ == "popo"@,
        t.content@ == "포포는 잠이 좋아"@,
        !t.reply,
        !t.retweet,
{
    Tweet {
        username: String::from_str("popo"),
        content: String::from_str("포포는 잠이 좋아"),
        reply: false,
        retweet: false,
    }
}

/// A sample news article.
pub fn return_news_article() -> (a: NewsArticle)
    ensures
        a.author@ == "iseol"@,
        a.content@ == "나는 행복합니다"@,
        a.headline@ == "월급 200% 인상 소식..."@,
        a.location@ == "서울, 대한민국"@,
{
    NewsArticle {
        author: String::from_str("iseol"),
        content: String::from_str("나는 행복합니다"),
        headline: String::from_str("월급 200% 인상 소식..."),
        location: String::from_str("서울, 대한민국"),
    }
}

} // verus!
