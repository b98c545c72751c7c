//! Articles: the stored record, its read status, and the record joined with
//! its channel for display.

use vstd::prelude::*;
use crate::channel::{Channel, ChannelView};
use crate::text::same_text;

verus! {

/// Where an article stands in its reader's hands.
#[derive(Debug, Clone, Copy, PartialEq, Eq, Structural)]
pub enum ReadStatus {
    /// Not yet handled: the status of a new article.
    Fresh,
    Saved,
    Archived,
}

/// The name of a status, as commands and stored records spell it.
pub open spec fn status_name(status: ReadStatus) -> Seq<char> {
    match status {
        ReadStatus::Fresh => "Fresh"@,
        ReadStatus::Saved => "Saved"@,
        ReadStatus::Archived => "Archived"@,
    }
}

/// The status that `name` spells, if any.
pub open spec fn parsed_status(name: Seq<char>) -> Option<ReadStatus> {
    if name == "Fresh"@ {
        Some(ReadStatus::Fresh)
    } else if name == "Saved"@ {
        Some(ReadStatus::Saved)
    } else if name == "Archived"@ {
        Some(ReadStatus::Archived)
    } else {
        None
    }
}

/// The message for a name that spells no status.
pub open spec fn unknown_status_message(name: Seq<char>) -> Seq<char> {
    seq!['\''] + name + "' is not a valid read status"@
}

impl ReadStatus {
    /// Reads a status from its name. Any other text is refused with a
    /// message that quotes it.
    pub fn from_str(s: &str) -> (r: Result<ReadStatus, String>)
        ensures
            match r {
                Ok(status) => parsed_status(s@) == Some(status),
                Err(message) => parsed_status(s@) is None && message@ == unknown_status_message(
                    s@,
                ),
            },
    {
        if same_text(s, "Fresh") {
            Ok(ReadStatus::Fresh)
        } else if same_text(s, "Saved") {
            Ok(ReadStatus::Saved)
        } else if same_text(s, "Archived") {
            Ok(ReadStatus::Archived)
        } else {
            let mut message = String::new();
            message.push('\'');
            message.append(s);
            message.append("' is not a valid read status");
            assert(message@ =~= unknown_status_message(s@));
            Err(message)
        }
    }

    /// The name of the status.
    pub fn name(&self) -> (name: &'static str)
        ensures
            name@ == status_name(*self),
    {
        match self {
            ReadStatus::Fresh => "Fresh",
            ReadStatus::Saved => "Saved",
            ReadStatus::Archived => "Archived",
        }
    }
}

/// Reading a status's name gives the status back.
pub proof fn lemma_status_name_round_trip(status: ReadStatus)
    ensures
        parsed_status(status_name(status)) == Some(status),
{
    reveal_strlit("Fresh");
    reveal_strlit("Saved");
    reveal_strlit("Archived");
    assert("Fresh"@[0] == 'F');
    assert("Saved"@[0] == 'S');
    assert("Archived"@[0] == 'A');
}

/// A stored article. Its identity is its canonical link.
#[derive(Debug, Clone)]
pub struct Article {
    /// The canonical link.
    pub link: String,
    /// The key of the article's channel: the feed's source.
    pub channel: String,
    pub title: String,
    /// The publication time in RFC 3339.
    pub published: String,
    /// The URL of the representative image; empty where there is none.
    pub image: String,
    pub summary: String,
    pub read_status: ReadStatus,
}

/// The mathematical value of an `Article`.
pub struct ArticleView {
    pub link: Seq<char>,
    pub channel: Seq<char>,
    pub title: Seq<char>,
    pub published: Seq<char>,
    pub image: Seq<char>,
    pub summary: Seq<char>,
    pub read_status: ReadStatus,
}

impl View for Article {
    type V = ArticleView;

    open spec fn view(&self) -> ArticleView {
        ArticleView {
            link: self.link@,
            channel: self.channel@,
            title: self.title@,
            published: self.published@,
            image: self.image@,
            summary: self.summary@,
            read_status: self.read_status,
        }
    }
}

/// A rewritten title and a condensed body for one article.
#[derive(Debug, Clone)]
pub struct Summary {
    pub title: String,
    pub summary: String,
}

/// The mathematical value of a `Summary`.
pub struct SummaryView {
    pub title: Seq<char>,
    pub summary: Seq<char>,
}

impl View for Summary {
    type V = SummaryView;

    open spec fn view(&self) -> SummaryView {
        SummaryView { title: self.title@, summary: self.summary@ }
    }
}

/// The mathematical value of an optional `Summary`.
pub open spec fn summary_view(summary: Option<Summary>) -> Option<SummaryView> {
    match summary {
        Some(s) => Some(s@),
        None => None,
    }
}

/// An article with the record of its channel in place of the channel's key.
#[derive(Debug, Clone)]
pub struct FullArticle {
    pub link: String,
    pub channel: Channel,
    pub title: String,
    pub published: String,
    pub image: String,
    pub summary: String,
    pub read_status: ReadStatus,
}

/// The mathematical value of a `FullArticle`.
pub struct FullArticleView {
    pub link: Seq<char>,
    pub channel: ChannelView,
    pub title: Seq<char>,
    pub published: Seq<char>,
    pub image: Seq<char>,
    pub summary: Seq<char>,
    pub read_status: ReadStatus,
}

impl View for FullArticle {
    type V = FullArticleView;

    open spec fn view(&self) -> FullArticleView {
        FullArticleView {
            link: self.link@,
            channel: self.channel@,
            title: self.title@,
            published: self.published@,
            image: self.image@,
            summary: self.summary@,
            read_status: self.read_status,
        }
    }
}

/// The article `article` joined with the channel `channel`.
pub open spec fn joined(article: ArticleView, channel: ChannelView) -> FullArticleView {
    FullArticleView {
        link: article.link,
        channel,
        title: article.title,
        published: article.published,
        image: article.image,
        summary: article.summary,
        read_status: article.read_status,
    }
}

/// The listing of the stored articles: each article whose channel is on
/// record, joined with that record, in the order of the articles. Each
/// article comes with what the store holds under the key of its channel;
/// an article whose channel is not on record is left out.
pub open spec fn listing(found: Seq<(Article, Option<Channel>)>) -> Seq<FullArticleView>
    decreases found.len(),
{
    if found.len() == 0 {
        Seq::empty()
    } else {
        let before = listing(found.drop_last());
        match found.last().1 {
            Some(channel) => before.push(joined(found.last().0@, channel@)),
            None => before,
        }
    }
}

/// The views of the articles in a listing.
pub open spec fn views(list: Seq<FullArticle>) -> Seq<FullArticleView> {
    list.map_values(|a: FullArticle| a@)
}

/// Lists the stored articles, each joined with the record of its channel.
/// `found` holds each article with what the store holds under the key of
/// its channel.
pub fn get_articles(found: &Vec<(Article, Option<Channel>)>) -> (list: Vec<FullArticle>)
    ensures
        views(list@) == listing(found@),
{
    let mut list: Vec<FullArticle> = Vec::new();
    let mut i: usize = 0;
    assert(found@.take(0) =~= Seq::<(Article, Option<Channel>)>::empty());
    assert(views(list@) =~= Seq::<FullArticleView>::empty());
    while i < found.len()
        invariant
            i <= found.len(),
            views(list@) == listing(found@.take(i as int)),
        decreases found.len() - i,
    {
        let article = &found[i].0;
        let ghost before = list@;
        proof {
            assert(found@.take(i + 1).drop_last() =~= found@.take(i as int));
            assert(found@.take(i + 1).last() == found@[i as int]);
        }
        match &found[i].1 {
            Some(channel) => {
                let full = FullArticle {
                    link: article.link.clone(),
                    channel: channel.duplicate(),
                    title: article.title.clone(),
                    published: article.published.clone(),
                    image: article.image.clone(),
                    summary: article.summary.clone(),
                    read_status: article.read_status,
                };
                list.push(full);
                assert(views(list@) =~= views(before).push(joined(article@, channel@)));
            },
            None => {},
        }
        i += 1;
    }
    assert(found@.take(found.len() as int) =~= found@);
    list
}

} // verus!
