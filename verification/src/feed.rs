//! Feed documents: what the feed parser hands over, and the normalised
//! entries that the pipeline works on. The caller runs the parser and
//! hands over what it read.

use vstd::prelude::*;
use crate::outside::{first_attribute, select_first_attribute};
use crate::text::{or_empty, text_or_empty};

verus! {

/// One entry as the feed parser hands it over.
#[derive(Debug, Clone)]
pub struct RawEntry {
    /// The entry's identifier.
    pub id: String,
    pub title: Option<String>,
    pub summary: Option<String>,
    /// The publication time in RFC 3339.
    pub published: Option<String>,
    /// The targets of the entry's links, in document order.
    pub links: Vec<String>,
    /// The body of the entry's content, where it has one.
    pub body: Option<String>,
}

/// A feed document as the feed parser hands it over.
#[derive(Debug, Clone)]
pub struct ParsedFeed {
    /// The feed's identifier.
    pub id: String,
    pub title: Option<String>,
    /// The targets of the feed's links, in document order.
    pub links: Vec<String>,
    pub entries: Vec<RawEntry>,
}

/// The feed document is not a feed that can be parsed.
#[derive(Debug, Clone, Copy, PartialEq, Eq, Structural)]
pub struct FeedFormatError;

/// One normalised entry of a feed.
#[derive(Debug, Clone)]
pub struct FeedEntry {
    pub title: String,
    /// The feed-supplied summary; may be empty.
    pub summary: String,
    /// The publication time in RFC 3339.
    pub published: String,
    /// The canonical link: the entry's identity.
    pub link: String,
    /// The first image of the entry's content, where there is one.
    pub image: Option<String>,
}

/// The mathematical value of a `FeedEntry`.
pub struct FeedEntryView {
    pub title: Seq<char>,
    pub summary: Seq<char>,
    pub published: Seq<char>,
    pub link: Seq<char>,
    pub image: Option<Seq<char>>,
}

impl View for FeedEntry {
    type V = FeedEntryView;

    open spec fn view(&self) -> FeedEntryView {
        FeedEntryView {
            title: self.title@,
            summary: self.summary@,
            published: self.published@,
            link: self.link@,
            image: self.image.deep_view(),
        }
    }
}

/// The publication time of an entry that states none: the epoch.
pub open spec fn epoch() -> Seq<char> {
    "1970-01-01T00:00:00+00:00"@
}

/// The canonical link: the first declared link, else the bare identifier.
pub open spec fn canonical_link(links: Seq<String>, id: Seq<char>) -> Seq<char> {
    if links.len() > 0 {
        links[0]@
    } else {
        id
    }
}

/// The first image in an entry's content body.
pub open spec fn inline_image(body: Option<String>) -> Option<Seq<char>> {
    match body {
        Some(html) => first_attribute(html@, "img"@, "src"@),
        None => None,
    }
}

/// The normalised form of a raw entry.
pub open spec fn normalized(raw: RawEntry) -> FeedEntryView {
    FeedEntryView {
        title: or_empty(raw.title.deep_view()),
        summary: or_empty(raw.summary.deep_view()),
        published: match raw.published {
            Some(p) => p@,
            None => epoch(),
        },
        link: canonical_link(raw.links@, raw.id@),
        image: inline_image(raw.body),
    }
}

/// The link that identifies a feed or an entry: its first declared link,
/// else its bare identifier.
pub fn first_link_or_id(links: &Vec<String>, id: &String) -> (link: String)
    ensures
        link@ == canonical_link(links@, id@),
{
    if links.len() > 0 {
        links[0].clone()
    } else {
        id.clone()
    }
}

/// Normalises one entry: absent title and summary become empty, an absent
/// publication time becomes the epoch, and the link is the canonical link.
pub fn normalize_entry(raw: &RawEntry) -> (entry: FeedEntry)
    ensures
        entry@ == normalized(*raw),
{
    let image = match &raw.body {
        Some(html) => select_first_attribute(html.as_str(), "img", "src"),
        None => None,
    };
    FeedEntry {
        title: text_or_empty(&raw.title),
        summary: text_or_empty(&raw.summary),
        published: match &raw.published {
            Some(p) => p.clone(),
            None => "1970-01-01T00:00:00+00:00".to_owned(),
        },
        link: first_link_or_id(&raw.links, &raw.id),
        image,
    }
}

/// The entries of a parsed feed, normalised, in document order.
pub fn feed_entries(feed: &ParsedFeed) -> (entries: Vec<FeedEntry>)
    ensures
        entries.len() == feed.entries.len(),
        forall|i: int| 0 <= i < entries.len() ==> (#[trigger] entries[i])@ == normalized(feed.entries[i]),
{
    let mut entries: Vec<FeedEntry> = Vec::new();
    let mut i: usize = 0;
    while i < feed.entries.len()
        invariant
            i <= feed.entries.len(),
            entries.len() == i,
            forall|j: int| 0 <= j < i ==> (#[trigger] entries[j])@ == normalized(feed.entries[j]),
        decreases feed.entries.len() - i,
    {
        entries.push(normalize_entry(&feed.entries[i]));
        i += 1;
    }
    entries
}

/// Opens a pull of one source, given what the feed parser made of the
/// document that was fetched from it: the entries, normalised, in document
/// order; or the error where the document is no feed that can be parsed.
/// `parsed` is the parser's answer, `None` where it refused the document.
pub fn process_source(parsed: Option<ParsedFeed>) -> (r: Result<Vec<FeedEntry>, FeedFormatError>)
    ensures
        match parsed {
            Some(feed) => {
                &&& r is Ok
                &&& r->Ok_0.len() == feed.entries.len()
                &&& forall|i: int|
                    0 <= i < feed.entries.len() ==> (#[trigger] r->Ok_0[i])@ == normalized(
                        feed.entries[i],
                    )
            },
            None => r == Err::<Vec<FeedEntry>, FeedFormatError>(FeedFormatError),
        },
{
    match parsed {
        Some(feed) => Ok(feed_entries(&feed)),
        None => Err(FeedFormatError),
    }
}

} // verus!
