//! One entry's way into the store: the dedup gate that admits only new links,
//! and the article that is composed from what was found.

use vstd::prelude::*;
use crate::article::{summary_view, Article, ArticleView, ReadStatus, Summary, SummaryView};
use crate::feed::{FeedEntry, FeedEntryView};
use crate::keys::{article_key, article_key_of};
use crate::scrape::{WebpageData, WebpageDataView};
use crate::text::or_empty;

verus! {

/// How many entries of one source are enriched at the same time.
pub const ENTRY_CONCURRENCY: usize = 4;

/// How many sources are processed at the same time.
pub const SOURCE_CONCURRENCY: usize = 2;

/// An entry that was admitted: its link was not in the store. Only
/// `dedup_gate` makes one, so an article is composed only for an entry that
/// was checked.
#[derive(Debug)]
pub struct Admitted {
    entry: FeedEntry,
}

impl View for Admitted {
    type V = FeedEntryView;

    closed spec fn view(&self) -> FeedEntryView {
        self.entry@
    }
}

/// The entry without its inline image.
pub open spec fn without_image(entry: FeedEntryView) -> FeedEntryView {
    FeedEntryView {
        title: entry.title,
        summary: entry.summary,
        published: entry.published,
        link: entry.link,
        image: None,
    }
}

impl Admitted {
    /// The entry that was admitted.
    pub fn entry(&self) -> (entry: &FeedEntry)
        ensures
            entry@ == self@,
    {
        &self.entry
    }

    /// The admitted entry without its inline image.
    pub fn without_image(self) -> (bare: Admitted)
        ensures
            bare@ == without_image(self@),
    {
        Admitted {
            entry: FeedEntry {
                title: self.entry.title,
                summary: self.entry.summary,
                published: self.entry.published,
                link: self.entry.link,
                image: None,
            },
        }
    }
}

/// Lets an entry pass only where the store answered that it does not hold
/// the entry's key. `present` is that answer, `None` where the store could
/// not give one.
pub fn dedup_gate(entry: FeedEntry, present: Option<bool>) -> (r: Option<Admitted>)
    ensures
        r is Some <==> present == Some(false),
        r is Some ==> r->0@ == entry@,
{
    match present {
        Some(false) => Some(Admitted { entry }),
        _ => None,
    }
}

/// The article for an entry of the feed at `source` whose page was
/// fetched. A summary supplies title and summary; without one the feed's
/// own stand. The image is the entry's inline image, else the one found on
/// the page, else empty. The status is `Fresh`.
pub open spec fn composed(
    source: Seq<char>,
    entry: FeedEntryView,
    page: WebpageDataView,
    summary: Option<SummaryView>,
) -> ArticleView {
    ArticleView {
        link: entry.link,
        channel: source,
        title: match summary {
            Some(s) => s.title,
            None => entry.title,
        },
        published: entry.published,
        image: match entry.image {
            Some(image) => image,
            None => or_empty(page.image),
        },
        summary: match summary {
            Some(s) => s.summary,
            None => entry.summary,
        },
        read_status: ReadStatus::Fresh,
    }
}

/// One write to the store.
#[derive(Debug)]
pub struct StoreWrite {
    pub key: String,
    pub article: Article,
}

/// Composes the article for an admitted entry and names the key to store
/// it under.
pub fn compose_article(
    admitted: Admitted,
    source: &str,
    page: WebpageData,
    summary: Option<Summary>,
) -> (write: StoreWrite)
    ensures
        write.key@ == article_key_of(admitted@.link),
        write.article@ == composed(source@, admitted@, page@, summary_view(summary)),
{
    let entry = admitted.entry;
    let key = article_key(entry.link.as_str());
    let image = match entry.image {
        Some(image) => image,
        None => match page.image {
            Some(image) => image,
            None => String::new(),
        },
    };
    let (title, text) = match summary {
        Some(s) => (s.title, s.summary),
        None => (entry.title, entry.summary),
    };
    let article = Article {
        link: entry.link,
        channel: source.to_owned(),
        title,
        published: entry.published,
        image,
        summary: text,
        read_status: ReadStatus::Fresh,
    };
    StoreWrite { key, article }
}

/// The article for an entry whose page could not be fetched: title and
/// summary are the feed's own, and the image is empty.
pub open spec fn unfetched(source: Seq<char>, entry: FeedEntryView) -> ArticleView {
    composed(
        source,
        without_image(entry),
        WebpageDataView { image: None, main_content: None },
        None,
    )
}

/// Composes the article for an admitted entry whose page could not be
/// fetched, and names the key to store it under.
pub fn compose_unfetched(admitted: Admitted, source: &str) -> (write: StoreWrite)
    ensures
        write.key@ == article_key_of(admitted@.link),
        write.article@ == unfetched(source@, admitted@),
{
    compose_article(admitted.without_image(), source, WebpageData::empty(), None)
}

/// What enrichment found for one entry.
pub struct Found {
    /// What the page yielded; `None` where it could not be fetched.
    pub page: Option<WebpageDataView>,
    pub summary: Option<SummaryView>,
}

/// The article for an entry and what was found for it.
pub open spec fn article_from(source: Seq<char>, entry: FeedEntryView, found: Found) -> ArticleView {
    match found.page {
        Some(page) => composed(source, entry, page, found.summary),
        None => unfetched(source, entry),
    }
}

/// The articles of a store after one entry was processed: an entry whose
/// key is held changes nothing; a new one is stored under its key.
pub open spec fn ingested(
    store: Map<Seq<char>, ArticleView>,
    source: Seq<char>,
    entry: FeedEntryView,
    found: Found,
) -> Map<Seq<char>, ArticleView> {
    let key = article_key_of(entry.link);
    if store.contains_key(key) {
        store
    } else {
        store.insert(key, article_from(source, entry, found))
    }
}

/// The articles of a store after the entries of one feed document were
/// processed in order, where enrichment finds `found(i)` for entry `i`.
pub open spec fn pass(
    store: Map<Seq<char>, ArticleView>,
    source: Seq<char>,
    entries: Seq<FeedEntryView>,
    found: spec_fn(int) -> Found,
) -> Map<Seq<char>, ArticleView>
    decreases entries.len(),
{
    if entries.len() == 0 {
        store
    } else {
        ingested(
            pass(store, source, entries.drop_last(), found),
            source,
            entries.last(),
            found(entries.len() - 1),
        )
    }
}

/// Every record is stored under the key of its own link.
pub open spec fn keyed_by_link(store: Map<Seq<char>, ArticleView>) -> bool {
    forall|k: Seq<char>| store.contains_key(k) ==> k == article_key_of(#[trigger] store[k].link)
}

/// A pass keeps every record that the store held, unchanged.
pub proof fn lemma_pass_keeps_records(
    store: Map<Seq<char>, ArticleView>,
    source: Seq<char>,
    entries: Seq<FeedEntryView>,
    found: spec_fn(int) -> Found,
)
    ensures
        forall|k: Seq<char>| #[trigger]
            store.contains_key(k) ==> pass(store, source, entries, found).contains_key(k) && pass(
                store,
                source,
                entries,
                found,
            )[k] == store[k],
    decreases entries.len(),
{
    if entries.len() > 0 {
        lemma_pass_keeps_records(store, source, entries.drop_last(), found);
    }
}

/// After a pass the store holds a record for the link of every entry.
pub proof fn lemma_pass_holds_every_entry(
    store: Map<Seq<char>, ArticleView>,
    source: Seq<char>,
    entries: Seq<FeedEntryView>,
    found: spec_fn(int) -> Found,
)
    ensures
        forall|i: int|
            0 <= i < entries.len() ==> pass(store, source, entries, found).contains_key(
                article_key_of(#[trigger] entries[i].link),
            ),
    decreases entries.len(),
{
    if entries.len() > 0 {
        let rest = entries.drop_last();
        lemma_pass_holds_every_entry(store, source, rest, found);
        assert forall|i: int| 0 <= i < entries.len() implies pass(
            store,
            source,
            entries,
            found,
        ).contains_key(article_key_of(#[trigger] entries[i].link)) by {
            if i < rest.len() {
                assert(rest[i] == entries[i]);
            }
        }
    }
}

proof fn lemma_pass_over_held_entries(
    store: Map<Seq<char>, ArticleView>,
    source: Seq<char>,
    entries: Seq<FeedEntryView>,
    found: spec_fn(int) -> Found,
)
    requires
        forall|i: int|
            0 <= i < entries.len() ==> store.contains_key(
                article_key_of(#[trigger] entries[i].link),
            ),
    ensures
        pass(store, source, entries, found) == store,
    decreases entries.len(),
{
    if entries.len() > 0 {
        let rest = entries.drop_last();
        assert forall|i: int| 0 <= i < rest.len() implies store.contains_key(
            article_key_of(#[trigger] rest[i].link),
        ) by {
            assert(rest[i] == entries[i]);
        }
        lemma_pass_over_held_entries(store, source, rest, found);
        assert(store.contains_key(article_key_of(entries[entries.len() - 1].link)));
    }
}

/// Processing the same feed document a second time writes nothing,
/// whatever enrichment would find the second time.
pub proof fn lemma_second_pass_writes_nothing(
    store: Map<Seq<char>, ArticleView>,
    source: Seq<char>,
    entries: Seq<FeedEntryView>,
    first: spec_fn(int) -> Found,
    second: spec_fn(int) -> Found,
)
    ensures
        pass(pass(store, source, entries, first), source, entries, second) == pass(
            store,
            source,
            entries,
            first,
        ),
{
    lemma_pass_holds_every_entry(store, source, entries, first);
    lemma_pass_over_held_entries(pass(store, source, entries, first), source, entries, second);
}

/// A pass keeps every record under the key of its own link.
pub proof fn lemma_pass_keeps_keying(
    store: Map<Seq<char>, ArticleView>,
    source: Seq<char>,
    entries: Seq<FeedEntryView>,
    found: spec_fn(int) -> Found,
)
    requires
        keyed_by_link(store),
    ensures
        keyed_by_link(pass(store, source, entries, found)),
    decreases entries.len(),
{
    if entries.len() > 0 {
        lemma_pass_keeps_keying(store, source, entries.drop_last(), found);
    }
}

/// However often feed documents are processed, the store never holds two
/// records for one canonical link: two keys whose records have the same
/// link are the same key.
pub proof fn lemma_one_record_per_link(
    store: Map<Seq<char>, ArticleView>,
    source: Seq<char>,
    entries: Seq<FeedEntryView>,
    first: spec_fn(int) -> Found,
    second: spec_fn(int) -> Found,
    k1: Seq<char>,
    k2: Seq<char>,
)
    requires
        keyed_by_link(store),
        ({
            let twice = pass(pass(store, source, entries, first), source, entries, second);
            twice.contains_key(k1) && twice.contains_key(k2) && twice[k1].link == twice[k2].link
        }),
    ensures
        k1 == k2,
{
    let once = pass(store, source, entries, first);
    lemma_pass_keeps_keying(store, source, entries, first);
    lemma_pass_keeps_keying(once, source, entries, second);
}

/// Where the page could not be fetched, the article has the title and the
/// summary that the feed supplied, and an empty image.
pub proof fn lemma_failed_fetch_keeps_feed_values(source: Seq<char>, entry: FeedEntryView)
    ensures
        ({
            let article = unfetched(source, entry);
            &&& article.title == entry.title
            &&& article.summary == entry.summary
            &&& article.link == entry.link
            &&& article.published == entry.published
            &&& article.channel == source
            &&& article.read_status == ReadStatus::Fresh
            &&& article.image == Seq::<char>::empty()
        }),
{
}

} // verus!
