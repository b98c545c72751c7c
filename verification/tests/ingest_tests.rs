use feed_curator::article::{Article, ReadStatus, Summary};
use feed_curator::enrich::{EntryAction, EntryEvent, EntryOutcome, EntryTask, VideoInfo};
use feed_curator::feed::{process_source, FeedEntry, ParsedFeed, RawEntry};
use feed_curator::ingest::{
    compose_article, compose_unfetched, dedup_gate, ENTRY_CONCURRENCY, SOURCE_CONCURRENCY,
};
use feed_curator::keys::article_key;
use feed_curator::scrape::{SubtitleTrack, WebpageData};
use feed_curator::summary::Limits;
use std::collections::BTreeMap;

/// Reads a feed document with the feed parser.
fn read(bytes: &[u8]) -> Option<ParsedFeed> {
    let feed = feed_rs::parser::parse(bytes).ok()?;
    let entries = feed
        .entries
        .into_iter()
        .map(|e| RawEntry {
            id: e.id,
            title: e.title.map(|t| t.content),
            summary: e.summary.map(|t| t.content),
            published: e.published.map(|d| d.to_rfc3339()),
            links: e.links.into_iter().map(|l| l.href).collect(),
            body: e.content.and_then(|c| c.body),
        })
        .collect();
    Some(ParsedFeed {
        id: feed.id,
        title: feed.title.map(|t| t.content),
        links: feed.links.into_iter().map(|l| l.href).collect(),
        entries,
    })
}

const SOURCE: &str = "https://example.org/feed.xml";

const TWO_ENTRIES: &str = "<?xml version=\"1.0\" encoding=\"utf-8\"?>\
<feed xmlns=\"http://www.w3.org/2005/Atom\">\
  <title>Example Feed</title>\
  <link href=\"http://example.org/\"/>\
  <updated>2003-12-13T18:30:02Z</updated>\
  <id>urn:uuid:feed</id>\
  <entry>\
    <title>Known</title>\
    <link href=\"http://example.org/known\"/>\
    <id>urn:uuid:1</id>\
    <updated>2003-12-13T18:30:02Z</updated>\
    <summary>Known summary.</summary>\
  </entry>\
  <entry>\
    <title>New</title>\
    <link href=\"http://example.org/new\"/>\
    <id>urn:uuid:2</id>\
    <published>2003-12-14T18:30:02Z</published>\
    <updated>2003-12-14T18:30:02Z</updated>\
    <summary>New summary.</summary>\
  </entry>\
</feed>";

fn entry(link: &str) -> FeedEntry {
    FeedEntry {
        title: "Feed title".to_string(),
        summary: "Feed summary".to_string(),
        published: "2024-01-02T03:04:05+00:00".to_string(),
        link: link.to_string(),
        image: None,
    }
}

fn stored(link: &str) -> Article {
    Article {
        link: link.to_string(),
        channel: SOURCE.to_string(),
        title: "Old title".to_string(),
        published: "2000-01-01T00:00:00+00:00".to_string(),
        image: "old.png".to_string(),
        summary: "Old summary".to_string(),
        read_status: ReadStatus::Saved,
    }
}

/// What the outside world answers in a test run.
struct World {
    articles: BTreeMap<String, Article>,
    summaries: BTreeMap<String, Summary>,
    page: Option<String>,
    video: Option<VideoInfo>,
    subtitles: Option<String>,
    reply: Option<Summary>,
    fetches: Vec<String>,
    calls: u32,
    article_writes: u32,
}

impl World {
    fn new() -> World {
        World {
            articles: BTreeMap::new(),
            summaries: BTreeMap::new(),
            page: None,
            video: None,
            subtitles: None,
            reply: None,
            fetches: Vec::new(),
            calls: 0,
            article_writes: 0,
        }
    }

    fn run(&mut self, entry: FeedEntry) -> EntryOutcome {
        let (mut task, mut action) = EntryTask::start(SOURCE, entry, Limits::standard());
        for _ in 0..32 {
            let event = match action {
                EntryAction::CheckStore { key } => {
                    EntryEvent::Stored(Some(self.articles.contains_key(&key)))
                }
                EntryAction::FetchPage { url } => {
                    self.fetches.push(url);
                    EntryEvent::Page(self.page.clone())
                }
                EntryAction::FetchVideo { video_id } => {
                    self.fetches.push(format!("video:{}", video_id));
                    EntryEvent::Video(self.video.clone())
                }
                EntryAction::FetchSubtitles { url } => {
                    self.fetches.push(url);
                    EntryEvent::Subtitles(self.subtitles.clone())
                }
                EntryAction::LookupSummary { key } => {
                    EntryEvent::Cached(self.summaries.get(&key).cloned())
                }
                EntryAction::Complete { request: _ } => {
                    self.calls += 1;
                    EntryEvent::Reply(self.reply.clone())
                }
                EntryAction::StoreSummary { key, summary } => {
                    self.summaries.insert(key, summary);
                    EntryEvent::Written(true)
                }
                EntryAction::StoreArticle { key, article } => {
                    self.article_writes += 1;
                    self.articles.insert(key, article);
                    EntryEvent::Written(true)
                }
                EntryAction::Finish(outcome) => {
                    assert!(task.is_done());
                    return outcome;
                }
            };
            let next = task.advance(event);
            task = next.0;
            action = next.1;
        }
        panic!("the task did not end");
    }
}

const PAGE: &str = "<html><head><title>T</title></head><body><article><h1>Heading</h1>\
    <img src=\"/first.png\">\
    <p>This is a long paragraph of readable text, with commas, and more than enough words to count as content for the extraction.</p>\
    <p>Another paragraph of readable text, with commas, that adds to the score of the article body.</p>\
    </article></body></html>";

#[test]
fn concurrency_bounds() {
    assert_eq!(ENTRY_CONCURRENCY, 4);
    assert_eq!(SOURCE_CONCURRENCY, 2);
}

#[test]
fn gate_admits_only_links_that_are_not_stored() {
    assert!(dedup_gate(entry("a"), Some(false)).is_some());
    assert!(dedup_gate(entry("a"), Some(true)).is_none());
    assert!(dedup_gate(entry("a"), None).is_none());
    let admitted = dedup_gate(entry("a"), Some(false)).unwrap();
    assert_eq!(admitted.entry().link, "a");
    assert_eq!(admitted.entry().title, "Feed title");
}

#[test]
fn article_without_page_or_summary_keeps_the_feed_values() {
    let admitted = dedup_gate(entry("https://example.org/a"), Some(false)).unwrap();
    let write = compose_article(admitted, SOURCE, WebpageData::empty(), None);
    assert_eq!(write.key, "article:https://example.org/a");
    assert_eq!(write.article.link, "https://example.org/a");
    assert_eq!(write.article.channel, SOURCE);
    assert_eq!(write.article.title, "Feed title");
    assert_eq!(write.article.summary, "Feed summary");
    assert_eq!(write.article.published, "2024-01-02T03:04:05+00:00");
    assert_eq!(write.article.image, "");
    assert_eq!(write.article.read_status, ReadStatus::Fresh);
}

#[test]
fn article_of_an_unfetched_page_has_no_image_even_where_the_feed_carried_one() {
    let mut e = entry("https://example.org/a");
    e.image = Some("inline.png".to_string());
    let admitted = dedup_gate(e, Some(false)).unwrap();
    let write = compose_unfetched(admitted, SOURCE);
    assert_eq!(write.key, "article:https://example.org/a");
    assert_eq!(write.article.title, "Feed title");
    assert_eq!(write.article.summary, "Feed summary");
    assert_eq!(write.article.image, "");
    assert_eq!(write.article.read_status, ReadStatus::Fresh);

    let mut e = entry("https://example.org/b");
    e.image = Some("inline.png".to_string());
    let mut world = World::new();
    assert_eq!(world.run(e), EntryOutcome::Stored);
    let b = &world.articles["article:https://example.org/b"];
    assert_eq!(b.image, "");
    assert_eq!(b.title, "Feed title");
    assert_eq!(b.summary, "Feed summary");
}

#[test]
fn summary_supersedes_title_and_summary() {
    let admitted = dedup_gate(entry("a"), Some(false)).unwrap();
    let page = WebpageData { image: Some("page.png".to_string()), main_content: Some("c".to_string()) };
    let summary = Summary { title: "Short".to_string(), summary: "Condensed".to_string() };
    let write = compose_article(admitted, SOURCE, page, Some(summary));
    assert_eq!(write.article.title, "Short");
    assert_eq!(write.article.summary, "Condensed");
    assert_eq!(write.article.image, "page.png");
}

#[test]
fn inline_image_comes_before_the_image_of_the_page() {
    let mut e = entry("a");
    e.image = Some("inline.png".to_string());
    let admitted = dedup_gate(e, Some(false)).unwrap();
    let page = WebpageData { image: Some("page.png".to_string()), main_content: None };
    let write = compose_article(admitted, SOURCE, page, None);
    assert_eq!(write.article.image, "inline.png");
}

#[test]
fn one_known_and_one_new_entry_whose_fetch_fails() {
    let entries = process_source(read(TWO_ENTRIES.as_bytes())).expect("a feed");
    assert_eq!(entries.len(), 2);
    let mut world = World::new();
    world.articles.insert(article_key("http://example.org/known"), stored("http://example.org/known"));
    let outcomes: Vec<EntryOutcome> = entries.into_iter().map(|e| world.run(e)).collect();
    assert_eq!(outcomes, vec![EntryOutcome::AlreadyStored, EntryOutcome::Stored]);
    assert_eq!(world.articles.len(), 2);
    assert_eq!(world.article_writes, 1);
    assert_eq!(world.calls, 0);
    assert_eq!(world.fetches, vec!["http://example.org/new".to_string()]);
    let known = &world.articles["article:http://example.org/known"];
    assert_eq!(known.title, "Old title");
    assert_eq!(known.read_status, ReadStatus::Saved);
    let new = &world.articles["article:http://example.org/new"];
    assert_eq!(new.link, "http://example.org/new");
    assert_eq!(new.channel, SOURCE);
    assert_eq!(new.title, "New");
    assert_eq!(new.image, "");
    assert_eq!(new.summary, "New summary.");
    assert_eq!(new.published, "2003-12-14T18:30:02+00:00");
    assert_eq!(new.read_status, ReadStatus::Fresh);
}

#[test]
fn same_document_twice_stores_each_link_once() {
    let mut world = World::new();
    for _ in 0..2 {
        let entries = process_source(read(TWO_ENTRIES.as_bytes())).expect("a feed");
        for e in entries {
            world.run(e);
        }
    }
    assert_eq!(world.articles.len(), 2);
    assert_eq!(world.article_writes, 2);
    assert_eq!(world.fetches.len(), 2);
    let links: Vec<&str> = world.articles.values().map(|a| a.link.as_str()).collect();
    assert_eq!(links, vec!["http://example.org/known", "http://example.org/new"]);
}

#[test]
fn entry_is_left_alone_where_the_store_cannot_answer() {
    let (task, action) = EntryTask::start(SOURCE, entry("a"), Limits::standard());
    assert!(matches!(&action, EntryAction::CheckStore { key } if key == "article:a"));
    let (task, action) = task.advance(EntryEvent::Stored(None));
    assert!(task.is_done());
    assert!(matches!(action, EntryAction::Finish(EntryOutcome::StoreUnavailable)));
}

#[test]
fn page_content_is_summarised_and_cached() {
    let mut world = World::new();
    world.page = Some(PAGE.to_string());
    world.reply = Some(Summary { title: "Short".to_string(), summary: "Condensed".to_string() });
    assert_eq!(world.run(entry("https://example.org/a")), EntryOutcome::Stored);
    assert_eq!(world.calls, 1);
    assert_eq!(world.summaries.len(), 1);
    let a = &world.articles["article:https://example.org/a"];
    assert_eq!(a.title, "Short");
    assert_eq!(a.summary, "Condensed");
    assert_eq!(a.image, "/first.png");
    world.reply = Some(Summary { title: "Other".to_string(), summary: "Else".to_string() });
    world.articles.clear();
    assert_eq!(world.run(entry("https://example.org/a")), EntryOutcome::Stored);
    assert_eq!(world.calls, 1);
    assert_eq!(world.articles["article:https://example.org/a"].title, "Short");
}

#[test]
fn reply_that_does_not_parse_keeps_the_feed_summary() {
    let mut world = World::new();
    world.page = Some(PAGE.to_string());
    world.reply = None;
    assert_eq!(world.run(entry("https://example.org/a")), EntryOutcome::Stored);
    assert_eq!(world.calls, 1);
    assert!(world.summaries.is_empty());
    let a = &world.articles["article:https://example.org/a"];
    assert_eq!(a.title, "Feed title");
    assert_eq!(a.summary, "Feed summary");
    assert_eq!(a.image, "/first.png");
}

#[test]
fn video_takes_thumbnail_and_hand_written_subtitles() {
    let mut world = World::new();
    world.page = Some("<html><body><img src=\"page.png\"></body></html>".to_string());
    world.video = Some(VideoInfo {
        thumbnail_url: "thumb.jpg".to_string(),
        subtitles: vec![
            SubtitleTrack { url: "https://subs/auto".to_string(), auto_generated: true },
            SubtitleTrack { url: "https://subs/manual".to_string(), auto_generated: false },
        ],
    });
    world.subtitles = Some("<p t=\"0\">spoken words</p>".to_string());
    world.reply = Some(Summary { title: "Video".to_string(), summary: "About it".to_string() });
    let link = "https://www.youtube.com/watch?v=xyz";
    assert_eq!(world.run(entry(link)), EntryOutcome::Stored);
    assert_eq!(
        world.fetches,
        vec![link.to_string(), "video:xyz".to_string(), "https://subs/manual".to_string()]
    );
    let a = &world.articles[&article_key(link)];
    assert_eq!(a.image, "thumb.jpg");
    assert_eq!(a.title, "Video");
    assert_eq!(a.summary, "About it");
}

#[test]
fn failed_write_is_reported_as_lost() {
    let (task, _) = EntryTask::start(SOURCE, entry("a"), Limits::standard());
    let (task, _) = task.advance(EntryEvent::Stored(Some(false)));
    let (task, action) = task.advance(EntryEvent::Page(None));
    assert!(matches!(action, EntryAction::StoreArticle { .. }));
    let (task, action) = task.advance(EntryEvent::Written(false));
    assert!(task.is_done());
    assert!(matches!(action, EntryAction::Finish(EntryOutcome::WriteLost)));
}

#[test]
fn event_that_is_not_awaited_ends_the_task() {
    let (task, _) = EntryTask::start(SOURCE, entry("a"), Limits::standard());
    let (task, action) = task.advance(EntryEvent::Written(true));
    assert!(task.is_done());
    assert!(matches!(action, EntryAction::Finish(EntryOutcome::OutOfOrder)));
    let (_, action) = task.advance(EntryEvent::Stored(Some(false)));
    assert!(matches!(action, EntryAction::Finish(EntryOutcome::OutOfOrder)));
}
