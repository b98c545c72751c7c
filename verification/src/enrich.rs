//! The enrichment of one entry, as a task that is driven from outside.
//!
//! The task states one action at a time: look a key up, fetch a page, ask
//! the completion service, write a record. The caller carries the action
//! out and reports what came of it as an event; the task answers with the
//! next action. Each entry has a task of its own, so that what fails for
//! one entry touches no other. The dedup check comes before any fetch, and
//! the write of the article comes last.

use vstd::prelude::*;
use crate::article::{summary_view, Article, ArticleView, Summary, SummaryView};
use crate::feed::{FeedEntry, FeedEntryView};
use crate::ingest::{
    article_from, compose_article, compose_unfetched, composed, dedup_gate, ingested, unfetched,
    Admitted, Found,
};
use crate::keys::{article_key, article_key_of, summary_key, summary_key_of};
use crate::scrape::{
    best_subtitles, classify_url, page_data, preferred_track, scrape_video, scrape_website,
    strategy_of, video_data, Strategy, StrategyView, SubtitleTrack, WebpageData, WebpageDataView,
};
use crate::summary::{
    conclude_summary, concluded, planned, summarise_article, summary_hash, summary_hash_of,
    CompletionRequest, CompletionRequestView, Limits, SummaryStep, SummaryStepView,
};

verus! {

/// What the video platform says of a video.
#[derive(Debug, Clone)]
pub struct VideoInfo {
    pub thumbnail_url: String,
    pub subtitles: Vec<SubtitleTrack>,
}

/// What the caller reports back.
#[derive(Debug, Clone)]
pub enum EntryEvent {
    /// Whether the store holds the key; `None` where it could not answer.
    Stored(Option<bool>),
    /// The text of the fetched page; `None` where the fetch failed.
    Page(Option<String>),
    /// The video's metadata; `None` where the platform gave none.
    Video(Option<VideoInfo>),
    /// The subtitle document; `None` where the fetch failed.
    Subtitles(Option<String>),
    /// What the summary cache holds under the key.
    Cached(Option<Summary>),
    /// The reply of the completion service, parsed as a title and a
    /// summary; `None` where there was none or it did not parse.
    Reply(Option<Summary>),
    /// A write has returned; `true` where it succeeded.
    Written(bool),
}

/// The mathematical value of an `EntryEvent`.
pub enum EntryEventView {
    Stored(Option<bool>),
    Page(Option<Seq<char>>),
    Video(Option<(Seq<char>, Seq<SubtitleTrack>)>),
    Subtitles(Option<Seq<char>>),
    Cached(Option<SummaryView>),
    Reply(Option<SummaryView>),
    Written(bool),
}

impl View for EntryEvent {
    type V = EntryEventView;

    open spec fn view(&self) -> EntryEventView {
        match self {
            EntryEvent::Stored(present) => EntryEventView::Stored(*present),
            EntryEvent::Page(body) => EntryEventView::Page(body.deep_view()),
            EntryEvent::Video(info) => EntryEventView::Video(
                match info {
                    Some(v) => Some((v.thumbnail_url@, v.subtitles@)),
                    None => None,
                },
            ),
            EntryEvent::Subtitles(doc) => EntryEventView::Subtitles(doc.deep_view()),
            EntryEvent::Cached(summary) => EntryEventView::Cached(summary_view(*summary)),
            EntryEvent::Reply(summary) => EntryEventView::Reply(summary_view(*summary)),
            EntryEvent::Written(ok) => EntryEventView::Written(*ok),
        }
    }
}

/// How a task ended.
#[derive(Debug, Clone, Copy, PartialEq, Eq, Structural)]
pub enum EntryOutcome {
    /// The store already held the entry's link: nothing was done.
    AlreadyStored,
    /// The store could not say whether it holds the link: nothing was done.
    StoreUnavailable,
    /// The article was written.
    Stored,
    /// The write of the article failed: the entry is met again on the next
    /// pull.
    WriteLost,
    /// An event was reported that the task was not waiting for.
    OutOfOrder,
}

/// What the caller is to do next.
#[derive(Debug, Clone)]
pub enum EntryAction {
    /// Ask the store whether it holds `key`; report `Stored`.
    CheckStore { key: String },
    /// Fetch the page at `url`; report `Page`.
    FetchPage { url: String },
    /// Ask the video platform for the video; report `Video`.
    FetchVideo { video_id: String },
    /// Fetch the subtitle document at `url`; report `Subtitles`.
    FetchSubtitles { url: String },
    /// Read the summary cache at `key`; report `Cached`.
    LookupSummary { key: String },
    /// Submit the request to the completion service; report `Reply`.
    Complete { request: CompletionRequest },
    /// Write the summary to the cache under `key`; report `Written`.
    StoreSummary { key: String, summary: Summary },
    /// Write the article to the store under `key`; report `Written`.
    StoreArticle { key: String, article: Article },
    /// The task is over.
    Finish(EntryOutcome),
}

/// The mathematical value of an `EntryAction`.
pub enum EntryActionView {
    CheckStore { key: Seq<char> },
    FetchPage { url: Seq<char> },
    FetchVideo { video_id: Seq<char> },
    FetchSubtitles { url: Seq<char> },
    LookupSummary { key: Seq<char> },
    Complete { request: CompletionRequestView },
    StoreSummary { key: Seq<char>, summary: SummaryView },
    StoreArticle { key: Seq<char>, article: ArticleView },
    Finish(EntryOutcome),
}

impl View for EntryAction {
    type V = EntryActionView;

    open spec fn view(&self) -> EntryActionView {
        match self {
            EntryAction::CheckStore { key } => EntryActionView::CheckStore { key: key@ },
            EntryAction::FetchPage { url } => EntryActionView::FetchPage { url: url@ },
            EntryAction::FetchVideo { video_id } => EntryActionView::FetchVideo {
                video_id: video_id@,
            },
            EntryAction::FetchSubtitles { url } => EntryActionView::FetchSubtitles { url: url@ },
            EntryAction::LookupSummary { key } => EntryActionView::LookupSummary { key: key@ },
            EntryAction::Complete { request } => EntryActionView::Complete { request: request@ },
            EntryAction::StoreSummary { key, summary } => EntryActionView::StoreSummary {
                key: key@,
                summary: summary@,
            },
            EntryAction::StoreArticle { key, article } => EntryActionView::StoreArticle {
                key: key@,
                article: article@,
            },
            EntryAction::Finish(outcome) => EntryActionView::Finish(*outcome),
        }
    }
}

/// Where a task stands: what it waits for, and what it has gathered.
pub enum EntryStateView {
    /// Waits for `Stored`.
    Gate { entry: FeedEntryView },
    /// Waits for `Page`.
    Page { entry: FeedEntryView },
    /// Waits for `Video`.
    Video { entry: FeedEntryView, page: WebpageDataView },
    /// Waits for `Subtitles`.
    Subtitles { entry: FeedEntryView, page: WebpageDataView, thumbnail: Seq<char> },
    /// Waits for `Cached`.
    Cache { entry: FeedEntryView, page: WebpageDataView, content: Seq<char> },
    /// Waits for `Reply`.
    Reply { entry: FeedEntryView, page: WebpageDataView, key: Seq<char> },
    /// Waits for `Written`, of the summary.
    SummaryWrite { entry: FeedEntryView, page: WebpageDataView, summary: SummaryView },
    /// Waits for `Written`, of the article.
    ArticleWrite,
    /// Over.
    Done,
}

enum Stage {
    Gate { entry: FeedEntry },
    Page { entry: Admitted },
    Video { entry: Admitted, page: WebpageData },
    Subtitles { entry: Admitted, page: WebpageData, thumbnail: String },
    Cache { entry: Admitted, page: WebpageData, content: String },
    Reply { entry: Admitted, page: WebpageData, key: String },
    SummaryWrite { entry: Admitted, page: WebpageData, summary: Summary },
    ArticleWrite,
    Done,
}

/// The enrichment of one entry of the feed at `source`.
pub struct EntryTask {
    source: String,
    limits: Limits,
    stage: Stage,
}

/// The mathematical value of an `EntryTask`.
pub struct EntryTaskView {
    pub source: Seq<char>,
    pub limits: Limits,
    pub state: EntryStateView,
}

impl View for EntryTask {
    type V = EntryTaskView;

    closed spec fn view(&self) -> EntryTaskView {
        EntryTaskView {
            source: self.source@,
            limits: self.limits,
            state: match self.stage {
                Stage::Gate { entry } => EntryStateView::Gate { entry: entry@ },
                Stage::Page { entry } => EntryStateView::Page { entry: entry@ },
                Stage::Video { entry, page } => EntryStateView::Video { entry: entry@, page: page@ },
                Stage::Subtitles { entry, page, thumbnail } => EntryStateView::Subtitles {
                    entry: entry@,
                    page: page@,
                    thumbnail: thumbnail@,
                },
                Stage::Cache { entry, page, content } => EntryStateView::Cache {
                    entry: entry@,
                    page: page@,
                    content: content@,
                },
                Stage::Reply { entry, page, key } => EntryStateView::Reply {
                    entry: entry@,
                    page: page@,
                    key: key@,
                },
                Stage::SummaryWrite { entry, page, summary } => EntryStateView::SummaryWrite {
                    entry: entry@,
                    page: page@,
                    summary: summary@,
                },
                Stage::ArticleWrite => EntryStateView::ArticleWrite,
                Stage::Done => EntryStateView::Done,
            },
        }
    }
}

/// A step of a task: the state it moves to and the action it asks for.
pub struct EntryStep {
    pub state: EntryStateView,
    pub action: EntryActionView,
}

/// The step that ends a task.
pub open spec fn finished(outcome: EntryOutcome) -> EntryStep {
    EntryStep { state: EntryStateView::Done, action: EntryActionView::Finish(outcome) }
}

/// The step that writes the article composed from what was gathered.
pub open spec fn writing(
    source: Seq<char>,
    entry: FeedEntryView,
    page: WebpageDataView,
    summary: Option<SummaryView>,
) -> EntryStep {
    EntryStep {
        state: EntryStateView::ArticleWrite,
        action: EntryActionView::StoreArticle {
            key: article_key_of(entry.link),
            article: composed(source, entry, page, summary),
        },
    }
}

/// The step after scraping: content goes to the summary cache; without
/// content the article is written with what the feed supplied.
pub open spec fn after_scrape(
    source: Seq<char>,
    entry: FeedEntryView,
    page: WebpageDataView,
) -> EntryStep {
    match page.main_content {
        Some(content) => EntryStep {
            state: EntryStateView::Cache { entry, page, content },
            action: EntryActionView::LookupSummary {
                key: summary_key_of(summary_hash_of(entry.title, content)),
            },
        },
        None => writing(source, entry, page, None),
    }
}

/// The first step of a task: ask the store for the entry's key.
pub open spec fn first_step(entry: FeedEntryView) -> EntryStep {
    EntryStep {
        state: EntryStateView::Gate { entry },
        action: EntryActionView::CheckStore { key: article_key_of(entry.link) },
    }
}

/// The step that a task takes on an event. An event that the task does not
/// wait for ends it.
pub open spec fn entry_step(task: EntryTaskView, event: EntryEventView) -> EntryStep {
    let source = task.source;
    match (task.state, event) {
        (EntryStateView::Gate { entry }, EntryEventView::Stored(present)) => match present {
            Some(false) => EntryStep {
                state: EntryStateView::Page { entry },
                action: EntryActionView::FetchPage { url: entry.link },
            },
            Some(true) => finished(EntryOutcome::AlreadyStored),
            None => finished(EntryOutcome::StoreUnavailable),
        },
        (EntryStateView::Page { entry }, EntryEventView::Page(body)) => match body {
            None => EntryStep {
                state: EntryStateView::ArticleWrite,
                action: EntryActionView::StoreArticle {
                    key: article_key_of(entry.link),
                    article: unfetched(source, entry),
                },
            },
            Some(html) => match strategy_of(entry.link) {
                StrategyView::GenericPage => after_scrape(
                    source,
                    entry,
                    page_data(html, entry.link),
                ),
                StrategyView::VideoPlatform { video_id } => EntryStep {
                    state: EntryStateView::Video { entry, page: page_data(html, entry.link) },
                    action: EntryActionView::FetchVideo { video_id },
                },
            },
        },
        (EntryStateView::Video { entry, page }, EntryEventView::Video(info)) => match info {
            None => after_scrape(source, entry, page),
            Some((thumbnail, tracks)) => match preferred_track(tracks) {
                Some(i) => EntryStep {
                    state: EntryStateView::Subtitles { entry, page, thumbnail },
                    action: EntryActionView::FetchSubtitles { url: tracks[i].url@ },
                },
                None => after_scrape(source, entry, video_data(page, thumbnail, None)),
            },
        },
        (
            EntryStateView::Subtitles { entry, page, thumbnail },
            EntryEventView::Subtitles(doc),
        ) => after_scrape(source, entry, video_data(page, thumbnail, doc)),
        (
            EntryStateView::Cache { entry, page, content },
            EntryEventView::Cached(cached),
        ) => match planned(entry.title, content, cached, task.limits) {
            SummaryStepView::Cached(summary) => writing(source, entry, page, Some(summary)),
            SummaryStepView::TooLarge => writing(source, entry, page, None),
            SummaryStepView::Request(request) => EntryStep {
                state: EntryStateView::Reply {
                    entry,
                    page,
                    key: summary_key_of(summary_hash_of(entry.title, content)),
                },
                action: EntryActionView::Complete { request },
            },
        },
        (EntryStateView::Reply { entry, page, key }, EntryEventView::Reply(reply)) => match concluded(
            reply,
        ) {
            Ok(summary) => EntryStep {
                state: EntryStateView::SummaryWrite { entry, page, summary },
                action: EntryActionView::StoreSummary { key, summary },
            },
            Err(_) => writing(source, entry, page, None),
        },
        (
            EntryStateView::SummaryWrite { entry, page, summary },
            EntryEventView::Written(_),
        ) => writing(source, entry, page, Some(summary)),
        (EntryStateView::ArticleWrite, EntryEventView::Written(ok)) => if ok {
            finished(EntryOutcome::Stored)
        } else {
            finished(EntryOutcome::WriteLost)
        },
        _ => finished(EntryOutcome::OutOfOrder),
    }
}

fn copy_of(summary: &Summary) -> (copy: Summary)
    ensures
        copy@ == summary@,
{
    Summary { title: summary.title.clone(), summary: summary.summary.clone() }
}

impl EntryTask {
    /// Whether the task is over.
    pub fn is_done(&self) -> (done: bool)
        ensures
            done == (self@.state is Done),
    {
        match self.stage {
            Stage::Done => true,
            _ => false,
        }
    }

    /// Begins the task for one entry of the feed at `source`.
    pub fn start(source: &str, entry: FeedEntry, limits: Limits) -> (r: (EntryTask, EntryAction))
        ensures
            r.0@.source == source@,
            r.0@.limits == limits,
            r.0@.state == first_step(entry@).state,
            r.1@ == first_step(entry@).action,
    {
        let key = article_key(entry.link.as_str());
        let task = EntryTask { source: source.to_owned(), limits, stage: Stage::Gate { entry } };
        (task, EntryAction::CheckStore { key })
    }

    fn write(source: String, limits: Limits, entry: Admitted, page: WebpageData, summary: Option<
        Summary,
    >) -> (r: (EntryTask, EntryAction))
        ensures
            r.0@.source == source@,
            r.0@.limits == limits,
            r.0@.state == writing(source@, entry@, page@, summary_view(summary)).state,
            r.1@ == writing(source@, entry@, page@, summary_view(summary)).action,
    {
        let write = compose_article(entry, source.as_str(), page, summary);
        let task = EntryTask { source, limits, stage: Stage::ArticleWrite };
        (task, EntryAction::StoreArticle { key: write.key, article: write.article })
    }

    fn scraped(source: String, limits: Limits, entry: Admitted, page: WebpageData) -> (r: (
        EntryTask,
        EntryAction,
    ))
        ensures
            r.0@.source == source@,
            r.0@.limits == limits,
            r.0@.state == after_scrape(source@, entry@, page@).state,
            r.1@ == after_scrape(source@, entry@, page@).action,
    {
        let content = match &page.main_content {
            Some(content) => Some(content.clone()),
            None => None,
        };
        match content {
            Some(content) => {
                let hash = summary_hash(entry.entry().title.as_str(), content.as_str());
                let key = summary_key(hash);
                let task = EntryTask { source, limits, stage: Stage::Cache { entry, page, content } };
                (task, EntryAction::LookupSummary { key })
            },
            None => EntryTask::write(source, limits, entry, page, None),
        }
    }

    /// Takes the report of what came of the last action, and states the
    /// next one.
    pub fn advance(self, event: EntryEvent) -> (r: (EntryTask, EntryAction))
        ensures
            r.0@.source == self@.source,
            r.0@.limits == self@.limits,
            r.0@.state == entry_step(self@, event@).state,
            r.1@ == entry_step(self@, event@).action,
    {
        let source = self.source;
        let limits = self.limits;
        match self.stage {
            Stage::Gate { entry } => match event {
                EntryEvent::Stored(present) => match dedup_gate(entry, present) {
                    Some(admitted) => {
                        let url = admitted.entry().link.clone();
                        let task = EntryTask { source, limits, stage: Stage::Page { entry: admitted } };
                        (task, EntryAction::FetchPage { url })
                    },
                    None => {
                        let outcome = match present {
                            Some(_) => EntryOutcome::AlreadyStored,
                            None => EntryOutcome::StoreUnavailable,
                        };
                        (EntryTask { source, limits, stage: Stage::Done }, EntryAction::Finish(outcome))
                    },
                },
                _ => (
                    EntryTask { source, limits, stage: Stage::Done },
                    EntryAction::Finish(EntryOutcome::OutOfOrder),
                ),
            },
            Stage::Page { entry } => match event {
                EntryEvent::Page(None) => {
                    let write = compose_unfetched(entry, source.as_str());
                    let task = EntryTask { source, limits, stage: Stage::ArticleWrite };
                    (task, EntryAction::StoreArticle { key: write.key, article: write.article })
                },
                EntryEvent::Page(Some(html)) => {
                    let page = scrape_website(html.as_str(), entry.entry().link.as_str());
                    match classify_url(entry.entry().link.as_str()) {
                        Strategy::GenericPage => EntryTask::scraped(source, limits, entry, page),
                        Strategy::VideoPlatform { video_id } => {
                            let task = EntryTask { source, limits, stage: Stage::Video { entry, page } };
                            (task, EntryAction::FetchVideo { video_id })
                        },
                    }
                },
                _ => (
                    EntryTask { source, limits, stage: Stage::Done },
                    EntryAction::Finish(EntryOutcome::OutOfOrder),
                ),
            },
            Stage::Video { entry, page } => match event {
                EntryEvent::Video(None) => EntryTask::scraped(source, limits, entry, page),
                EntryEvent::Video(Some(info)) => match best_subtitles(&info.subtitles) {
                    Some(i) => {
                        let url = info.subtitles[i].url.clone();
                        let task = EntryTask {
                            source,
                            limits,
                            stage: Stage::Subtitles { entry, page, thumbnail: info.thumbnail_url },
                        };
                        (task, EntryAction::FetchSubtitles { url })
                    },
                    None => {
                        let page = scrape_video(page, info.thumbnail_url, None);
                        EntryTask::scraped(source, limits, entry, page)
                    },
                },
                _ => (
                    EntryTask { source, limits, stage: Stage::Done },
                    EntryAction::Finish(EntryOutcome::OutOfOrder),
                ),
            },
            Stage::Subtitles { entry, page, thumbnail } => match event {
                EntryEvent::Subtitles(doc) => {
                    let page = match &doc {
                        Some(text) => scrape_video(page, thumbnail, Some(text.as_str())),
                        None => scrape_video(page, thumbnail, None),
                    };
                    EntryTask::scraped(source, limits, entry, page)
                },
                _ => (
                    EntryTask { source, limits, stage: Stage::Done },
                    EntryAction::Finish(EntryOutcome::OutOfOrder),
                ),
            },
            Stage::Cache { entry, page, content } => match event {
                EntryEvent::Cached(cached) => {
                    let title = entry.entry().title.clone();
                    match summarise_article(title.as_str(), content.as_str(), cached, &limits) {
                        SummaryStep::Cached(summary) => EntryTask::write(
                            source,
                            limits,
                            entry,
                            page,
                            Some(summary),
                        ),
                        SummaryStep::TooLarge => EntryTask::write(source, limits, entry, page, None),
                        SummaryStep::Request(request) => {
                            let key = summary_key(summary_hash(title.as_str(), content.as_str()));
                            let task = EntryTask {
                                source,
                                limits,
                                stage: Stage::Reply { entry, page, key },
                            };
                            (task, EntryAction::Complete { request })
                        },
                    }
                },
                _ => (
                    EntryTask { source, limits, stage: Stage::Done },
                    EntryAction::Finish(EntryOutcome::OutOfOrder),
                ),
            },
            Stage::Reply { entry, page, key } => match event {
                EntryEvent::Reply(reply) => match conclude_summary(reply) {
                    Ok(summary) => {
                        let stored = copy_of(&summary);
                        let task = EntryTask {
                            source,
                            limits,
                            stage: Stage::SummaryWrite { entry, page, summary },
                        };
                        (task, EntryAction::StoreSummary { key, summary: stored })
                    },
                    Err(_) => EntryTask::write(source, limits, entry, page, None),
                },
                _ => (
                    EntryTask { source, limits, stage: Stage::Done },
                    EntryAction::Finish(EntryOutcome::OutOfOrder),
                ),
            },
            Stage::SummaryWrite { entry, page, summary } => match event {
                EntryEvent::Written(_) => EntryTask::write(
                    source,
                    limits,
                    entry,
                    page,
                    Some(summary),
                ),
                _ => (
                    EntryTask { source, limits, stage: Stage::Done },
                    EntryAction::Finish(EntryOutcome::OutOfOrder),
                ),
            },
            Stage::ArticleWrite => match event {
                EntryEvent::Written(ok) => {
                    let outcome = if ok {
                        EntryOutcome::Stored
                    } else {
                        EntryOutcome::WriteLost
                    };
                    (EntryTask { source, limits, stage: Stage::Done }, EntryAction::Finish(outcome))
                },
                _ => (
                    EntryTask { source, limits, stage: Stage::Done },
                    EntryAction::Finish(EntryOutcome::OutOfOrder),
                ),
            },
            Stage::Done => (
                EntryTask { source, limits, stage: Stage::Done },
                EntryAction::Finish(EntryOutcome::OutOfOrder),
            ),
        }
    }
}

/// The entry that a state carries.
pub open spec fn entry_of(state: EntryStateView) -> Option<FeedEntryView> {
    match state {
        EntryStateView::Gate { entry } => Some(entry),
        EntryStateView::Page { entry } => Some(entry),
        EntryStateView::Video { entry, .. } => Some(entry),
        EntryStateView::Subtitles { entry, .. } => Some(entry),
        EntryStateView::Cache { entry, .. } => Some(entry),
        EntryStateView::Reply { entry, .. } => Some(entry),
        EntryStateView::SummaryWrite { entry, .. } => Some(entry),
        EntryStateView::ArticleWrite => None,
        EntryStateView::Done => None,
    }
}

/// How many events a task in the state can still take before it is over.
pub open spec fn events_left(state: EntryStateView) -> nat {
    match state {
        EntryStateView::Gate { .. } => 8,
        EntryStateView::Page { .. } => 7,
        EntryStateView::Video { .. } => 6,
        EntryStateView::Subtitles { .. } => 5,
        EntryStateView::Cache { .. } => 4,
        EntryStateView::Reply { .. } => 3,
        EntryStateView::SummaryWrite { .. } => 2,
        EntryStateView::ArticleWrite => 1,
        EntryStateView::Done => 0,
    }
}

/// Every event brings a task nearer to its end, so that a task is over
/// after at most eight events. It asks for `Finish` exactly when it is
/// over, and once over it stays so.
pub proof fn lemma_task_comes_to_an_end(task: EntryTaskView, event: EntryEventView)
    ensures
        ({
            let step = entry_step(task, event);
            &&& task.state is Done || events_left(step.state) < events_left(task.state)
            &&& step.state is Done <==> step.action is Finish
            &&& task.state is Done ==> step.state is Done
        }),
{
}

/// An entry whose link the store holds, or of which the store cannot say,
/// ends its task at once: nothing is fetched and nothing is written.
pub proof fn lemma_held_entry_is_left_alone(task: EntryTaskView, present: Option<bool>)
    requires
        task.state is Gate,
        present != Some(false),
    ensures
        entry_step(task, EntryEventView::Stored(present)).state is Done,
        entry_step(task, EntryEventView::Stored(present)).action is Finish,
{
}

/// Where the page cannot be fetched, the article is written at once, with
/// the title and the summary that the feed supplied and with an empty
/// image.
pub proof fn lemma_failed_fetch_writes_feed_values(task: EntryTaskView)
    requires
        task.state is Page,
    ensures
        ({
            let entry = task.state->Page_entry;
            let step = entry_step(task, EntryEventView::Page(None));
            &&& step.action is StoreArticle
            &&& step.action->StoreArticle_key == article_key_of(entry.link)
            &&& step.action->StoreArticle_article.link == entry.link
            &&& step.action->StoreArticle_article.title == entry.title
            &&& step.action->StoreArticle_article.summary == entry.summary
            &&& step.action->StoreArticle_article.image == Seq::<char>::empty()
            &&& step.action->StoreArticle_article.read_status == crate::article::ReadStatus::Fresh
        }),
{
}

/// Whatever is reported, a task keeps its entry until the article is
/// written, and an article is only ever written for that entry: under the
/// key of the entry's link, made for the task's source from the entry and
/// something that was found.
pub proof fn lemma_article_is_written_for_the_entry(task: EntryTaskView, event: EntryEventView)
    ensures
        ({
            let step = entry_step(task, event);
            &&& entry_of(step.state) is Some ==> entry_of(step.state) == entry_of(task.state)
            &&& step.action matches EntryActionView::StoreArticle { key, article } ==> {
                &&& entry_of(task.state) is Some
                &&& key == article_key_of(entry_of(task.state)->0.link)
                &&& exists|found: Found| #[trigger]
                    article_from(task.source, entry_of(task.state)->0, found) == article
            }
        }),
{
    let step = entry_step(task, event);
    if let EntryActionView::StoreArticle { key, article } = step.action {
        let entry = entry_of(task.state)->0;
        let source = task.source;
        match (task.state, event) {
            (EntryStateView::Page { .. }, EntryEventView::Page(body)) => {
                match body {
                    None => {
                        assert(article_from(source, entry, Found { page: None, summary: None })
                            == article);
                    },
                    Some(html) => {
                        assert(article_from(
                            source,
                            entry,
                            Found { page: Some(page_data(html, entry.link)), summary: None },
                        ) == article);
                    },
                }
            },
            (EntryStateView::Video { page, .. }, EntryEventView::Video(info)) => {
                match info {
                    None => {
                        assert(article_from(source, entry, Found { page: Some(page), summary: None })
                            == article);
                    },
                    Some((thumbnail, tracks)) => {
                        assert(article_from(
                            source,
                            entry,
                            Found { page: Some(video_data(page, thumbnail, None)), summary: None },
                        ) == article);
                    },
                }
            },
            (EntryStateView::Subtitles { page, thumbnail, .. }, EntryEventView::Subtitles(doc)) => {
                assert(article_from(
                    source,
                    entry,
                    Found { page: Some(video_data(page, thumbnail, doc)), summary: None },
                ) == article);
            },
            (EntryStateView::Cache { page, content, .. }, EntryEventView::Cached(cached)) => {
                match planned(entry.title, content, cached, task.limits) {
                    SummaryStepView::Cached(summary) => {
                        assert(article_from(
                            source,
                            entry,
                            Found { page: Some(page), summary: Some(summary) },
                        ) == article);
                    },
                    _ => {
                        assert(article_from(source, entry, Found { page: Some(page), summary: None })
                            == article);
                    },
                }
            },
            (EntryStateView::Reply { page, .. }, EntryEventView::Reply(reply)) => {
                assert(article_from(source, entry, Found { page: Some(page), summary: None })
                    == article);
            },
            (EntryStateView::SummaryWrite { page, summary, .. }, EntryEventView::Written(_)) => {
                assert(article_from(
                    source,
                    entry,
                    Found { page: Some(page), summary: Some(summary) },
                ) == article);
            },
            _ => {},
        }
    }
}

/// What a task does to the articles of a store is what `ingested` says.
/// For an entry whose key the store holds, the task ends on the store's
/// answer and the store stays as it is. For any other, the write that the
/// task asks for turns the store into `ingested` of the entry and
/// something that was found.
pub proof fn lemma_task_agrees_with_ingest(
    store: Map<Seq<char>, ArticleView>,
    task: EntryTaskView,
    event: EntryEventView,
)
    requires
        entry_of(task.state) is Some,
    ensures
        ({
            let entry = entry_of(task.state)->0;
            let held = store.contains_key(article_key_of(entry.link));
            let step = entry_step(task, event);
            &&& held ==> forall|found: Found| #[trigger]
                ingested(store, task.source, entry, found) == store
            &&& held && task.state is Gate && event == EntryEventView::Stored(Some(true))
                ==> step.state is Done
            &&& !held ==> (step.action matches EntryActionView::StoreArticle { key, article }
                ==> exists|found: Found| #[trigger]
                ingested(store, task.source, entry, found) == store.insert(key, article))
        }),
{
    let entry = entry_of(task.state)->0;
    let step = entry_step(task, event);
    lemma_article_is_written_for_the_entry(task, event);
    if !store.contains_key(article_key_of(entry.link)) {
        if let EntryActionView::StoreArticle { key, article } = step.action {
            let found = choose|found: Found| #[trigger]
                article_from(task.source, entry, found) == article;
            assert(ingested(store, task.source, entry, found) == store.insert(key, article));
        }
    }
}

/// A reply that does not parse is never written to the cache: the summary
/// that is stored is the one that the reply parsed to.
pub proof fn lemma_only_parsed_replies_are_cached(task: EntryTaskView, event: EntryEventView)
    ensures
        entry_step(task, event).action matches EntryActionView::StoreSummary { key, summary } ==> {
            &&& task.state is Reply
            &&& event == EntryEventView::Reply(Some(summary))
        },
{
}

/// A cached summary suppresses the call: where the cache holds a summary,
/// no request is submitted and the article carries that summary.
pub proof fn lemma_cached_summary_suppresses_the_call(task: EntryTaskView, cached: SummaryView)
    requires
        task.state is Cache,
    ensures
        ({
            let step = entry_step(task, EntryEventView::Cached(Some(cached)));
            &&& step.action is StoreArticle
            &&& step.action->StoreArticle_article.title == cached.title
            &&& step.action->StoreArticle_article.summary == cached.summary
        }),
{
}

} // verus!
