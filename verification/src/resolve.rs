//! The resolution of one channel, as a task that is driven from outside.
//!
//! A source whose title, icon and colour are known is stored as it is. For
//! any other the task asks in turn for the feed, the page at the feed's
//! base URL, the platform's word on a video channel and the icon, and then
//! for the write of the record. The caller carries each action out and
//! reports what came of it.

use vstd::prelude::*;
use crate::channel::{
    base_url_of, channel_base_url, channel_data, channel_id, channel_identity, get_channel_data,
    icon_color, icon_color_of, identity_of, identity_view, incomplete, page_meta, page_meta_of,
    Channel, ChannelOptional, ChannelOptionalView, ChannelView, Identity, IdentityView, PageMeta,
    PageMetaView, Resolution, VideoChannel,
};
use crate::color::Pixel;
use crate::feed::{canonical_link, ParsedFeed};
use crate::keys::{channel_key, channel_key_of};
use crate::scrape::{is_video_host, on_video_host};
use crate::text::{after_last, or_empty};

verus! {

/// Why a channel was not resolved. The source stays as it was and is
/// resolved again on the next run.
#[derive(Debug, Clone, Copy, PartialEq, Eq, Structural)]
pub enum ChannelError {
    /// The feed could not be fetched or is no feed.
    FeedUnavailable,
    /// The feed's link is no absolute URL.
    BadLink,
    /// The page at the base URL could not be fetched.
    PageUnavailable,
    /// No URL could be formed for the icon.
    NoIcon,
    /// The icon could not be fetched.
    IconUnavailable,
    /// The record could not be written.
    StoreFailed,
    /// An event was reported that the task was not waiting for.
    OutOfOrder,
}

/// What came of fetching and decoding an icon.
#[derive(Debug, Clone)]
pub enum IconReport {
    /// The icon could not be fetched.
    Unavailable,
    /// The icon was fetched, but its bytes decode to no bitmap.
    Undecodable,
    /// The pixels of the icon, row by row from the top, each row from the
    /// left.
    Bitmap(Vec<Pixel>),
}

/// The mathematical value of an `IconReport`.
pub enum IconReportView {
    Unavailable,
    Undecodable,
    Bitmap(Seq<Pixel>),
}

impl View for IconReport {
    type V = IconReportView;

    open spec fn view(&self) -> IconReportView {
        match self {
            IconReport::Unavailable => IconReportView::Unavailable,
            IconReport::Undecodable => IconReportView::Undecodable,
            IconReport::Bitmap(pixels) => IconReportView::Bitmap(pixels@),
        }
    }
}

/// What the caller reports back.
#[derive(Debug, Clone)]
pub enum ChannelEvent {
    /// The feed of the source, parsed; `None` where it could not be had.
    Feed(Option<ParsedFeed>),
    /// The text of the page at the base URL; `None` where the fetch failed.
    Page(Option<String>),
    /// What the video platform says of the channel; `None` where it gave
    /// nothing.
    Platform(Option<VideoChannel>),
    /// What came of fetching and decoding the icon.
    Icon(IconReport),
    /// The write has returned; `true` where it succeeded.
    Written(bool),
}

/// The mathematical value of a `ChannelEvent`.
pub enum ChannelEventView {
    /// The feed's canonical link and its title.
    Feed(Option<(Seq<char>, Option<Seq<char>>)>),
    Page(Option<Seq<char>>),
    Platform(Option<IdentityView>),
    Icon(IconReportView),
    Written(bool),
}

impl View for ChannelEvent {
    type V = ChannelEventView;

    open spec fn view(&self) -> ChannelEventView {
        match self {
            ChannelEvent::Feed(feed) => ChannelEventView::Feed(
                match feed {
                    Some(f) => Some((canonical_link(f.links@, f.id@), f.title.deep_view())),
                    None => None,
                },
            ),
            ChannelEvent::Page(html) => ChannelEventView::Page(html.deep_view()),
            ChannelEvent::Platform(platform) => ChannelEventView::Platform(
                match platform {
                    Some(v) => Some(IdentityView { title: v.name@, icon: v.avatar_url@ }),
                    None => None,
                },
            ),
            ChannelEvent::Icon(report) => ChannelEventView::Icon(report@),
            ChannelEvent::Written(ok) => ChannelEventView::Written(*ok),
        }
    }
}

/// What the caller is to do next.
#[derive(Debug, Clone)]
pub enum ChannelAction {
    /// Fetch the feed at `url` and read it; report `Feed`.
    FetchFeed { url: String },
    /// Fetch the page at `url`; report `Page`.
    FetchPage { url: String },
    /// Ask the video platform for the channel; report `Platform`.
    FetchPlatform { channel_id: String },
    /// Fetch the icon at `url` and decode it; report `Icon`.
    FetchIcon { url: String },
    /// Write the record to the store under `key`; report `Written`.
    Store { key: String, channel: Channel },
    /// The task is over: the source as it is now known.
    Resolved(ChannelOptional),
    /// The task is over: the source stays as it was.
    Failed(ChannelError),
}

/// The mathematical value of a `ChannelAction`.
pub enum ChannelActionView {
    FetchFeed { url: Seq<char> },
    FetchPage { url: Seq<char> },
    FetchPlatform { channel_id: Seq<char> },
    FetchIcon { url: Seq<char> },
    Store { key: Seq<char>, channel: ChannelView },
    Resolved(ChannelOptionalView),
    Failed(ChannelError),
}

impl View for ChannelAction {
    type V = ChannelActionView;

    open spec fn view(&self) -> ChannelActionView {
        match self {
            ChannelAction::FetchFeed { url } => ChannelActionView::FetchFeed { url: url@ },
            ChannelAction::FetchPage { url } => ChannelActionView::FetchPage { url: url@ },
            ChannelAction::FetchPlatform { channel_id } => ChannelActionView::FetchPlatform {
                channel_id: channel_id@,
            },
            ChannelAction::FetchIcon { url } => ChannelActionView::FetchIcon { url: url@ },
            ChannelAction::Store { key, channel } => ChannelActionView::Store {
                key: key@,
                channel: channel@,
            },
            ChannelAction::Resolved(known) => ChannelActionView::Resolved(known@),
            ChannelAction::Failed(e) => ChannelActionView::Failed(*e),
        }
    }
}

/// Where a task stands: what it waits for, and what it has gathered.
pub enum ChannelStateView {
    /// Waits for `Feed`.
    Feed,
    /// Waits for `Page`.
    Page { base: Seq<char>, feed_title: Option<Seq<char>> },
    /// Waits for `Platform`.
    Platform { base: Seq<char>, feed_title: Option<Seq<char>>, meta: PageMetaView },
    /// Waits for `Icon`.
    Icon { identity: IdentityView },
    /// Waits for `Written`.
    Write { known: ChannelOptionalView },
    /// Over.
    Done,
}

enum Stage {
    Feed,
    Page { base: String, feed_title: Option<String> },
    Platform { base: String, feed_title: Option<String>, meta: PageMeta },
    Icon { identity: Identity },
    Write { known: ChannelOptional },
    Done,
}

/// The resolution of the channel of one source.
pub struct ChannelTask {
    source: ChannelOptional,
    stage: Stage,
}

/// The mathematical value of a `ChannelTask`.
pub struct ChannelTaskView {
    pub source: ChannelOptionalView,
    pub state: ChannelStateView,
}

impl View for ChannelTask {
    type V = ChannelTaskView;

    closed spec fn view(&self) -> ChannelTaskView {
        ChannelTaskView {
            source: self.source@,
            state: match self.stage {
                Stage::Feed => ChannelStateView::Feed,
                Stage::Page { base, feed_title } => ChannelStateView::Page {
                    base: base@,
                    feed_title: feed_title.deep_view(),
                },
                Stage::Platform { base, feed_title, meta } => ChannelStateView::Platform {
                    base: base@,
                    feed_title: feed_title.deep_view(),
                    meta: meta@,
                },
                Stage::Icon { identity } => ChannelStateView::Icon { identity: identity@ },
                Stage::Write { known } => ChannelStateView::Write { known: known@ },
                Stage::Done => ChannelStateView::Done,
            },
        }
    }
}

/// A step of a task: the state it moves to and the action it asks for.
pub struct ChannelStep {
    pub state: ChannelStateView,
    pub action: ChannelActionView,
}

/// The step that gives a resolution up.
pub open spec fn failed(error: ChannelError) -> ChannelStep {
    ChannelStep { state: ChannelStateView::Done, action: ChannelActionView::Failed(error) }
}

/// The step that writes the record of a source, as it is or as resolved.
pub open spec fn persisting(
    source: ChannelOptionalView,
    resolution: Option<Resolution>,
) -> ChannelStep {
    ChannelStep {
        state: ChannelStateView::Write { known: channel_data(source, resolution).1 },
        action: ChannelActionView::Store {
            key: channel_key_of(source.rss_url),
            channel: channel_data(source, resolution).0,
        },
    }
}

/// The step that writes the record of a source with the resolved title,
/// icon and colour.
pub open spec fn persisting_resolved(
    source: ChannelOptionalView,
    identity: IdentityView,
    color: Seq<char>,
) -> ChannelStep {
    ChannelStep {
        state: ChannelStateView::Write {
            known: ChannelOptionalView {
                category: Some(or_empty(source.category)),
                rss_url: source.rss_url,
                title: Some(identity.title),
                icon: Some(identity.icon),
                dominant_color: Some(color),
            },
        },
        action: ChannelActionView::Store {
            key: channel_key_of(source.rss_url),
            channel: ChannelView {
                category: or_empty(source.category),
                rss_url: source.rss_url,
                title: identity.title,
                icon: identity.icon,
                dominant_color: color,
            },
        },
    }
}

/// The step once title and icon are settled: a configured colour stands;
/// else the icon is fetched for its colour. Without an icon the
/// resolution is given up.
pub open spec fn settled(source: ChannelOptionalView, identity: Option<IdentityView>) -> ChannelStep {
    match identity {
        None => failed(ChannelError::NoIcon),
        Some(identity) => match source.dominant_color {
            Some(color) => persisting_resolved(source, identity, color),
            None => ChannelStep {
                state: ChannelStateView::Icon { identity },
                action: ChannelActionView::FetchIcon { url: identity.icon },
            },
        },
    }
}

/// The first step for a source: one that is complete is stored as it is;
/// for any other the feed is fetched.
pub open spec fn first_step(source: ChannelOptionalView) -> ChannelStep {
    if incomplete(source) {
        ChannelStep {
            state: ChannelStateView::Feed,
            action: ChannelActionView::FetchFeed { url: source.rss_url },
        }
    } else {
        persisting(source, None)
    }
}

/// The step that a task takes on an event. An event that the task does not
/// wait for ends it.
pub open spec fn channel_step(task: ChannelTaskView, event: ChannelEventView) -> ChannelStep {
    let source = task.source;
    match (task.state, event) {
        (ChannelStateView::Feed, ChannelEventView::Feed(feed)) => match feed {
            None => failed(ChannelError::FeedUnavailable),
            Some((link, feed_title)) => match base_url_of(link) {
                None => failed(ChannelError::BadLink),
                Some(base) => ChannelStep {
                    state: ChannelStateView::Page { base, feed_title },
                    action: ChannelActionView::FetchPage { url: base },
                },
            },
        },
        (ChannelStateView::Page { base, feed_title }, ChannelEventView::Page(html)) => match html {
            None => failed(ChannelError::PageUnavailable),
            Some(html) => if on_video_host(base) {
                ChannelStep {
                    state: ChannelStateView::Platform {
                        base,
                        feed_title,
                        meta: page_meta_of(html),
                    },
                    action: ChannelActionView::FetchPlatform {
                        channel_id: after_last(source.rss_url, '='),
                    },
                }
            } else {
                settled(source, identity_of(source, base, feed_title, page_meta_of(html), None))
            },
        },
        (
            ChannelStateView::Platform { base, feed_title, meta },
            ChannelEventView::Platform(platform),
        ) => settled(source, identity_of(source, base, feed_title, meta, platform)),
        (ChannelStateView::Icon { identity }, ChannelEventView::Icon(report)) => match report {
            IconReportView::Unavailable => failed(ChannelError::IconUnavailable),
            IconReportView::Undecodable => persisting_resolved(
                source,
                identity,
                icon_color_of(None),
            ),
            IconReportView::Bitmap(pixels) => persisting_resolved(
                source,
                identity,
                icon_color_of(Some(pixels)),
            ),
        },
        (ChannelStateView::Write { known }, ChannelEventView::Written(ok)) => if ok {
            ChannelStep { state: ChannelStateView::Done, action: ChannelActionView::Resolved(known) }
        } else {
            failed(ChannelError::StoreFailed)
        },
        _ => failed(ChannelError::OutOfOrder),
    }
}

impl ChannelTask {
    fn fail(source: ChannelOptional, error: ChannelError) -> (r: (ChannelTask, ChannelAction))
        ensures
            r.0@.source == source@,
            r.0@.state == failed(error).state,
            r.1@ == failed(error).action,
    {
        (ChannelTask { source, stage: Stage::Done }, ChannelAction::Failed(error))
    }

    fn persist(source: ChannelOptional, identity: Identity, color: String) -> (r: (
        ChannelTask,
        ChannelAction,
    ))
        ensures
            r.0@.source == source@,
            r.0@.state == persisting_resolved(source@, identity@, color@).state,
            r.1@ == persisting_resolved(source@, identity@, color@).action,
    {
        let resolution = Resolution {
            title: identity.title,
            icon: identity.icon,
            dominant_color: color,
        };
        let key = channel_key(source.rss_url.as_str());
        let (channel, known) = get_channel_data(&source, Some(resolution));
        (ChannelTask { source, stage: Stage::Write { known } }, ChannelAction::Store { key, channel })
    }

    fn settle(source: ChannelOptional, identity: Option<Identity>) -> (r: (
        ChannelTask,
        ChannelAction,
    ))
        ensures
            r.0@.source == source@,
            r.0@.state == settled(source@, identity_view(identity)).state,
            r.1@ == settled(source@, identity_view(identity)).action,
    {
        match identity {
            None => ChannelTask::fail(source, ChannelError::NoIcon),
            Some(identity) => {
                let configured = match &source.dominant_color {
                    Some(color) => Some(color.clone()),
                    None => None,
                };
                match configured {
                    Some(color) => ChannelTask::persist(source, identity, color),
                    None => {
                        let url = identity.icon.clone();
                        (
                            ChannelTask { source, stage: Stage::Icon { identity } },
                            ChannelAction::FetchIcon { url },
                        )
                    },
                }
            },
        }
    }

    /// Whether the task is over.
    pub fn is_done(&self) -> (done: bool)
        ensures
            done == (self@.state is Done),
    {
        match self.stage {
            Stage::Done => true,
            _ => false,
        }
    }

    /// Begins the task for one source.
    pub fn start(source: ChannelOptional) -> (r: (ChannelTask, ChannelAction))
        ensures
            r.0@.source == source@,
            r.0@.state == first_step(source@).state,
            r.1@ == first_step(source@).action,
    {
        if source.needs_fresh() {
            let url = source.rss_url.clone();
            (ChannelTask { source, stage: Stage::Feed }, ChannelAction::FetchFeed { url })
        } else {
            let key = channel_key(source.rss_url.as_str());
            let (channel, known) = get_channel_data(&source, None);
            (
                ChannelTask { source, stage: Stage::Write { known } },
                ChannelAction::Store { key, channel },
            )
        }
    }

    /// Takes the report of what came of the last action, and states the
    /// next one.
    pub fn advance(self, event: ChannelEvent) -> (r: (ChannelTask, ChannelAction))
        ensures
            r.0@.source == self@.source,
            r.0@.state == channel_step(self@, event@).state,
            r.1@ == channel_step(self@, event@).action,
    {
        let source = self.source;
        match self.stage {
            Stage::Feed => match event {
                ChannelEvent::Feed(None) => ChannelTask::fail(source, ChannelError::FeedUnavailable),
                ChannelEvent::Feed(Some(feed)) => match channel_base_url(&feed) {
                    None => ChannelTask::fail(source, ChannelError::BadLink),
                    Some(base) => {
                        let url = base.clone();
                        (
                            ChannelTask {
                                source,
                                stage: Stage::Page { base, feed_title: feed.title },
                            },
                            ChannelAction::FetchPage { url },
                        )
                    },
                },
                _ => ChannelTask::fail(source, ChannelError::OutOfOrder),
            },
            Stage::Page { base, feed_title } => match event {
                ChannelEvent::Page(None) => ChannelTask::fail(source, ChannelError::PageUnavailable),
                ChannelEvent::Page(Some(html)) => {
                    let meta = page_meta(html.as_str());
                    if is_video_host(base.as_str()) {
                        let id = channel_id(source.rss_url.as_str());
                        (
                            ChannelTask { source, stage: Stage::Platform { base, feed_title, meta } },
                            ChannelAction::FetchPlatform { channel_id: id },
                        )
                    } else {
                        let identity = channel_identity(
                            &source,
                            base.as_str(),
                            &feed_title,
                            &meta,
                            None,
                        );
                        ChannelTask::settle(source, identity)
                    }
                },
                _ => ChannelTask::fail(source, ChannelError::OutOfOrder),
            },
            Stage::Platform { base, feed_title, meta } => match event {
                ChannelEvent::Platform(platform) => {
                    let identity = channel_identity(
                        &source,
                        base.as_str(),
                        &feed_title,
                        &meta,
                        platform,
                    );
                    ChannelTask::settle(source, identity)
                },
                _ => ChannelTask::fail(source, ChannelError::OutOfOrder),
            },
            Stage::Icon { identity } => match event {
                ChannelEvent::Icon(IconReport::Unavailable) => ChannelTask::fail(
                    source,
                    ChannelError::IconUnavailable,
                ),
                ChannelEvent::Icon(IconReport::Undecodable) => {
                    let color = icon_color(None);
                    ChannelTask::persist(source, identity, color)
                },
                ChannelEvent::Icon(IconReport::Bitmap(pixels)) => {
                    let color = icon_color(Some(pixels.as_slice()));
                    ChannelTask::persist(source, identity, color)
                },
                _ => ChannelTask::fail(source, ChannelError::OutOfOrder),
            },
            Stage::Write { known } => match event {
                ChannelEvent::Written(true) => (
                    ChannelTask { source, stage: Stage::Done },
                    ChannelAction::Resolved(known),
                ),
                ChannelEvent::Written(false) => ChannelTask::fail(source, ChannelError::StoreFailed),
                _ => ChannelTask::fail(source, ChannelError::OutOfOrder),
            },
            Stage::Done => ChannelTask::fail(source, ChannelError::OutOfOrder),
        }
    }
}

/// How many events a task in the state can still take before it is over.
pub open spec fn events_left(state: ChannelStateView) -> nat {
    match state {
        ChannelStateView::Feed => 5,
        ChannelStateView::Page { .. } => 4,
        ChannelStateView::Platform { .. } => 3,
        ChannelStateView::Icon { .. } => 2,
        ChannelStateView::Write { .. } => 1,
        ChannelStateView::Done => 0,
    }
}

/// Every event brings a task nearer to its end, so that a task is over
/// after at most five events. It hands its result over exactly when it is
/// over, and once over it stays so.
pub proof fn lemma_task_comes_to_an_end(task: ChannelTaskView, event: ChannelEventView)
    ensures
        ({
            let step = channel_step(task, event);
            &&& task.state is Done || events_left(step.state) < events_left(task.state)
            &&& step.state is Done <==> (step.action is Resolved || step.action is Failed)
            &&& task.state is Done ==> step.state is Done
        }),
{
}

/// A source whose title, icon and colour are known is stored at once, with
/// exactly these values: nothing is fetched.
pub proof fn lemma_complete_source_is_stored_as_it_is(source: ChannelOptionalView)
    requires
        !incomplete(source),
    ensures
        first_step(source).action matches ChannelActionView::Store { key, channel } && {
            &&& key == channel_key_of(source.rss_url)
            &&& channel.rss_url == source.rss_url
            &&& channel.title == source.title->0
            &&& channel.icon == source.icon->0
            &&& channel.dominant_color == source.dominant_color->0
        },
        first_step(source).state == (ChannelStateView::Write { known: source }),
{
}

/// Whatever is reported, a record is only ever written under the key of
/// the task's own source, and for that source.
pub proof fn lemma_record_is_written_for_the_source(task: ChannelTaskView, event: ChannelEventView)
    ensures
        channel_step(task, event).action matches ChannelActionView::Store { key, channel } ==> {
            &&& key == channel_key_of(task.source.rss_url)
            &&& channel.rss_url == task.source.rss_url
        },
{
}

/// A resolution that runs to its end hands back a source that is complete:
/// it is not resolved again on the next run.
pub proof fn lemma_resolved_source_needs_no_fresh_data(
    task: ChannelTaskView,
    event: ChannelEventView,
)
    requires
        task.state matches ChannelStateView::Write { known } ==> !incomplete(known),
    ensures
        channel_step(task, event).state matches ChannelStateView::Write { known } ==> !incomplete(
            known,
        ),
        channel_step(task, event).action matches ChannelActionView::Resolved(known) ==> !incomplete(
            known,
        ),
{
}

} // verus!
