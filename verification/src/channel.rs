//! Channels: the display record of one feed source, and how it is resolved.
//!
//! A source whose title, icon and colour are known is stored as it is. For
//! any other the caller fetches and reads the feed, the page at the feed's
//! base URL and the icon, and hands each finding to the function for that
//! stage.

use vstd::prelude::*;
use crate::color::{
    default_color, default_color_text, dominant_color_or_default, dominant_or_default, Pixel,
};
use crate::fallback::{first_available, tiered, value_of, Tiered, TieredView};
use crate::feed::{canonical_link, first_link_or_id, ParsedFeed};
use crate::outside::{
    first_attribute, first_inner_html, join_url, joined_url, parse_origin, select_first_attribute,
    select_first_inner_html, url_origin_parts,
};
use crate::scrape::{is_video_host, on_video_host};
use crate::text::{after_last, chars_of, or_empty, suffix_after_last, text_or_empty};

verus! {

/// The display record of one feed source.
#[derive(Debug, Clone)]
pub struct Channel {
    /// The label carried from the configuration; empty where it has none.
    pub category: String,
    /// The feed's source: the channel's identity.
    pub rss_url: String,
    pub title: String,
    /// The URL of the channel's icon.
    pub icon: String,
    /// The dominant colour of the icon as `#rrggbb`.
    pub dominant_color: String,
}

/// The mathematical value of a `Channel`.
pub struct ChannelView {
    pub category: Seq<char>,
    pub rss_url: Seq<char>,
    pub title: Seq<char>,
    pub icon: Seq<char>,
    pub dominant_color: Seq<char>,
}

impl View for Channel {
    type V = ChannelView;

    open spec fn view(&self) -> ChannelView {
        ChannelView {
            category: self.category@,
            rss_url: self.rss_url@,
            title: self.title@,
            icon: self.icon@,
            dominant_color: self.dominant_color@,
        }
    }
}

impl Channel {
    /// A copy of the record.
    pub fn duplicate(&self) -> (copy: Channel)
        ensures
            copy@ == self@,
    {
        Channel {
            category: self.category.clone(),
            rss_url: self.rss_url.clone(),
            title: self.title.clone(),
            icon: self.icon.clone(),
            dominant_color: self.dominant_color.clone(),
        }
    }
}

/// A feed source as the configuration states it: what is known of its
/// channel may be incomplete.
#[derive(Debug, Clone)]
pub struct ChannelOptional {
    pub category: Option<String>,
    pub rss_url: String,
    pub title: Option<String>,
    pub icon: Option<String>,
    pub dominant_color: Option<String>,
}

/// The mathematical value of a `ChannelOptional`.
pub struct ChannelOptionalView {
    pub category: Option<Seq<char>>,
    pub rss_url: Seq<char>,
    pub title: Option<Seq<char>>,
    pub icon: Option<Seq<char>>,
    pub dominant_color: Option<Seq<char>>,
}

impl View for ChannelOptional {
    type V = ChannelOptionalView;

    open spec fn view(&self) -> ChannelOptionalView {
        ChannelOptionalView {
            category: self.category.deep_view(),
            rss_url: self.rss_url@,
            title: self.title.deep_view(),
            icon: self.icon.deep_view(),
            dominant_color: self.dominant_color.deep_view(),
        }
    }
}

/// A source needs fresh data where its title, icon or colour is unknown.
pub open spec fn incomplete(source: ChannelOptionalView) -> bool {
    source.title is None || source.icon is None || source.dominant_color is None
}

/// The channel of a source taken as it is: each unknown field is empty.
pub open spec fn as_known(source: ChannelOptionalView) -> ChannelView {
    ChannelView {
        category: or_empty(source.category),
        rss_url: source.rss_url,
        title: or_empty(source.title),
        icon: or_empty(source.icon),
        dominant_color: or_empty(source.dominant_color),
    }
}

fn cloned(field: &Option<String>) -> (copy: Option<String>)
    ensures
        copy.deep_view() == field.deep_view(),
{
    match field {
        Some(s) => Some(s.clone()),
        None => None,
    }
}

impl ChannelOptional {
    /// Whether the channel has to be resolved: its title, icon or colour
    /// is unknown.
    pub fn needs_fresh(&self) -> (fresh: bool)
        ensures
            fresh == incomplete(self@),
    {
        self.title.is_none() || self.icon.is_none() || self.dominant_color.is_none()
    }

    /// A copy of the source.
    pub fn duplicate(&self) -> (copy: ChannelOptional)
        ensures
            copy@ == self@,
    {
        ChannelOptional {
            category: cloned(&self.category),
            rss_url: self.rss_url.clone(),
            title: cloned(&self.title),
            icon: cloned(&self.icon),
            dominant_color: cloned(&self.dominant_color),
        }
    }
}

/// The base URL of a feed: scheme and host of its link, or the link itself
/// where it has no host. `None` where the link is no absolute URL.
pub open spec fn base_url_of(link: Seq<char>) -> Option<Seq<char>> {
    match url_origin_parts(link) {
        None => None,
        Some((scheme, Some(host))) => Some(scheme + "://"@ + host),
        Some((_, None)) => Some(link),
    }
}

/// Builds the base URL from the parts of a parsed link.
pub fn base_from_parts(link: &str, parts: Option<(String, Option<String>)>) -> (base: Option<
    String,
>)
    ensures
        base.deep_view() == match parts {
            None => None,
            Some((scheme, Some(host))) => Some(scheme@ + "://"@ + host@),
            Some((_, None)) => Some(link@),
        },
{
    match parts {
        None => None,
        Some((scheme, Some(host))) => {
            let mut base = scheme;
            base.append("://");
            base.append(host.as_str());
            Some(base)
        },
        Some((_, None)) => Some(link.to_owned()),
    }
}

/// The base URL of the feed with the link `link`.
pub fn base_url(link: &str) -> (base: Option<String>)
    ensures
        base.deep_view() == base_url_of(link@),
{
    base_from_parts(link, parse_origin(link))
}

/// The base URL of a parsed feed: that of its first link, else of its
/// identifier.
pub fn channel_base_url(feed: &ParsedFeed) -> (base: Option<String>)
    ensures
        base.deep_view() == base_url_of(canonical_link(feed.links@, feed.id@)),
{
    let link = first_link_or_id(&feed.links, &feed.id);
    base_url(link.as_str())
}

/// The identifier of a video channel: what follows the last `=` of its
/// feed's URL.
pub fn channel_id(rss_url: &str) -> (id: String)
    ensures
        id@ == after_last(rss_url@, '='),
{
    let chars = chars_of(rss_url);
    suffix_after_last(chars.as_slice(), '=')
}

/// What the page at the base URL says of the channel.
#[derive(Debug, Clone)]
pub struct PageMeta {
    /// The content of the page's `title` element.
    pub title: Option<String>,
    /// The reference of the page's `link rel="shortcut icon"` element.
    pub icon: Option<String>,
}

/// The mathematical value of a `PageMeta`.
pub struct PageMetaView {
    pub title: Option<Seq<char>>,
    pub icon: Option<Seq<char>>,
}

impl View for PageMeta {
    type V = PageMetaView;

    open spec fn view(&self) -> PageMetaView {
        PageMetaView { title: self.title.deep_view(), icon: self.icon.deep_view() }
    }
}

/// What the page `html` says of the channel.
pub open spec fn page_meta_of(html: Seq<char>) -> PageMetaView {
    PageMetaView {
        title: first_inner_html(html, "title"@),
        icon: first_attribute(html, "link[rel=\"shortcut icon\"]"@, "href"@),
    }
}

/// Reads title and icon reference from the page at the base URL.
pub fn page_meta(html: &str) -> (meta: PageMeta)
    ensures
        meta@ == page_meta_of(html@),
{
    PageMeta {
        title: select_first_inner_html(html, "title"),
        icon: select_first_attribute(html, "link[rel=\"shortcut icon\"]", "href"),
    }
}

/// What the video platform says of a channel.
#[derive(Debug, Clone)]
pub struct VideoChannel {
    pub name: String,
    pub avatar_url: String,
}

/// The title of a channel that no platform names: the configured title;
/// else, on the video host, the feed's title; else the page's title; else
/// empty.
pub open spec fn title_of(
    configured: Option<Seq<char>>,
    on_video_host: bool,
    feed_title: Option<Seq<char>>,
    page_title: Option<Seq<char>>,
) -> Seq<char> {
    match configured {
        Some(title) => title,
        None => if on_video_host && feed_title is Some {
            feed_title->0
        } else {
            or_empty(page_title)
        },
    }
}

/// Chooses the title of a channel that no platform names.
pub fn choose_title(
    configured: &Option<String>,
    on_video_host: bool,
    feed_title: &Option<String>,
    page_title: &Option<String>,
) -> (title: String)
    ensures
        title@ == title_of(
            configured.deep_view(),
            on_video_host,
            feed_title.deep_view(),
            page_title.deep_view(),
        ),
{
    match configured {
        Some(title) => title.clone(),
        None => {
            if on_video_host && feed_title.is_some() {
                match feed_title {
                    Some(title) => title.clone(),
                    None => String::new(),
                }
            } else {
                text_or_empty(page_title)
            }
        },
    }
}

/// The icon that the page declares, resolved against the base URL.
pub open spec fn declared_icon(base: Seq<char>, page_icon: Option<Seq<char>>) -> Option<Seq<char>> {
    match page_icon {
        Some(reference) => joined_url(base, reference),
        None => None,
    }
}

/// The icon of a site that declares none: `/favicon.ico` at the base URL.
pub open spec fn conventional_icon(base: Seq<char>) -> Option<Seq<char>> {
    joined_url(base, "/favicon.ico"@)
}

/// The icon of a channel that no platform names: the configured icon or
/// the one that the page declares; else the conventional one.
pub open spec fn icon_of(
    configured: Option<Seq<char>>,
    base: Seq<char>,
    page_icon: Option<Seq<char>>,
) -> TieredView {
    match configured {
        Some(icon) => TieredView::Resolved(icon),
        None => tiered(declared_icon(base, page_icon), conventional_icon(base)),
    }
}

/// Chooses among the candidates for an icon: the configured one, the one
/// that the page declares, the conventional one.
pub fn icon_among(
    configured: &Option<String>,
    declared: Option<String>,
    conventional: Option<String>,
) -> (icon: Tiered)
    ensures
        icon@ == match configured.deep_view() {
            Some(icon) => TieredView::Resolved(icon),
            None => tiered(declared.deep_view(), conventional.deep_view()),
        },
{
    match configured {
        Some(icon) => Tiered::Resolved(icon.clone()),
        None => first_available(declared, conventional),
    }
}

/// Chooses the icon of a channel that no platform names.
pub fn choose_icon(configured: &Option<String>, base: &str, page_icon: &Option<String>) -> (icon:
    Tiered)
    ensures
        icon@ == icon_of(configured.deep_view(), base@, page_icon.deep_view()),
{
    let declared = match page_icon {
        Some(reference) => join_url(base, reference.as_str()),
        None => None,
    };
    let conventional = join_url(base, "/favicon.ico");
    icon_among(configured, declared, conventional)
}

/// Title and icon of a channel.
#[derive(Debug, Clone)]
pub struct Identity {
    pub title: String,
    pub icon: String,
}

/// The mathematical value of an `Identity`.
pub struct IdentityView {
    pub title: Seq<char>,
    pub icon: Seq<char>,
}

impl View for Identity {
    type V = IdentityView;

    open spec fn view(&self) -> IdentityView {
        IdentityView { title: self.title@, icon: self.icon@ }
    }
}

/// The mathematical value of an optional `Identity`.
pub open spec fn identity_view(identity: Option<Identity>) -> Option<IdentityView> {
    match identity {
        Some(i) => Some(i@),
        None => None,
    }
}

/// Title and icon of a channel. Where the platform names the channel, its
/// name and avatar stand. Else they are chosen from configuration, feed and
/// page; there is none where no icon can be had.
pub open spec fn identity_of(
    source: ChannelOptionalView,
    base: Seq<char>,
    feed_title: Option<Seq<char>>,
    page: PageMetaView,
    platform: Option<IdentityView>,
) -> Option<IdentityView> {
    match platform {
        Some(named) => Some(named),
        None => match value_of(icon_of(source.icon, base, page.icon)) {
            Some(icon) => Some(
                IdentityView {
                    title: title_of(source.title, on_video_host(base), feed_title, page.title),
                    icon,
                },
            ),
            None => None,
        },
    }
}

/// Settles title and icon of a channel whose base URL is `base`.
/// `platform` is what the video platform says of the channel, where it was
/// asked and answered.
pub fn channel_identity(
    source: &ChannelOptional,
    base: &str,
    feed_title: &Option<String>,
    page: &PageMeta,
    platform: Option<VideoChannel>,
) -> (identity: Option<Identity>)
    ensures
        identity_view(identity) == identity_of(
            source@,
            base@,
            feed_title.deep_view(),
            page@,
            match platform {
                Some(v) => Some(IdentityView { title: v.name@, icon: v.avatar_url@ }),
                None => None,
            },
        ),
{
    match platform {
        Some(named) => Some(Identity { title: named.name, icon: named.avatar_url }),
        None => {
            match choose_icon(&source.icon, base, &page.icon).value() {
                Some(icon) => {
                    let title = choose_title(
                        &source.title,
                        is_video_host(base),
                        feed_title,
                        &page.title,
                    );
                    Some(Identity { title, icon })
                },
                None => None,
            }
        },
    }
}

/// The colour of an icon: the dominant colour of its bitmap, black where
/// the icon did not decode to one.
pub open spec fn icon_color_of(bitmap: Option<Seq<Pixel>>) -> Seq<char> {
    match bitmap {
        Some(pixels) => dominant_or_default(pixels),
        None => default_color(),
    }
}

/// The colour of an icon. `bitmap` holds the pixels that the icon decoded
/// to, row by row, `None` where it did not decode.
pub fn icon_color(bitmap: Option<&[Pixel]>) -> (color: String)
    ensures
        color@ == icon_color_of(
            match bitmap {
                Some(pixels) => Some(pixels@),
                None => None,
            },
        ),
{
    match bitmap {
        Some(pixels) => dominant_color_or_default(pixels),
        None => default_color_text(),
    }
}

/// What was resolved for a channel.
#[derive(Debug, Clone)]
pub struct Resolution {
    pub title: String,
    pub icon: String,
    pub dominant_color: String,
}

/// The channel to store for a source, and the source with what is now
/// known of it. Without a resolution the source is taken as it is; with
/// one, title, icon and colour are the resolved ones.
pub open spec fn channel_data(
    source: ChannelOptionalView,
    resolution: Option<Resolution>,
) -> (ChannelView, ChannelOptionalView) {
    match resolution {
        None => (as_known(source), source),
        Some(r) => (
            ChannelView {
                category: or_empty(source.category),
                rss_url: source.rss_url,
                title: r.title@,
                icon: r.icon@,
                dominant_color: r.dominant_color@,
            },
            ChannelOptionalView {
                category: Some(or_empty(source.category)),
                rss_url: source.rss_url,
                title: Some(r.title@),
                icon: Some(r.icon@),
                dominant_color: Some(r.dominant_color@),
            },
        ),
    }
}

/// Builds the channel to store under the source's key, and the source as
/// it is to be written back to the configuration.
pub fn get_channel_data(source: &ChannelOptional, resolution: Option<Resolution>) -> (r: (
    Channel,
    ChannelOptional,
))
    ensures
        (r.0@, r.1@) == channel_data(source@, resolution),
{
    match resolution {
        None => {
            let channel = Channel {
                category: text_or_empty(&source.category),
                rss_url: source.rss_url.clone(),
                title: text_or_empty(&source.title),
                icon: text_or_empty(&source.icon),
                dominant_color: text_or_empty(&source.dominant_color),
            };
            (channel, source.duplicate())
        },
        Some(r) => {
            let channel = Channel {
                category: text_or_empty(&source.category),
                rss_url: source.rss_url.clone(),
                title: r.title.clone(),
                icon: r.icon.clone(),
                dominant_color: r.dominant_color.clone(),
            };
            let known = ChannelOptional {
                category: Some(text_or_empty(&source.category)),
                rss_url: source.rss_url.clone(),
                title: Some(r.title),
                icon: Some(r.icon),
                dominant_color: Some(r.dominant_color),
            };
            (channel, known)
        },
    }
}

/// A source that was resolved needs no fresh data again: resolution is not
/// repeated on the next run.
pub proof fn lemma_resolved_source_is_complete(
    source: ChannelOptionalView,
    resolution: Resolution,
)
    ensures
        !incomplete(channel_data(source, Some(resolution)).1),
{
}

/// A source that needs no fresh data is stored with exactly its own
/// values, and is handed back unchanged.
pub proof fn lemma_complete_source_is_kept(source: ChannelOptionalView)
    requires
        !incomplete(source),
    ensures
        channel_data(source, None).1 == source,
        channel_data(source, None).0.title == source.title->0,
        channel_data(source, None).0.icon == source.icon->0,
        channel_data(source, None).0.dominant_color == source.dominant_color->0,
        channel_data(source, None).0.rss_url == source.rss_url,
{
}

/// What resolution gave for source `i`, `None` where it failed or was not
/// attempted.
pub open spec fn resolved_at(resolved: Seq<Option<ChannelOptional>>, i: int) -> Option<
    ChannelOptional,
> {
    if 0 <= i < resolved.len() {
        resolved[i]
    } else {
        None
    }
}

/// The sources to write back to the configuration after a round of
/// resolution: each source as resolved, or as it was where its resolution
/// failed.
pub open spec fn refreshed(
    sources: Seq<ChannelOptional>,
    resolved: Seq<Option<ChannelOptional>>,
) -> Seq<ChannelOptionalView> {
    Seq::new(
        sources.len(),
        |i: int|
            match resolved_at(resolved, i) {
                Some(known) => known@,
                None => sources[i]@,
            },
    )
}

/// The views of a list of sources.
pub open spec fn source_views(sources: Seq<ChannelOptional>) -> Seq<ChannelOptionalView> {
    Seq::new(sources.len(), |i: int| sources[i]@)
}

/// Merges the outcome of a round of resolution into the configured
/// sources. `resolved[i]` is what resolution gave for source `i`, `None`
/// where it failed. The flag says whether the resolution of any source
/// succeeded, that is, whether the configuration is to be written back.
pub fn refreshed_sources(sources: &Vec<ChannelOptional>, resolved: &Vec<Option<ChannelOptional>>) -> (r:
    (Vec<ChannelOptional>, bool))
    ensures
        source_views(r.0@) == refreshed(sources@, resolved@),
        r.1 == exists|i: int| 0 <= i < sources.len() && resolved_at(resolved@, i) is Some,
{
    let mut out: Vec<ChannelOptional> = Vec::new();
    let mut changed = false;
    let mut i: usize = 0;
    while i < sources.len()
        invariant
            i <= sources.len(),
            out.len() == i,
            forall|j: int|
                0 <= j < i ==> (#[trigger] out[j])@ == match resolved_at(resolved@, j) {
                    Some(known) => known@,
                    None => sources[j]@,
                },
            changed == exists|j: int| 0 <= j < i && resolved_at(resolved@, j) is Some,
        decreases sources.len() - i,
    {
        let known = if i < resolved.len() {
            match &resolved[i] {
                Some(known) => Some(known.duplicate()),
                None => None,
            }
        } else {
            None
        };
        match known {
            Some(known) => {
                assert(resolved_at(resolved@, i as int) is Some);
                out.push(known);
                changed = true;
            },
            None => {
                out.push(sources[i].duplicate());
            },
        }
        i += 1;
    }
    assert(source_views(out@) =~= refreshed(sources@, resolved@));
    (out, changed)
}

} // verus!
