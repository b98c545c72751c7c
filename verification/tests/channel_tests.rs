use feed_curator::article::{get_articles, Article, ReadStatus};
use feed_curator::channel::{
    base_from_parts, base_url, channel_base_url, channel_id, channel_identity, choose_icon,
    choose_title, get_channel_data, icon_among, page_meta, refreshed_sources, Channel,
    ChannelOptional, PageMeta, Resolution, VideoChannel,
};
use feed_curator::fallback::{first_available, Tiered};
use feed_curator::feed::ParsedFeed;
use feed_curator::color::Pixel;
use feed_curator::resolve::{ChannelAction, ChannelError, ChannelEvent, ChannelTask, IconReport};

fn s(text: &str) -> Option<String> {
    Some(text.to_string())
}

fn source(title: Option<&str>, icon: Option<&str>, color: Option<&str>) -> ChannelOptional {
    ChannelOptional {
        category: s("tech"),
        rss_url: "https://example.com/feed.xml".to_string(),
        title: title.map(String::from),
        icon: icon.map(String::from),
        dominant_color: color.map(String::from),
    }
}

fn feed(links: Vec<&str>, id: &str, title: Option<&str>) -> ParsedFeed {
    ParsedFeed {
        id: id.to_string(),
        title: title.map(String::from),
        links: links.into_iter().map(String::from).collect(),
        entries: vec![],
    }
}

fn bitmap(r: u8, g: u8, b: u8) -> Vec<Pixel> {
    vec![Pixel { r, g, b, a: 255 }; 4]
}

const PAGE: &str = "<html><head><title>Example &amp; Co</title>\
    <link rel=\"stylesheet\" href=\"style.css\">\
    <link rel=\"shortcut icon\" href=\"/static/icon.png\"></head><body></body></html>";

#[test]
fn fallback_says_which_tier_gave_the_value() {
    assert!(matches!(first_available(s("a"), s("b")), Tiered::Resolved(v) if v == "a"));
    assert!(matches!(first_available(None, s("b")), Tiered::Fallback(v) if v == "b"));
    assert!(matches!(first_available(None, None), Tiered::Missing));
    assert_eq!(first_available(None, s("b")).value(), s("b"));
    assert_eq!(first_available(s("a"), None).value(), s("a"));
    assert_eq!(first_available(None, None).value(), None);
}

#[test]
fn source_needs_fresh_data_where_a_field_is_unknown() {
    assert!(!source(Some("t"), Some("i"), Some("#000000")).needs_fresh());
    assert!(source(None, Some("i"), Some("#000000")).needs_fresh());
    assert!(source(Some("t"), None, Some("#000000")).needs_fresh());
    assert!(source(Some("t"), Some("i"), None).needs_fresh());
    let mut no_category = source(Some("t"), Some("i"), Some("#000000"));
    no_category.category = None;
    assert!(!no_category.needs_fresh());
}

#[test]
fn base_url_is_scheme_and_host() {
    assert_eq!(base_url("https://example.com/blog/feed.xml?x=1"), s("https://example.com"));
    assert_eq!(base_url("http://sub.example.org:8080/a"), s("http://sub.example.org"));
    assert_eq!(base_url("mailto:someone@example.com"), s("mailto:someone@example.com"));
    assert_eq!(base_url("not a url"), None);
    assert_eq!(base_url(""), None);
}

#[test]
fn base_url_from_parts() {
    assert_eq!(base_from_parts("l", Some(("https".to_string(), s("h.example")))), s("https://h.example"));
    assert_eq!(base_from_parts("l", Some(("data".to_string(), None))), s("l"));
    assert_eq!(base_from_parts("l", None), None);
}

#[test]
fn base_url_of_a_feed_uses_its_first_link_or_its_identifier() {
    let with_links = feed(vec!["https://a.example/x", "https://b.example/y"], "urn:x", None);
    assert_eq!(channel_base_url(&with_links), s("https://a.example"));
    let by_id = feed(vec![], "https://id.example/feed", None);
    assert_eq!(channel_base_url(&by_id), s("https://id.example"));
    assert_eq!(channel_base_url(&feed(vec![], "urn:uuid:1", None)), s("urn:uuid:1"));
    assert_eq!(channel_base_url(&feed(vec![], "no url", None)), None);
}

#[test]
fn channel_identifier_follows_the_last_equals_sign() {
    assert_eq!(channel_id("https://www.youtube.com/feeds/videos.xml?channel_id=UC123"), "UC123");
    assert_eq!(channel_id("https://example.com/feed"), "https://example.com/feed");
}

#[test]
fn page_gives_title_and_declared_icon() {
    let meta = page_meta(PAGE);
    assert_eq!(meta.title, s("Example &amp; Co"));
    assert_eq!(meta.icon, s("/static/icon.png"));
    let bare = page_meta("<html><body><p>nothing</p></body></html>");
    assert_eq!(bare.title, None);
    assert_eq!(bare.icon, None);
}

#[test]
fn title_comes_from_configuration_feed_or_page() {
    assert_eq!(choose_title(&s("Configured"), true, &s("Feed"), &s("Page")), "Configured");
    assert_eq!(choose_title(&None, true, &s("Feed"), &s("Page")), "Feed");
    assert_eq!(choose_title(&None, false, &s("Feed"), &s("Page")), "Page");
    assert_eq!(choose_title(&None, true, &None, &s("Page")), "Page");
    assert_eq!(choose_title(&None, false, &None, &None), "");
}

#[test]
fn icon_is_configured_declared_or_conventional() {
    let base = "https://example.com";
    assert!(matches!(choose_icon(&s("cfg.png"), base, &s("/i.png")), Tiered::Resolved(v) if v == "cfg.png"));
    assert!(matches!(
        choose_icon(&None, base, &s("/static/icon.png")),
        Tiered::Resolved(v) if v == "https://example.com/static/icon.png"
    ));
    assert!(matches!(
        choose_icon(&None, base, &s("https://cdn.example.net/i.ico")),
        Tiered::Resolved(v) if v == "https://cdn.example.net/i.ico"
    ));
    assert!(matches!(
        choose_icon(&None, base, &None),
        Tiered::Fallback(v) if v == "https://example.com/favicon.ico"
    ));
    assert!(matches!(choose_icon(&None, "no url", &s("/i.png")), Tiered::Missing));
    assert!(matches!(icon_among(&None, None, s("c")), Tiered::Fallback(v) if v == "c"));
    assert!(matches!(icon_among(&s("a"), s("b"), s("c")), Tiered::Resolved(v) if v == "a"));
}

#[test]
fn platform_names_a_video_channel() {
    let src = source(Some("Configured"), Some("cfg.png"), None);
    let meta = PageMeta { title: s("Page"), icon: None };
    let named = channel_identity(
        &src,
        "https://www.youtube.com",
        &s("Feed"),
        &meta,
        Some(VideoChannel { name: "Creator".to_string(), avatar_url: "avatar.jpg".to_string() }),
    )
    .expect("identity");
    assert_eq!(named.title, "Creator");
    assert_eq!(named.icon, "avatar.jpg");
    let generic = channel_identity(&source(None, None, None), "https://www.youtube.com", &s("Feed"), &meta, None)
        .expect("identity");
    assert_eq!(generic.title, "Feed");
    assert_eq!(generic.icon, "https://www.youtube.com/favicon.ico");
    assert!(channel_identity(&source(None, None, None), "no url", &None, &meta, None).is_none());
}

#[test]
fn known_source_is_stored_as_it_is() {
    let src = source(Some("T"), Some("i.png"), Some("#112233"));
    let (channel, known) = get_channel_data(&src, None);
    assert_eq!(channel.category, "tech");
    assert_eq!(channel.rss_url, "https://example.com/feed.xml");
    assert_eq!(channel.title, "T");
    assert_eq!(channel.icon, "i.png");
    assert_eq!(channel.dominant_color, "#112233");
    assert_eq!(known.title, s("T"));
    assert_eq!(known.category, s("tech"));
    let mut bare = source(None, None, None);
    bare.category = None;
    let (channel, known) = get_channel_data(&bare, None);
    assert_eq!(channel.category, "");
    assert_eq!(channel.title, "");
    assert_eq!(channel.icon, "");
    assert_eq!(channel.dominant_color, "");
    assert_eq!(known.category, None);
    assert_eq!(known.title, None);
}

#[test]
fn resolved_source_is_complete() {
    let mut src = source(None, None, None);
    src.category = None;
    let resolution = Resolution {
        title: "T".to_string(),
        icon: "i.png".to_string(),
        dominant_color: "#010203".to_string(),
    };
    let (channel, known) = get_channel_data(&src, Some(resolution));
    assert_eq!(channel.title, "T");
    assert_eq!(channel.icon, "i.png");
    assert_eq!(channel.dominant_color, "#010203");
    assert_eq!(channel.category, "");
    assert_eq!(known.category, s(""));
    assert_eq!(known.title, s("T"));
    assert_eq!(known.icon, s("i.png"));
    assert_eq!(known.dominant_color, s("#010203"));
    assert!(!known.needs_fresh());
}

#[test]
fn configuration_takes_what_was_resolved() {
    let sources = vec![source(None, None, None), source(Some("kept"), None, None)];
    let resolved = vec![Some(source(Some("new"), Some("i"), Some("#000000"))), None];
    let (merged, changed) = refreshed_sources(&sources, &resolved);
    assert!(changed);
    assert_eq!(merged.len(), 2);
    assert_eq!(merged[0].title, s("new"));
    assert_eq!(merged[1].title, s("kept"));
    let (merged, changed) = refreshed_sources(&sources, &vec![None, None]);
    assert!(!changed);
    assert_eq!(merged[0].title, None);
    let (merged, changed) = refreshed_sources(&sources, &vec![]);
    assert!(!changed);
    assert_eq!(merged.len(), 2);
}

#[test]
fn complete_source_is_written_without_any_fetch() {
    let (task, action) = ChannelTask::start(source(Some("T"), Some("i.png"), Some("#112233")));
    match action {
        ChannelAction::Store { key, channel } => {
            assert_eq!(key, "channel:https://example.com/feed.xml");
            assert_eq!(channel.title, "T");
            assert_eq!(channel.dominant_color, "#112233");
        }
        _ => panic!("expected a write"),
    }
    let (task, action) = task.advance(ChannelEvent::Written(true));
    assert!(task.is_done());
    assert!(matches!(action, ChannelAction::Resolved(known) if known.title == s("T")));
}

#[test]
fn incomplete_source_is_resolved_step_by_step() {
    let (task, action) = ChannelTask::start(source(None, None, None));
    assert!(matches!(&action, ChannelAction::FetchFeed { url } if url == "https://example.com/feed.xml"));
    let parsed = feed(vec!["https://example.com/blog/"], "urn:x", Some("Feed title"));
    let (task, action) = task.advance(ChannelEvent::Feed(Some(parsed)));
    assert!(matches!(&action, ChannelAction::FetchPage { url } if url == "https://example.com"));
    let (task, action) = task.advance(ChannelEvent::Page(Some(PAGE.to_string())));
    assert!(matches!(
        &action,
        ChannelAction::FetchIcon { url } if url == "https://example.com/static/icon.png"
    ));
    let (task, action) = task.advance(ChannelEvent::Icon(IconReport::Bitmap(bitmap(16, 32, 48))));
    match action {
        ChannelAction::Store { key, channel } => {
            assert_eq!(key, "channel:https://example.com/feed.xml");
            assert_eq!(channel.rss_url, "https://example.com/feed.xml");
            assert_eq!(channel.category, "tech");
            assert_eq!(channel.title, "Example &amp; Co");
            assert_eq!(channel.icon, "https://example.com/static/icon.png");
            assert_eq!(channel.dominant_color, "#102030");
        }
        _ => panic!("expected a write"),
    }
    let (task, action) = task.advance(ChannelEvent::Written(true));
    assert!(task.is_done());
    match action {
        ChannelAction::Resolved(known) => {
            assert!(!known.needs_fresh());
            assert_eq!(known.dominant_color, s("#102030"));
        }
        _ => panic!("expected the resolved source"),
    }
}

#[test]
fn video_channel_is_named_by_the_platform() {
    let mut src = source(None, None, Some("#abcdef"));
    src.rss_url = "https://www.youtube.com/feeds/videos.xml?channel_id=UC9".to_string();
    let (task, _) = ChannelTask::start(src);
    let parsed = feed(vec!["https://www.youtube.com/channel/UC9"], "yt:channel:UC9", Some("Feed title"));
    let (task, _) = task.advance(ChannelEvent::Feed(Some(parsed)));
    let (task, action) = task.advance(ChannelEvent::Page(Some(PAGE.to_string())));
    assert!(matches!(&action, ChannelAction::FetchPlatform { channel_id } if channel_id == "UC9"));
    let named = VideoChannel { name: "Creator".to_string(), avatar_url: "https://img/avatar.jpg".to_string() };
    let (_, action) = task.advance(ChannelEvent::Platform(Some(named)));
    match action {
        ChannelAction::Store { channel, .. } => {
            assert_eq!(channel.title, "Creator");
            assert_eq!(channel.icon, "https://img/avatar.jpg");
            assert_eq!(channel.dominant_color, "#abcdef");
        }
        _ => panic!("expected a write"),
    }
}

#[test]
fn resolution_is_given_up_where_a_step_fails() {
    let (task, _) = ChannelTask::start(source(None, None, None));
    let (task, action) = task.advance(ChannelEvent::Feed(None));
    assert!(task.is_done());
    assert!(matches!(action, ChannelAction::Failed(ChannelError::FeedUnavailable)));

    let (task, _) = ChannelTask::start(source(None, None, None));
    let (_, action) = task.advance(ChannelEvent::Feed(Some(feed(vec![], "no url", None))));
    assert!(matches!(action, ChannelAction::Failed(ChannelError::BadLink)));

    let (task, _) = ChannelTask::start(source(None, None, None));
    let (task, _) = task.advance(ChannelEvent::Feed(Some(feed(vec!["https://example.com/"], "x", None))));
    let (_, action) = task.advance(ChannelEvent::Page(None));
    assert!(matches!(action, ChannelAction::Failed(ChannelError::PageUnavailable)));

    let (task, _) = ChannelTask::start(source(None, None, None));
    let (task, _) = task.advance(ChannelEvent::Feed(Some(feed(vec!["https://example.com/"], "x", None))));
    let (task, _) = task.advance(ChannelEvent::Page(Some(PAGE.to_string())));
    let (_, action) = task.advance(ChannelEvent::Icon(IconReport::Unavailable));
    assert!(matches!(action, ChannelAction::Failed(ChannelError::IconUnavailable)));

    let (task, _) = ChannelTask::start(source(Some("T"), Some("i"), Some("#000000")));
    let (_, action) = task.advance(ChannelEvent::Written(false));
    assert!(matches!(action, ChannelAction::Failed(ChannelError::StoreFailed)));

    let (task, _) = ChannelTask::start(source(None, None, None));
    let (_, action) = task.advance(ChannelEvent::Written(true));
    assert!(matches!(action, ChannelAction::Failed(ChannelError::OutOfOrder)));
}

#[test]
fn icon_that_does_not_decode_gives_black() {
    let (task, _) = ChannelTask::start(source(Some("T"), Some("https://example.com/i.png"), None));
    let (task, _) = task.advance(ChannelEvent::Feed(Some(feed(vec!["https://example.com/"], "x", None))));
    let (task, action) = task.advance(ChannelEvent::Page(Some("<html></html>".to_string())));
    assert!(matches!(&action, ChannelAction::FetchIcon { url } if url == "https://example.com/i.png"));
    let (_, action) = task.advance(ChannelEvent::Icon(IconReport::Undecodable));
    assert!(matches!(action, ChannelAction::Store { channel, .. } if channel.dominant_color == "#000000" && channel.title == "T"));
}

fn article(link: &str, channel: &str) -> Article {
    Article {
        link: link.to_string(),
        channel: channel.to_string(),
        title: format!("title of {}", link),
        published: "2024-01-02T03:04:05+00:00".to_string(),
        image: "i.png".to_string(),
        summary: "s".to_string(),
        read_status: ReadStatus::Saved,
    }
}

fn channel(rss_url: &str, title: &str) -> Channel {
    Channel {
        category: "c".to_string(),
        rss_url: rss_url.to_string(),
        title: title.to_string(),
        icon: "icon".to_string(),
        dominant_color: "#000000".to_string(),
    }
}

#[test]
fn articles_are_listed_with_their_channels() {
    let found = vec![
        (article("a", "feed-1"), Some(channel("feed-1", "One"))),
        (article("b", "feed-gone"), None),
        (article("c", "feed-2"), Some(channel("feed-2", "Two"))),
        (article("d", "feed-1"), Some(channel("feed-1", "One"))),
    ];
    let list = get_articles(&found);
    let got: Vec<(&str, &str)> = list.iter().map(|a| (a.link.as_str(), a.channel.title.as_str())).collect();
    assert_eq!(got, vec![("a", "One"), ("c", "Two"), ("d", "One")]);
    assert_eq!(list[0].title, "title of a");
    assert_eq!(list[0].read_status, ReadStatus::Saved);
    assert_eq!(list[0].channel.rss_url, "feed-1");
    assert_eq!(list[0].published, "2024-01-02T03:04:05+00:00");
    assert!(get_articles(&vec![]).is_empty());
    assert!(get_articles(&vec![(article("x", "feed-gone"), None)]).is_empty());
}
