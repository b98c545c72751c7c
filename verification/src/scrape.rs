//! What a fetched page or video yields for an article: a representative
//! image and the main content.

use vstd::prelude::*;
use crate::outside::{
    decode_entities, decoded_entities, extract_readable, first_attribute, readable_content,
    select_first_attribute,
};
use crate::text::{
    after_last, chars_of, contains, find, find_from, has_substring, lemma_find_is_first,
    string_of_range, suffix_after_last,
};

verus! {

/// What scraping one target yields.
#[derive(Debug, Clone)]
pub struct WebpageData {
    /// The representative image, where one was found.
    pub image: Option<String>,
    /// The main content, where it could be extracted.
    pub main_content: Option<String>,
}

/// The mathematical value of a `WebpageData`.
pub struct WebpageDataView {
    pub image: Option<Seq<char>>,
    pub main_content: Option<Seq<char>>,
}

impl View for WebpageData {
    type V = WebpageDataView;

    open spec fn view(&self) -> WebpageDataView {
        WebpageDataView {
            image: self.image.deep_view(),
            main_content: self.main_content.deep_view(),
        }
    }
}

impl WebpageData {
    /// What a target yields whose page could not be fetched: nothing.
    pub fn empty() -> (r: WebpageData)
        ensures
            r@.image is None,
            r@.main_content is None,
    {
        WebpageData { image: None, main_content: None }
    }
}

/// How a target is scraped.
#[derive(Debug, Clone)]
pub enum Strategy {
    /// An ordinary page: first image and readable content.
    GenericPage,
    /// A video on a recognised host: thumbnail and subtitles.
    VideoPlatform { video_id: String },
}

/// The mathematical value of a `Strategy`.
pub enum StrategyView {
    GenericPage,
    VideoPlatform { video_id: Seq<char> },
}

impl View for Strategy {
    type V = StrategyView;

    open spec fn view(&self) -> StrategyView {
        match self {
            Strategy::GenericPage => StrategyView::GenericPage,
            Strategy::VideoPlatform { video_id } => StrategyView::VideoPlatform {
                video_id: video_id@,
            },
        }
    }
}

/// The host name that marks a video platform.
pub open spec fn video_host() -> Seq<char> {
    seq!['y', 'o', 'u', 't', 'u', 'b', 'e', '.', 'c', 'o', 'm']
}

/// Whether `url` names the video platform.
pub open spec fn on_video_host(url: Seq<char>) -> bool {
    contains(url, video_host())
}

/// The strategy for `url`: a video where the URL names the video host and
/// carries a `=`, whose last segment is the video's identifier.
pub open spec fn strategy_of(url: Seq<char>) -> StrategyView {
    if on_video_host(url) && url.contains('=') {
        StrategyView::VideoPlatform { video_id: after_last(url, '=') }
    } else {
        StrategyView::GenericPage
    }
}

fn video_host_chars() -> (v: Vec<char>)
    ensures
        v@ == video_host(),
{
    let v = vec!['y', 'o', 'u', 't', 'u', 'b', 'e', '.', 'c', 'o', 'm'];
    assert(v@ =~= video_host());
    v
}

/// Whether `url` names the video platform.
pub fn is_video_host(url: &str) -> (b: bool)
    ensures
        b == on_video_host(url@),
{
    let chars = chars_of(url);
    let host = video_host_chars();
    has_substring(chars.as_slice(), host.as_slice())
}

fn holds_char(s: &[char], c: char) -> (b: bool)
    ensures
        b == s@.contains(c),
{
    let mut i: usize = 0;
    while i < s.len()
        invariant
            i <= s.len(),
            forall|j: int| 0 <= j < i ==> s@[j] != c,
        decreases s.len() - i,
    {
        if s[i] == c {
            return true;
        }
        i += 1;
    }
    false
}

/// Chooses the strategy for a target URL.
pub fn classify_url(url: &str) -> (s: Strategy)
    ensures
        s@ == strategy_of(url@),
{
    let chars = chars_of(url);
    let host = video_host_chars();
    if has_substring(chars.as_slice(), host.as_slice()) && holds_char(chars.as_slice(), '=') {
        Strategy::VideoPlatform { video_id: suffix_after_last(chars.as_slice(), '=') }
    } else {
        Strategy::GenericPage
    }
}

/// What an ordinary page yields: the `src` of its first `img` element, and
/// its readable main content.
pub open spec fn page_data(html: Seq<char>, url: Seq<char>) -> WebpageDataView {
    WebpageDataView {
        image: first_attribute(html, "img"@, "src"@),
        main_content: readable_content(html, url),
    }
}

/// Scrapes an ordinary page that was fetched from `url`.
pub fn scrape_website(html: &str, url: &str) -> (data: WebpageData)
    ensures
        data@ == page_data(html@, url@),
{
    let image = select_first_attribute(html, "img", "src");
    let main_content = extract_readable(html, url);
    WebpageData { image, main_content }
}

/// One subtitle track of a video.
#[derive(Debug, Clone)]
pub struct SubtitleTrack {
    /// Where the subtitle document is fetched from.
    pub url: String,
    /// Whether the track was generated automatically.
    pub auto_generated: bool,
}

/// The track to use: the first one written by hand, else the first one.
pub open spec fn preferred_track(tracks: Seq<SubtitleTrack>) -> Option<int> {
    if exists|i: int| 0 <= i < tracks.len() && !tracks[i].auto_generated {
        Some(first_manual(tracks))
    } else if tracks.len() > 0 {
        Some(0)
    } else {
        None
    }
}

/// The least index of a track written by hand; the length where there is none.
pub open spec fn first_manual(tracks: Seq<SubtitleTrack>) -> int
    decreases tracks.len(),
{
    if tracks.len() == 0 {
        0
    } else if !tracks[0].auto_generated {
        0
    } else {
        1 + first_manual(tracks.drop_first())
    }
}

/// `first_manual` is the least index of a track written by hand.
pub proof fn lemma_first_manual(tracks: Seq<SubtitleTrack>)
    ensures
        0 <= first_manual(tracks) <= tracks.len(),
        first_manual(tracks) < tracks.len() ==> !tracks[first_manual(tracks)].auto_generated,
        forall|j: int| 0 <= j < first_manual(tracks) ==> tracks[j].auto_generated,
    decreases tracks.len(),
{
    if tracks.len() > 0 && tracks[0].auto_generated {
        let rest = tracks.drop_first();
        lemma_first_manual(rest);
        assert forall|j: int| 0 <= j < first_manual(tracks) implies tracks[j].auto_generated by {
            if j > 0 {
                assert(rest[j - 1] == tracks[j]);
            }
        }
    }
}

/// Picks the subtitle track to fetch, and gives its index.
pub fn best_subtitles(tracks: &Vec<SubtitleTrack>) -> (r: Option<usize>)
    ensures
        match r {
            Some(i) => preferred_track(tracks@) == Some(i as int) && i < tracks.len(),
            None => preferred_track(tracks@) is None,
        },
{
    let mut i: usize = 0;
    while i < tracks.len()
        invariant
            i <= tracks.len(),
            forall|j: int| 0 <= j < i ==> tracks@[j].auto_generated,
        decreases tracks.len() - i,
    {
        if !tracks[i].auto_generated {
            proof {
                lemma_first_manual(tracks@);
            }
            return Some(i);
        }
        i += 1;
    }
    if tracks.len() > 0 {
        Some(0)
    } else {
        None
    }
}

/// The opening of a paragraph element that carries attributes.
pub open spec fn paragraph_open() -> Seq<char> {
    seq!['<', 'p', ' ']
}

/// The closing tag of a paragraph element.
pub open spec fn paragraph_close() -> Seq<char> {
    seq!['<', '/', 'p', '>']
}

/// The raw text of the paragraph that opens at `open` and closes at `close`:
/// what stands between the end of the opening tag and the closing tag. It is
/// empty where the opening tag does not end before the closing tag begins.
pub open spec fn run_text(doc: Seq<char>, open: int, close: int) -> Seq<char> {
    match find(doc, seq!['>'], open) {
        Some(gt) => if gt + 1 <= close {
            doc.subrange(gt + 1, close)
        } else {
            Seq::empty()
        },
        None => Seq::empty(),
    }
}

/// The text runs of the paragraphs of `doc` from position `start` on, in
/// document order: each paragraph's raw text with its character references
/// decoded. The scan ends at the first paragraph that is never closed.
pub open spec fn subtitle_runs(doc: Seq<char>, start: int) -> Seq<Seq<char>>
    decreases doc.len() - start,
    via subtitle_runs_decreases
{
    match find(doc, paragraph_open(), start) {
        None => Seq::empty(),
        Some(open) => match find(doc, paragraph_close(), open) {
            None => Seq::empty(),
            Some(close) => seq![decoded_entities(run_text(doc, open, close))] + subtitle_runs(
                doc,
                close + 4,
            ),
        },
    }
}

#[via_fn]
proof fn subtitle_runs_decreases(doc: Seq<char>, start: int) {
    if start >= 0 {
        lemma_find_is_first(doc, paragraph_open(), start);
        match find(doc, paragraph_open(), start) {
            None => {},
            Some(open) => {
                lemma_find_is_first(doc, paragraph_close(), open);
            },
        }
    }
}

/// The texts in order, with one space between each two neighbours.
pub open spec fn joined_by_spaces(runs: Seq<Seq<char>>) -> Seq<char>
    decreases runs.len(),
{
    if runs.len() == 0 {
        Seq::empty()
    } else if runs.len() == 1 {
        runs[0]
    } else {
        joined_by_spaces(runs.drop_last()) + seq![' '] + runs.last()
    }
}

/// The plain text of a subtitle document: its text runs, separated by
/// single spaces.
pub open spec fn subtitle_text_of(doc: Seq<char>) -> Seq<char> {
    joined_by_spaces(subtitle_runs(doc, 0))
}

/// The plain text of a subtitle document.
pub fn subtitle_text(doc: &str) -> (text: String)
    ensures
        text@ == subtitle_text_of(doc@),
{
    let body = chars_of(doc);
    let open_tag = vec!['<', 'p', ' '];
    let close_tag = vec!['<', '/', 'p', '>'];
    let gt_tag = vec!['>'];
    assert(open_tag@ =~= paragraph_open());
    assert(close_tag@ =~= paragraph_close());
    assert(gt_tag@ =~= seq!['>']);
    let mut text = String::new();
    let mut first = true;
    let mut start: usize = 0;
    let ghost mut runs: Seq<Seq<char>> = Seq::empty();
    assert(runs + subtitle_runs(doc@, 0) =~= subtitle_runs(doc@, 0));
    loop
        invariant
            body@ == doc@,
            open_tag@ == paragraph_open(),
            close_tag@ == paragraph_close(),
            gt_tag@ == seq!['>'],
            start <= body.len(),
            first == (runs.len() == 0),
            text@ == joined_by_spaces(runs),
            runs + subtitle_runs(doc@, start as int) == subtitle_runs(doc@, 0),
        ensures
            text@ == subtitle_text_of(doc@),
        decreases body.len() - start,
    {
        let open = match find_from(body.as_slice(), open_tag.as_slice(), start) {
            Some(i) => i,
            None => {
                assert(runs + Seq::<Seq<char>>::empty() =~= runs);
                break ;
            },
        };
        let close = match find_from(body.as_slice(), close_tag.as_slice(), open) {
            Some(i) => i,
            None => {
                assert(runs + Seq::<Seq<char>>::empty() =~= runs);
                break ;
            },
        };
        proof {
            lemma_find_is_first(doc@, paragraph_open(), start as int);
            lemma_find_is_first(doc@, paragraph_close(), open as int);
        }
        let raw = match find_from(body.as_slice(), gt_tag.as_slice(), open) {
            Some(gt) => if gt + 1 <= close {
                string_of_range(body.as_slice(), gt + 1, close)
            } else {
                String::new()
            },
            None => String::new(),
        };
        assert(raw@ == run_text(doc@, open as int, close as int));
        let decoded = decode_entities(raw.as_str());
        let ghost before = text@;
        let ghost earlier = runs;
        if !first {
            text.push(' ');
        }
        text.append(decoded.as_str());
        first = false;
        proof {
            runs = earlier.push(decoded@);
            assert(runs.drop_last() =~= earlier);
            assert(runs.last() == decoded@);
            if earlier.len() == 0 {
                assert(text@ =~= decoded@);
            } else {
                assert(text@ =~= before + seq![' '] + decoded@);
            }
            assert(runs + subtitle_runs(doc@, close + 4) =~= earlier + (seq![decoded@]
                + subtitle_runs(doc@, close + 4)));
        }
        start = close + 4;
    }
    text
}

/// What a video yields: its thumbnail as the image, and the subtitle text
/// as main content. Where no subtitle document could be had, the content of
/// the page stays.
pub open spec fn video_data(
    page: WebpageDataView,
    thumbnail: Seq<char>,
    subtitles: Option<Seq<char>>,
) -> WebpageDataView {
    WebpageDataView {
        image: Some(thumbnail),
        main_content: match subtitles {
            Some(doc) => Some(subtitle_text_of(doc)),
            None => page.main_content,
        },
    }
}

/// Replaces what the page gave by what the video's metadata gives.
pub fn scrape_video(page: WebpageData, thumbnail: String, subtitles: Option<&str>) -> (data:
    WebpageData)
    ensures
        data@ == video_data(page@, thumbnail@, subtitles.deep_view()),
{
    let main_content = match subtitles {
        Some(doc) => Some(subtitle_text(doc)),
        None => page.main_content,
    };
    WebpageData { image: Some(thumbnail), main_content }
}

} // verus!
