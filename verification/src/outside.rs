//! Calls into other crates.
//!
//! Each function here hands plain values to another crate and takes plain
//! values back. Its contract is taken on trust: where the result is a
//! function of the arguments alone it is given a name, and the callers'
//! contracts are stated over that name.

use std::collections::hash_map::DefaultHasher;
use vstd::prelude::*;

verus! {

/// The text that `html_escape::decode_html_entities` gives for `text`.
pub uninterp spec fn decoded_entities(text: Seq<char>) -> Seq<char>;

/// `html_escape::decode_html_entities`: replaces each named or numeric
/// character reference that ends in `;` by the character it stands for.
#[verifier::external_body]
pub(crate) fn decode_entities(text: &str) -> (r: String)
    ensures
        r@ == decoded_entities(text@),
{
    html_escape::decode_html_entities(text).into_owned()
}

/// The value that `scraper` finds for `attribute` on the first element of
/// the document `html` that matches the CSS selector `selector`.
pub uninterp spec fn first_attribute(
    html: Seq<char>,
    selector: Seq<char>,
    attribute: Seq<char>,
) -> Option<Seq<char>>;

/// `scraper::Html::parse_document` and `Html::select`: the first element in
/// document order that matches `selector`, and `Element::attr` on it. `None`
/// where the selector does not parse, nothing matches, or the element lacks
/// the attribute.
#[verifier::external_body]
pub(crate) fn select_first_attribute(html: &str, selector: &str, attribute: &str) -> (r: Option<
    String,
>)
    ensures
        r.deep_view() == first_attribute(html@, selector@, attribute@),
{
    let selector = scraper::Selector::parse(selector).ok()?;
    let document = scraper::Html::parse_document(html);
    document.select(&selector).next().and_then(|e| e.value().attr(attribute)).map(String::from)
}

/// The markup that `scraper` serialises for the children of the first
/// element of the document `html` that matches the CSS selector `selector`.
pub uninterp spec fn first_inner_html(html: Seq<char>, selector: Seq<char>) -> Option<Seq<char>>;

/// `scraper::Html::select` and `ElementRef::inner_html` on the first match.
/// `None` where the selector does not parse or nothing matches. `scraper`
/// is built with its feature `deterministic`, so that an element's
/// attributes are kept and written out in document order.
#[verifier::external_body]
pub(crate) fn select_first_inner_html(html: &str, selector: &str) -> (r: Option<String>)
    ensures
        r.deep_view() == first_inner_html(html@, selector@),
{
    let selector = scraper::Selector::parse(selector).ok()?;
    let document = scraper::Html::parse_document(html);
    document.select(&selector).next().map(|e| e.inner_html())
}

/// The main content that `readability` extracts from the page `html` found
/// at `page_url`, as markup.
pub uninterp spec fn readable_content(html: Seq<char>, page_url: Seq<char>) -> Option<Seq<char>>;

/// `readability::extractor::extract` on the page's text, with `page_url`
/// parsed by `url::Url::parse`; the `content` field of what it returns.
/// `None` where the URL does not parse or the extraction fails.
#[verifier::external_body]
pub(crate) fn extract_readable(html: &str, page_url: &str) -> (r: Option<String>)
    ensures
        r.deep_view() == readable_content(html@, page_url@),
{
    let page_url = url::Url::parse(page_url).ok()?;
    let mut reader = std::io::Cursor::new(html);
    readability::extractor::extract(&mut reader, &page_url).ok().map(|p| p.content)
}

/// The scheme and, where it has one, the host of the URL that `url` parses
/// from `link`.
pub uninterp spec fn url_origin_parts(link: Seq<char>) -> Option<(Seq<char>, Option<Seq<char>>)>;

/// `url::Url::parse`, then `Url::scheme` and `Url::host_str` of the parsed
/// URL. `None` where `link` is no absolute URL.
#[verifier::external_body]
pub(crate) fn parse_origin(link: &str) -> (r: Option<(String, Option<String>)>)
    ensures
        match r {
            Some((scheme, host)) => url_origin_parts(link@) == Some((scheme@, host.deep_view())),
            None => url_origin_parts(link@) is None,
        },
{
    let parsed = url::Url::parse(link).ok()?;
    Some((parsed.scheme().to_string(), parsed.host_str().map(String::from)))
}

/// The URL that `url` resolves `reference` to against the base URL `base`.
pub uninterp spec fn joined_url(base: Seq<char>, reference: Seq<char>) -> Option<Seq<char>>;

/// `url::Url::join` on the URL parsed from `base`, written out as text.
/// `None` where `base` is no absolute URL or the reference does not resolve.
#[verifier::external_body]
pub(crate) fn join_url(base: &str, reference: &str) -> (r: Option<String>)
    ensures
        r.deep_view() == joined_url(base@, reference@),
{
    let base = url::Url::parse(base).ok()?;
    base.join(reference).ok().map(String::from)
}

/// What `urlencoding::decode` gives for `text`: the decoded text, or the
/// message of the error.
pub uninterp spec fn percent_decoded(text: Seq<char>) -> Result<Seq<char>, Seq<char>>;

/// `urlencoding::decode`: replaces each `%xx` by the byte it encodes and
/// reads the result as UTF-8. The error is given by its message.
#[verifier::external_body]
pub(crate) fn percent_decode(text: &str) -> (r: Result<String, String>)
    ensures
        match r {
            Ok(decoded) => percent_decoded(text@) == Ok::<Seq<char>, Seq<char>>(decoded@),
            Err(message) => percent_decoded(text@) == Err::<Seq<char>, Seq<char>>(message@),
        },
{
    urlencoding::decode(text).map(|decoded| decoded.into_owned()).map_err(|e| e.to_string())
}

/// What a `DefaultHasher` that has taken the writes `state` holds after a
/// string with the characters `text` was hashed into it.
pub uninterp spec fn hasher_fed_text(state: Seq<Seq<u8>>, text: Seq<char>) -> Seq<Seq<u8>>;

/// `Hash::hash` of `str` into a `DefaultHasher`: feeds the string to the
/// hasher, whose state then depends on its earlier state and the string
/// alone.
#[verifier::external_body]
pub(crate) fn hash_text_into(state: &mut DefaultHasher, text: &str)
    ensures
        final(state)@ == hasher_fed_text(old(state)@, text@),
{
    std::hash::Hash::hash(text, state)
}

} // verus!
