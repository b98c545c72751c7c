//! The summarisation protocol: a content-addressed cache in front of a
//! completion call.
//!
//! The caller looks the key up in its store and hands the finding to
//! `summarise_article`, which answers from the cache, refuses the content,
//! or states the one request to submit. The parsed reply goes to
//! `conclude_summary`; only an accepted summary is stored under the key.

use std::collections::hash_map::DefaultHasher;
use std::hash::Hasher;
use vstd::prelude::*;
use vstd::std_specs::hash::DefaultHasherAdditionalSpecFns;
use crate::article::{summary_view, Summary, SummaryView};
use crate::keys::summary_key_of;
use crate::outside::{hash_text_into, hasher_fed_text};

verus! {

/// The 64-bit hash that `DefaultHasher` gives the text.
pub open spec fn content_hash(text: Seq<char>) -> u64 {
    DefaultHasher::spec_finish(hasher_fed_text(Seq::empty(), text))
}

/// The hash that identifies the summary of a title and a content: the hash
/// of the title followed by the content. Two pairs with the same
/// concatenation, or whose concatenations collide, share their summary.
pub open spec fn summary_hash_of(title: Seq<char>, content: Seq<char>) -> u64 {
    content_hash(title + content)
}

/// Hashes a text with the standard library's default hasher.
pub fn compute_hash(text: &str) -> (hash: u64)
    ensures
        hash == content_hash(text@),
{
    let mut state = DefaultHasher::new();
    hash_text_into(&mut state, text);
    state.finish()
}

/// The hash that identifies the summary of `title` and `content`.
pub fn summary_hash(title: &str, content: &str) -> (hash: u64)
    ensures
        hash == summary_hash_of(title@, content@),
{
    let mut joined = title.to_owned();
    joined.append(content);
    compute_hash(joined.as_str())
}

/// The size tiers of the completion service.
#[derive(Debug, Clone, Copy, PartialEq, Eq, Structural)]
pub enum Tier {
    /// The ordinary model.
    Standard,
    /// The model with the long context.
    Extended,
}

/// How much content the tiers take, in characters.
#[derive(Debug, Clone, Copy, PartialEq, Eq, Structural)]
pub struct Limits {
    /// The budget of the standard tier; longer content goes to the
    /// extended tier.
    pub standard_budget: usize,
    /// The budget of the extended tier.
    pub extended_budget: usize,
    /// The hard ceiling: longer content is refused.
    pub ceiling: usize,
}

/// Why no summary was made.
#[derive(Debug, Clone, Copy, PartialEq, Eq, Structural)]
pub enum SummaryError {
    /// The content is longer than the hard ceiling.
    ContentTooLarge,
    /// The reply did not have the shape of a title and a summary.
    SummaryFormat,
}

/// The number of tokens a reply may take.
pub const MAX_REPLY_TOKENS: u16 = 1024;

impl Limits {
    /// The limits in use: 4096 and 16384 tokens at three characters each.
    pub fn standard() -> (limits: Limits)
        ensures
            limits == (Limits { standard_budget: 12288, extended_budget: 49152, ceiling: 49152 }),
    {
        Limits { standard_budget: 12288, extended_budget: 49152, ceiling: 49152 }
    }
}

/// The tier for content of `len` characters.
pub open spec fn tier_for(len: nat, limits: Limits) -> Tier {
    if len > limits.standard_budget {
        Tier::Extended
    } else {
        Tier::Standard
    }
}

/// The character budget of a tier.
pub open spec fn budget_of(tier: Tier, limits: Limits) -> nat {
    match tier {
        Tier::Standard => limits.standard_budget as nat,
        Tier::Extended => limits.extended_budget as nat,
    }
}

/// The name of the model that serves a tier.
pub open spec fn model_of(tier: Tier) -> Seq<char> {
    match tier {
        Tier::Standard => "gpt-3.5-turbo"@,
        Tier::Extended => "gpt-3.5-turbo-16k"@,
    }
}

/// The content that is submitted: `content` cut to the budget of its tier.
pub open spec fn submitted_content(content: Seq<char>, limits: Limits) -> Seq<char> {
    let budget = budget_of(tier_for(content.len(), limits), limits);
    if content.len() > budget {
        content.take(budget as int)
    } else {
        content
    }
}

/// The instructions that open every request.
pub open spec fn prompt_head() -> Seq<char> {
    "Provide a concise summary of the following content in JSON format. If it's an article, use the provided text. If it's a video, use the provided subtitles. The JSON should have keys 'title' (rephrased from the original for brevity) and 'summary' (condensed from the original content, maintaining the tone and style of the original). Ensure the summary includes all relevant context so that someone unfamiliar with the topic can understand.\nOriginal title: "@
}

/// The prompt for a title and the content to submit.
pub open spec fn prompt_of(title: Seq<char>, submitted: Seq<char>) -> Seq<char> {
    prompt_head() + title + "\nOriginal content: "@ + submitted
}

/// One request to the completion service.
#[derive(Debug, Clone)]
pub struct CompletionRequest {
    pub model: String,
    pub max_tokens: u16,
    pub prompt: String,
}

/// The mathematical value of a `CompletionRequest`.
pub struct CompletionRequestView {
    pub model: Seq<char>,
    pub max_tokens: u16,
    pub prompt: Seq<char>,
}

impl View for CompletionRequest {
    type V = CompletionRequestView;

    open spec fn view(&self) -> CompletionRequestView {
        CompletionRequestView {
            model: self.model@,
            max_tokens: self.max_tokens,
            prompt: self.prompt@,
        }
    }
}

/// The request for a title and a content that the cache does not hold.
pub open spec fn request_for(
    title: Seq<char>,
    content: Seq<char>,
    limits: Limits,
) -> CompletionRequestView {
    CompletionRequestView {
        model: model_of(tier_for(content.len(), limits)),
        max_tokens: MAX_REPLY_TOKENS,
        prompt: prompt_of(title, submitted_content(content, limits)),
    }
}

/// What is to be done for one title and content.
#[derive(Debug, Clone)]
pub enum SummaryStep {
    /// The cache holds the summary: no call is made.
    Cached(Summary),
    /// The content is beyond the hard ceiling: no call is made.
    TooLarge,
    /// This one request is to be submitted.
    Request(CompletionRequest),
}

/// The mathematical value of a `SummaryStep`.
pub enum SummaryStepView {
    Cached(SummaryView),
    TooLarge,
    Request(CompletionRequestView),
}

impl View for SummaryStep {
    type V = SummaryStepView;

    open spec fn view(&self) -> SummaryStepView {
        match self {
            SummaryStep::Cached(s) => SummaryStepView::Cached(s@),
            SummaryStep::TooLarge => SummaryStepView::TooLarge,
            SummaryStep::Request(r) => SummaryStepView::Request(r@),
        }
    }
}

/// The step for a title and content, given what the cache holds under
/// their key.
pub open spec fn planned(
    title: Seq<char>,
    content: Seq<char>,
    cached: Option<SummaryView>,
    limits: Limits,
) -> SummaryStepView {
    match cached {
        Some(summary) => SummaryStepView::Cached(summary),
        None => if content.len() > limits.ceiling {
            SummaryStepView::TooLarge
        } else {
            SummaryStepView::Request(request_for(title, content, limits))
        },
    }
}

/// Decides what to do for `title` and `text`, given what the cache holds
/// under their key: answer from the cache, refuse content beyond the
/// ceiling, or submit the request for the content cut to its tier's budget.
pub fn summarise_article(title: &str, text: &str, cached: Option<Summary>, limits: &Limits) -> (step:
    SummaryStep)
    ensures
        step@ == planned(title@, text@, summary_view(cached), *limits),
{
    match cached {
        Some(summary) => SummaryStep::Cached(summary),
        None => {
            let len = text.unicode_len();
            if len > limits.ceiling {
                return SummaryStep::TooLarge;
            }
            let extended = len > limits.standard_budget;
            let budget = if extended {
                limits.extended_budget
            } else {
                limits.standard_budget
            };
            let model = if extended {
                "gpt-3.5-turbo-16k".to_owned()
            } else {
                "gpt-3.5-turbo".to_owned()
            };
            let submitted = if len > budget {
                text.substring_char(0, budget)
            } else {
                text
            };
            let mut prompt =
                "Provide a concise summary of the following content in JSON format. If it's an article, use the provided text. If it's a video, use the provided subtitles. The JSON should have keys 'title' (rephrased from the original for brevity) and 'summary' (condensed from the original content, maintaining the tone and style of the original). Ensure the summary includes all relevant context so that someone unfamiliar with the topic can understand.\nOriginal title: ".to_owned();
            prompt.append(title);
            prompt.append("\nOriginal content: ");
            prompt.append(submitted);
            SummaryStep::Request(CompletionRequest { model, max_tokens: MAX_REPLY_TOKENS, prompt })
        },
    }
}

/// The verdict on a reply: the parsed summary, or a format error where the
/// reply did not parse.
pub open spec fn concluded(reply: Option<SummaryView>) -> Result<SummaryView, SummaryError> {
    match reply {
        Some(summary) => Ok(summary),
        None => Err(SummaryError::SummaryFormat),
    }
}

/// The mathematical value of a verdict.
pub open spec fn verdict_view(verdict: Result<Summary, SummaryError>) -> Result<
    SummaryView,
    SummaryError,
> {
    match verdict {
        Ok(summary) => Ok(summary@),
        Err(e) => Err(e),
    }
}

/// Judges the reply to a request. `reply` is the reply parsed as a title
/// and a summary, or `None` where it did not parse. An accepted summary is
/// to be stored under the key and returned; a refused reply is never stored.
pub fn conclude_summary(reply: Option<Summary>) -> (verdict: Result<Summary, SummaryError>)
    ensures
        verdict_view(verdict) == concluded(summary_view(reply)),
{
    match reply {
        Some(summary) => Ok(summary),
        None => Err(SummaryError::SummaryFormat),
    }
}

/// One run of the protocol against a cache.
pub struct SummaryRun {
    /// What the run returns.
    pub result: Result<SummaryView, SummaryError>,
    /// How many requests it submitted.
    pub calls: nat,
    /// The cache after the run.
    pub cache: Map<Seq<char>, SummaryView>,
}

/// The run for a title and content against `cache`, where the completion
/// service, if it is called, gives a reply that parses to `reply`.
pub open spec fn summary_run(
    cache: Map<Seq<char>, SummaryView>,
    title: Seq<char>,
    content: Seq<char>,
    limits: Limits,
    reply: Option<SummaryView>,
) -> SummaryRun {
    let key = summary_key_of(summary_hash_of(title, content));
    let cached = if cache.contains_key(key) {
        Some(cache[key])
    } else {
        None
    };
    match planned(title, content, cached, limits) {
        SummaryStepView::Cached(summary) => SummaryRun { result: Ok(summary), calls: 0, cache },
        SummaryStepView::TooLarge => SummaryRun {
            result: Err(SummaryError::ContentTooLarge),
            calls: 0,
            cache,
        },
        SummaryStepView::Request(_) => match concluded(reply) {
            Ok(summary) => SummaryRun {
                result: Ok(summary),
                calls: 1,
                cache: cache.insert(key, summary),
            },
            Err(e) => SummaryRun { result: Err(e), calls: 1, cache },
        },
    }
}

/// After a run that gave a summary, a second run for the same title and
/// content submits no request, returns the same summary and leaves the
/// cache as it is, whatever the service would have replied.
pub proof fn lemma_repeat_is_served_from_cache(
    cache: Map<Seq<char>, SummaryView>,
    title: Seq<char>,
    content: Seq<char>,
    limits: Limits,
    first_reply: Option<SummaryView>,
    second_reply: Option<SummaryView>,
)
    requires
        summary_run(cache, title, content, limits, first_reply).result is Ok,
    ensures
        ({
            let first = summary_run(cache, title, content, limits, first_reply);
            let second = summary_run(first.cache, title, content, limits, second_reply);
            &&& second.calls == 0
            &&& second.result == first.result
            &&& second.cache == first.cache
            &&& first.calls + second.calls <= 1
        }),
{
}

/// A first run on a cache that lacks the key, for content within the
/// ceiling, submits exactly one request.
pub proof fn lemma_miss_calls_once(
    cache: Map<Seq<char>, SummaryView>,
    title: Seq<char>,
    content: Seq<char>,
    limits: Limits,
    reply: Option<SummaryView>,
)
    requires
        !cache.contains_key(summary_key_of(summary_hash_of(title, content))),
        content.len() <= limits.ceiling,
    ensures
        summary_run(cache, title, content, limits, reply).calls == 1,
{
}

/// A run that fails leaves the cache as it was. The cache only grows, and
/// only by the summary that the run returned: no entry is ever changed or
/// dropped.
pub proof fn lemma_only_accepted_summaries_are_cached(
    cache: Map<Seq<char>, SummaryView>,
    title: Seq<char>,
    content: Seq<char>,
    limits: Limits,
    reply: Option<SummaryView>,
)
    ensures
        ({
            let run = summary_run(cache, title, content, limits, reply);
            let key = summary_key_of(summary_hash_of(title, content));
            &&& run.result is Err ==> run.cache == cache
            &&& run.result is Ok ==> run.cache.contains_key(key) && run.cache[key] == run.result->Ok_0
            &&& forall|k: Seq<char>| #[trigger]
                cache.contains_key(k) ==> run.cache.contains_key(k) && run.cache[k] == cache[k]
        }),
{
}

/// What is submitted is the content cut to exactly its tier's budget where
/// it is longer, and the content itself where it is not; content beyond the
/// ceiling is refused without a request, unless the cache already answers.
pub proof fn lemma_submission_is_within_budget(
    title: Seq<char>,
    content: Seq<char>,
    limits: Limits,
)
    ensures
        ({
            let budget = budget_of(tier_for(content.len(), limits), limits);
            let submitted = submitted_content(content, limits);
            &&& submitted.len() <= budget
            &&& submitted.is_prefix_of(content)
            &&& content.len() > budget ==> submitted.len() == budget
            &&& content.len() <= budget ==> submitted == content
            &&& content.len() > limits.ceiling ==> planned(title, content, None, limits)
                == SummaryStepView::TooLarge
            &&& content.len() <= limits.ceiling ==> planned(title, content, None, limits)
                == SummaryStepView::Request(request_for(title, content, limits))
        }),
{
}

} // verus!
