//! The read-status transition: any status may follow any other, on the
//! command of the reader.
//!
//! The caller decodes the link, looks the article up under its key and
//! hands the finding to `update_article_status`. An `Ok` is the record to
//! write back under the same key; an `Err` means that nothing is written.

use vstd::prelude::*;
use crate::article::{parsed_status, unknown_status_message, Article, ArticleView, ReadStatus};
use crate::keys::{article_key, article_key_of};
use crate::outside::{percent_decode, percent_decoded};

verus! {

/// Why a status update was not carried out.
#[derive(Debug, Clone)]
pub enum StatusError {
    /// The link in the command does not decode; the message says why.
    BadLink(String),
    /// The store holds no article under the link.
    NotFound,
    /// The store could not be read; the message says why.
    ReadFailed(String),
    /// The requested name spells no status; the message quotes it.
    UnknownStatus(String),
    /// The store could not be written; the message says why.
    WriteFailed(String),
    /// An event was reported that the command was not waiting for.
    OutOfOrder,
}

/// The mathematical value of a `StatusError`.
pub enum StatusErrorView {
    BadLink(Seq<char>),
    NotFound,
    ReadFailed(Seq<char>),
    UnknownStatus(Seq<char>),
    WriteFailed(Seq<char>),
    OutOfOrder,
}

impl View for StatusError {
    type V = StatusErrorView;

    open spec fn view(&self) -> StatusErrorView {
        match self {
            StatusError::BadLink(m) => StatusErrorView::BadLink(m@),
            StatusError::NotFound => StatusErrorView::NotFound,
            StatusError::ReadFailed(m) => StatusErrorView::ReadFailed(m@),
            StatusError::UnknownStatus(m) => StatusErrorView::UnknownStatus(m@),
            StatusError::WriteFailed(m) => StatusErrorView::WriteFailed(m@),
            StatusError::OutOfOrder => StatusErrorView::OutOfOrder,
        }
    }
}

/// The link that a command carries, decoded; or why it does not decode.
pub open spec fn decoded_link(raw: Seq<char>) -> Result<Seq<char>, StatusErrorView> {
    match percent_decoded(raw) {
        Ok(link) => Ok(link),
        Err(message) => Err(StatusErrorView::BadLink(message)),
    }
}

/// The mathematical value of a decoded link.
pub open spec fn link_view(r: Result<String, StatusError>) -> Result<Seq<char>, StatusErrorView> {
    match r {
        Ok(link) => Ok(link@),
        Err(e) => Err(e@),
    }
}

/// Decodes the percent-encoded link of a command.
pub fn decode_link(raw: &str) -> (r: Result<String, StatusError>)
    ensures
        link_view(r) == decoded_link(raw@),
{
    link_from(percent_decode(raw))
}

/// Turns the outcome of the decoding into the link or the error to report.
pub fn link_from(decoded: Result<String, String>) -> (r: Result<String, StatusError>)
    ensures
        match decoded {
            Ok(link) => link_view(r) == Ok::<Seq<char>, StatusErrorView>(link@),
            Err(message) => link_view(r) == Err::<Seq<char>, StatusErrorView>(
                StatusErrorView::BadLink(message@),
            ),
        },
{
    match decoded {
        Ok(link) => Ok(link),
        Err(message) => Err(StatusError::BadLink(message)),
    }
}

/// The article `article` with the status `status`, and nothing else changed.
pub open spec fn with_status(article: ArticleView, status: ReadStatus) -> ArticleView {
    ArticleView {
        link: article.link,
        channel: article.channel,
        title: article.title,
        published: article.published,
        image: article.image,
        summary: article.summary,
        read_status: status,
    }
}

/// The outcome of a command for the status named `name` on what the store
/// holds under the link: the record to write back, or the error. The
/// article is looked for before the name is read.
pub open spec fn status_update(stored: Option<ArticleView>, name: Seq<char>) -> Result<
    ArticleView,
    StatusErrorView,
> {
    match stored {
        None => Err(StatusErrorView::NotFound),
        Some(article) => match parsed_status(name) {
            Some(status) => Ok(with_status(article, status)),
            None => Err(StatusErrorView::UnknownStatus(unknown_status_message(name))),
        },
    }
}

/// The mathematical value of an optional article.
pub open spec fn article_view(article: Option<Article>) -> Option<ArticleView> {
    match article {
        Some(a) => Some(a@),
        None => None,
    }
}

/// The mathematical value of the outcome of an update.
pub open spec fn update_view(r: Result<Article, StatusError>) -> Result<
    ArticleView,
    StatusErrorView,
> {
    match r {
        Ok(article) => Ok(article@),
        Err(e) => Err(e@),
    }
}

/// Moves an article to the status named `new_status`. `stored` is what the
/// store holds under the article's key. Every status may follow every
/// other; only an unknown name or a missing article is refused.
pub fn update_article_status(stored: Option<Article>, new_status: &str) -> (r: Result<
    Article,
    StatusError,
>)
    ensures
        update_view(r) == status_update(article_view(stored), new_status@),
{
    match stored {
        None => Err(StatusError::NotFound),
        Some(article) => match ReadStatus::from_str(new_status) {
            Ok(status) => {
                let mut updated = article;
                updated.read_status = status;
                Ok(updated)
            },
            Err(message) => Err(StatusError::UnknownStatus(message)),
        },
    }
}

/// The answer to a status command.
#[derive(Debug, Clone)]
pub struct Envelope {
    /// `success` or `error`.
    pub status: String,
    pub message: String,
}

/// The mathematical value of an `Envelope`.
pub struct EnvelopeView {
    pub status: Seq<char>,
    pub message: Seq<char>,
}

impl View for Envelope {
    type V = EnvelopeView;

    open spec fn view(&self) -> EnvelopeView {
        EnvelopeView { status: self.status@, message: self.message@ }
    }
}

/// The message that reports an error.
pub open spec fn error_message(error: StatusErrorView) -> Seq<char> {
    match error {
        StatusErrorView::BadLink(m) => m,
        StatusErrorView::NotFound => "Failed to get article from database: Article not found"@,
        StatusErrorView::ReadFailed(m) => "Failed to get article from database: "@ + m,
        StatusErrorView::UnknownStatus(m) => "Failed to convert new status to ReadStatus: "@ + m,
        StatusErrorView::WriteFailed(m) => "Failed to store updated article in database: "@ + m,
        StatusErrorView::OutOfOrder => "Unexpected event"@,
    }
}

/// The envelope for the outcome of a command: `None` for success.
pub open spec fn envelope_of(error: Option<StatusErrorView>) -> EnvelopeView {
    match error {
        None => EnvelopeView {
            status: "success"@,
            message: "Article status updated successfully"@,
        },
        Some(e) => EnvelopeView { status: "error"@, message: error_message(e) },
    }
}

/// The mathematical value of an optional error.
pub open spec fn error_view(error: Option<&StatusError>) -> Option<StatusErrorView> {
    match error {
        Some(e) => Some(e@),
        None => None,
    }
}

fn prefixed(prefix: &str, message: &String) -> (r: String)
    ensures
        r@ == prefix@ + message@,
{
    let mut r = prefix.to_owned();
    r.append(message.as_str());
    r
}

/// Builds the envelope that answers a command: success where `error` is
/// `None`, else the error with its message.
pub fn status_envelope(error: Option<&StatusError>) -> (envelope: Envelope)
    ensures
        envelope@ == envelope_of(error_view(error)),
{
    match error {
        None => Envelope {
            status: "success".to_owned(),
            message: "Article status updated successfully".to_owned(),
        },
        Some(e) => {
            let message = match e {
                StatusError::BadLink(m) => m.clone(),
                StatusError::NotFound => "Failed to get article from database: Article not found".to_owned(),
                StatusError::ReadFailed(m) => prefixed("Failed to get article from database: ", m),
                StatusError::UnknownStatus(m) => prefixed(
                    "Failed to convert new status to ReadStatus: ",
                    m,
                ),
                StatusError::WriteFailed(m) => prefixed(
                    "Failed to store updated article in database: ",
                    m,
                ),
                StatusError::OutOfOrder => "Unexpected event".to_owned(),
            };
            Envelope { status: "error".to_owned(), message }
        },
    }
}

/// What the store holds under `key`.
pub open spec fn held(store: Map<Seq<char>, ArticleView>, key: Seq<char>) -> Option<ArticleView> {
    if store.contains_key(key) {
        Some(store[key])
    } else {
        None
    }
}

/// The store after a command for the status named `name` on the article
/// with the link `link`: the updated record is written back under the
/// article's key; a refused command writes nothing.
pub open spec fn store_after_update(
    store: Map<Seq<char>, ArticleView>,
    link: Seq<char>,
    name: Seq<char>,
) -> Map<Seq<char>, ArticleView> {
    let key = article_key_of(link);
    match status_update(held(store, key), name) {
        Ok(article) => store.insert(key, article),
        Err(_) => store,
    }
}

/// A command for a link that the store does not hold is answered with
/// `NotFound`, and a command with a name that spells no status with
/// `UnknownStatus` (or `NotFound`); neither changes the store.
pub proof fn lemma_refused_update_writes_nothing(
    store: Map<Seq<char>, ArticleView>,
    link: Seq<char>,
    name: Seq<char>,
)
    ensures
        ({
            let key = article_key_of(link);
            let outcome = status_update(held(store, key), name);
            &&& !store.contains_key(key) ==> outcome == Err::<ArticleView, StatusErrorView>(
                StatusErrorView::NotFound,
            )
            &&& store.contains_key(key) && parsed_status(name) is None ==> outcome == Err::<
                ArticleView,
                StatusErrorView,
            >(StatusErrorView::UnknownStatus(unknown_status_message(name)))
            &&& outcome is Err ==> store_after_update(store, link, name) == store
        }),
{
}

/// A command with the name of a status on a stored article succeeds from
/// every current status. It changes the status of that one record and
/// nothing else: no other field, no other record, no key.
pub proof fn lemma_update_changes_status_only(
    store: Map<Seq<char>, ArticleView>,
    link: Seq<char>,
    name: Seq<char>,
)
    requires
        store.contains_key(article_key_of(link)),
        parsed_status(name) is Some,
    ensures
        ({
            let key = article_key_of(link);
            let after = store_after_update(store, link, name);
            &&& after.dom() == store.dom()
            &&& after[key] == with_status(store[key], parsed_status(name)->0)
            &&& forall|k: Seq<char>| store.contains_key(k) && k != key ==> after[k] == store[k]
        }),
{
    let key = article_key_of(link);
    let after = store_after_update(store, link, name);
    assert(after.dom() =~= store.dom());
}

/// What the caller reports back to a command.
#[derive(Debug)]
pub enum StatusEvent {
    /// What the store holds under the key, or why it could not be read.
    Held(Result<Option<Article>, String>),
    /// The write has returned, with the reason where it failed.
    Written(Result<(), String>),
}

/// The mathematical value of a `StatusEvent`.
pub enum StatusEventView {
    Held(Result<Option<ArticleView>, Seq<char>>),
    Written(Result<(), Seq<char>>),
}

impl View for StatusEvent {
    type V = StatusEventView;

    open spec fn view(&self) -> StatusEventView {
        match self {
            StatusEvent::Held(held) => StatusEventView::Held(
                match held {
                    Ok(stored) => Ok(article_view(*stored)),
                    Err(m) => Err(m@),
                },
            ),
            StatusEvent::Written(written) => StatusEventView::Written(
                match written {
                    Ok(_) => Ok(()),
                    Err(m) => Err(m@),
                },
            ),
        }
    }
}

/// What the caller is to do next for a command.
#[derive(Debug, Clone)]
pub enum StatusAction {
    /// Read the article under `key`; report `Held`.
    Read { key: String },
    /// Write the article under `key`; report `Written`.
    Store { key: String, article: Article },
    /// The command is over: answer with the envelope.
    Answer(Envelope),
}

/// The mathematical value of a `StatusAction`.
pub enum StatusActionView {
    Read { key: Seq<char> },
    Store { key: Seq<char>, article: ArticleView },
    Answer(EnvelopeView),
}

impl View for StatusAction {
    type V = StatusActionView;

    open spec fn view(&self) -> StatusActionView {
        match self {
            StatusAction::Read { key } => StatusActionView::Read { key: key@ },
            StatusAction::Store { key, article } => StatusActionView::Store {
                key: key@,
                article: article@,
            },
            StatusAction::Answer(envelope) => StatusActionView::Answer(envelope@),
        }
    }
}

/// Where a command stands.
pub enum StatusStateView {
    /// Waits for `Held`.
    Lookup { key: Seq<char>, name: Seq<char> },
    /// Waits for `Written`.
    Write,
    /// Over.
    Done,
}

enum Stage {
    Lookup { key: String, name: String },
    Write,
    Done,
}

/// One command to move an article to another status.
pub struct StatusTask {
    stage: Stage,
}

impl View for StatusTask {
    type V = StatusStateView;

    closed spec fn view(&self) -> StatusStateView {
        match self.stage {
            Stage::Lookup { key, name } => StatusStateView::Lookup { key: key@, name: name@ },
            Stage::Write => StatusStateView::Write,
            Stage::Done => StatusStateView::Done,
        }
    }
}

/// A step of a command: the state it moves to and the action it asks for.
pub struct StatusStep {
    pub state: StatusStateView,
    pub action: StatusActionView,
}

/// The step that ends a command with an answer.
pub open spec fn answered(error: Option<StatusErrorView>) -> StatusStep {
    StatusStep { state: StatusStateView::Done, action: StatusActionView::Answer(envelope_of(error)) }
}

/// The first step of a command: the link is decoded and the article is
/// asked for under its key. A link that does not decode is answered at
/// once.
pub open spec fn first_step(raw_link: Seq<char>, name: Seq<char>) -> StatusStep {
    match decoded_link(raw_link) {
        Ok(link) => StatusStep {
            state: StatusStateView::Lookup { key: article_key_of(link), name },
            action: StatusActionView::Read { key: article_key_of(link) },
        },
        Err(e) => answered(Some(e)),
    }
}

/// The step that a command takes on an event. An event that the command
/// does not wait for ends it.
pub open spec fn status_step(state: StatusStateView, event: StatusEventView) -> StatusStep {
    match (state, event) {
        (StatusStateView::Lookup { key, name }, StatusEventView::Held(held)) => match held {
            Err(m) => answered(Some(StatusErrorView::ReadFailed(m))),
            Ok(stored) => match status_update(stored, name) {
                Ok(article) => StatusStep {
                    state: StatusStateView::Write,
                    action: StatusActionView::Store { key, article },
                },
                Err(e) => answered(Some(e)),
            },
        },
        (StatusStateView::Write, StatusEventView::Written(written)) => match written {
            Ok(_) => answered(None),
            Err(m) => answered(Some(StatusErrorView::WriteFailed(m))),
        },
        _ => answered(Some(StatusErrorView::OutOfOrder)),
    }
}

impl StatusTask {
    fn answer(error: Option<&StatusError>) -> (r: (StatusTask, StatusAction))
        ensures
            r.0@ == answered(error_view(error)).state,
            r.1@ == answered(error_view(error)).action,
    {
        (StatusTask { stage: Stage::Done }, StatusAction::Answer(status_envelope(error)))
    }

    /// Whether the command is over.
    pub fn is_done(&self) -> (done: bool)
        ensures
            done == (self@ is Done),
    {
        match self.stage {
            Stage::Done => true,
            _ => false,
        }
    }

    /// Begins a command for the article with the percent-encoded link
    /// `raw_link` and the status named `new_status`.
    pub fn start(raw_link: &str, new_status: &str) -> (r: (StatusTask, StatusAction))
        ensures
            r.0@ == first_step(raw_link@, new_status@).state,
            r.1@ == first_step(raw_link@, new_status@).action,
    {
        match decode_link(raw_link) {
            Ok(link) => {
                let key = article_key(link.as_str());
                let task = StatusTask {
                    stage: Stage::Lookup { key: key.clone(), name: new_status.to_owned() },
                };
                (task, StatusAction::Read { key })
            },
            Err(e) => StatusTask::answer(Some(&e)),
        }
    }

    /// Takes the report of what came of the last action, and states the
    /// next one.
    pub fn advance(self, event: StatusEvent) -> (r: (StatusTask, StatusAction))
        ensures
            r.0@ == status_step(self@, event@).state,
            r.1@ == status_step(self@, event@).action,
    {
        match self.stage {
            Stage::Lookup { key, name } => match event {
                StatusEvent::Held(Err(m)) => StatusTask::answer(Some(&StatusError::ReadFailed(m))),
                StatusEvent::Held(Ok(stored)) => match update_article_status(
                    stored,
                    name.as_str(),
                ) {
                    Ok(article) => (
                        StatusTask { stage: Stage::Write },
                        StatusAction::Store { key, article },
                    ),
                    Err(e) => StatusTask::answer(Some(&e)),
                },
                _ => StatusTask::answer(Some(&StatusError::OutOfOrder)),
            },
            Stage::Write => match event {
                StatusEvent::Written(Ok(_)) => StatusTask::answer(None),
                StatusEvent::Written(Err(m)) => StatusTask::answer(
                    Some(&StatusError::WriteFailed(m)),
                ),
                _ => StatusTask::answer(Some(&StatusError::OutOfOrder)),
            },
            Stage::Done => StatusTask::answer(Some(&StatusError::OutOfOrder)),
        }
    }
}

/// A command for an article that the store does not hold, or with a name
/// that spells no status, is answered with an error at once: no write is
/// ever asked for.
pub proof fn lemma_refused_command_asks_for_no_write(
    key: Seq<char>,
    name: Seq<char>,
    stored: Option<ArticleView>,
)
    requires
        stored is None || parsed_status(name) is None,
    ensures
        ({
            let step = status_step(
                StatusStateView::Lookup { key, name },
                StatusEventView::Held(Ok(stored)),
            );
            &&& step.state is Done
            &&& step.action is Answer
            &&& step.action->Answer_0.status == "error"@
            &&& stored is None ==> step.action->Answer_0.message == error_message(
                StatusErrorView::NotFound,
            )
            &&& stored is Some ==> step.action->Answer_0.message == error_message(
                StatusErrorView::UnknownStatus(unknown_status_message(name)),
            )
        }),
{
}

/// A write is only ever asked for under the key that was read, and for the
/// article that the store held there, with its status changed and nothing
/// else.
pub proof fn lemma_command_writes_the_held_article(state: StatusStateView, event: StatusEventView)
    ensures
        status_step(state, event).action matches StatusActionView::Store { key, article } ==> {
            &&& state matches StatusStateView::Lookup { key: read_key, name }
            &&& key == read_key
            &&& event matches StatusEventView::Held(Ok(Some(held)))
            &&& parsed_status(name) is Some
            &&& article == with_status(held, parsed_status(name)->0)
        },
{
}

} // verus!
