use feed_curator::article::{Article, ReadStatus};
use feed_curator::keys::{article_key, article_prefix, channel_key, summary_key};
use feed_curator::status::{
    decode_link, link_from, status_envelope, update_article_status, StatusAction, StatusError,
    StatusEvent, StatusTask,
};

fn article(status: ReadStatus) -> Article {
    Article {
        link: "https://example.com/a".to_string(),
        channel: "https://example.com/feed".to_string(),
        title: "Title".to_string(),
        published: "2024-01-02T03:04:05+00:00".to_string(),
        image: "https://example.com/a.png".to_string(),
        summary: "Summary".to_string(),
        read_status: status,
    }
}

#[test]
fn keys_carry_the_prefix_of_their_kind() {
    assert_eq!(article_key("https://example.com/a"), "article:https://example.com/a");
    assert_eq!(article_key(""), "article:");
    assert_eq!(article_prefix(), "article:");
    assert_eq!(channel_key("https://example.com/feed"), "channel:https://example.com/feed");
    assert_eq!(summary_key(0), "summary:0");
    assert_eq!(summary_key(9876543210), "summary:9876543210");
}

#[test]
fn status_names_are_read() {
    assert_eq!(ReadStatus::from_str("Fresh"), Ok(ReadStatus::Fresh));
    assert_eq!(ReadStatus::from_str("Saved"), Ok(ReadStatus::Saved));
    assert_eq!(ReadStatus::from_str("Archived"), Ok(ReadStatus::Archived));
}

#[test]
fn other_names_are_refused_with_a_message() {
    assert_eq!(
        ReadStatus::from_str("Deleted"),
        Err("'Deleted' is not a valid read status".to_string())
    );
    assert_eq!(ReadStatus::from_str("fresh"), Err("'fresh' is not a valid read status".to_string()));
    assert_eq!(ReadStatus::from_str(""), Err("'' is not a valid read status".to_string()));
}

#[test]
fn status_names_round_trip() {
    for status in [ReadStatus::Fresh, ReadStatus::Saved, ReadStatus::Archived] {
        assert_eq!(ReadStatus::from_str(status.name()), Ok(status));
    }
    assert_eq!(ReadStatus::Archived.name(), "Archived");
}

#[test]
fn every_status_may_follow_every_other() {
    for from in [ReadStatus::Fresh, ReadStatus::Saved, ReadStatus::Archived] {
        for to in [ReadStatus::Fresh, ReadStatus::Saved, ReadStatus::Archived] {
            let updated = update_article_status(Some(article(from)), to.name()).expect("updated");
            assert_eq!(updated.read_status, to);
            assert_eq!(updated.link, "https://example.com/a");
            assert_eq!(updated.channel, "https://example.com/feed");
            assert_eq!(updated.title, "Title");
            assert_eq!(updated.published, "2024-01-02T03:04:05+00:00");
            assert_eq!(updated.image, "https://example.com/a.png");
            assert_eq!(updated.summary, "Summary");
        }
    }
}

#[test]
fn missing_article_is_not_found() {
    let outcome = update_article_status(None, "Saved");
    assert!(matches!(outcome, Err(StatusError::NotFound)));
    let envelope = status_envelope(outcome.as_ref().err());
    assert_eq!(envelope.status, "error");
    assert_eq!(envelope.message, "Failed to get article from database: Article not found");
}

#[test]
fn missing_article_comes_before_the_unknown_status() {
    assert!(matches!(update_article_status(None, "Nonsense"), Err(StatusError::NotFound)));
}

#[test]
fn unknown_status_is_refused() {
    let outcome = update_article_status(Some(article(ReadStatus::Fresh)), "Nonsense");
    match &outcome {
        Err(StatusError::UnknownStatus(message)) => {
            assert_eq!(message, "'Nonsense' is not a valid read status")
        }
        _ => panic!("expected an unknown status"),
    }
    let envelope = status_envelope(outcome.as_ref().err());
    assert_eq!(envelope.status, "error");
    assert_eq!(
        envelope.message,
        "Failed to convert new status to ReadStatus: 'Nonsense' is not a valid read status"
    );
}

#[test]
fn refused_commands_write_nothing() {
    let mut store = std::collections::BTreeMap::new();
    store.insert(article_key("https://example.com/a"), article(ReadStatus::Fresh));
    let before = format!("{:?}", store);
    for (link, status) in [("https://example.com/other", "Saved"), ("https://example.com/a", "Nope")] {
        let key = article_key(link);
        if let Ok(updated) = update_article_status(store.get(&key).cloned(), status) {
            store.insert(key, updated);
        }
    }
    assert_eq!(format!("{:?}", store), before);
    let key = article_key("https://example.com/a");
    if let Ok(updated) = update_article_status(store.get(&key).cloned(), "Archived") {
        store.insert(key.clone(), updated);
    }
    assert_eq!(store.len(), 1);
    assert_eq!(store[&key].read_status, ReadStatus::Archived);
}

#[test]
fn success_and_store_failures_have_their_envelopes() {
    let ok = status_envelope(None);
    assert_eq!(ok.status, "success");
    assert_eq!(ok.message, "Article status updated successfully");
    let read = status_envelope(Some(&StatusError::ReadFailed("io".to_string())));
    assert_eq!(read.status, "error");
    assert_eq!(read.message, "Failed to get article from database: io");
    let write = status_envelope(Some(&StatusError::WriteFailed("disk full".to_string())));
    assert_eq!(write.message, "Failed to store updated article in database: disk full");
    let link = status_envelope(Some(&StatusError::BadLink("bad".to_string())));
    assert_eq!(link.status, "error");
    assert_eq!(link.message, "bad");
}

#[test]
fn links_are_percent_decoded() {
    assert_eq!(
        decode_link("https%3A%2F%2Fexample.com%2Fa%20b").ok(),
        Some("https://example.com/a b".to_string())
    );
    assert_eq!(decode_link("plain+text").ok(), Some("plain+text".to_string()));
    assert_eq!(decode_link("caf%C3%A9").ok(), Some("café".to_string()));
}

#[test]
fn link_that_is_no_text_is_refused() {
    match decode_link("%FF%FE") {
        Err(StatusError::BadLink(message)) => assert!(message.contains("utf-8")),
        _ => panic!("expected a bad link"),
    }
    assert!(matches!(link_from(Err("m".to_string())), Err(StatusError::BadLink(m)) if m == "m"));
    assert_eq!(link_from(Ok("l".to_string())).ok(), Some("l".to_string()));
}

/// Carries a command to its end against a store; counts the writes.
fn put(
    store: &mut std::collections::BTreeMap<String, Article>,
    writes: &mut u32,
    link: &str,
    status: &str,
) -> (String, String) {
    let (mut task, mut action) = StatusTask::start(link, status);
    for _ in 0..8 {
        let event = match action {
            StatusAction::Read { key } => StatusEvent::Held(Ok(store.get(&key).cloned())),
            StatusAction::Store { key, article } => {
                *writes += 1;
                store.insert(key, article);
                StatusEvent::Written(Ok(()))
            }
            StatusAction::Answer(envelope) => {
                assert!(task.is_done());
                return (envelope.status, envelope.message);
            }
        };
        let next = task.advance(event);
        task = next.0;
        action = next.1;
    }
    panic!("the command did not end");
}

#[test]
fn command_for_a_link_that_is_not_stored_writes_nothing() {
    let mut store = std::collections::BTreeMap::new();
    store.insert(article_key("https://example.com/a"), article(ReadStatus::Fresh));
    let mut writes = 0;
    let answer = put(&mut store, &mut writes, "https%3A%2F%2Fexample.com%2Fmissing", "Saved");
    assert_eq!(
        answer,
        ("error".to_string(), "Failed to get article from database: Article not found".to_string())
    );
    assert_eq!(writes, 0);
    assert_eq!(store.len(), 1);
    assert_eq!(store["article:https://example.com/a"].read_status, ReadStatus::Fresh);
}

#[test]
fn command_with_an_unknown_status_writes_nothing() {
    let mut store = std::collections::BTreeMap::new();
    store.insert(article_key("https://example.com/a"), article(ReadStatus::Fresh));
    let mut writes = 0;
    let answer = put(&mut store, &mut writes, "https%3A%2F%2Fexample.com%2Fa", "Deleted");
    assert_eq!(
        answer,
        (
            "error".to_string(),
            "Failed to convert new status to ReadStatus: 'Deleted' is not a valid read status"
                .to_string()
        )
    );
    assert_eq!(writes, 0);
    assert_eq!(store["article:https://example.com/a"].read_status, ReadStatus::Fresh);
}

#[test]
fn command_moves_the_article_and_answers_success() {
    let mut store = std::collections::BTreeMap::new();
    store.insert(article_key("https://example.com/a"), article(ReadStatus::Fresh));
    let mut writes = 0;
    let answer = put(&mut store, &mut writes, "https%3A%2F%2Fexample.com%2Fa", "Archived");
    assert_eq!(
        answer,
        ("success".to_string(), "Article status updated successfully".to_string())
    );
    assert_eq!(writes, 1);
    assert_eq!(store.len(), 1);
    let a = &store["article:https://example.com/a"];
    assert_eq!(a.read_status, ReadStatus::Archived);
    assert_eq!(a.title, "Title");
    let answer = put(&mut store, &mut writes, "https%3A%2F%2Fexample.com%2Fa", "Fresh");
    assert_eq!(answer.0, "success");
    assert_eq!(store["article:https://example.com/a"].read_status, ReadStatus::Fresh);
}

#[test]
fn command_reports_what_the_store_reports() {
    let (task, action) = StatusTask::start("a", "Saved");
    assert!(matches!(&action, StatusAction::Read { key } if key == "article:a"));
    let (task, action) = task.advance(StatusEvent::Held(Err("io".to_string())));
    assert!(task.is_done());
    assert!(matches!(action, StatusAction::Answer(e) if e.status == "error" && e.message == "Failed to get article from database: io"));

    let (task, _) = StatusTask::start("a", "Saved");
    let (task, action) = task.advance(StatusEvent::Held(Ok(Some(article(ReadStatus::Fresh)))));
    assert!(matches!(&action, StatusAction::Store { key, article } if key == "article:a" && article.read_status == ReadStatus::Saved));
    let (_, action) = task.advance(StatusEvent::Written(Err("disk full".to_string())));
    assert!(matches!(action, StatusAction::Answer(e) if e.message == "Failed to store updated article in database: disk full"));
}

#[test]
fn command_with_a_link_that_does_not_decode_is_answered_at_once() {
    let (task, action) = StatusTask::start("%FF", "Saved");
    assert!(task.is_done());
    assert!(matches!(action, StatusAction::Answer(e) if e.status == "error" && e.message.contains("utf-8")));
}

#[test]
fn command_ends_on_an_event_it_does_not_wait_for() {
    let (task, _) = StatusTask::start("a", "Saved");
    let (task, action) = task.advance(StatusEvent::Written(Ok(())));
    assert!(task.is_done());
    assert!(matches!(action, StatusAction::Answer(e) if e.status == "error" && e.message == "Unexpected event"));
    let (_, action) = task.advance(StatusEvent::Held(Ok(None)));
    assert!(matches!(action, StatusAction::Answer(e) if e.message == "Unexpected event"));
}
