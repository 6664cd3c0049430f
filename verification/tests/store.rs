use gelf_collector::gelf::GelfParser;
use gelf_collector::storage::{DefaultBroadcaster, RecvOutcome};
use gelf_collector::{GelfMessage, InMemoryMessageStore, JsonGelfParser};

fn record(short: &str) -> GelfMessage {
    let mut m = GelfMessage::empty();
    m.short_message = Some(short.to_string());
    m
}

#[test]
fn eviction_keeps_the_most_recent_entries() {
    let mut store = InMemoryMessageStore::new(2);
    for (i, name) in ["r1", "r2", "r3"].iter().enumerate() {
        store.add_message_at(record(name), format!("raw {}", name), i as u64);
        let stats = store.get_stats();
        assert_eq!(stats.total_messages, (i + 1).min(2));
        assert_eq!(stats.max_capacity, 2);
    }
    let got = store.get_messages(None);
    assert_eq!(got.len(), 2);
    assert_eq!(got[0].gelf_message, record("r3"));
    assert_eq!(got[1].gelf_message, record("r2"));
}

#[test]
fn capacity_zero_retains_nothing() {
    let mut store = InMemoryMessageStore::new(0);
    store.add_message_at(record("r1"), "raw".to_string(), 7);
    assert_eq!(store.get_stats().total_messages, 0);
    assert_eq!(store.get_messages(None).len(), 0);
}

#[test]
fn snapshot_is_newest_first() {
    let mut store = InMemoryMessageStore::new(10);
    store.add_message_at(record("r1"), "raw1".to_string(), 1);
    store.add_message_at(record("r2"), "raw2".to_string(), 2);
    store.add_message_at(record("r3"), "raw3".to_string(), 3);
    let got = store.get_messages(None);
    assert_eq!(got.len(), 3);
    assert_eq!(got[0].gelf_message, record("r3"));
    assert_eq!(got[0].received_at, 3);
    assert_eq!(got[1].gelf_message, record("r2"));
    assert_eq!(got[2].gelf_message, record("r1"));
}

#[test]
fn snapshot_limit_zero_is_empty_and_large_limits_return_all() {
    let mut store = InMemoryMessageStore::new(10);
    store.add_message_at(record("r1"), "raw1".to_string(), 1);
    store.add_message_at(record("r2"), "raw2".to_string(), 2);
    assert_eq!(store.get_messages(Some(0)).len(), 0);
    assert_eq!(store.get_messages(Some(1)).len(), 1);
    assert_eq!(store.get_messages(Some(1))[0].gelf_message, record("r2"));
    assert_eq!(store.get_messages(Some(2)).len(), 2);
    assert_eq!(store.get_messages(Some(99)).len(), 2);
    let capped = store.get_messages(Some(99));
    let full = store.get_messages(None);
    assert_eq!(capped, full);
}

#[test]
fn add_message_stamps_a_reception_time() {
    let mut store = InMemoryMessageStore::new(4);
    store.add_message(record("r1"), "raw1".to_string());
    let got = store.get_messages(None);
    assert_eq!(got.len(), 1);
    assert_eq!(got[0].gelf_message, record("r1"));
    assert!(got[0].received_at > 0);
}

#[test]
fn early_subscriber_sees_the_message_late_subscriber_does_not() {
    let mut store = InMemoryMessageStore::new(10);
    let mut s1 = store.subscribe();
    store.add_message_at(record("m"), "raw".to_string(), 5);
    let mut s2 = store.subscribe();
    match s1.try_next() {
        RecvOutcome::Message(resp) => {
            assert_eq!(resp.gelf_message, record("m"));
            assert_eq!(resp.received_at, 5);
        }
        other => panic!("expected a message, got {:?}", other),
    }
    assert_eq!(s1.try_next(), RecvOutcome::Empty);
    assert_eq!(s2.try_next(), RecvOutcome::Empty);
}

#[test]
fn slow_subscriber_sees_a_lag_signal_and_publishing_never_blocks() {
    // channel capacity 2: publishing three messages overwrites the first
    let broadcaster = DefaultBroadcaster::new(2);
    let mut store = InMemoryMessageStore::with_broadcaster(10, broadcaster);
    let mut rx = store.subscribe();
    store.add_message_at(record("m1"), "raw1".to_string(), 1);
    store.add_message_at(record("m2"), "raw2".to_string(), 2);
    store.add_message_at(record("m3"), "raw3".to_string(), 3);
    assert_eq!(rx.try_next(), RecvOutcome::Lagged(1));
    match rx.try_next() {
        RecvOutcome::Message(resp) => assert_eq!(resp.gelf_message, record("m2")),
        other => panic!("expected m2, got {:?}", other),
    }
    match rx.try_next() {
        RecvOutcome::Message(resp) => assert_eq!(resp.gelf_message, record("m3")),
        other => panic!("expected m3, got {:?}", other),
    }
    assert_eq!(rx.try_next(), RecvOutcome::Empty);
}

#[test]
fn publishing_with_no_subscribers_does_not_fail() {
    let mut store = InMemoryMessageStore::new(4);
    store.add_message_at(record("m"), "raw".to_string(), 1);
    assert_eq!(store.get_stats().total_messages, 1);
}

#[test]
fn dropping_one_subscriber_leaves_the_other_delivering() {
    let mut store = InMemoryMessageStore::new(10);
    let s1 = store.subscribe();
    let mut s2 = store.subscribe();
    drop(s1);
    store.add_message_at(record("m"), "raw".to_string(), 9);
    match s2.try_next() {
        RecvOutcome::Message(resp) => assert_eq!(resp.gelf_message, record("m")),
        other => panic!("expected a message, got {:?}", other),
    }
}

#[test]
fn stored_message_projects_to_a_response_without_raw_text() {
    let stored = gelf_collector::StoredMessage::new(record("m"), "raw text".to_string());
    assert_eq!(stored.gelf_message, record("m"));
    assert_eq!(stored.raw_message, "raw text".to_string());
    let resp = stored.to_response();
    assert_eq!(resp.gelf_message, record("m"));
    assert_eq!(resp.received_at, stored.received_at);
}

#[test]
fn parser_trait_is_usable_through_a_generic_caller() {
    fn parse_with<P: GelfParser>(p: &P, text: &str) -> Option<GelfMessage> {
        p.parse(text).ok()
    }
    let m = parse_with(&JsonGelfParser, "{\"host\":\"h\"}").unwrap();
    assert_eq!(m.host, Some("h".to_string()));
}
