use qqbot_core::record::{LocalDateTime, MessageRecord};
use qqbot_core::store::{AppendAction, LinkAction, MessageStore, StoreConfig, StoreError};

fn log_config() -> StoreConfig {
    StoreConfig {
        connection_url: Some("mysql://user@localhost:3306/chat".to_string()),
        reconnect_max_attempts: Some(2),
        reconnect_interval_secs: Some(5),
    }
}

fn rows(n: usize) -> Vec<(String, String)> {
    (0..n).map(|i| (format!("m{i}"), format!("v{i}"))).collect()
}

fn record() -> MessageRecord {
    MessageRecord {
        message_id: "1".to_string(),
        sender_id: "2".to_string(),
        sender_name: "n".to_string(),
        send_time: LocalDateTime { year: 2024, month: 5, day: 6, hour: 7, minute: 8, second: 9 },
        group_id: None,
        group_name: None,
        content: "c".to_string(),
        at_target_list: None,
    }
}

#[test]
fn test_memory_store() {
    let mut store = MessageStore::memory_only();
    store.store_message("id1", "hello");
    let val = store.get_message("id1");
    assert_eq!(val, Some("hello".to_string()));
}

#[test]
fn test_memory_store_overwrite() {
    let mut store = MessageStore::memory_only();
    store.store_message("id2", "foo");
    store.store_message("id2", "bar");
    let val = store.get_message("id2");
    assert_eq!(val, Some("bar".to_string()));
}

#[test]
fn missing_key_reads_none() {
    let mut store = MessageStore::memory_only();
    store.store_message("a", "1");
    assert_eq!(store.get_message("b"), None);
    store.store_message("", "");
    assert_eq!(store.get_message(""), Some(String::new()));
}

#[test]
fn memory_only_store_degrades_gracefully() {
    let mut store = MessageStore::memory_only();
    assert!(!store.store_message("k", "v"));
    assert_eq!(store.get_message("k"), Some("v".to_string()));
    assert_eq!(store.append_record(record()), Ok(AppendAction::Skip));
    assert_eq!(store.hydrate(&rows(3), 10), Ok(0));
    assert_eq!(store.get_message("m0"), None);
    assert!(!store.cache_active());
    assert!(!store.log_active());
}

#[test]
fn hydration_loads_the_newest_rows_up_to_limit() {
    let mut store = MessageStore::new(&StoreConfig::disabled(), &log_config());
    assert_eq!(store.hydrate(&rows(5), 2), Ok(2));
    assert_eq!(store.get_message("m4"), Some("v4".to_string()));
    assert_eq!(store.get_message("m3"), Some("v3".to_string()));
    assert_eq!(store.get_message("m2"), None);
    assert_eq!(store.get_message("m0"), None);
}

#[test]
fn hydration_loads_all_rows_when_limit_is_large() {
    let mut store = MessageStore::new(&StoreConfig::disabled(), &log_config());
    assert_eq!(store.hydrate(&rows(3), 3), Ok(3));
    assert_eq!(store.get_message("m0"), Some("v0".to_string()));
    let mut other = MessageStore::new(&StoreConfig::disabled(), &log_config());
    assert_eq!(other.hydrate(&rows(3), 1000), Ok(3));
    assert_eq!(other.hydrate(&Vec::new(), 10), Ok(0));
}

#[test]
fn hydration_keeps_newest_value_of_repeated_key() {
    let mut store = MessageStore::new(&StoreConfig::disabled(), &log_config());
    let log = vec![("k".to_string(), "old".to_string()), ("k".to_string(), "new".to_string())];
    assert_eq!(store.hydrate(&log, 5), Ok(2));
    assert_eq!(store.get_message("k"), Some("new".to_string()));
}

#[test]
fn durable_log_is_given_up_after_its_attempts() {
    let mut store = MessageStore::new(&StoreConfig::disabled(), &log_config());
    assert_eq!(store.append_record(record()), Ok(AppendAction::Write(record())));
    assert_eq!(store.on_log_connect(false), LinkAction::RetryAfter(5));
    assert_eq!(store.on_log_connect(false), LinkAction::RetryAfter(5));
    assert_eq!(store.on_log_connect(false), LinkAction::GiveUp);
    assert_eq!(store.on_log_connect(true), LinkAction::GiveUp);
    assert_eq!(store.append_record(record()), Err(StoreError::Unavailable));
    assert_eq!(store.hydrate(&rows(2), 2), Err(StoreError::Unavailable));
    store.store_message("still", "works");
    assert_eq!(store.get_message("still"), Some("works".to_string()));
}

#[test]
fn success_resets_the_failure_count() {
    let cache = StoreConfig { connection_url: Some("redis://h:6379/0".to_string()), ..StoreConfig::disabled() };
    let mut store = MessageStore::new(&cache, &StoreConfig::disabled());
    assert!(store.store_message("a", "b"));
    assert_eq!(store.on_cache_connect(false), LinkAction::RetryAfter(60));
    assert_eq!(store.on_cache_connect(true), LinkAction::Proceed);
    assert_eq!(store.on_cache_connect(false), LinkAction::RetryAfter(60));
    assert_eq!(store.on_cache_connect(false), LinkAction::RetryAfter(60));
    assert_eq!(store.on_cache_connect(false), LinkAction::RetryAfter(60));
    assert_eq!(store.on_cache_connect(false), LinkAction::GiveUp);
    assert!(!store.cache_active());
}

#[test]
fn hydration_with_zero_limit_loads_nothing() {
    let mut store = MessageStore::new(&StoreConfig::disabled(), &log_config());
    assert_eq!(store.hydrate(&rows(4), 0), Ok(0));
    assert_eq!(store.get_message("m3"), None);
}

#[test]
fn local_clock_reading_is_in_range() {
    let t = qqbot_core::record::local_now();
    assert!((1..=12).contains(&t.month));
    assert!((1..=31).contains(&t.day));
    assert!(t.hour < 24 && t.minute < 60 && t.second < 60);
    assert!(t.year >= 2000);
}
