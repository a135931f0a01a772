use qqbot_core::config::{mysql_config, mysql_url, pct_encode, redis_config, redis_url, MissingInput};

#[test]
fn percent_encoding_keeps_unreserved_bytes() {
    assert_eq!(pct_encode("Ab9-._~"), "Ab9-._~");
    assert_eq!(pct_encode("p@ss word/"), "p%40ss%20word%2F");
    assert_eq!(pct_encode("é"), "%C3%A9");
    assert_eq!(pct_encode(""), "");
}

#[test]
fn redis_urls() {
    assert_eq!(redis_url("localhost", 6379, 0, None), "redis://localhost:6379/0");
    assert_eq!(redis_url("h", 6380, 2, Some("")), "redis://h:6380/2");
    assert_eq!(redis_url("h", 1, 3, Some("a:b")), "redis://:a%3Ab@h:1/3");
}

#[test]
fn mysql_urls() {
    assert_eq!(mysql_url("root", "", "db.local", 3306, "chat"), "mysql://root@db.local:3306/chat");
    assert_eq!(mysql_url("u", "p@w", "h", 3307, "d"), "mysql://u:p%40w@h:3307/d");
}

#[test]
fn node_inputs_to_configs() {
    assert_eq!(redis_config(None, Some(1), None, None, None, None), Err(MissingInput::Host));
    assert_eq!(redis_config(Some("h"), None, None, None, None, None), Err(MissingInput::Port));
    let c = redis_config(Some("h"), Some(65536 + 80), Some(1), None, Some(5), Some(30)).unwrap();
    assert_eq!(c.connection_url, Some("redis://h:80/1".to_string()));
    assert_eq!(c.reconnect_max_attempts, Some(5));
    assert_eq!(c.reconnect_interval_secs, Some(30));
    assert_eq!(
        mysql_config(Some("h"), Some(3306), Some("u"), None, Some("d"), None, None),
        Err(MissingInput::Password)
    );
    let m = mysql_config(Some("h"), Some(3306), Some("u"), Some(""), Some("d"), None, None).unwrap();
    assert_eq!(m.connection_url, Some("mysql://u@h:3306/d".to_string()));
    assert_eq!(m.reconnect_max_attempts, None);
}
