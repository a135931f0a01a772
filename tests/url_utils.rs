use qqbot_core::url_utils::extract_host;

#[test]
fn test_extract_host() {
    assert_eq!(extract_host("ws://localhost:3001"), Some("localhost"));
    assert_eq!(extract_host("wss://example.com/path"), Some("example.com"));
    assert_eq!(extract_host("ws://192.168.1.1:8080/ws"), Some("192.168.1.1"));
}

#[test]
fn extract_host_rejects_other_schemes() {
    assert_eq!(extract_host("http://example.com"), None);
    assert_eq!(extract_host("localhost:3001"), None);
}

#[test]
fn extract_host_keeps_bare_host() {
    assert_eq!(extract_host("wss://example.com"), Some("example.com"));
    assert_eq!(extract_host("ws://"), Some(""));
}
