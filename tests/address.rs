use grinbox_broker::address::{GrinboxAddress, DEFAULT_GRINBOX_PORT};
use grinbox_broker::client::sender_key;

fn addr(key: &str, domain: &str, port: Option<u16>) -> GrinboxAddress {
    GrinboxAddress::new(key.to_string(), domain.to_string(), port)
}

#[test]
fn url_uses_given_port() {
    assert_eq!(addr("alice", "relay.example", Some(13420)).url(), "wss://relay.example:13420");
    assert_eq!(addr("alice", "relay.example", Some(8)).url(), "wss://relay.example:8");
    assert_eq!(addr("alice", "r", Some(65535)).url(), "wss://r:65535");
    assert_eq!(addr("alice", "r", Some(0)).url(), "wss://r:0");
    assert_eq!(addr("alice", "r", Some(100)).url(), "wss://r:100");
}

#[test]
fn url_defaults_port() {
    assert_eq!(DEFAULT_GRINBOX_PORT, 13420);
    assert_eq!(addr("alice", "grinbox.io", None).url(), "wss://grinbox.io:13420");
}

#[test]
fn stripped_form() {
    assert_eq!(addr("alice", "relay.example", Some(13420)).stripped(), "alice@relay.example:13420");
    assert_eq!(addr("bob", "grinbox.io", None).stripped(), "bob@grinbox.io");
}

#[test]
fn sender_key_reads_public_key() {
    assert_eq!(sender_key("grinbox://alice@relay.example:13420"), Some("alice".to_string()));
    assert_eq!(sender_key("bob"), Some("bob".to_string()));
    assert_eq!(sender_key("bob@relay.example"), Some("bob".to_string()));
    assert_eq!(sender_key("grinbox://carol"), Some("carol".to_string()));
}

#[test]
fn sender_key_rejects_empty_key() {
    assert_eq!(sender_key(""), None);
    assert_eq!(sender_key("grinbox://"), None);
    assert_eq!(sender_key("@relay.example"), None);
    assert_eq!(sender_key("grinbox://@relay.example"), None);
}
