use grinbox_broker::address::GrinboxAddress;
use grinbox_broker::broker::GrinboxSubscriber;
use grinbox_broker::client::{
    ClientAction, GrinboxClient, SlatePlan, Timer, TimerAction, KEEPALIVE_INTERVAL_MS, KEEPALIVE_TOKEN,
};
use grinbox_broker::lifecycle::{CallbackGate, CloseReason, ConnectionRegistry};
use grinbox_broker::protocol::{ProtocolRequest, ProtocolResponse};

fn addr(key: &str, domain: &str, port: Option<u16>) -> GrinboxAddress {
    GrinboxAddress::new(key.to_string(), domain.to_string(), port)
}

fn subscriber(use_encryption: bool) -> GrinboxSubscriber<u32> {
    GrinboxSubscriber::new(&addr("me", "relay.example", Some(4000)), &vec![1u8; 32], use_encryption).unwrap()
}

#[test]
fn challenge_is_answered_with_subscription() {
    let mut c = GrinboxClient::new(addr("me", "relay.example", None), false);
    let action = c.on_message(Some(ProtocolResponse::Challenge { str: "n0nce".to_string() }));
    assert_eq!(action, ClientAction::Subscribe { message: "men0nce".to_string() });
    assert_eq!(c.challenge, Some("n0nce".to_string()));
    assert_eq!(
        c.subscribe_request("s1g".to_string()),
        ProtocolRequest::Subscribe { address: "me".to_string(), signature: "s1g".to_string() }
    );
}

#[test]
fn bad_signature_slate_is_never_delivered() {
    let mut c = GrinboxClient::new(addr("me", "relay.example", None), false);
    let mut gate = CallbackGate::new();
    assert!(gate.admit_open());
    let action = c.on_message(Some(ProtocolResponse::Slate {
        from: "bob".to_string(),
        str: "<bad-signature>".to_string(),
        challenge: "xyz".to_string(),
        signature: "deadbeef".to_string(),
    }));
    let (key, payload) = match action {
        ClientAction::VerifySlate { from, sender_key, payload, message, signature } => {
            assert_eq!(from, "bob");
            assert_eq!(message, "<bad-signature>xyz");
            assert_eq!(signature, "deadbeef");
            (sender_key, payload)
        }
        other => panic!("unexpected action {:?}", other),
    };
    assert_eq!(key, "bob");
    assert_eq!(c.plan_slate(false, key, payload), SlatePlan::Reject);
    assert!(!gate.admit_slate(false));
    // the connection stays open: a later verified slate still goes through
    assert!(gate.admit_slate(true));
}

#[test]
fn verified_slate_is_decoded() {
    let plain = GrinboxClient::new(addr("me", "r", None), false);
    assert_eq!(
        plain.plan_slate(true, "bob".to_string(), "{}".to_string()),
        SlatePlan::Parse { payload: "{}".to_string() }
    );
    let enc = GrinboxClient::new(addr("me", "r", None), true);
    assert_eq!(
        enc.plan_slate(true, "bob".to_string(), "{}".to_string()),
        SlatePlan::Decrypt { envelope: "{}".to_string(), sender_key: "bob".to_string() }
    );
}

#[test]
fn other_messages_do_not_subscribe() {
    let mut c = GrinboxClient::new(addr("me", "r", None), false);
    assert_eq!(c.on_message(None), ClientAction::Drop);
    assert_eq!(c.on_message(Some(ProtocolResponse::Accepted)), ClientAction::Ignore);
    let err = ProtocolResponse::Error { kind: "InvalidRequest".to_string(), description: "bad".to_string() };
    assert_eq!(
        c.on_message(Some(err)),
        ClientAction::Report { kind: "InvalidRequest".to_string(), description: "bad".to_string() }
    );
    let slate = ProtocolResponse::Slate {
        from: "grinbox://@r".to_string(),
        str: "{}".to_string(),
        challenge: "c".to_string(),
        signature: "s".to_string(),
    };
    assert_eq!(c.on_message(Some(slate)), ClientAction::Drop);
    assert_eq!(c.challenge, None);
}

#[test]
fn keepalive_timer() {
    let c = GrinboxClient::new(addr("me", "r", None), false);
    let t = c.on_open();
    assert_eq!(t, Timer { interval_ms: 30000, token: 1 });
    assert_eq!(KEEPALIVE_INTERVAL_MS, 30000);
    assert_eq!(
        c.on_timeout(KEEPALIVE_TOKEN),
        TimerAction::Ping(Timer { interval_ms: 30000, token: 1 })
    );
    assert_eq!(c.on_timeout(2), TimerAction::Fail);
}

#[test]
fn is_running_follows_registration() {
    let mut s = subscriber(false);
    assert!(!s.is_running());
    assert_eq!(s.start(), "wss://relay.example:4000");
    assert!(!s.is_running());
    assert_eq!(s.connected(11), None);
    assert!(s.is_running());
    assert_eq!(s.stop(), Some(11));
    assert!(!s.is_running());
    assert_eq!(s.stop(), None);
    s.start();
    assert_eq!(s.connected(12), None);
    assert!(s.is_running());
    s.disconnected();
    assert!(!s.is_running());
}

#[test]
fn client_of_subscriber() {
    let s = subscriber(true);
    let c = s.client();
    assert_eq!(c.address, addr("me", "relay.example", Some(4000)));
    assert!(c.use_encryption);
    assert_eq!(c.challenge, None);
}

#[test]
fn stop_before_connect_closes_new_handle() {
    let mut r: ConnectionRegistry<u8> = ConnectionRegistry::new();
    assert_eq!(r.stop(), None);
    assert_eq!(r.install(3), Some(3));
    assert!(!r.is_running());
    r.begin();
    assert_eq!(r.install(4), None);
    assert!(r.is_running());
}

#[test]
fn silent_server_then_stop_closes_normally() {
    let mut s = subscriber(false);
    let mut gate = CallbackGate::new();
    s.start();
    assert_eq!(s.connected(5), None);
    assert!(gate.admit_open());
    assert_eq!(s.stop(), Some(5));
    assert!(!s.is_running());
    assert_eq!(gate.close(true), Some(CloseReason::Normal));
    assert!(!gate.admit_slate(true));
}

#[test]
fn close_is_delivered_once_and_last() {
    let mut gate = CallbackGate::new();
    assert!(!gate.admit_slate(true));
    assert!(gate.admit_open());
    assert!(!gate.admit_open());
    assert_eq!(gate.close(false), Some(CloseReason::Abnormal));
    assert_eq!(gate.close(true), None);
    assert!(!gate.admit_open());
    assert!(!gate.admit_slate(true));
}
