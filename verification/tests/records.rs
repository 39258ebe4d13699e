use charmev_p2p::config::GossipConfig;
use charmev_p2p::events::{encode_lifecycle, LifecycleEvent};
use charmev_p2p::storage::{fetch_storage_dummy, nonce_to_bytes};
use charmev_p2p::topic::Topic;

#[test]
fn lifecycle_records_are_single_distinct_tags() {
    let connected = encode_lifecycle(&LifecycleEvent::PeerConnected);
    let failed = encode_lifecycle(&LifecycleEvent::PeerConnectionFailed);
    let subscribed = encode_lifecycle(&LifecycleEvent::PeerSubscribed);
    assert_eq!(connected, vec![1u8]);
    assert_eq!(failed, vec![2u8]);
    assert_eq!(subscribed, vec![3u8]);
    assert_ne!(connected, failed);
    assert_ne!(connected, subscribed);
    assert_ne!(failed, subscribed);
}

#[test]
fn gossip_runs_strict_with_ten_second_heartbeat() {
    let c = GossipConfig::mesh_default();
    assert_eq!(c.heartbeat_secs, 10);
    assert!(c.strict_validation);
}

#[test]
fn the_application_topic_is_charmev() {
    let t = Topic::app_topic();
    assert_eq!(t.name(), "charmev");
}

#[test]
fn dummy_storage_returns_the_fixed_account_record() {
    let data = fetch_storage_dummy("ws://127.0.0.1:9944".to_string()).unwrap();
    assert_eq!(
        data,
        b"AccountDataGen { free: 1152921504606846976, reserved: 0, misc_frozen: 0, fee_frozen: 0 } }"
            .to_vec()
    );
}

#[test]
fn nonce_encoding_is_the_decimal_digits() {
    assert_eq!(nonce_to_bytes(0), b"0".to_vec());
    assert_eq!(nonce_to_bytes(7), b"7".to_vec());
    assert_eq!(nonce_to_bytes(10), b"10".to_vec());
    assert_eq!(nonce_to_bytes(107), b"107".to_vec());
    assert_eq!(nonce_to_bytes(4_294_967_295), b"4294967295".to_vec());
    assert_eq!(String::from_utf8(nonce_to_bytes(90210)).unwrap(), format!("{:?}", 90210u32));
}
