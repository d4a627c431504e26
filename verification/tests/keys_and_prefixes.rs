use sick_api::pool_events::{keyspace_key, listener_action, ListenerAction};
use sick_api::redis_interop::{BlockStatus, Prefix};
use sick_api::routes::history::{history_key, network_history_series, pool_history_series, SeriesWindow};
use sick_api::routes::redis::key_format;

#[test]
fn key_format_joins_parts_with_colons() {
    assert_eq!(key_format(&["VRSC", "HASHRATE", "POOL"]), "VRSC:HASHRATE:POOL");
    assert_eq!(key_format(&["VRSC"]), "VRSC");
    let none: [&str; 0] = [];
    assert_eq!(key_format(&none), "");
    assert_eq!(key_format(&["", ""]), ":");
}

#[test]
fn key_format_keeps_colons_inside_parts() {
    assert_eq!(key_format(&["a:b", "c"]), "a:b:c");
}

#[test]
fn prefix_names_are_variant_names() {
    assert_eq!(Prefix::ACTIVE_IDS.to_string(), "ACTIVE_IDS");
    assert_eq!(Prefix::POW.name(), "POW");
    assert_eq!(Prefix::EFFORT_PERCENT.name(), "EFFORT_PERCENT");
    assert_eq!(Prefix::HEIGHT.to_string(), "HEIGHT");
}

#[test]
fn block_status_bits_match_the_pool() {
    assert_eq!(BlockStatus::PENDING.bits(), 0b1);
    assert_eq!(BlockStatus::CONFIRMED.bits(), 0b10);
    assert_eq!(BlockStatus::ORPHANED.bits(), 0b100);
    assert_eq!(BlockStatus::PAID.bits(), 0b1000);
    assert_eq!(BlockStatus::PENDING_ORPHANED.bits(), 0b101);
    assert_eq!(
        BlockStatus::PENDING_ORPHANED.bits(),
        BlockStatus::PENDING.bits() | BlockStatus::ORPHANED.bits()
    );
}

#[test]
fn keyspace_key_is_text_after_first_colon() {
    assert_eq!(
        keyspace_key("__keyspace@0__:VRSCTEST:block:12").unwrap(),
        "VRSCTEST:block:12"
    );
    assert_eq!(keyspace_key("a:").unwrap(), "");
    assert!(keyspace_key("no-separator").is_none());
}

#[test]
fn keyspace_key_recovers_key_of_channel() {
    let key = key_format(&["VRSCTEST", "block", "7"]);
    let channel = format!("__keyspace@0__:{}", key);
    assert_eq!(keyspace_key(&channel).unwrap(), key);
}

#[test]
fn history_routes_match_their_keys() {
    let net = network_history_series();
    let net: Vec<(&str, &str, SeriesWindow)> =
        net.iter().map(|s| (s.path, s.key_name, s.window)).collect();
    assert_eq!(
        net,
        vec![
            ("hashrate", "HASHRATE:NETWORK", SeriesWindow::Hashrate),
            ("difficulty", "DIFFICULTY", SeriesWindow::Hashrate),
        ]
    );
    let pool = pool_history_series();
    assert_eq!(pool.len(), 6);
    assert_eq!(pool[3].path, "blocks-mined");
    assert_eq!(pool[3].key_name, "MINED_BLOCK:NUMBER:COMPACT");
    assert_eq!(pool[3].window, SeriesWindow::Blocks);
    assert_eq!(pool[0].window, SeriesWindow::Hashrate);
    assert_eq!(pool[5].key_name, "BLOCK:EFFORT_PERCENT:COMPACT");
}

#[test]
fn history_key_prefixes_coin() {
    assert_eq!(history_key("VRSC", "HASHRATE:POOL"), "VRSC:HASHRATE:POOL");
}

#[test]
fn listener_decides_on_notifications() {
    assert_eq!(listener_action(None, true), Some(ListenerAction::ReportReceiveError));
    assert_eq!(
        listener_action(Some("__keyspace@0__:VRSCTEST:block:3"), true),
        Some(ListenerAction::FetchAndNotify("VRSCTEST:block:3".to_string()))
    );
    assert_eq!(
        listener_action(Some("__keyspace@0__:k"), false),
        Some(ListenerAction::FetchWithoutNotifier("k".to_string()))
    );
    assert_eq!(listener_action(Some("nokey"), true), None);
}

#[test]
fn distinct_coins_have_distinct_keys() {
    assert_ne!(key_format(&["VRSC", "ROUND", "STATS"]), key_format(&["VRSCT", "ROUND", "STATS"]));
    assert_ne!(key_format(&["VRSC", "BLOCK"]), key_format(&["VRSC", "BLOCKS"]));
}
