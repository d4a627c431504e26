use sick_api::config::{
    block_series, hashrate_series, redis_url, split_mysql_host, CoinConfig, HostError,
    MySqlConfig, RedisConfig, StatsConfig,
};
use sick_api::text::{
    ascii_lowercase, ends_with_char, find_char, parse_u16, text_eq,
};

#[test]
fn ascii_lowercase_lowers_ascii_only() {
    assert_eq!(ascii_lowercase("RAbc@Z"), "rabc@z");
    assert_eq!(ascii_lowercase("ÄÖ1"), "ÄÖ1");
    assert_eq!(ascii_lowercase(&ascii_lowercase("MiXeD")), ascii_lowercase("MiXeD"));
}

#[test]
fn text_helpers() {
    assert!(text_eq("abc", "abc"));
    assert!(!text_eq("abc", "abd"));
    assert!(!text_eq("abc", "ab"));
    assert!(ends_with_char("alias@", '@'));
    assert!(!ends_with_char("", '@'));
    assert_eq!(find_char("a:b:c", ':'), Some(1));
    assert_eq!(find_char("abc", ':'), None);
}

#[test]
fn query_numbers_match_to_string() {
    for limit in [0u8, 7, 10, 99, 100, 255] {
        let q = sick_api::routes::pool::miners_query("id", "ASC", limit);
        assert!(q.ends_with(&format!(" LIMIT {}", limit)));
    }
    let q = sick_api::routes::pool::blocks_query("id", "ASC", 16_843_009, 255).unwrap();
    assert!(q.ends_with(&format!(" LIMIT {},255", 16_843_009u32 * 255)));
}

#[test]
fn parse_u16_matches_std() {
    for s in ["8080", "+80", "0", "0080", "65535", "65536", "", "+", "-1", "12a", " 1", "99999999999"] {
        assert_eq!(parse_u16(s), s.parse::<u16>().ok(), "{}", s);
    }
}

#[test]
fn mysql_host_splits_at_first_colon() {
    assert_eq!(split_mysql_host("localhost:3306"), Ok(("localhost".to_string(), 3306)));
    assert_eq!(split_mysql_host(":1"), Ok(("".to_string(), 1)));
    assert_eq!(split_mysql_host("localhost"), Err(HostError::MissingPort));
    assert_eq!(split_mysql_host("localhost:"), Err(HostError::InvalidPort));
    assert_eq!(split_mysql_host("a:b:3"), Err(HostError::InvalidPort));
    assert_eq!(split_mysql_host("db:70000"), Err(HostError::InvalidPort));
}

#[test]
fn redis_url_of_host() {
    assert_eq!(redis_url("127.0.0.1:6379"), "redis://127.0.0.1:6379");
}

fn config(hashrate_interval: u32, ttl: u32, blocks: u32) -> CoinConfig {
    CoinConfig {
        redis: RedisConfig { host: "h".to_string(), db_index: 0, hashrate_ttl_seconds: ttl },
        mysql: MySqlConfig {
            host: "h:1".to_string(),
            db_name: "d".to_string(),
            user: "u".to_string(),
            pass: "SECRET-REDACTED".to_string(),
        },
        stats: StatsConfig { hashrate_interval_seconds: hashrate_interval, mined_blocks_interval: blocks },
    }
}

#[test]
fn configured_series() {
    let c = config(300, 86400, 86400);
    let h = hashrate_series(&c);
    assert_eq!((h.interval, h.retention, h.amount), (300, 86400, 288));
    let b = block_series(&c);
    assert_eq!((b.interval, b.retention, b.amount), (86400, 86400 * 30, 30));
}
