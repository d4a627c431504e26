use sick_api::routes::history::get_time_series;
use sick_api::routes::pool::{
    block_overview_keys, block_sort_valid, blocks_query, get_sortdir, history_error, invalid_sort,
    mined24h_count, mined24h_query, miner_sort, miners_keys, miners_query, next_payout,
    payout_scheme, pool_overview_keys, redis_error, zrange_bounds, MinerSort, BLOCK_CONFIRMATIONS,
};
use sick_api::routes::redis::RangeQuery;
use sick_api::routes::types::{
    HistoryResult, SickResult, TimestampInfo, STATUS_BAD_REQUEST, STATUS_INTERNAL_SERVER_ERROR,
};

#[test]
fn redis_error_is_database_error() {
    let r: SickResult<u32> = redis_error();
    assert_eq!(r.status_code, STATUS_INTERNAL_SERVER_ERROR);
    assert_eq!(r.status_code, 500);
    assert_eq!(r.error.as_deref(), Some("Database error"));
    assert!(r.result.is_none());
}

#[test]
fn invalid_sort_is_bad_request() {
    let r: SickResult<u32> = invalid_sort();
    assert_eq!(r.status_code, STATUS_BAD_REQUEST);
    assert_eq!(r.status_code, 400);
    assert_eq!(r.error.as_deref(), Some("invalid sort"));
    assert!(r.result.is_none());
}

#[test]
fn history_error_is_zeroed() {
    let h: HistoryResult<Vec<u64>> = history_error();
    assert_eq!(h.timestamps, TimestampInfo { start: 0, interval: 0, amount: 0 });
    assert!(h.values.is_empty());
    let u: HistoryResult<()> = history_error();
    assert_eq!(u.timestamps.amount, 0);
}

#[test]
fn sortdir_normalises() {
    assert_eq!(get_sortdir(&"asc".to_string()), "ASC");
    assert_eq!(get_sortdir(&"AsC".to_string()), "ASC");
    assert_eq!(get_sortdir(&"desc".to_string()), "DESC");
    assert_eq!(get_sortdir(&"".to_string()), "DESC");
    assert_eq!(get_sortdir(&"ascending".to_string()), "DESC");
}

#[test]
fn sortdir_twice_is_once() {
    for s in ["asc", "ASC", "Desc", "x", ""] {
        let once = get_sortdir(&s.to_string());
        assert_eq!(get_sortdir(&once), once);
    }
}

#[test]
fn block_sort_columns() {
    for c in ["id", "status", "reward", "duration_ms", "difficulty", "effort_percent"] {
        assert!(block_sort_valid(c));
    }
    assert!(!block_sort_valid("height"));
    assert!(!block_sort_valid("ID"));
    assert!(!block_sort_valid("id; DROP TABLE blocks"));
}

#[test]
fn blocks_query_pages() {
    let q = blocks_query("reward", "DESC", 2, 10).unwrap();
    assert_eq!(
        q,
        "SELECT blocks.id,status,hash,reward,time_ms,duration_ms,height,difficulty,effort_percent,addresses.address_md5 FROM blocks INNER JOIN addresses ON addresses.id = blocks.miner_id ORDER BY reward DESC LIMIT 20,10"
    );
    assert!(blocks_query("hash", "ASC", 0, 10).is_none());
    let first = blocks_query("id", "ASC", 0, 0).unwrap();
    assert!(first.ends_with("ORDER BY id ASC LIMIT 0,0"));
}

#[test]
fn pool_overview_keys_of_coin() {
    let k = pool_overview_keys("VRSC");
    assert_eq!(k.pool_hashrate, "VRSC:HASHRATE:POOL");
    assert_eq!(k.network_hashrate, "VRSC:HASHRATE:NETWORK");
    assert_eq!(k.miner_count, "VRSC:MINER_COUNT:POOL");
    assert_eq!(k.worker_count, "VRSC:WORKER_COUNT:POOL");
}

#[test]
fn block_overview_keys_of_coin() {
    let k = block_overview_keys("VRSC");
    assert_eq!(k.round_stats, "VRSC:ROUND:STATS");
    assert_eq!(k.block_stats, "VRSC:BLOCK:STATS");
    assert_eq!(k.height_field, "HEIGHT");
    assert_eq!(k.mined_blocks, "VRSC:MINED_BLOCK:NUMBER");
    assert_eq!(k.difficulty, "VRSC:DIFFICULTY");
    assert_eq!(BLOCK_CONFIRMATIONS, 10);
}

#[test]
fn mined24h_query_and_count() {
    let s = get_time_series(50, 1500);
    assert_eq!(
        mined24h_query(100_000, &s),
        RangeQuery { from: 50_000, to: 100_000_000, count: 1, bucket_ms: 50_000, empty: false }
    );
    assert_eq!(mined24h_count(&vec![]), 0);
    assert_eq!(mined24h_count(&vec![(1, 12), (2, 99)]), 12);
    assert_eq!(mined24h_count(&vec![(1, (1u64 << 32) + 7)]), 7);
}

#[test]
fn miner_sort_columns() {
    assert_eq!(miner_sort("round-effort"), Some(MinerSort::RoundEffort));
    assert_eq!(miner_sort("hashrate"), Some(MinerSort::Hashrate));
    assert_eq!(miner_sort("mature_balance"), Some(MinerSort::Database));
    assert_eq!(miner_sort("join_time"), Some(MinerSort::Database));
    assert_eq!(miner_sort("balance"), None);
}

#[test]
fn miners_keys_of_coin() {
    let k = miners_keys("VRSC");
    assert_eq!(k.round_effort, "VRSC:ROUND:EFFORT");
    assert_eq!(k.hashrate_index, "VRSC:SOLVER:INDEX:HASHRATE");
    assert_eq!(k.round_stats, "VRSC:ROUND:STATS");
}

#[test]
fn zrange_bounds_of_page() {
    assert_eq!(zrange_bounds(2, 10), (20, 30));
    assert_eq!(zrange_bounds(0, 25), (0, 25));
}

#[test]
fn miners_query_text() {
    assert_eq!(
        miners_query("join_time", "ASC", 25),
        "SELECT id,addresses.address_md5,join_time,mature_balance FROM miners INNER JOIN addresses ON miners.address_id = addresses.id ORDER BY join_time ASC LIMIT 25"
    );
}

#[test]
fn next_payout_passed_is_minus_one() {
    assert_eq!(next_payout(1000, 2000), 2000);
    assert_eq!(next_payout(2000, 2000), 2000);
    assert_eq!(next_payout(2001, 2000), -1);
    assert_eq!(payout_scheme(), "PPLNS");
}
