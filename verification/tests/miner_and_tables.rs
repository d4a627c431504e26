use sick_api::routes::miner::{
    miner_series_type, miner_stats_filter, miner_stats_series, worker_names, worker_stats_filter,
    SERIES_PER_MINER,
};
use sick_api::routes::solver::miner_id_filter;
use sick_api::routes::pool::pair_miner_rows;
use sick_api::routes::table_res::reply_holds_table;
use sick_api::routes::types::TableRes;

#[test]
fn miner_id_filter_by_address_or_identity() {
    let by_addr = format!("{:?}", miner_id_filter(&"RAbC".to_string()));
    assert!(by_addr.contains("name: \"address\", value: \"rabc\", compare: Eq"));
    assert!(by_addr.contains("with_labels: false"));
    let by_id = format!("{:?}", miner_id_filter(&"Alice@".to_string()));
    assert!(by_id.contains("name: \"identity\", value: \"Alice@\", compare: Eq"));
}

#[test]
fn miner_series_type_names_five_series() {
    assert_eq!(
        miner_series_type(),
        "(HASHRATE,HASHRATE:AVERAGE,SHARES:VALID,SHARES:STALE,SHARES:INVALID)"
    );
    assert_eq!(SERIES_PER_MINER, 5);
}

#[test]
fn stats_and_worker_filters() {
    let stats = format!("{:?}", miner_stats_filter(&"RMiner".to_string()));
    assert!(stats.contains("name: \"address\", value: \"rminer\""));
    assert!(stats.contains("name: \"prefix\", value: \"MINER\""));
    assert!(stats.contains(
        "name: \"type\", value: \"(HASHRATE,HASHRATE:AVERAGE,SHARES:VALID,SHARES:STALE,SHARES:INVALID)\""
    ));
    assert!(stats.contains("with_labels: false"));
    let workers = format!("{:?}", worker_stats_filter(&"Bob@".to_string()));
    assert!(workers.contains("name: \"identity\", value: \"Bob@\""));
    assert!(workers.contains("name: \"prefix\", value: \"WORKER\""));
    assert!(workers.contains("with_labels: true"));
}

fn labels(worker: &str) -> Vec<(String, String)> {
    let mut v: Vec<(String, String)> = (0..4).map(|i| (format!("l{}", i), "x".to_string())).collect();
    v.push(("worker".to_string(), worker.to_string()));
    v
}

#[test]
fn worker_names_from_labels() {
    let mut series = Vec::new();
    for w in ["rig1", "rig2"] {
        series.push(labels(w));
        for _ in 0..4 {
            series.push(vec![]);
        }
    }
    series.push(vec![]);
    assert_eq!(worker_names(&series), vec!["rig1".to_string(), "rig2".to_string()]);
    assert!(worker_names(&vec![vec![], vec![]]).is_empty());
}

#[test]
fn miner_stats_series_needs_five() {
    let four: Vec<Vec<(u64, u64)>> = vec![vec![]; 4];
    assert!(miner_stats_series(four, 0, 10, 3).is_none());
    let mut five: Vec<Vec<(u64, u64)>> = vec![vec![]; 5];
    five[2] = vec![(1, 5), (2, 6), (3, 7), (4, 8)];
    let filled = miner_stats_series(five, 0, 10, 3).unwrap();
    assert_eq!(filled.len(), 5);
    assert_eq!(filled[0], vec![(0, 0), (0, 0), (0, 0)]);
    assert_eq!(filled[2], vec![(1, 5), (2, 6), (3, 7)]);
}

#[test]
fn table_res_keeps_readable_rows() {
    let t = TableRes::from_items(10, vec![Some(1u32), None, Some(3)]);
    assert_eq!(t.total, 10);
    assert_eq!(t.entries, vec![1, 3]);
    let e: TableRes<u32> = TableRes::empty();
    assert_eq!(e.total, 0);
    assert!(e.entries.is_empty());
}

#[test]
fn lowered_address_gives_same_filter() {
    assert_eq!(
        format!("{:?}", miner_id_filter(&"RAbc".to_string())),
        format!("{:?}", miner_id_filter(&"rabc".to_string()))
    );
}

#[test]
fn reply_needs_two_items() {
    assert!(!reply_holds_table(0));
    assert!(!reply_holds_table(1));
    assert!(reply_holds_table(2));
    assert!(reply_holds_table(5));
}

#[test]
fn miner_rows_pair_by_position() {
    let rows = pair_miner_rows(
        &vec![7, 8, 9],
        vec!["a", "b"],
        &vec![Some(1.5f64.to_bits()), None],
        &vec![None, Some(2.0f64.to_bits())],
    );
    assert_eq!(rows.len(), 2);
    assert_eq!((rows[0].id, rows[0].info), (7, "a"));
    assert_eq!(f64::from_bits(rows[0].hashrate_bits), 1.5);
    assert_eq!(rows[0].effort_bits, None);
    assert_eq!((rows[1].id, rows[1].info), (8, "b"));
    assert_eq!(rows[1].hashrate_bits, 0);
    assert_eq!(rows[1].effort_bits.map(f64::from_bits), Some(2.0));
}

#[test]
fn stats_filter_same_for_lowered_address() {
    assert_eq!(
        format!("{:?}", miner_stats_filter(&"RMiner".to_string())),
        format!("{:?}", miner_stats_filter(&"rminer".to_string()))
    );
}
