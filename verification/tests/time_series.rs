use sick_api::routes::history::{
    get_time_series, get_timestamp_info, get_timestamp_info_at, history_at, history_single,
    history_single_at, timestamp_info_now, TimeSeriesInterval,
};
use sick_api::routes::redis::{
    fill_gaps, get_range_params, get_range_params_at, get_range_query, range_defined_at,
    range_params_now, range_query, RangeQuery,
};
use sick_api::routes::types::{HistoryResult, TimestampInfo, STATUS_OK};

fn day_series() -> TimeSeriesInterval {
    get_time_series(600, 86400)
}

#[test]
fn time_series_counts_whole_buckets() {
    let s = day_series();
    assert_eq!((s.interval, s.retention, s.amount), (600, 86400, 144));
    assert_eq!(get_time_series(7, 20).amount, 2);
    assert_eq!(get_time_series(30, 10).amount, 0);
}

#[test]
fn range_params_end_at_current_bucket() {
    let s = day_series();
    assert!(range_defined_at(&s, 1_000_000));
    assert_eq!(get_range_params_at(&s, 1_000_000), (913_800_000, 999_600_000));
    assert_eq!(get_range_params_at(&s, 999_600), (913_800_000, 999_600_000));
}

#[test]
fn range_params_undefined_inputs() {
    let zero = TimeSeriesInterval { interval: 0, retention: 10, amount: 0 };
    assert!(!range_defined_at(&zero, 1000));
    assert!(range_params_now(&zero, 1000).is_none());
    assert!(timestamp_info_now(&zero, 1000).is_none());
    let long = get_time_series(600, 2_000_000);
    assert!(!range_defined_at(&long, 1_000_000));
    let huge = get_time_series(10, 10);
    assert!(!range_defined_at(&huge, u64::MAX / 100));
}

#[test]
fn range_params_now_is_a_window() {
    let s = day_series();
    let (first, last) = get_range_params(&s).unwrap();
    assert_eq!(last % 600_000, 0);
    assert_eq!(last - first, (86400 - 600) * 1000);
    let info = get_timestamp_info(&s).unwrap();
    assert_eq!(info.interval, 600);
    assert_eq!(info.amount, 144);
}

#[test]
fn timestamp_info_starts_window() {
    let s = day_series();
    let info = get_timestamp_info_at(&s, 1_000_000);
    assert_eq!(info, TimestampInfo { start: 913_800, interval: 600, amount: 144 });
    // the last point of the series is the bucket that holds now
    assert_eq!(info.start + (info.amount - 1) * info.interval, 999_600);
}

#[test]
fn fill_gaps_pads_with_defaults() {
    let points: Vec<(u64, u64)> = vec![(10, 1), (20, 2)];
    let filled = fill_gaps(points, 10, 10, 4);
    assert_eq!(filled, vec![(10, 1), (20, 2), (0, 0), (0, 0)]);
}

#[test]
fn fill_gaps_truncates() {
    let points: Vec<(u64, u32)> = vec![(10, 1), (20, 2), (30, 3)];
    assert_eq!(fill_gaps(points, 10, 10, 2), vec![(10, 1), (20, 2)]);
    let empty: Vec<(u64, u64)> = vec![];
    assert_eq!(fill_gaps(empty, 0, 0, 0), vec![]);
}

#[test]
fn fill_gaps_twice_is_once() {
    let points: Vec<(u64, u64)> = vec![(5, 9)];
    let once = fill_gaps(points, 0, 1, 3);
    let twice = fill_gaps(once.clone(), 0, 1, 3);
    assert_eq!(once, twice);
}

#[test]
fn range_query_sums_buckets() {
    let s = day_series();
    let q = range_query(&s, 1000, 2000);
    assert_eq!(q, RangeQuery { from: 1000, to: 2000, count: 144, bucket_ms: 600_000, empty: true });
    let ts = format!("{:?}", get_range_query(&s, 1000, 2000));
    assert!(ts.contains("from: Some(U64(1000))"));
    assert!(ts.contains("to: Some(U64(2000))"));
    assert!(ts.contains("count: Some(144)"));
    assert!(ts.contains("aggregation_type: Some(Sum(600000))"));
    assert!(ts.contains("empty: true"));
}

#[test]
fn history_single_without_points_is_empty() {
    let s = day_series();
    let h: HistoryResult<Vec<u64>> = history_single(&s, None).unwrap();
    assert_eq!(h.timestamps, TimestampInfo { start: 0, interval: 0, amount: 0 });
    assert!(h.values.is_empty());
}

#[test]
fn history_single_with_points_keeps_them() {
    let s = day_series();
    let h = history_single(&s, Some(vec![1u64, 2, 3])).unwrap();
    assert_eq!(h.values, vec![1, 2, 3]);
    assert_eq!(h.timestamps.interval, 600);
    assert_eq!(h.timestamps.amount, 144);
}

#[test]
fn window_at_given_time() {
    let s = day_series();
    assert_eq!(range_params_now(&s, 1_000_000), Some((913_800_000, 999_600_000)));
    assert_eq!(
        timestamp_info_now(&s, 1_000_000),
        Some(TimestampInfo { start: 913_800, interval: 600, amount: 144 })
    );
    let long = get_time_series(600, 2_000_000);
    assert_eq!(range_params_now(&long, 1_000_000), None);
    assert_eq!(timestamp_info_now(&long, 1_000_000), None);
}

#[test]
fn history_at_given_time() {
    let s = day_series();
    let h = history_at(&s, vec![4u64, 5], 1_000_000).unwrap();
    assert_eq!(h.values, vec![4, 5]);
    assert_eq!(h.timestamps.start, 913_800);
    let long = get_time_series(600, 2_000_000);
    assert!(history_at(&long, vec![1u64], 1_000_000).is_none());
    let single = history_single_at(&s, Some(vec![7u64]), 1_000_000).unwrap();
    assert_eq!(single.values, vec![7]);
    assert_eq!(single.timestamps, TimestampInfo { start: 913_800, interval: 600, amount: 144 });
    assert!(history_single_at(&long, Some(vec![7u64]), 1_000_000).is_none());
    let failed: HistoryResult<Vec<u64>> = history_single_at(&long, None, 1_000_000).unwrap();
    assert_eq!(failed.timestamps, TimestampInfo { start: 0, interval: 0, amount: 0 });
}

#[test]
fn history_cache_lasts_until_expiry() {
    let h = HistoryResult { timestamps: TimestampInfo { start: 100, interval: 10, amount: 3 }, values: vec![0u64] };
    assert_eq!(h.cache_seconds(120), 11);
    assert_eq!(h.cache_seconds(131), 0);
    let cached = h.into_cached(125);
    assert_eq!(cached.expire_seconds, 6);
    assert_eq!(cached.sick_result.status_code, STATUS_OK);
    assert!(cached.sick_result.error.is_none());
    assert_eq!(cached.sick_result.result.unwrap().values, vec![0u64]);
}

#[test]
fn fresh_history_is_cacheable() {
    let s = day_series();
    let now = 1_000_000;
    let h = HistoryResult { timestamps: get_timestamp_info_at(&s, now), values: vec![0u64] };
    // the bucket that holds now starts at 999_600 and ends at 1_000_200
    assert_eq!(h.cache_seconds(now), 999_600 + 600 + 1 - now);
}
