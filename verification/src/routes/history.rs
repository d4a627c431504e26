use vstd::arithmetic::div_mod::{lemma_fundamental_div_mod, lemma_mod_bound};
use vstd::prelude::*;

use super::pool::history_error;
use super::redis::{
    first_bucket_start, get_range_params_at, join_key, key_format, last_bucket_start,
    range_defined_at, range_params, range_params_defined, str_views, unix_time_secs,
};
use super::types::{history_expiry, HistoryResult, TimestampInfo, ValuesTrait};

verus! {

/// How a time series is bucketed: the bucket width and how long the series is
/// kept, in seconds, and the number of buckets the series holds.
#[derive(Clone, Copy, Debug, PartialEq, Eq, Structural)]
pub struct TimeSeriesInterval {
    pub interval: u64,
    pub retention: u64,
    pub amount: u64,
}

/// The series with bucket width `interval` and retention `retention`, holding as many
/// buckets as fit whole into the retention.
pub open spec fn time_series(interval: u64, retention: u64) -> TimeSeriesInterval {
    TimeSeriesInterval { interval, retention, amount: retention / interval }
}

/// The series with the given bucket width and retention: it holds as many buckets as
/// fit whole into the retention.
pub fn get_time_series(interval: u64, retention: u64) -> (res: TimeSeriesInterval)
    requires
        interval > 0,
    ensures
        res == time_series(interval, retention),
{
    TimeSeriesInterval { interval, retention, amount: retention / interval }
}

/// Where the retained window of a series starts at `now`, in seconds, with the
/// series's bucket width and bucket count.
pub open spec fn timestamp_info(interval: TimeSeriesInterval, now: u64) -> TimestampInfo {
    TimestampInfo {
        start: first_bucket_start(interval, now) as u64,
        interval: interval.interval,
        amount: interval.amount,
    }
}

/// The timestamps of the window that a series retains at `now` (seconds since the epoch).
pub fn get_timestamp_info_at(interval: &TimeSeriesInterval, now: u64) -> (res: TimestampInfo)
    requires
        range_params_defined(*interval, now),
    ensures
        res == timestamp_info(*interval, now),
{
    let (first_timestamp, _last_timestamp) = get_range_params_at(interval, now);
    TimestampInfo {
        start: first_timestamp / 1000,
        interval: interval.interval,
        amount: interval.amount,
    }
}

/// The timestamps of the window that a series retains at `now` (seconds since the
/// epoch); `None` exactly where that window cannot be computed.
pub fn timestamp_info_now(interval: &TimeSeriesInterval, now: u64) -> (res: Option<TimestampInfo>)
    ensures
        res is Some <==> range_params_defined(*interval, now),
        res matches Some(info) ==> info == timestamp_info(*interval, now),
{
    if range_defined_at(interval, now) {
        Some(get_timestamp_info_at(interval, now))
    } else {
        None
    }
}

/// The timestamps of the window that a series retains now: `timestamp_info_now` at the
/// time the clock gives. `None` where the clock cannot be read or the window at the
/// time read cannot be computed.
pub fn get_timestamp_info(interval: &TimeSeriesInterval) -> (res: Option<TimestampInfo>)
    requires
        interval.interval > 0,
    ensures
        res matches Some(info) ==> exists|now: u64|
            range_params_defined(*interval, now) && info == timestamp_info(*interval, now),
{
    match unix_time_secs() {
        Some(now) => timestamp_info_now(interval, now),
        None => None,
    }
}

/// At any time `now` where the window of a series can be computed, the window that
/// `get_range_params` reports ends with the bucket that holds `now`, on a multiple of
/// the bucket width, and starts `retention - interval` seconds before it; the series
/// timestamps of `get_timestamp_info` start with that window; and where the retention
/// is a whole number of buckets, the last point of the series,
/// `start + (amount - 1) * interval`, is the window's last bucket.
pub proof fn lemma_window_matches_series(interval: u64, retention: u64, now: u64)
    requires
        interval > 0,
        range_params_defined(time_series(interval, retention), now),
    ensures
        ({
            let series = time_series(interval, retention);
            let (first, last) = range_params(series, now);
            let info = timestamp_info(series, now);
            &&& (last as int) % (interval * 1000) == 0
            &&& last <= now * 1000 < last + interval * 1000
            &&& last - first == (retention - interval) * 1000
            &&& info.start * 1000 == first
            &&& info.interval == interval
            &&& retention % interval == 0 && retention >= interval ==> info.start + (
            info.amount - 1) * interval == last / 1000
        }),
{
    let series = time_series(interval, retention);
    let last_s = last_bucket_start(series, now);
    lemma_fundamental_div_mod(now as int, interval as int);
    lemma_mod_bound(now as int, interval as int);
    let q = now as int / interval as int;
    assert(last_s == interval * q);
    assert(last_s * 1000 == (interval * 1000) * q) by (nonlinear_arith)
        requires
            last_s == interval * q,
    ;
    assert(((interval * 1000) * q) % (interval * 1000) == 0) by {
        vstd::arithmetic::div_mod::lemma_mod_multiples_basic(q, interval * 1000);
        assert(q * (interval * 1000) == (interval * 1000) * q) by (nonlinear_arith);
    }
    lemma_fundamental_div_mod(retention as int, interval as int);
    let k = retention as int / interval as int;
    if retention % interval == 0 && retention >= interval {
        assert(retention == interval * k);
        assert(k >= 1) by (nonlinear_arith)
            requires
                retention == interval * k,
                retention >= interval,
                interval > 0,
        ;
        assert((k - 1) * interval == retention - interval) by (nonlinear_arith)
            requires
                retention == interval * k,
        ;
    }
}

/// The history that carries `values`, with the timestamps of the window that the
/// series retains at `now`; `None` exactly where that window cannot be computed.
pub fn history_at<T: ValuesTrait>(interval: &TimeSeriesInterval, values: T, now: u64) -> (res:
    Option<HistoryResult<T>>)
    ensures
        res is Some <==> range_params_defined(*interval, now),
        res matches Some(h) ==> h.values == values && h.timestamps == timestamp_info(
            *interval,
            now,
        ),
{
    match timestamp_info_now(interval, now) {
        Some(timestamps) => Some(HistoryResult { timestamps, values }),
        None => None,
    }
}

/// The history that carries `values`, with the timestamps of the window that the
/// series retains now: `history_at` the time the clock gives; `None` where the clock
/// cannot be read.
fn history_res<T: ValuesTrait>(interval: &TimeSeriesInterval, values: T) -> (res: Option<
    HistoryResult<T>,
>)
    requires
        interval.interval > 0,
    ensures
        res matches Some(h) ==> h.values == values && exists|now: u64|
            range_params_defined(*interval, now) && h.timestamps == timestamp_info(*interval, now),
{
    match unix_time_secs() {
        Some(now) => history_at(interval, values, now),
        None => None,
    }
}

/// The history that a single-series route answers with at the time `now`, given the
/// points read for it: where no points could be read, the empty history of
/// `history_error`; otherwise `history_at` with the points.
pub fn history_single_at<T>(interval: &TimeSeriesInterval, points: Option<Vec<T>>, now: u64) -> (res:
    Option<HistoryResult<Vec<T>>>)
    ensures
        points is None ==> (res matches Some(h) && h.timestamps == (TimestampInfo {
            start: 0,
            interval: 0,
            amount: 0,
        }) && h.values@.len() == 0),
        points matches Some(p) ==> (res is Some <==> range_params_defined(*interval, now)) && (
        res matches Some(h) ==> h.values == p && h.timestamps == timestamp_info(*interval, now)),
{
    match points {
        Some(p) => history_at(interval, p, now),
        None => {
            let empty: HistoryResult<Vec<T>> = history_error();
            Some(empty)
        },
    }
}

/// The history that a single-series route answers with now, given the points read for
/// it: where no points could be read, the empty history of `history_error`; otherwise
/// the points with the timestamps of the window retained at the time the clock gives
/// (`history_single_at` that time; `None` where the clock cannot be read).
pub fn history_single<T>(interval: &TimeSeriesInterval, points: Option<Vec<T>>) -> (res: Option<
    HistoryResult<Vec<T>>,
>)
    requires
        interval.interval > 0,
    ensures
        points is None ==> (res matches Some(h) && h.timestamps == (TimestampInfo {
            start: 0,
            interval: 0,
            amount: 0,
        }) && h.values@.len() == 0),
        points matches Some(p) ==> (res matches Some(h) ==> h.values == p && exists|now: u64|
            range_params_defined(*interval, now) && h.timestamps == timestamp_info(*interval, now)),
{
    match points {
        Some(p) => history_res(interval, p),
        None => {
            let empty: HistoryResult<Vec<T>> = history_error();
            Some(empty)
        },
    }
}

/// Which bucketing a history route reads its series with.
#[derive(Clone, Copy, Debug, PartialEq, Eq, Structural)]
pub enum SeriesWindow {
    /// The hashrate series bucketing.
    Hashrate,
    /// The mined block series bucketing.
    Blocks,
}

/// A history route: its path, the key of its series below the coin, and the
/// bucketing it reads with.
pub struct HistorySeries {
    pub path: &'static str,
    pub key_name: &'static str,
    pub window: SeriesWindow,
}

/// The path, key name and bucketing of a history route.
pub open spec fn series_view(s: HistorySeries) -> (Seq<char>, Seq<char>, SeriesWindow) {
    (s.path@, s.key_name@, s.window)
}

/// The routes of the network history: its hashrate and its difficulty.
pub open spec fn network_history_routes() -> Seq<(Seq<char>, Seq<char>, SeriesWindow)> {
    seq![
        ("hashrate"@, "HASHRATE:NETWORK"@, SeriesWindow::Hashrate),
        ("difficulty"@, "DIFFICULTY"@, SeriesWindow::Hashrate),
    ]
}

/// The routes of the pool history: hashrate, miner and worker counts with the hashrate
/// bucketing, and blocks mined, round effort and round duration with the block
/// bucketing.
pub open spec fn pool_history_routes() -> Seq<(Seq<char>, Seq<char>, SeriesWindow)> {
    seq![
        ("hashrate"@, "HASHRATE:POOL"@, SeriesWindow::Hashrate),
        ("miner-count"@, "MINER_COUNT:POOL"@, SeriesWindow::Hashrate),
        ("worker-count"@, "WORKER_COUNT:POOL"@, SeriesWindow::Hashrate),
        ("blocks-mined"@, "MINED_BLOCK:NUMBER:COMPACT"@, SeriesWindow::Blocks),
        ("round-effort"@, "MINED_BLOCK:NUMBER"@, SeriesWindow::Blocks),
        ("round-duration"@, "BLOCK:EFFORT_PERCENT:COMPACT"@, SeriesWindow::Blocks),
    ]
}

/// The character of a series name that a character of a route path stands for: a
/// lowercase ASCII letter in capitals, `-` as `_`, any other character as it is.
pub open spec fn series_name_char(c: char) -> char {
    if c == '-' {
        '_'
    } else if 'a' <= c && c <= 'z' {
        ((c as u32) - 32) as char
    } else {
        c
    }
}

/// The series name that a route path stands for: each of its characters through
/// `series_name_char`, so `miner-count` names `MINER_COUNT`.
pub open spec fn series_name(path: Seq<char>) -> Seq<char> {
    path.map_values(|c: char| series_name_char(c))
}

/// Each pool history route with the hashrate bucketing reads the pool series that its
/// path names (the key name is the path's series name followed by `:POOL`), and each
/// network history route reads a series whose key name starts with the series name of
/// its path.
pub proof fn lemma_history_routes_read_named_series()
    ensures
        forall|i: int|
            0 <= i < pool_history_routes().len() && (#[trigger] pool_history_routes()[i]).2
                == SeriesWindow::Hashrate ==> pool_history_routes()[i].1 == series_name(
                pool_history_routes()[i].0,
            ) + ":POOL"@,
        forall|i: int|
            0 <= i < network_history_routes().len() ==> {
                let (path, key, _w) = #[trigger] network_history_routes()[i];
                &&& series_name(path).len() <= key.len()
                &&& key.subrange(0, series_name(path).len() as int) == series_name(path)
            },
{
    reveal_strlit("hashrate");
    reveal_strlit("miner-count");
    reveal_strlit("worker-count");
    reveal_strlit("difficulty");
    reveal_strlit("HASHRATE:POOL");
    reveal_strlit("MINER_COUNT:POOL");
    reveal_strlit("WORKER_COUNT:POOL");
    reveal_strlit("HASHRATE:NETWORK");
    reveal_strlit("DIFFICULTY");
    reveal_strlit(":POOL");
    assert(series_name("hashrate"@) + ":POOL"@ =~= "HASHRATE:POOL"@);
    assert(series_name("miner-count"@) + ":POOL"@ =~= "MINER_COUNT:POOL"@);
    assert(series_name("worker-count"@) + ":POOL"@ =~= "WORKER_COUNT:POOL"@);
    assert("HASHRATE:NETWORK"@.subrange(0, 8) =~= series_name("hashrate"@));
    assert("DIFFICULTY"@.subrange(0, 10) =~= series_name("difficulty"@));
}

/// The routes of the network history.
pub fn network_history_series() -> (res: Vec<HistorySeries>)
    ensures
        res@.map_values(|s: HistorySeries| series_view(s)) == network_history_routes(),
        forall|i: int|
            0 <= i < res@.len() ==> series_name((#[trigger] res@[i]).path@).len()
                <= res@[i].key_name@.len() && res@[i].key_name@.subrange(
                0,
                series_name(res@[i].path@).len() as int,
            ) == series_name(res@[i].path@),
{
    let res = vec![
        HistorySeries { path: "hashrate", key_name: "HASHRATE:NETWORK", window: SeriesWindow::Hashrate },
        HistorySeries { path: "difficulty", key_name: "DIFFICULTY", window: SeriesWindow::Hashrate },
    ];
    proof {
        assert(res@.map_values(|s: HistorySeries| series_view(s)) =~= network_history_routes());
        lemma_history_routes_read_named_series();
        assert forall|i: int| 0 <= i < res@.len() implies series_name(
            (#[trigger] res@[i]).path@,
        ).len() <= res@[i].key_name@.len() && res@[i].key_name@.subrange(
            0,
            series_name(res@[i].path@).len() as int,
        ) == series_name(res@[i].path@) by {
            assert(network_history_routes()[i] == series_view(res@[i]));
        }
    }
    res
}

/// The routes of the pool history.
pub fn pool_history_series() -> (res: Vec<HistorySeries>)
    ensures
        res@.map_values(|s: HistorySeries| series_view(s)) == pool_history_routes(),
        forall|i: int|
            0 <= i < res@.len() && (#[trigger] res@[i]).window == SeriesWindow::Hashrate
                ==> res@[i].key_name@ == series_name(res@[i].path@) + ":POOL"@,
{
    let res = vec![
        HistorySeries { path: "hashrate", key_name: "HASHRATE:POOL", window: SeriesWindow::Hashrate },
        HistorySeries {
            path: "miner-count",
            key_name: "MINER_COUNT:POOL",
            window: SeriesWindow::Hashrate,
        },
        HistorySeries {
            path: "worker-count",
            key_name: "WORKER_COUNT:POOL",
            window: SeriesWindow::Hashrate,
        },
        HistorySeries {
            path: "blocks-mined",
            key_name: "MINED_BLOCK:NUMBER:COMPACT",
            window: SeriesWindow::Blocks,
        },
        HistorySeries { path: "round-effort", key_name: "MINED_BLOCK:NUMBER", window: SeriesWindow::Blocks },
        HistorySeries {
            path: "round-duration",
            key_name: "BLOCK:EFFORT_PERCENT:COMPACT",
            window: SeriesWindow::Blocks,
        },
    ];
    proof {
        assert(res@.map_values(|s: HistorySeries| series_view(s)) =~= pool_history_routes());
        lemma_history_routes_read_named_series();
        assert forall|i: int|
            0 <= i < res@.len() && (#[trigger] res@[i]).window == SeriesWindow::Hashrate
                implies res@[i].key_name@ == series_name(res@[i].path@) + ":POOL"@ by {
            assert(pool_history_routes()[i] == series_view(res@[i]));
        }
    }
    res
}

/// The key of a coin's history series: the coin and the series's key name, joined by
/// `:`.
pub fn history_key(coin: &str, key_name: &str) -> (res: String)
    ensures
        res@ == join_key(seq![coin@, key_name@]),
{
    let parts = [coin, key_name];
    proof {
        assert(str_views(parts@) =~= seq![coin@, key_name@]);
    }
    key_format(&parts)
}

/// A history made at `now` for a series whose retention is a whole number of buckets
/// stays current past `now`: its expiry is one second after the end of the bucket that
/// holds `now`, so the cache time of its answer is never negative.
pub proof fn lemma_fresh_history_expires_after_now(interval: u64, retention: u64, now: u64)
    requires
        interval > 0,
        retention % interval == 0,
        range_params_defined(time_series(interval, retention), now),
    ensures
        history_expiry(timestamp_info(time_series(interval, retention), now))
            == last_bucket_start(time_series(interval, retention), now) + interval + 1,
        now < history_expiry(timestamp_info(time_series(interval, retention), now)),
{
    let series = time_series(interval, retention);
    let info = timestamp_info(series, now);
    lemma_fundamental_div_mod(retention as int, interval as int);
    lemma_fundamental_div_mod(now as int, interval as int);
    lemma_mod_bound(now as int, interval as int);
    let k = retention as int / interval as int;
    assert(retention == interval * k);
    assert(k * interval == retention) by (nonlinear_arith)
        requires
            retention == interval * k,
    ;
    assert(info.amount == k);
}

} // verus!
