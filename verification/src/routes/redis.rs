use vstd::arithmetic::div_mod::lemma_mod_decreases;
use vstd::prelude::*;

use redis_ts::TsRangeQuery;

use super::history::TimeSeriesInterval;
use super::types::ValueTypeTrait;

verus! {

/// The separator between the parts of a redis key.
pub open spec fn key_separator() -> Seq<char> {
    seq![':']
}

/// The parts of a key joined by `:`, with no separator before the first part or
/// after the last one; no parts give the empty key.
pub open spec fn join_key(parts: Seq<Seq<char>>) -> Seq<char>
    decreases parts.len(),
{
    if parts.len() == 0 {
        Seq::empty()
    } else if parts.len() == 1 {
        parts[0]
    } else {
        join_key(parts.drop_last()) + key_separator() + parts.last()
    }
}

/// The text of each part.
pub open spec fn str_views(parts: Seq<&str>) -> Seq<Seq<char>> {
    parts.map_values(|p: &str| p@)
}

/// Builds a redis key from its parts, separated by `:`.
pub fn key_format<const N: usize>(strs: &[&str; N]) -> (res: String)
    ensures
        res@ == join_key(str_views(strs@)),
{
    let ghost parts = str_views(strs@);
    let mut res = String::new();
    let mut i: usize = 0;
    proof {
        reveal_strlit(":");
        assert(parts.take(0) =~= Seq::<Seq<char>>::empty());
    }
    while i < N
        invariant
            i <= N,
            strs@.len() == N,
            parts == str_views(strs@),
            res@ == join_key(parts.take(i as int)),
        decreases N - i,
    {
        proof {
            reveal_strlit(":");
        }
        if i > 0 {
            res.append(":");
        }
        res.append(strs[i]);
        proof {
            assert(parts.take(i + 1).drop_last() =~= parts.take(i as int));
            if i == 0 {
                assert(parts.take(1) =~= seq![parts[0]]);
            }
        }
        i = i + 1;
    }
    proof {
        assert(parts.take(N as int) =~= parts);
    }
    res
}

/// No part holds the separator.
pub open spec fn parts_free_of_separator(parts: Seq<Seq<char>>) -> bool {
    forall|i: int, j: int| 0 <= i < parts.len() && 0 <= j < parts[i].len() ==> parts[i][j] != ':'
}

/// Two texts that end with `:` and a separator-free tail are equal only where their
/// heads and tails are.
proof fn lemma_split_last_separator(a: Seq<char>, b: Seq<char>, c: Seq<char>, d: Seq<char>)
    requires
        a + key_separator() + b == c + key_separator() + d,
        forall|j: int| 0 <= j < b.len() ==> b[j] != ':',
        forall|j: int| 0 <= j < d.len() ==> d[j] != ':',
    ensures
        a == c,
        b == d,
{
    let s = a + key_separator() + b;
    let t = c + key_separator() + d;
    assert(s.len() == t.len());
    if b.len() < d.len() {
        let k = a.len() as int;
        assert(s[k] == ':');
        assert(t[k] == d[k - c.len() - 1]);
    } else if d.len() < b.len() {
        let k = c.len() as int;
        assert(t[k] == ':');
        assert(s[k] == b[k - a.len() - 1]);
    }
    assert(a.len() == c.len());
    assert(a =~= s.subrange(0, a.len() as int));
    assert(c =~= t.subrange(0, c.len() as int));
    assert(b =~= s.subrange(a.len() as int + 1, s.len() as int));
    assert(d =~= t.subrange(c.len() as int + 1, t.len() as int));
}

/// Keys made of the same number of separator-free parts are equal only where their
/// parts are: distinct coins or prefixes never share a key.
pub proof fn lemma_join_key_injective(p: Seq<Seq<char>>, q: Seq<Seq<char>>)
    requires
        p.len() == q.len(),
        parts_free_of_separator(p),
        parts_free_of_separator(q),
        join_key(p) == join_key(q),
    ensures
        p == q,
    decreases p.len(),
{
    if p.len() == 0 {
        assert(p =~= q);
    } else if p.len() == 1 {
        assert(p =~= q);
    } else {
        let pl = p.drop_last();
        let ql = q.drop_last();
        assert(forall|j: int| 0 <= j < p.last().len() ==> p.last()[j] != ':') by {
            assert forall|j: int| 0 <= j < p.last().len() implies p.last()[j] != ':' by {
                assert(p[p.len() - 1][j] != ':');
            }
        }
        assert(forall|j: int| 0 <= j < q.last().len() ==> q.last()[j] != ':') by {
            assert forall|j: int| 0 <= j < q.last().len() implies q.last()[j] != ':' by {
                assert(q[q.len() - 1][j] != ':');
            }
        }
        lemma_split_last_separator(join_key(pl), p.last(), join_key(ql), q.last());
        assert(parts_free_of_separator(pl)) by {
            assert forall|i: int, j: int| 0 <= i < pl.len() && 0 <= j < pl[i].len() implies pl[i][j]
                != ':' by {
                assert(pl[i] == p[i]);
            }
        }
        assert(parts_free_of_separator(ql)) by {
            assert forall|i: int, j: int| 0 <= i < ql.len() && 0 <= j < ql[i].len() implies ql[i][j]
                != ':' by {
                assert(ql[i] == q[i]);
            }
        }
        lemma_join_key_injective(pl, ql);
        assert(p =~= pl.push(p.last()));
        assert(q =~= ql.push(q.last()));
    }
}

/// The start of the bucket that holds `now`, in seconds.
pub open spec fn last_bucket_start(interval: TimeSeriesInterval, now: u64) -> int {
    now - now % interval.interval
}

/// The start of the first bucket of the retained window, in seconds: the window ends
/// with the bucket that holds `now` and spans the retention.
pub open spec fn first_bucket_start(interval: TimeSeriesInterval, now: u64) -> int {
    last_bucket_start(interval, now) + interval.interval - interval.retention
}

/// The range of a series at time `now` can be computed in `u64` milliseconds.
pub open spec fn range_params_defined(interval: TimeSeriesInterval, now: u64) -> bool {
    &&& interval.interval > 0
    &&& last_bucket_start(interval, now) + interval.interval <= u64::MAX
    &&& 0 <= first_bucket_start(interval, now)
    &&& first_bucket_start(interval, now) * 1000 <= u64::MAX
    &&& last_bucket_start(interval, now) * 1000 <= u64::MAX
}

/// The first and last bucket start of the retained window at `now`, in milliseconds.
pub open spec fn range_params(interval: TimeSeriesInterval, now: u64) -> (u64, u64) {
    (
        (first_bucket_start(interval, now) * 1000) as u64,
        (last_bucket_start(interval, now) * 1000) as u64,
    )
}

/// The first and last bucket start, in milliseconds, of the window that a series
/// retains at the time `now` (in seconds since the epoch).
pub fn get_range_params_at(interval: &TimeSeriesInterval, now: u64) -> (res: (u64, u64))
    requires
        range_params_defined(*interval, now),
    ensures
        res == range_params(*interval, now),
{
    proof {
        lemma_mod_decreases(now as nat, interval.interval as nat);
    }
    let last_timestamp = now - now % interval.interval;
    let first_timestamp = last_timestamp + interval.interval - interval.retention;
    (first_timestamp * 1000, last_timestamp * 1000)
}

/// Reads the system clock: `std::time::SystemTime::now`, as whole seconds since the
/// Unix epoch. Nothing is claimed of the value read; it is `None` where the clock
/// stands before the epoch.
#[verifier::external_body]
pub(crate) fn unix_time_secs() -> (res: Option<u64>) {
    match std::time::SystemTime::now().duration_since(std::time::UNIX_EPOCH) {
        Ok(d) => Some(d.as_secs()),
        Err(_) => None,
    }
}

/// The window that a series retains at the time `now` (seconds since the epoch), in
/// milliseconds; `None` exactly where that window cannot be computed.
pub fn range_params_now(interval: &TimeSeriesInterval, now: u64) -> (res: Option<(u64, u64)>)
    ensures
        res is Some <==> range_params_defined(*interval, now),
        res matches Some(r) ==> r == range_params(*interval, now),
{
    if range_defined_at(interval, now) {
        Some(get_range_params_at(interval, now))
    } else {
        None
    }
}

/// The first and last bucket start, in milliseconds, of the window that a series
/// retains now: `range_params_now` at the time the clock gives. `None` where the clock
/// cannot be read or the window at the time read cannot be computed.
pub fn get_range_params(interval: &TimeSeriesInterval) -> (res: Option<(u64, u64)>)
    requires
        interval.interval > 0,
    ensures
        res matches Some(r) ==> exists|now: u64|
            range_params_defined(*interval, now) && r == range_params(*interval, now),
{
    match unix_time_secs() {
        Some(now) => range_params_now(interval, now),
        None => None,
    }
}

/// Tests `range_params_defined` without overflowing.
pub fn range_defined_at(interval: &TimeSeriesInterval, now: u64) -> (b: bool)
    ensures
        b == range_params_defined(*interval, now),
{
    if interval.interval == 0 {
        return false;
    }
    proof {
        lemma_mod_decreases(now as nat, interval.interval as nat);
    }
    let last = now - now % interval.interval;
    if last > u64::MAX - interval.interval {
        return false;
    }
    let end = last + interval.interval;
    if end < interval.retention {
        return false;
    }
    let first = end - interval.retention;
    first <= u64::MAX / 1000 && last <= u64::MAX / 1000
}

/// `res` is `points` cut or padded to exactly `amount` entries: the entries that fit
/// are kept in order, and each added entry has timestamp 0 and a value that the value
/// type's `Default` gives.
pub open spec fn gaps_filled<T: Default>(
    points: Seq<(u64, T)>,
    amount: nat,
    res: Seq<(u64, T)>,
) -> bool {
    &&& res.len() == amount
    &&& forall|i: int| 0 <= i < points.len() && i < amount ==> res[i] == points[i]
    &&& forall|i: int|
        points.len() <= i < amount ==> #[trigger] res[i].0 == 0 && call_ensures(
            T::default,
            (),
            res[i].1,
        )
}

/// `points` cut or padded to exactly `points_amount` entries (see `gaps_filled`).
pub fn fill_gaps<T: ValueTypeTrait + Default>(
    points: Vec<(u64, T)>,
    first_timestamp: u64,
    interval: u64,
    points_amount: u64,
) -> (res: Vec<(u64, T)>)
    requires
        points_amount <= usize::MAX,
    ensures
        gaps_filled(points@, points_amount as nat, res@),
{
    let n = points_amount as usize;
    let mut points = points;
    let ghost original = points@;
    if points.len() > n {
        points.truncate(n);
    } else {
        while points.len() < n
            invariant
                original.len() <= points.len() <= n,
                n == points_amount,
                forall|i: int| 0 <= i < original.len() ==> points[i] == original[i],
                forall|i: int|
                    original.len() <= i < points.len() ==> #[trigger] points[i].0 == 0
                        && call_ensures(T::default, (), points[i].1),
            decreases n - points.len(),
        {
            let value = T::default();
            points.push((0, value));
        }
    }
    proof {
        assert(gaps_filled(original, points_amount as nat, points@));
    }
    points
}

/// Filling the gaps of a series that already has the wanted length changes nothing:
/// a second fill to the same length gives back the first fill's result.
pub proof fn lemma_fill_gaps_idempotent<T: Default>(
    points: Seq<(u64, T)>,
    amount: nat,
    once: Seq<(u64, T)>,
    twice: Seq<(u64, T)>,
)
    requires
        gaps_filled(points, amount, once),
        gaps_filled(once, amount, twice),
    ensures
        twice == once,
{
    assert(twice =~= once);
}

/// The outside type of a redis time series range query.
#[verifier::external_type_specification]
#[verifier::external_body]
pub struct ExTsRangeQuery(redis_ts::TsRangeQuery);

/// A range query that sums a series into buckets: the first and last timestamp, the
/// number of samples to return, the bucket width in milliseconds, and whether empty
/// buckets are reported.
#[derive(Clone, Copy, Debug, PartialEq, Eq, Structural)]
pub struct RangeQuery {
    pub from: u64,
    pub to: u64,
    pub count: u64,
    pub bucket_ms: u64,
    pub empty: bool,
}

/// The query for the retained window of a series: from `first_timestamp` to
/// `last_timestamp`, one sample per bucket of the series, summed over buckets of the
/// series's width, with empty buckets reported.
pub open spec fn series_range_query(
    interval: TimeSeriesInterval,
    first_timestamp: u64,
    last_timestamp: u64,
) -> RangeQuery {
    RangeQuery {
        from: first_timestamp,
        to: last_timestamp,
        count: interval.amount,
        bucket_ms: (interval.interval * 1000) as u64,
        empty: true,
    }
}

/// The plain values of the range query for a series window.
pub fn range_query(interval: &TimeSeriesInterval, first_timestamp: u64, last_timestamp: u64) -> (res:
    RangeQuery)
    requires
        interval.interval * 1000 <= u64::MAX,
    ensures
        res == series_range_query(*interval, first_timestamp, last_timestamp),
{
    RangeQuery {
        from: first_timestamp,
        to: last_timestamp,
        count: interval.amount,
        bucket_ms: interval.interval * 1000,
        empty: true,
    }
}

/// The `redis_ts` query `TsRangeQuery::default()` with `from`, `to` and `count` set to
/// the first three values, a `TsAggregationType::Sum` over `bucket_ms`, and the `empty`
/// flag: the builder sets each field from its argument alone, so the query is a
/// function of these values.
pub uninterp spec fn summed_range_query(
    from: u64,
    to: u64,
    count: u64,
    bucket_ms: u64,
    empty: bool,
) -> TsRangeQuery;

/// Builds the `redis_ts` query: `TsRangeQuery::default()` with `from`, `to`, `count`,
/// a `TsAggregationType::Sum` over `bucket_ms` and `empty` set from `q`. The query is
/// opaque here: what is claimed is that it is `summed_range_query` of those values.
#[verifier::external_body]
pub(crate) fn to_ts_range_query(q: &RangeQuery) -> (res: TsRangeQuery)
    ensures
        res == summed_range_query(q.from, q.to, q.count, q.bucket_ms, q.empty),
{
    TsRangeQuery::default().from(q.from).to(q.to).count(q.count).aggregation_type(
        redis_ts::TsAggregationType::Sum(q.bucket_ms),
    ).empty(q.empty)
}

/// The `redis_ts` range query for the retained window of a series (see
/// `series_range_query`).
pub fn get_range_query(interval: &TimeSeriesInterval, first_timestamp: u64, last_timestamp: u64) -> (res:
    TsRangeQuery)
    requires
        interval.interval * 1000 <= u64::MAX,
    ensures
        res == summed_range_query(
            first_timestamp,
            last_timestamp,
            interval.amount,
            (interval.interval * 1000) as u64,
            true,
        ),
{
    let q = range_query(interval, first_timestamp, last_timestamp);
    to_ts_range_query(&q)
}

} // verus!
