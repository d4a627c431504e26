use vstd::prelude::*;

verus! {

/// The query that names the coin a route reports on.
pub struct CoinQuery {
    pub coin: String,
}

/// Where a time series starts, how far apart its points are and how many there are.
#[derive(Clone, Copy, Debug, PartialEq, Eq, Structural)]
pub struct TimestampInfo {
    pub start: u64,
    pub interval: u64,
    pub amount: u64,
}

/// Marks the types that a single time series point may hold.
pub trait ValueTypeTrait {}

impl ValueTypeTrait for u64 {}

impl ValueTypeTrait for u32 {}

/// Marks the types that a history result may carry as its values.
pub trait ValuesTrait {}

impl<T> ValuesTrait for Vec<T> {}

impl ValuesTrait for () {}

impl<T> ValuesTrait for std::collections::HashMap<String, Vec<T>> {}

/// The HTTP status of a successful answer.
pub const STATUS_OK: u16 = 200;

/// The HTTP status of an answer to a malformed request.
pub const STATUS_BAD_REQUEST: u16 = 400;

/// The HTTP status of an answer when the storage behind the API failed.
pub const STATUS_INTERNAL_SERVER_ERROR: u16 = 500;

/// The answer of a route: an HTTP status, and either an error message or a result.
pub struct SickResult<T> {
    pub status_code: u16,
    pub error: Option<String>,
    pub result: Option<T>,
}

/// An answer that clients may cache for `expire_seconds` seconds.
pub struct CachedSickResult<T> {
    pub expire_seconds: u64,
    pub sick_result: SickResult<T>,
}

/// One page of a table, with the number of rows of the whole table.
pub struct TableRes<T> {
    pub total: usize,
    pub entries: Vec<T>,
}

/// The points of a time series, with where they start and how far apart they are.
pub struct HistoryResult<T: ValuesTrait> {
    pub timestamps: TimestampInfo,
    pub values: T,
}

/// A page of a sorted table: the page number, rows per page, the column to sort by and
/// the direction.
pub struct TableQuerySort {
    pub coin: String,
    pub page: u32,
    pub limit: u8,
    pub sortby: String,
    pub sortdir: String,
}

/// A page of a table: the page number and rows per page.
pub struct TableQuery {
    pub coin: String,
    pub page: u32,
    pub limit: u8,
}

/// The time, in seconds since the epoch, until which a history stays current: one
/// second after the end of its last bucket.
pub open spec fn history_expiry(timestamps: TimestampInfo) -> int {
    timestamps.start + timestamps.amount * timestamps.interval + 1
}

/// The expiry of a history is a `u64` that is not before `now`.
pub open spec fn history_cacheable(timestamps: TimestampInfo, now: u64) -> bool {
    &&& history_expiry(timestamps) <= u64::MAX
    &&& now <= history_expiry(timestamps)
}

impl<T: ValuesTrait> HistoryResult<T> {
    /// How many seconds from `now` this history may be cached: until its expiry.
    pub fn cache_seconds(&self, now: u64) -> (res: u64)
        requires
            history_cacheable(self.timestamps, now),
        ensures
            res == history_expiry(self.timestamps) - now,
    {
        proof {
            assert(self.timestamps.amount * self.timestamps.interval <= u64::MAX) by (nonlinear_arith)
                requires
                    self.timestamps.start + self.timestamps.amount * self.timestamps.interval + 1
                        <= u64::MAX,
            ;
        }
        let next = self.timestamps.start + self.timestamps.amount * self.timestamps.interval + 1;
        next - now
    }

    /// The answer that carries this history: status 200, no error, and a cache time that
    /// lasts from `now` until the history's expiry.
    pub fn into_cached(self, now: u64) -> (res: CachedSickResult<HistoryResult<T>>)
        requires
            history_cacheable(self.timestamps, now),
        ensures
            res.expire_seconds == history_expiry(self.timestamps) - now,
            res.sick_result.status_code == STATUS_OK,
            res.sick_result.error is None,
            res.sick_result.result == Some(self),
    {
        let expire_seconds = self.cache_seconds(now);
        CachedSickResult {
            expire_seconds,
            sick_result: SickResult { status_code: STATUS_OK, error: None, result: Some(self) },
        }
    }
}

} // verus!
