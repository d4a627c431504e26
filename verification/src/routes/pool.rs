use vstd::prelude::*;

use redis_ts::TsRangeQuery;

use super::history::TimeSeriesInterval;
use super::redis::{
    join_key, key_format, str_views, summed_range_query, to_ts_range_query, RangeQuery,
};
use super::types::{
    HistoryResult, SickResult, TimestampInfo, ValuesTrait, STATUS_BAD_REQUEST,
    STATUS_INTERNAL_SERVER_ERROR,
};
use crate::redis_interop::{prefix_name, Prefix};
use crate::text::{
    all_ascii, ascii_lowercase_of, decimal, push_decimal, text_eq, to_lowercase,
    unicode_lowercase,
};

verus! {

/// The answer when the storage behind the API failed: status 500 and the error
/// `Database error`.
pub fn redis_error<T>() -> (res: SickResult<T>)
    ensures
        res.status_code == STATUS_INTERNAL_SERVER_ERROR,
        res.error matches Some(e) && e@ == "Database error"@,
        res.result is None,
{
    SickResult {
        status_code: STATUS_INTERNAL_SERVER_ERROR,
        error: Some(String::from_str("Database error")),
        result: None,
    }
}

/// The history that stands for a failed read: all timestamps zero and the values
/// that the value type's `Default` gives.
pub fn history_error<T: ValuesTrait + Default>() -> (res: HistoryResult<T>)
    ensures
        res.timestamps == (TimestampInfo { start: 0, interval: 0, amount: 0 }),
        call_ensures(T::default, (), res.values),
{
    HistoryResult { timestamps: TimestampInfo { start: 0, interval: 0, amount: 0 }, values: T::default() }
}

/// The answer to a table request with an unknown sort column: status 400 and the
/// error `invalid sort`.
pub fn invalid_sort<T>() -> (res: SickResult<T>)
    ensures
        res.status_code == STATUS_BAD_REQUEST,
        res.error matches Some(e) && e@ == "invalid sort"@,
        res.result is None,
{
    SickResult {
        status_code: STATUS_BAD_REQUEST,
        error: Some(String::from_str("invalid sort")),
        result: None,
    }
}

/// The SQL sort direction that a requested direction stands for: `ASC` where its
/// lowercase is `asc`, `DESC` for anything else.
pub open spec fn sort_direction(s: Seq<char>) -> Seq<char> {
    if unicode_lowercase(s) == "asc"@ {
        "ASC"@
    } else {
        "DESC"@
    }
}

/// `sort_direction` of an all-ASCII text, where the lowercase is ASCII lowercase.
pub open spec fn ascii_sort_direction(s: Seq<char>) -> Seq<char> {
    if ascii_lowercase_of(s) == "asc"@ {
        "ASC"@
    } else {
        "DESC"@
    }
}

/// The SQL sort direction that a requested direction stands for.
pub fn get_sortdir(s: &String) -> (res: String)
    ensures
        res@ == sort_direction(s@),
        all_ascii(s@) ==> res@ == ascii_sort_direction(s@),
{
    let lowered = to_lowercase(s.as_str());
    if text_eq(lowered.as_str(), "asc") {
        String::from_str("ASC")
    } else {
        String::from_str("DESC")
    }
}

/// Normalising a sort direction twice gives what normalising it once gives: both
/// directions that `get_sortdir` answers with are ASCII and stand for themselves.
pub proof fn lemma_sortdir_idempotent(s: Seq<char>)
    ensures
        all_ascii(sort_direction(s)),
        ascii_sort_direction(sort_direction(s)) == sort_direction(s),
{
    reveal_strlit("ASC");
    reveal_strlit("DESC");
    reveal_strlit("asc");
    assert(ascii_lowercase_of("ASC"@) =~= "asc"@);
    assert(ascii_lowercase_of("DESC"@).len() != "asc"@.len());
}

/// The columns that the block table may be sorted by.
pub open spec fn is_block_sort_column(s: Seq<char>) -> bool {
    ||| s == "id"@
    ||| s == "status"@
    ||| s == "reward"@
    ||| s == "duration_ms"@
    ||| s == "difficulty"@
    ||| s == "effort_percent"@
}

/// Whether the block table may be sorted by `sortby`.
pub fn block_sort_valid(sortby: &str) -> (res: bool)
    ensures
        res == is_block_sort_column(sortby@),
{
    text_eq(sortby, "id") || text_eq(sortby, "status") || text_eq(sortby, "reward")
        || text_eq(sortby, "duration_ms") || text_eq(sortby, "difficulty") || text_eq(
        sortby,
        "effort_percent",
    )
}

/// The start of the mined blocks query, up to its sort column: the selected columns,
/// the join with the miners' addresses, and `ORDER BY `.
pub open spec fn blocks_query_head() -> Seq<char> {
    "SELECT blocks.id,status,hash,reward,time_ms,duration_ms,height,difficulty,effort_percent,addresses.address_md5 FROM blocks INNER JOIN addresses ON addresses.id = blocks.miner_id ORDER BY "@
}

/// The SQL query for one page of mined blocks, sorted by `sortby` in direction
/// `sortdir`, skipping `offset` rows and returning at most `limit`.
pub open spec fn blocks_query_text(
    sortby: Seq<char>,
    sortdir: Seq<char>,
    offset: nat,
    limit: nat,
) -> Seq<char> {
    blocks_query_head()
        + sortby + " "@ + sortdir + " LIMIT "@ + decimal(offset) + ","@ + decimal(limit)
}

/// The SQL query for page `page` of the mined blocks, `limit` rows per page, sorted by
/// `sortby` in direction `sortdir`; `None` where `sortby` is not a sortable column.
pub fn blocks_query(sortby: &str, sortdir: &str, page: u32, limit: u8) -> (res: Option<String>)
    requires
        page * limit <= u32::MAX,
    ensures
        res is Some <==> is_block_sort_column(sortby@),
        res matches Some(q) ==> q@ == blocks_query_text(
            sortby@,
            sortdir@,
            (page * limit) as nat,
            limit as nat,
        ),
{
    if !block_sort_valid(sortby) {
        return None;
    }
    let offset = page * (limit as u32);
    let mut q = String::from_str(
        "SELECT blocks.id,status,hash,reward,time_ms,duration_ms,height,difficulty,effort_percent,addresses.address_md5 FROM blocks INNER JOIN addresses ON addresses.id = blocks.miner_id ORDER BY ",
    );
    q.append(sortby);
    q.append(" ");
    q.append(sortdir);
    q.append(" LIMIT ");
    push_decimal(&mut q, offset as u64);
    q.append(",");
    push_decimal(&mut q, limit as u64);
    Some(q)
}

/// The mined blocks query sorts as requested, whatever the column: after its head,
/// which ends in ` ORDER BY `, come `sortby`, a space and `sortdir`, then ` LIMIT `,
/// the offset, a comma and the row count. Two queries for the same column and page are
/// the same exactly when their directions are.
pub proof fn lemma_blocks_query_order_clause(
    sortby: Seq<char>,
    sortdir: Seq<char>,
    other_dir: Seq<char>,
    offset: nat,
    limit: nat,
)
    ensures
        ({
            let q = blocks_query_text(sortby, sortdir, offset, limit);
            let h = blocks_query_head().len() as int;
            let e = h + sortby.len() + 1 + sortdir.len();
            &&& h >= 10
            &&& blocks_query_head().subrange(h - 10, h) == " ORDER BY "@
            &&& q.subrange(0, h) == blocks_query_head()
            &&& q.subrange(h, e) == sortby + " "@ + sortdir
            &&& q.subrange(e, e + 7) == " LIMIT "@
            &&& q.subrange(e + 7, q.len() as int) == decimal(offset) + ","@ + decimal(limit)
            &&& (blocks_query_text(sortby, other_dir, offset, limit) == q <==> other_dir == sortdir)
        }),
{
    reveal_strlit(
        "SELECT blocks.id,status,hash,reward,time_ms,duration_ms,height,difficulty,effort_percent,addresses.address_md5 FROM blocks INNER JOIN addresses ON addresses.id = blocks.miner_id ORDER BY ",
    );
    reveal_strlit(" ORDER BY ");
    reveal_strlit(" LIMIT ");
    reveal_strlit(" ");
    let head = blocks_query_head();
    let tail = " LIMIT "@ + decimal(offset) + ","@ + decimal(limit);
    lemma_query_order_clause(head, sortby, sortdir, other_dir, tail);
    assert(blocks_query_text(sortby, sortdir, offset, limit) =~= head + sortby + " "@ + sortdir
        + tail);
    assert(blocks_query_text(sortby, other_dir, offset, limit) =~= head + sortby + " "@
        + other_dir + tail);
    let h = head.len() as int;
    assert(head.subrange(h - 10, h) =~= " ORDER BY "@);
    assert(tail.subrange(0, 7) =~= " LIMIT "@);
    assert(tail.subrange(7, tail.len() as int) =~= decimal(offset) + ","@ + decimal(limit));
}

/// Where a query is `head`, the sort column, a space, the direction and `tail`: the
/// parts stand at their places, and two such queries that differ only in their
/// directions are the same exactly when the directions are.
proof fn lemma_query_order_clause(
    head: Seq<char>,
    sortby: Seq<char>,
    sortdir: Seq<char>,
    other_dir: Seq<char>,
    tail: Seq<char>,
)
    ensures
        ({
            let q = head + sortby + " "@ + sortdir + tail;
            let h = head.len() as int;
            let e = h + sortby.len() + 1 + sortdir.len();
            &&& q.subrange(0, h) == head
            &&& q.subrange(h, e) == sortby + " "@ + sortdir
            &&& q.subrange(e, q.len() as int) == tail
            &&& (head + sortby + " "@ + other_dir + tail == q <==> other_dir == sortdir)
        }),
{
    reveal_strlit(" ");
    let q = head + sortby + " "@ + sortdir + tail;
    let r = head + sortby + " "@ + other_dir + tail;
    let h = head.len() as int;
    let m = h + sortby.len() + 1;
    let e = m + sortdir.len();
    assert(q =~= head + (sortby + " "@ + sortdir) + tail);
    assert(q.subrange(0, h) =~= head);
    assert(q.subrange(h, e) =~= sortby + " "@ + sortdir);
    assert(q.subrange(e, q.len() as int) =~= tail);
    if r == q {
        assert(other_dir.len() == sortdir.len());
        assert forall|i: int| 0 <= i < sortdir.len() implies other_dir[i] == sortdir[i] by {
            assert(q[m + i] == sortdir[i]);
            assert(r[m + i] == other_dir[i]);
        }
        assert(other_dir =~= sortdir);
    }
}

/// The keys of the four series that the pool overview reads.
pub struct PoolOverviewKeys {
    pub pool_hashrate: String,
    pub network_hashrate: String,
    pub miner_count: String,
    pub worker_count: String,
}

/// The keys of the pool overview series of a coin: its pool and network hashrate and
/// its miner and worker counts.
pub fn pool_overview_keys(coin: &str) -> (res: PoolOverviewKeys)
    ensures
        res.pool_hashrate@ == coin@ + ":HASHRATE:POOL"@,
        res.network_hashrate@ == coin@ + ":HASHRATE:NETWORK"@,
        res.miner_count@ == coin@ + ":MINER_COUNT:POOL"@,
        res.worker_count@ == coin@ + ":WORKER_COUNT:POOL"@,
{
    PoolOverviewKeys {
        pool_hashrate: String::from_str(coin).concat(":HASHRATE:POOL"),
        network_hashrate: String::from_str(coin).concat(":HASHRATE:NETWORK"),
        miner_count: String::from_str(coin).concat(":MINER_COUNT:POOL"),
        worker_count: String::from_str(coin).concat(":WORKER_COUNT:POOL"),
    }
}

/// The keys that the block overview reads: the round statistics hash, the block
/// statistics hash and its height field, the series of mined block counts, and the
/// difficulty series.
pub struct BlockOverviewKeys {
    pub round_stats: String,
    pub block_stats: String,
    pub height_field: String,
    pub mined_blocks: String,
    pub difficulty: String,
}

/// The keys of the block overview of a coin.
pub fn block_overview_keys(coin: &str) -> (res: BlockOverviewKeys)
    ensures
        res.round_stats@ == join_key(seq![coin@, prefix_name(Prefix::ROUND), prefix_name(Prefix::STATS)]),
        res.block_stats@ == join_key(seq![coin@, prefix_name(Prefix::BLOCK), prefix_name(Prefix::STATS)]),
        res.height_field@ == prefix_name(Prefix::HEIGHT),
        res.mined_blocks@ == join_key(
            seq![coin@, prefix_name(Prefix::MINED_BLOCK), prefix_name(Prefix::NUMBER)],
        ),
        res.difficulty@ == join_key(seq![coin@, prefix_name(Prefix::DIFFICULTY)]),
{
    let round = [coin, Prefix::ROUND.name(), Prefix::STATS.name()];
    let block = [coin, Prefix::BLOCK.name(), Prefix::STATS.name()];
    let height = [Prefix::HEIGHT.name()];
    let mined = [coin, Prefix::MINED_BLOCK.name(), Prefix::NUMBER.name()];
    let difficulty = [coin, Prefix::DIFFICULTY.name()];
    proof {
        assert(str_views(round@) =~= seq![coin@, prefix_name(Prefix::ROUND), prefix_name(Prefix::STATS)]);
        assert(str_views(block@) =~= seq![coin@, prefix_name(Prefix::BLOCK), prefix_name(Prefix::STATS)]);
        assert(str_views(height@) =~= seq![prefix_name(Prefix::HEIGHT)]);
        assert(str_views(mined@) =~= seq![coin@, prefix_name(Prefix::MINED_BLOCK), prefix_name(Prefix::NUMBER)]);
        assert(str_views(difficulty@) =~= seq![coin@, prefix_name(Prefix::DIFFICULTY)]);
    }
    BlockOverviewKeys {
        round_stats: key_format(&round),
        block_stats: key_format(&block),
        height_field: key_format(&height),
        mined_blocks: key_format(&mined),
        difficulty: key_format(&difficulty),
    }
}

/// The number of confirmations a block needs before it counts as confirmed.
pub const BLOCK_CONFIRMATIONS: u32 = 10;

/// The query for the number of blocks mined in the last block interval: one sample
/// summing a bucket of the interval's width, from `now - interval * 1000` up to
/// `now * 1000` (where `now` is in seconds).
pub fn mined24h_query(now: u64, block_interval: &TimeSeriesInterval) -> (res: RangeQuery)
    requires
        block_interval.interval * 1000 <= now,
        now * 1000 <= u64::MAX,
    ensures
        res == (RangeQuery {
            from: (now - block_interval.interval * 1000) as u64,
            to: (now * 1000) as u64,
            count: 1,
            bucket_ms: (block_interval.interval * 1000) as u64,
            empty: false,
        }),
{
    let bucket_ms = block_interval.interval * 1000;
    RangeQuery { from: now - bucket_ms, to: now * 1000, count: 1, bucket_ms, empty: false }
}

/// The `redis_ts` query for the number of blocks mined in the last block interval (see
/// `mined24h_query`).
pub fn mined24h_range_query(now: u64, block_interval: &TimeSeriesInterval) -> (res: TsRangeQuery)
    requires
        block_interval.interval * 1000 <= now,
        now * 1000 <= u64::MAX,
    ensures
        res == summed_range_query(
            (now - block_interval.interval * 1000) as u64,
            (now * 1000) as u64,
            1,
            (block_interval.interval * 1000) as u64,
            false,
        ),
{
    let q = mined24h_query(now, block_interval);
    to_ts_range_query(&q)
}

/// The number of blocks mined, from the samples of the mined block series: the first
/// sample's value cut to 32 bits, or 0 where there is no sample.
pub fn mined24h_count(samples: &Vec<(u64, u64)>) -> (res: u32)
    ensures
        samples@.len() == 0 ==> res == 0,
        samples@.len() > 0 ==> res == samples@[0].1 as u32,
{
    if samples.len() > 0 {
        samples[0].1 as u32
    } else {
        0
    }
}

/// Where the miners table is sorted: by a redis index of round effort or of
/// hashrate, or by the database (mature balance or join time).
#[derive(Clone, Copy, Debug, PartialEq, Eq, Structural)]
pub enum MinerSort {
    RoundEffort,
    Hashrate,
    Database,
}

/// The sort that a requested miners column stands for; `None` for an unknown column.
pub open spec fn miner_sort_of(sortby: Seq<char>) -> Option<MinerSort> {
    if sortby == "round-effort"@ {
        Some(MinerSort::RoundEffort)
    } else if sortby == "hashrate"@ {
        Some(MinerSort::Hashrate)
    } else if sortby == "mature_balance"@ || sortby == "join_time"@ {
        Some(MinerSort::Database)
    } else {
        None
    }
}

/// The sort that a requested miners column stands for.
pub fn miner_sort(sortby: &str) -> (res: Option<MinerSort>)
    ensures
        res == miner_sort_of(sortby@),
{
    if text_eq(sortby, "round-effort") {
        Some(MinerSort::RoundEffort)
    } else if text_eq(sortby, "hashrate") {
        Some(MinerSort::Hashrate)
    } else if text_eq(sortby, "mature_balance") || text_eq(sortby, "join_time") {
        Some(MinerSort::Database)
    } else {
        None
    }
}

/// The keys that the miners table reads: the sorted set of round efforts, the sorted
/// set of hashrates, and the round statistics hash.
pub struct MinersKeys {
    pub round_effort: String,
    pub hashrate_index: String,
    pub round_stats: String,
}

/// The keys of the miners table of a coin.
pub fn miners_keys(coin: &str) -> (res: MinersKeys)
    ensures
        res.round_effort@ == join_key(seq![coin@, prefix_name(Prefix::ROUND), prefix_name(Prefix::EFFORT)]),
        res.hashrate_index@ == join_key(
            seq![coin@, prefix_name(Prefix::SOLVER), prefix_name(Prefix::INDEX), prefix_name(Prefix::HASHRATE)],
        ),
        res.round_stats@ == join_key(seq![coin@, prefix_name(Prefix::ROUND), prefix_name(Prefix::STATS)]),
{
    let effort = [coin, Prefix::ROUND.name(), Prefix::EFFORT.name()];
    let hashrate = [coin, Prefix::SOLVER.name(), Prefix::INDEX.name(), Prefix::HASHRATE.name()];
    let stats = [coin, Prefix::ROUND.name(), Prefix::STATS.name()];
    proof {
        assert(str_views(effort@) =~= seq![coin@, prefix_name(Prefix::ROUND), prefix_name(Prefix::EFFORT)]);
        assert(str_views(hashrate@) =~= seq![coin@, prefix_name(Prefix::SOLVER), prefix_name(Prefix::INDEX), prefix_name(Prefix::HASHRATE)]);
        assert(str_views(stats@) =~= seq![coin@, prefix_name(Prefix::ROUND), prefix_name(Prefix::STATS)]);
    }
    MinersKeys {
        round_effort: key_format(&effort),
        hashrate_index: key_format(&hashrate),
        round_stats: key_format(&stats),
    }
}

/// The index range of a page in a redis sorted set: from `page * limit` to
/// `(page + 1) * limit`.
pub fn zrange_bounds(page: u32, limit: u8) -> (res: (u32, u32))
    requires
        page + 1 <= u32::MAX,
        (page + 1) * limit <= u32::MAX,
    ensures
        res.0 == page * limit,
        res.1 == (page + 1) * limit,
{
    proof {
        assert(page * limit <= (page + 1) * limit) by (nonlinear_arith);
        assert((page + 1) * limit == page * limit + limit) by (nonlinear_arith);
    }
    (page * (limit as u32), (page + 1) * (limit as u32))
}

/// The start of the miners query, up to its sort column: the selected columns, the
/// join with the miners' addresses, and `ORDER BY `.
pub open spec fn miners_query_head() -> Seq<char> {
    "SELECT id,addresses.address_md5,join_time,mature_balance FROM miners INNER JOIN addresses ON miners.address_id = addresses.id ORDER BY "@
}

/// The SQL query for the first `limit` miners sorted by `sortby` in direction
/// `sortdir`.
pub open spec fn miners_query_text(sortby: Seq<char>, sortdir: Seq<char>, limit: nat) -> Seq<char> {
    miners_query_head()
        + sortby + " "@ + sortdir + " LIMIT "@ + decimal(limit)
}

/// The SQL query for the first `limit` miners sorted by a database column.
pub fn miners_query(sortby: &str, sortdir: &str, limit: u8) -> (res: String)
    ensures
        res@ == miners_query_text(sortby@, sortdir@, limit as nat),
{
    let mut q = String::from_str(
        "SELECT id,addresses.address_md5,join_time,mature_balance FROM miners INNER JOIN addresses ON miners.address_id = addresses.id ORDER BY ",
    );
    q.append(sortby);
    q.append(" ");
    q.append(sortdir);
    q.append(" LIMIT ");
    push_decimal(&mut q, limit as u64);
    q
}

/// The miners query sorts by the requested column in the requested direction: after its
/// head, which ends in ` ORDER BY `, come `sortby`, a space and `sortdir`, then
/// ` LIMIT ` and the row count. Two queries for the same column and row count are the
/// same exactly when their directions are.
pub proof fn lemma_miners_query_order_clause(
    sortby: Seq<char>,
    sortdir: Seq<char>,
    other_dir: Seq<char>,
    limit: nat,
)
    ensures
        ({
            let q = miners_query_text(sortby, sortdir, limit);
            let h = miners_query_head().len() as int;
            let e = h + sortby.len() + 1 + sortdir.len();
            &&& h >= 10
            &&& miners_query_head().subrange(h - 10, h) == " ORDER BY "@
            &&& q.subrange(0, h) == miners_query_head()
            &&& q.subrange(h, e) == sortby + " "@ + sortdir
            &&& q.subrange(e, e + 7) == " LIMIT "@
            &&& q.subrange(e + 7, q.len() as int) == decimal(limit)
            &&& (miners_query_text(sortby, other_dir, limit) == q <==> other_dir == sortdir)
        }),
{
    reveal_strlit(
        "SELECT id,addresses.address_md5,join_time,mature_balance FROM miners INNER JOIN addresses ON miners.address_id = addresses.id ORDER BY ",
    );
    reveal_strlit(" ORDER BY ");
    reveal_strlit(" LIMIT ");
    reveal_strlit(" ");
    let head = miners_query_head();
    let tail = " LIMIT "@ + decimal(limit);
    lemma_query_order_clause(head, sortby, sortdir, other_dir, tail);
    assert(miners_query_text(sortby, sortdir, limit) =~= head + sortby + " "@ + sortdir + tail);
    assert(miners_query_text(sortby, other_dir, limit) =~= head + sortby + " "@ + other_dir
        + tail);
    let h = head.len() as int;
    assert(head.subrange(h - 10, h) =~= " ORDER BY "@);
    assert(tail.subrange(0, 7) =~= " LIMIT "@);
    assert(tail.subrange(7, tail.len() as int) =~= decimal(limit));
}

/// The payout scheme that the pool pays out by.
pub fn payout_scheme() -> (res: String)
    ensures
        res@ == "PPLNS"@,
{
    String::from_str("PPLNS")
}

/// When the next payout happens, in milliseconds since the epoch, as the overview
/// reports it: `-1` where the scheduled time `next_ms` has already passed at `now_ms`.
pub fn next_payout(now_ms: i64, next_ms: i64) -> (res: i64)
    ensures
        res == if now_ms > next_ms {
            -1i64
        } else {
            next_ms
        },
{
    if now_ms > next_ms {
        -1
    } else {
        next_ms
    }
}


/// One row of the miners table before its scores are turned into numbers: the miner's
/// id, its database row, the bit pattern of its hashrate (0, the bits of zero, where it
/// has none) and the bit pattern of its round effort, if it has one.
pub struct MinerRow<I> {
    pub id: u32,
    pub info: I,
    pub hashrate_bits: u64,
    pub effort_bits: Option<u64>,
}

/// Pairs the database rows of the miners with their ids and scores by position: row
/// `i` goes with `ids[i]`, `hashrates[i]` and `efforts[i]`.
pub fn pair_miner_rows<I>(
    ids: &Vec<u32>,
    infos: Vec<I>,
    hashrates: &Vec<Option<u64>>,
    efforts: &Vec<Option<u64>>,
) -> (res: Vec<MinerRow<I>>)
    requires
        infos@.len() <= ids@.len(),
        infos@.len() <= hashrates@.len(),
        infos@.len() <= efforts@.len(),
    ensures
        res@.len() == infos@.len(),
        forall|i: int|
            0 <= i < res@.len() ==> {
                &&& (#[trigger] res@[i]).id == ids@[i]
                &&& res@[i].info == infos@[i]
                &&& res@[i].hashrate_bits == match hashrates@[i] {
                    Some(b) => b,
                    None => 0u64,
                }
                &&& res@[i].effort_bits == efforts@[i]
            },
{
    let ghost all = infos@;
    let mut rows: Vec<MinerRow<I>> = Vec::new();
    for info in it: infos
        invariant
            it.seq() == all,
            all.len() <= ids@.len(),
            all.len() <= hashrates@.len(),
            all.len() <= efforts@.len(),
            rows@.len() == it.index(),
            forall|i: int|
                0 <= i < rows@.len() ==> {
                    &&& (#[trigger] rows@[i]).id == ids@[i]
                    &&& rows@[i].info == all[i]
                    &&& rows@[i].hashrate_bits == match hashrates@[i] {
                        Some(b) => b,
                        None => 0u64,
                    }
                    &&& rows@[i].effort_bits == efforts@[i]
                },
    {
        let i = rows.len();
        let hashrate_bits = match hashrates[i] {
            Some(b) => b,
            None => 0,
        };
        rows.push(MinerRow { id: ids[i], info, hashrate_bits, effort_bits: efforts[i] });
    }
    rows
}

} // verus!
