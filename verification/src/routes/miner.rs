use vstd::prelude::*;

use redis_ts::TsFilterOptions;

use super::redis::{fill_gaps, gaps_filled, join_key, key_format, str_views};
use super::solver::{
    filter_equals, filter_labels, filter_terms, filter_with_labels, miner_id_filter, miner_id_term,
};
use crate::redis_interop::{prefix_name, Prefix};
use super::types::ValueTypeTrait;
use crate::text::{
    all_ascii, ascii_lowercase_of, lemma_ascii_lowercase_idempotent,
    lemma_ascii_lowercase_keeps_ascii, to_lowercase, unicode_lowercase,
};

verus! {

/// How many series the pool keeps for each miner and each worker: current and average
/// hashrate, and valid, stale and invalid shares.
pub const SERIES_PER_MINER: usize = 5;

/// The `type` label value that selects a miner's or worker's five statistics series.
pub open spec fn miner_series_types() -> Seq<char> {
    "("@ + prefix_name(Prefix::HASHRATE) + ","@ + join_key(
        seq![prefix_name(Prefix::HASHRATE), prefix_name(Prefix::AVERAGE)],
    ) + ","@ + join_key(seq![prefix_name(Prefix::SHARES), prefix_name(Prefix::VALID)]) + ","@
        + join_key(seq![prefix_name(Prefix::SHARES), prefix_name(Prefix::STALE)]) + ","@ + join_key(
        seq![prefix_name(Prefix::SHARES), prefix_name(Prefix::INVALID)],
    ) + ")"@
}

/// The `type` label value of the five statistics series.
pub fn miner_series_type() -> (res: String)
    ensures
        res@ == miner_series_types(),
{
    let average = [Prefix::HASHRATE.name(), Prefix::AVERAGE.name()];
    let valid = [Prefix::SHARES.name(), Prefix::VALID.name()];
    let stale = [Prefix::SHARES.name(), Prefix::STALE.name()];
    let invalid = [Prefix::SHARES.name(), Prefix::INVALID.name()];
    proof {
        assert(str_views(average@) =~= seq![prefix_name(Prefix::HASHRATE), prefix_name(Prefix::AVERAGE)]);
        assert(str_views(valid@) =~= seq![prefix_name(Prefix::SHARES), prefix_name(Prefix::VALID)]);
        assert(str_views(stale@) =~= seq![prefix_name(Prefix::SHARES), prefix_name(Prefix::STALE)]);
        assert(str_views(invalid@) =~= seq![prefix_name(Prefix::SHARES), prefix_name(Prefix::INVALID)]);
    }
    let mut res = String::from_str("(");
    res.append(Prefix::HASHRATE.name());
    res.append(",");
    res.append(key_format(&average).as_str());
    res.append(",");
    res.append(key_format(&valid).as_str());
    res.append(",");
    res.append(key_format(&stale).as_str());
    res.append(",");
    res.append(key_format(&invalid).as_str());
    res.append(")");
    res
}

/// The terms that select the five statistics series of the miner whose address, once
/// lowered, is `lowered`: its id term, the `MINER` prefix and the statistics types.
pub open spec fn miner_stats_terms(lowered: Seq<char>) -> Seq<(Seq<char>, Seq<char>, bool)> {
    seq![
        miner_id_term(lowered),
        ("prefix"@, prefix_name(Prefix::MINER), true),
        ("type"@, miner_series_types(), true),
    ]
}

/// The filter that selects the five statistics series of the miner `address`: the
/// terms of `miner_stats_terms` for the Unicode lowercase of the address, which for an
/// all-ASCII address is its ASCII lowercase.
pub fn miner_stats_filter(address: &String) -> (res: TsFilterOptions)
    ensures
        filter_terms(res) == miner_stats_terms(unicode_lowercase(address@)),
        all_ascii(address@) ==> filter_terms(res) == miner_stats_terms(ascii_lowercase_of(address@)),
        !filter_with_labels(res),
{
    let lowered = to_lowercase(address.as_str());
    let ts_type = miner_series_type();
    let opts = miner_id_filter(&lowered);
    let opts = filter_equals(opts, "prefix", Prefix::MINER.name());
    let res = filter_equals(opts, "type", ts_type.as_str());
    proof {
        assert(filter_terms(res) =~= miner_stats_terms(lowered@));
    }
    res
}

/// Asking for the statistics of an all-ASCII address or of its lowercase selects the
/// same series: the lowercase is ASCII too, and lowering it again changes nothing.
pub proof fn lemma_stats_filter_lowercase_stable(address: Seq<char>)
    requires
        all_ascii(address),
    ensures
        all_ascii(ascii_lowercase_of(address)),
        miner_stats_terms(ascii_lowercase_of(ascii_lowercase_of(address))) == miner_stats_terms(
            ascii_lowercase_of(address),
        ),
{
    lemma_ascii_lowercase_keeps_ascii(address);
    lemma_ascii_lowercase_idempotent(address);
}

/// The filter that selects the statistics series of every worker of the miner
/// `address`, with their labels: the miner's id term, the `WORKER` prefix and the
/// statistics types.
pub fn worker_stats_filter(address: &String) -> (res: TsFilterOptions)
    ensures
        filter_terms(res) == seq![
            miner_id_term(address@),
            ("prefix"@, prefix_name(Prefix::WORKER), true),
            ("type"@, miner_series_types(), true),
        ],
        filter_with_labels(res),
{
    let ts_type = miner_series_type();
    let opts = miner_id_filter(address);
    let opts = filter_equals(opts, "prefix", Prefix::WORKER.name());
    let opts = filter_equals(opts, "type", ts_type.as_str());
    let res = filter_labels(opts, true);
    proof {
        assert(filter_terms(res) =~= seq![
            miner_id_term(address@),
            ("prefix"@, prefix_name(Prefix::WORKER), true),
            ("type"@, miner_series_types(), true),
        ]);
    }
    res
}

/// Every worker has its five series in a row, and the first of them carries at least
/// five labels, the fifth of which names the worker.
pub open spec fn worker_labels_complete(series_labels: Seq<Vec<(String, String)>>) -> bool {
    forall|k: int|
        0 <= k < series_labels.len() as int / (SERIES_PER_MINER as int) ==> #[trigger] series_labels[k
            * (SERIES_PER_MINER as int)]@.len() > 4
}

/// The worker names from the labels of the worker series, five series per worker in a
/// row: the value of the fifth label of each worker's first series. Series past the
/// last whole group of five are left out.
pub fn worker_names(series_labels: &Vec<Vec<(String, String)>>) -> (res: Vec<String>)
    requires
        worker_labels_complete(series_labels@),
    ensures
        res@.len() == series_labels@.len() as int / (SERIES_PER_MINER as int),
        forall|k: int|
            0 <= k < res@.len() ==> (#[trigger] res@[k])@ == series_labels@[k * (
            SERIES_PER_MINER as int)]@[4].1@,
{
    let worker_count = series_labels.len() / SERIES_PER_MINER;
    let mut names: Vec<String> = Vec::new();
    let mut i: usize = 0;
    while i < worker_count
        invariant
            i <= worker_count,
            worker_count == series_labels@.len() as int / (SERIES_PER_MINER as int),
            worker_labels_complete(series_labels@),
            names@.len() == i,
            forall|k: int|
                0 <= k < i ==> (#[trigger] names@[k])@ == series_labels@[k * (
                SERIES_PER_MINER as int)]@[4].1@,
        decreases worker_count - i,
    {
        proof {
            assert(i * 5 < series_labels@.len()) by (nonlinear_arith)
                requires
                    i < worker_count,
                    worker_count == series_labels@.len() / 5,
            ;
            assert(series_labels@[i * 5]@.len() > 4);
            assert(SERIES_PER_MINER == 5);
            assert(series_labels@.len() == series_labels.len());
            assert(i * 5 <= usize::MAX);
        }
        let labels = &series_labels[i * SERIES_PER_MINER];
        let name = labels[4].1.clone();
        names.push(name);
        i = i + 1;
    }
    names
}

/// The five statistics series of a miner, each cut or padded to `amount` points;
/// `None` where the reply does not hold exactly five series.
pub fn miner_stats_series<T: ValueTypeTrait + Default>(
    series: Vec<Vec<(u64, T)>>,
    first_timestamp: u64,
    interval: u64,
    amount: u64,
) -> (res: Option<Vec<Vec<(u64, T)>>>)
    requires
        amount <= usize::MAX,
    ensures
        res is Some <==> series@.len() == SERIES_PER_MINER,
        res matches Some(filled) ==> filled@.len() == series@.len() && forall|k: int|
            0 <= k < filled@.len() ==> gaps_filled(
                series@[k]@,
                amount as nat,
                #[trigger] filled@[k]@,
            ),
{
    if series.len() != SERIES_PER_MINER {
        return None;
    }
    let ghost all = series@;
    let mut filled: Vec<Vec<(u64, T)>> = Vec::new();
    for points in it: series
        invariant
            it.seq() == all,
            amount <= usize::MAX,
            filled@.len() == it.index(),
            forall|k: int|
                0 <= k < it.index() ==> gaps_filled(all[k]@, amount as nat, #[trigger] filled@[k]@),
    {
        let one = fill_gaps(points, first_timestamp, interval, amount);
        filled.push(one);
    }
    Some(filled)
}

} // verus!
