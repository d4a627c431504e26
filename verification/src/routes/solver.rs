use vstd::prelude::*;

use redis_ts::TsFilterOptions;

use crate::text::{
    ascii_lower, ascii_lowercase, ascii_lowercase_of, ends_with_char,
    lemma_ascii_lowercase_idempotent,
};

verus! {

/// The query that names a coin and a miner address.
pub struct OverviewQuery {
    pub coin: String,
    pub address: String,
}

/// The outside type of a redis time series filter.
#[verifier::external_type_specification]
#[verifier::external_body]
pub struct ExTsFilterOptions(redis_ts::TsFilterOptions);

/// The terms of a filter, in the order they were added: a label name, a value, and
/// whether the label must equal the value (`true`) or differ from it (`false`).
pub uninterp spec fn filter_terms(opts: TsFilterOptions) -> Seq<(Seq<char>, Seq<char>, bool)>;

/// Whether a filter asks for the labels of the series it selects.
pub uninterp spec fn filter_with_labels(opts: TsFilterOptions) -> bool;

/// `TsFilterOptions::default` of `redis_ts`: a filter with no terms that does not ask
/// for labels.
#[verifier::external_body]
pub(crate) fn filter_default() -> (res: TsFilterOptions)
    ensures
        filter_terms(res) == Seq::<(Seq<char>, Seq<char>, bool)>::empty(),
        !filter_with_labels(res),
{
    TsFilterOptions::default()
}

/// `TsFilterOptions::equals` of `redis_ts`: adds the term that label `name` equals
/// `value` (both written with `Display`, which writes a text as it is) after the
/// existing terms.
#[verifier::external_body]
pub(crate) fn filter_equals(opts: TsFilterOptions, name: &str, value: &str) -> (res: TsFilterOptions)
    ensures
        filter_terms(res) == filter_terms(opts).push((name@, value@, true)),
        filter_with_labels(res) == filter_with_labels(opts),
{
    opts.equals(name, value)
}

/// `TsFilterOptions::with_labels` of `redis_ts`: sets whether the labels are asked for
/// and keeps the terms.
#[verifier::external_body]
pub(crate) fn filter_labels(opts: TsFilterOptions, value: bool) -> (res: TsFilterOptions)
    ensures
        filter_terms(res) == filter_terms(opts),
        filter_with_labels(res) == value,
{
    opts.with_labels(value)
}

/// The filter term that selects a miner's series: an address that ends with `@` is an
/// identity and is matched as it is; any other address is matched in ASCII lowercase.
pub open spec fn miner_id_term(addr: Seq<char>) -> (Seq<char>, Seq<char>, bool) {
    if addr.len() > 0 && addr.last() == '@' {
        ("identity"@, addr, true)
    } else {
        ("address"@, ascii_lowercase_of(addr), true)
    }
}

/// The filter that selects the series of the miner `addr` (see `miner_id_term`).
pub fn miner_id_filter(addr: &String) -> (res: TsFilterOptions)
    ensures
        filter_terms(res) == seq![miner_id_term(addr@)],
        !filter_with_labels(res),
{
    let opts = filter_default();
    if ends_with_char(addr.as_str(), '@') {
        filter_equals(opts, "identity", addr.as_str())
    } else {
        let lowered = ascii_lowercase(addr.as_str());
        filter_equals(opts, "address", lowered.as_str())
    }
}

/// Lowering an address that is not an identity before building its filter changes
/// nothing: the term of an address and of its ASCII lowercase are the same.
pub proof fn lemma_miner_id_term_lowercase_stable(addr: Seq<char>)
    requires
        !(addr.len() > 0 && addr.last() == '@'),
    ensures
        miner_id_term(ascii_lowercase_of(addr)) == miner_id_term(addr),
{
    let lower = ascii_lowercase_of(addr);
    if addr.len() > 0 {
        let c = addr.last();
        assert(lower.last() == ascii_lower(c));
        if 'A' <= c && c <= 'Z' {
            assert((c as u32) + 32 >= 97);
        }
    }
    lemma_ascii_lowercase_idempotent(addr);
}

} // verus!
