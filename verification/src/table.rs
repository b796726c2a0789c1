//! The tables of named rates and of their statistics: hash maps keyed by
//! the rate's key.

use vstd::prelude::*;
use ahash::AHashMap;
use crate::rate::Rate;
use crate::rate::RateView;
use crate::stats::RateStats;
use crate::stats::StatsView;

verus! {

/// The hash map of the tables: `ahash::AHashMap`. What a table holds is
/// told by [`rate_table`] and [`stats_table`].
#[verifier::external_type_specification]
#[verifier::external_body]
#[verifier::reject_recursive_types(K)]
#[verifier::reject_recursive_types(V)]
#[verifier::reject_recursive_types(S)]
pub struct ExAHashMap<K, V, S>(AHashMap<K, V, S>);

/// The state from which the map's hashers are made: `ahash::RandomState`.
#[verifier::external_type_specification]
#[verifier::external_body]
pub struct ExRandomState(ahash::RandomState);

/// `AHashMap::clone`, as derived for the map. Nothing is claimed of the copy.
pub assume_specification<K, V, S>[ <AHashMap<K, V, S> as Clone>::clone ](
    table: &AHashMap<K, V, S>,
) -> AHashMap<K, V, S> where K: Clone, V: Clone, S: Clone
;

/// What the rates of a table hold, each under its key.
pub uninterp spec fn rate_table(table: AHashMap<u128, Rate>) -> Map<u128, RateView>;

/// What the statistics of a table hold, each under the key of its rate.
pub uninterp spec fn stats_table(table: AHashMap<u128, RateStats>) -> Map<u128, StatsView>;

/// `AHashMap::new`: a table that holds no rate.
#[verifier::external_body]
pub(crate) fn rates_new() -> (table: AHashMap<u128, Rate>)
    ensures
        (rate_table(table) == Map::<u128, RateView>::empty()),
{
    AHashMap::new()
}

/// `AHashMap::insert`: `rate` stands under `key` afterwards, and what stood
/// there before is returned.
#[verifier::external_body]
pub(crate) fn rates_insert(
    table: &mut AHashMap<u128, Rate>,
    key: u128,
    rate: Rate,
) -> (previous: Option<Rate>)
    ensures
        rate_table(*final(table)) == rate_table(*old(table)).insert(key, rate@),
        previous is Some <==> rate_table(*old(table)).contains_key(key),
        previous matches Some(rate) ==> rate@ == rate_table(*old(table))[key],
{
    table.insert(key, rate)
}

/// `AHashMap::get`: the rate under `key`, if there is one.
#[verifier::external_body]
pub(crate) fn rates_get(table: &AHashMap<u128, Rate>, key: u128) -> (found: Option<&Rate>)
    ensures
        found is Some <==> rate_table(*table).contains_key(key),
        found matches Some(rate) ==> rate@ == rate_table(*table)[key],
{
    table.get(&key)
}

/// `AHashMap::get_mut`: the rate under `key`, if there is one, to be changed
/// in place. The table afterwards holds under `key` what the caller leaves
/// there, and is otherwise as before.
#[verifier::external_body]
pub(crate) fn rates_get_mut(table: &mut AHashMap<u128, Rate>, key: u128) -> (found: Option<
    &mut Rate,
>)
    ensures
        found is Some <==> rate_table(*old(table)).contains_key(key),
        found matches Some(rate) ==> rate@ == rate_table(*old(table))[key] && rate_table(
            *final(table),
        ) == rate_table(*old(table)).insert(key, final(rate)@),
        found is None ==> rate_table(*final(table)) == rate_table(*old(table)),
{
    table.get_mut(&key)
}

/// The keys of the table, by `HashMap::keys`, which the table hands on:
/// each key once, in an order that is not fixed.
#[verifier::external_body]
pub(crate) fn rates_keys(table: &AHashMap<u128, Rate>) -> (keys: Vec<u128>)
    ensures
        keys@.no_duplicates(),
        keys@.to_set() == rate_table(*table).dom(),
{
    table.keys().copied().collect()
}

/// `AHashMap::new`: a table that holds no statistics.
#[verifier::external_body]
pub(crate) fn stats_new() -> (table: AHashMap<u128, RateStats>)
    ensures
        (stats_table(table) == Map::<u128, StatsView>::empty()),
{
    AHashMap::new()
}

/// `AHashMap::insert`: `stats` stand under `key` afterwards, and what stood
/// there before is returned.
#[verifier::external_body]
pub(crate) fn stats_insert(
    table: &mut AHashMap<u128, RateStats>,
    key: u128,
    stats: RateStats,
) -> (previous: Option<RateStats>)
    ensures
        stats_table(*final(table)) == stats_table(*old(table)).insert(key, stats@),
        previous is Some <==> stats_table(*old(table)).contains_key(key),
        previous matches Some(stats) ==> stats@ == stats_table(*old(table))[key],
{
    table.insert(key, stats)
}

/// `AHashMap::get`: the statistics under `key`, if there are any.
#[verifier::external_body]
pub(crate) fn stats_get(table: &AHashMap<u128, RateStats>, key: u128) -> (found: Option<
    &RateStats,
>)
    ensures
        found is Some <==> stats_table(*table).contains_key(key),
        found matches Some(stats) ==> stats@ == stats_table(*table)[key],
{
    table.get(&key)
}

/// `AHashMap::get_mut`: the statistics under `key`, if there are any, to be
/// changed in place. The table afterwards holds under `key` what the caller
/// leaves there, and is otherwise as before.
#[verifier::external_body]
pub(crate) fn stats_get_mut(table: &mut AHashMap<u128, RateStats>, key: u128) -> (found: Option<
    &mut RateStats,
>)
    ensures
        found is Some <==> stats_table(*old(table)).contains_key(key),
        found matches Some(stats) ==> stats@ == stats_table(*old(table))[key] && stats_table(
            *final(table),
        ) == stats_table(*old(table)).insert(key, final(stats)@),
        found is None ==> stats_table(*final(table)) == stats_table(*old(table)),
{
    table.get_mut(&key)
}

} // verus!
