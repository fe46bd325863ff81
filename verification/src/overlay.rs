//! A per-strategy veto table that the risk engine consults on every order submission.
//!
//! A veto carries the time at which it ends, and checks are made against a time the caller
//! supplies, so the table needs no clock. It covers single strategies only; halting a whole node
//! is the trading state's business.

use crate::ids::{StrategyId, UnixNanos};
use dashmap::DashMap;
use vstd::prelude::*;

verus! {

/// `dashmap::DashMap`, known by the entries it holds.
#[verifier::external_type_specification]
#[verifier::external_body]
#[verifier::reject_recursive_types(K)]
#[verifier::reject_recursive_types(V)]
#[verifier::reject_recursive_types(S)]
pub struct ExDashMap<K, V, S>(DashMap<K, V, S>);

/// The entries that a map holds which only its owner changes.
pub uninterp spec fn map_entries(map: DashMap<String, u64>) -> Map<Seq<char>, u64>;

/// A table without entries.
pub open spec fn no_vetoes() -> Map<Seq<char>, u64> {
    Map::empty()
}

/// Calls `dashmap::DashMap::new`, which makes a map without entries.
#[verifier::external_body]
fn new_map() -> (map: DashMap<String, u64>)
    ensures
        map_entries(map) == no_vetoes(),
{
    DashMap::new()
}

/// Calls `dashmap::DashMap::insert`: the key holds the value afterwards, whatever it held before,
/// and no other entry changes. The exclusive borrow keeps other holders of the map out.
#[verifier::external_body]
fn insert_entry(map: &mut DashMap<String, u64>, key: String, value: u64)
    ensures
        map_entries(*final(map)) == map_entries(*old(map)).insert(key@, value),
{
    map.insert(key, value);
}

/// Calls `dashmap::DashMap::remove`: the key holds nothing afterwards, and no other entry
/// changes. The exclusive borrow keeps other holders of the map out.
#[verifier::external_body]
fn remove_entry(map: &mut DashMap<String, u64>, key: &str)
    ensures
        map_entries(*final(map)) == map_entries(*old(map)).remove(key@),
{
    map.remove(key);
}

/// Calls `dashmap::DashMap::get` and copies the value out: what the key holds, if anything.
#[verifier::external_body]
fn get_entry(map: &DashMap<String, u64>, key: &str) -> (value: Option<u64>)
    ensures
        value == (if map_entries(*map).dom().contains(key@) {
            Some(map_entries(*map)[key@])
        } else {
            None
        }),
{
    map.get(key).map(|entry| *entry.value())
}

/// Whether `vetoes` hold an entry for `strategy_id` that has not ended by `now`.
pub open spec fn vetoed(vetoes: Map<Seq<char>, u64>, strategy_id: Seq<char>, now: u64) -> bool {
    vetoes.dom().contains(strategy_id) && now < vetoes[strategy_id]
}

/// A per-strategy veto table: for each vetoed strategy, the time at which its veto ends.
///
/// Whoever changes the table borrows it exclusively. Holders on several threads share it behind
/// a lock.
#[derive(Debug)]
pub struct RiskOverlayTable {
    vetoes: DashMap<String, u64>,
}

impl View for RiskOverlayTable {
    type V = Map<Seq<char>, u64>;

    closed spec fn view(&self) -> Map<Seq<char>, u64> {
        map_entries(self.vetoes)
    }
}

impl Default for RiskOverlayTable {
    fn default() -> (table: Self)
        ensures
            table@ == no_vetoes(),
    {
        RiskOverlayTable { vetoes: new_map() }
    }
}

impl RiskOverlayTable {
    /// Makes a table that vetoes nothing.
    #[must_use]
    pub fn new() -> (table: Self)
        ensures
            table@ == no_vetoes(),
    {
        RiskOverlayTable::default()
    }

    /// Vetoes new order submissions for `strategy_id` until `expires_at`, in place of any veto
    /// that the strategy has.
    ///
    /// Callers should compute `expires_at` from the control command's own time to live: every
    /// veto is meant to end by itself even if the command that clears it is lost.
    pub fn veto_strategy(&mut self, strategy_id: StrategyId, expires_at: UnixNanos)
        ensures
            final(self)@ == old(self)@.insert(strategy_id@, expires_at.nanos),
    {
        insert_entry(&mut self.vetoes, strategy_id.as_str().to_string(), expires_at.nanos);
    }

    /// Clears the veto of `strategy_id`, if it has one, before it ends by itself.
    pub fn clear_strategy_veto(&mut self, strategy_id: &StrategyId)
        ensures
            final(self)@ == old(self)@.remove(strategy_id@),
    {
        remove_entry(&mut self.vetoes, strategy_id.as_str());
    }

    /// Returns `true` if `strategy_id` has a veto that has not ended by `now`.
    ///
    /// A veto that has ended is treated as absent, and stays until the strategy's next veto or
    /// clearance.
    #[must_use]
    pub fn is_vetoed(&self, strategy_id: &StrategyId, now: UnixNanos) -> (answer: bool)
        ensures
            answer == vetoed(self@, strategy_id@, now.nanos),
    {
        match get_entry(&self.vetoes, strategy_id.as_str()) {
            Some(expires_at) => now.nanos < expires_at,
            None => false,
        }
    }
}

/// A new table vetoes no strategy, at any time.
pub proof fn law_new_table_vetoes_nothing(strategy_id: Seq<char>, now: u64)
    ensures
        !vetoed(no_vetoes(), strategy_id, now),
{
}

/// A veto applies before its end and not from then on, whatever the table held before.
pub proof fn law_veto_applies_until_it_ends(
    vetoes: Map<Seq<char>, u64>,
    strategy_id: Seq<char>,
    expires_at: u64,
    now: u64,
)
    ensures
        vetoed(vetoes.insert(strategy_id, expires_at), strategy_id, now) <==> now < expires_at,
{
}

/// Clearing lifts a strategy's veto at once, at every time.
pub proof fn law_clearing_lifts_the_veto(
    vetoes: Map<Seq<char>, u64>,
    strategy_id: Seq<char>,
    now: u64,
)
    ensures
        !vetoed(vetoes.remove(strategy_id), strategy_id, now),
{
}

/// Vetoing or clearing one strategy leaves every other strategy as it was.
pub proof fn law_vetoes_are_scoped_per_strategy(
    vetoes: Map<Seq<char>, u64>,
    strategy_id: Seq<char>,
    expires_at: u64,
    other: Seq<char>,
    now: u64,
)
    requires
        other != strategy_id,
    ensures
        vetoed(vetoes.insert(strategy_id, expires_at), other, now) == vetoed(vetoes, other, now),
        vetoed(vetoes.remove(strategy_id), other, now) == vetoed(vetoes, other, now),
{
}

/// A veto ends by itself: in a table that nobody changes, a strategy that is not vetoed at one
/// time is not vetoed later, and at the end of time none is.
pub proof fn law_vetoes_end_by_themselves(
    vetoes: Map<Seq<char>, u64>,
    strategy_id: Seq<char>,
    now: u64,
    later: u64,
)
    requires
        now <= later,
    ensures
        !vetoed(vetoes, strategy_id, now) ==> !vetoed(vetoes, strategy_id, later),
        !vetoed(vetoes, strategy_id, u64::MAX),
{
}

/// The latest veto of a strategy counts, also where it ends earlier than the one before.
pub proof fn law_latest_veto_counts(
    vetoes: Map<Seq<char>, u64>,
    strategy_id: Seq<char>,
    first: u64,
    second: u64,
    now: u64,
)
    ensures
        vetoed(
            vetoes.insert(strategy_id, first).insert(strategy_id, second),
            strategy_id,
            now,
        ) <==> now < second,
{
}

/// A strategy is vetoed exactly where the table has an entry for it whose end lies after the time
/// asked about.
pub proof fn law_vetoed_until_the_end_in_the_table(
    table: RiskOverlayTable,
    strategy_id: StrategyId,
    now: UnixNanos,
    answer: bool,
)
    requires
        call_ensures(RiskOverlayTable::is_vetoed, (&table, &strategy_id, now), answer),
    ensures
        answer <==> table@.contains_key(strategy_id@) && now.nanos < table@[strategy_id@],
{
}

/// A table that was just made vetoes no strategy.
pub proof fn law_a_made_table_vetoes_nothing(
    table: RiskOverlayTable,
    strategy_id: StrategyId,
    now: UnixNanos,
    answer: bool,
)
    requires
        call_ensures(RiskOverlayTable::new, (), table),
        call_ensures(RiskOverlayTable::is_vetoed, (&table, &strategy_id, now), answer),
    ensures
        !answer,
{
}

} // verus!
