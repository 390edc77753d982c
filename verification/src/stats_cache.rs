//! The freshness-aware cache policy for analytics queries.
//!
//! Historical analytics are immutable, so once fetched they may be
//! served from the durable cache indefinitely. The current day is still
//! accumulating: any value cached for it would go stale within the hour,
//! so a range touching today bypasses the cache in both directions —
//! never read, never written. Storage itself belongs to the persistence
//! collaborator; this module decides keys, freshness and what to do.

use vstd::prelude::*;
use vstd::string::StringExecFns;

use crate::strutil::substr_eq;

verus! {

/// How many days a written-back cache entry may live. Generous on
/// purpose: the freshness rule, not the TTL, protects the current day.
pub const CACHE_TTL_DAYS: u64 = 30;

/// The cache key of an hours query over `[start, end]`.
pub open spec fn spec_hours_cache_key(start: Seq<char>, end: Seq<char>) -> Seq<char> {
    "hours:"@ + start + ":"@ + end
}

/// Build the cache key of an hours query.
pub fn hours_cache_key(start_date: &str, end_date: &str) -> (k: String)
    ensures
        k@ == spec_hours_cache_key(start_date@, end_date@),
{
    let mut k = String::from_str("hours:");
    k.append(start_date);
    k.append(":");
    k.append(end_date);
    k
}

/// The cache key of the streak query on a given day. Keying by day makes
/// yesterday's entry unreachable today, so the streak is refetched at
/// most once per day.
pub open spec fn spec_streak_cache_key(today: Seq<char>) -> Seq<char> {
    "streak:"@ + today
}

/// Build the cache key of the streak query for `today`.
pub fn streak_cache_key(today: &str) -> (k: String)
    ensures
        k@ == spec_streak_cache_key(today@),
{
    let mut k = String::from_str("streak:");
    k.append(today);
    k
}

/// Whether the queried range touches the still-accumulating current day.
pub open spec fn spec_touches_today(start: Seq<char>, end: Seq<char>, today: Seq<char>) -> bool {
    start == today || end == today
}

/// Decide whether `[start, end]` touches `today` (dates as `YYYY-MM-DD`
/// strings in the service's UTC reporting calendar).
pub fn range_touches_today(start_date: &str, end_date: &str, today: &str) -> (b: bool)
    ensures
        b == spec_touches_today(start_date@, end_date@, today@),
{
    substr_eq(start_date, today) || substr_eq(end_date, today)
}

/// What a query should do: serve the cached value, or fetch live and
/// possibly write the result back.
#[derive(Debug)]
pub enum FetchPlan {
    /// Serve the cached value; no remote call.
    UseCached,
    /// Fetch from the remote service; write the result back to the
    /// cache only when `write_back` holds.
    FetchLive { write_back: bool },
}

/// The plan for an hours query: a cached value is honored only when the
/// range avoids today, and a live result is written back under the same
/// condition.
pub open spec fn spec_range_fetch_plan(
    start: Seq<char>,
    end: Seq<char>,
    today: Seq<char>,
    have_cached: bool,
) -> FetchPlan {
    if !spec_touches_today(start, end, today) && have_cached {
        FetchPlan::UseCached
    } else {
        FetchPlan::FetchLive { write_back: !spec_touches_today(start, end, today) }
    }
}

/// Decide an hours query, given whether the cache currently holds its
/// key.
pub fn plan_range_fetch(start_date: &str, end_date: &str, today: &str, have_cached: bool) -> (p:
    FetchPlan)
    ensures
        p == spec_range_fetch_plan(start_date@, end_date@, today@, have_cached),
{
    let touches = range_touches_today(start_date, end_date, today);
    if !touches && have_cached {
        FetchPlan::UseCached
    } else {
        FetchPlan::FetchLive { write_back: !touches }
    }
}

/// Decide a streak query: cached per day, fetched live once when the
/// day's entry is missing.
pub fn plan_streak_fetch(have_cached: bool) -> (p: FetchPlan)
    ensures
        have_cached ==> p is UseCached,
        !have_cached ==> p == (FetchPlan::FetchLive { write_back: true }),
{
    if have_cached {
        FetchPlan::UseCached
    } else {
        FetchPlan::FetchLive { write_back: true }
    }
}

/// A range on past days is fetched live exactly once: the first query
/// finds no cache entry, fetches and writes back; any repeat of the same
/// query finds the entry and is served without a remote call.
pub proof fn lemma_past_range_single_fetch(start: Seq<char>, end: Seq<char>, today: Seq<char>)
    requires
        start != today,
        end != today,
    ensures
        spec_range_fetch_plan(start, end, today, false) == (FetchPlan::FetchLive {
            write_back: true,
        }),
        spec_range_fetch_plan(start, end, today, true) == FetchPlan::UseCached,
{
}

/// A range touching today bypasses the cache entirely: whatever the
/// cache holds, every query is a live fetch and nothing is written
/// back, so issuing the query twice performs two remote calls.
pub proof fn lemma_today_range_always_live(
    start: Seq<char>,
    end: Seq<char>,
    today: Seq<char>,
    have_cached: bool,
)
    requires
        start == today || end == today,
    ensures
        spec_range_fetch_plan(start, end, today, have_cached) == (FetchPlan::FetchLive {
            write_back: false,
        }),
{
}

} // verus!
