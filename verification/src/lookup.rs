//! Finding the places for a query: the common places first, then the cache, then the
//! geocoder. Each step takes what the host returned and says what to do next.
use vstd::prelude::*;
use crate::cache::{cache_key, place_cache_key};
use crate::clock::{timestamp_in_range, timestamp_valid};
use crate::geocoding::{api_views, geocoding_url, resolution, resolution_fits, resolution_fits_at, resolve_api_places, search_url, ApiPlace};
use crate::place::{copy_places, place_views, Place, PlaceView};
use crate::places::{common_places, common_places_fit, common_places_fit_at, common_places_result};
use crate::query::{to_lowercase, unicode_lowercase};
use crate::text::{decimal, decimal_string, trim, trimmed};

verus! {

/// How long a cached geocoder answer is used: seven days, in seconds.
pub const PLACE_CACHE_TTL_SECONDS: u64 = 604800;

/// A geocoder answer kept in the cache: the normalised query, when it was fetched,
/// and the places found.
pub struct CachedPlaces {
    pub query: String,
    pub fetched_at: u64,
    pub places: Vec<Place>,
}

/// The query, fetch time and places of a cache entry.
pub type CachedView = (Seq<char>, u64, Seq<PlaceView>);

impl View for CachedPlaces {
    type V = CachedView;

    open spec fn view(&self) -> CachedView {
        (self.query@, self.fetched_at, place_views(self.places@))
    }
}

/// The view of an optional cache entry.
pub open spec fn cached_view(c: Option<CachedPlaces>) -> Option<CachedView> {
    match c {
        Some(entry) => Some(entry@),
        None => None,
    }
}

/// The view of an optional list of places.
pub open spec fn places_view(p: Option<Vec<Place>>) -> Option<Seq<PlaceView>> {
    match p {
        Some(v) => Some(place_views(v@)),
        None => None,
    }
}

/// The form of a query under which its answer is cached: trimmed, in lower case.
pub open spec fn lookup_key(query: Seq<char>) -> Seq<char> {
    unicode_lowercase(trimmed(query))
}

/// Whether an entry fetched at `fetched_at` is still used at `now`.
pub open spec fn is_fresh(fetched_at: u64, now: u64) -> bool {
    (if now >= fetched_at { now - fetched_at } else { 0 }) <= PLACE_CACHE_TTL_SECONDS
}

/// The places a cache entry serves for `normalized` at `now`: those of a fresh entry
/// for the same query.
pub open spec fn cache_hit(normalized: Seq<char>, cached: Option<CachedView>, now: u64) -> Option<Seq<PlaceView>> {
    match cached {
        Some(entry) => if entry.0 == normalized && is_fresh(entry.1, now) {
            Some(entry.2)
        } else {
            None
        },
        None => None,
    }
}

/// The places of an entry for `normalized`, fresh or not.
pub open spec fn stale_places(normalized: Seq<char>, cached: Option<CachedView>) -> Option<Seq<PlaceView>> {
    match cached {
        Some(entry) => if entry.0 == normalized {
            Some(entry.2)
        } else {
            None
        },
        None => None,
    }
}

/// A lookup that the common places did not answer: the query, its normalised form and
/// its cache key.
pub struct PendingLookup {
    pub query: String,
    pub normalized: String,
    pub key: String,
}

/// The first step of a lookup: the places, or the cache entry to read.
pub enum LookupStart {
    Found(Vec<Place>),
    ReadCache(PendingLookup),
}

/// How a lookup of `query` at host time `now` starts: the common places answer at
/// once; otherwise the cache entry under the query's key is to be read.
pub open spec fn lookup_begun(query: Seq<char>, now: u64, start: LookupStart) -> bool {
    match start {
        LookupStart::Found(places) => common_places_result(lookup_key(query), now, Some(places)),
        LookupStart::ReadCache(p) => {
            &&& common_places_result(lookup_key(query), now, None)
            &&& p.query@ == query
            &&& p.normalized@ == lookup_key(query)
            &&& p.key@ == cache_key(lookup_key(query))
        },
    }
}

/// Starts the lookup of `query` at host time `now`, unless a common country's offsets
/// would be sampled beyond the latest representable instant: then `None`.
pub fn start_lookup(query: &str, now: u64) -> (res: Option<LookupStart>)
    ensures
        res is None <==> !common_places_fit(lookup_key(query@), now),
        res matches Some(start) ==> lookup_begun(query@, now, start),
{
    let normalized = to_lowercase(trim(query));
    if !common_places_fit_at(normalized.as_str(), now) {
        return None;
    }
    Some(begin_lookup(query, now))
}

/// Starts the lookup of `query` at host time `now`: the common places answer at once;
/// otherwise the cache entry under the query's key is to be read.
pub fn begin_lookup(query: &str, now: u64) -> (res: LookupStart)
    requires
        common_places_fit(lookup_key(query@), now),
    ensures
        lookup_begun(query@, now, res),
{
    let normalized = to_lowercase(trim(query));
    match common_places(normalized.as_str(), now) {
        Some(places) => LookupStart::Found(places),
        None => {
            let key = place_cache_key(normalized.as_str());
            LookupStart::ReadCache(PendingLookup { query: String::from_str(query), normalized, key })
        },
    }
}

/// A request to the geocoder: the lookup it serves, the address to fetch, the places
/// of an outdated cache entry for the same query, if any, and the host time at which
/// the cache was checked (the time an answer is stored with).
pub struct FetchPlan {
    pub query: String,
    pub normalized: String,
    pub key: String,
    pub url: String,
    pub stale: Option<Vec<Place>>,
    pub checked_at: u64,
}

/// The step after the cache was read: the places, or a request to the geocoder.
pub enum AfterCache {
    Found(Vec<Place>),
    Fetch(FetchPlan),
}

/// Continues a lookup with the cache entry read under its key (`None` when there was
/// none or it could not be read): a fresh entry for the same query answers it;
/// otherwise the geocoder is asked, keeping an outdated entry in reserve.
pub fn after_cache(pending: PendingLookup, cached: Option<CachedPlaces>, now: u64) -> (res: AfterCache)
    ensures
        match res {
            AfterCache::Found(places) => cache_hit(pending.normalized@, cached_view(cached), now) == Some(place_views(places@)),
            AfterCache::Fetch(plan) => {
                &&& cache_hit(pending.normalized@, cached_view(cached), now) is None
                &&& plan.query@ == pending.query@
                &&& plan.normalized@ == pending.normalized@
                &&& plan.key@ == pending.key@
                &&& plan.url@ == search_url(pending.query@)
                &&& plan.checked_at == now
                &&& places_view(plan.stale) == stale_places(pending.normalized@, cached_view(cached))
            },
        },
{
    let stale = match cached {
        Some(entry) => {
            if entry.query == pending.normalized {
                let age = if now >= entry.fetched_at {
                    now - entry.fetched_at
                } else {
                    0
                };
                if age <= PLACE_CACHE_TTL_SECONDS {
                    return AfterCache::Found(entry.places);
                }
                Some(entry.places)
            } else {
                None
            }
        },
        None => None,
    };
    let url = geocoding_url(pending.query.as_str());
    AfterCache::Fetch(FetchPlan { query: pending.query, normalized: pending.normalized, key: pending.key, url, stale, checked_at: now })
}

/// What the geocoder request gave: no answer, or an HTTP status with the places that
/// its body decodes to (`None` when it does not decode).
pub enum FetchOutcome {
    Unreachable,
    Answered { status: u16, places: Option<Vec<ApiPlace>> },
}

/// The end of a lookup: its result, and the entry to store under a key, if any.
pub struct LookupEnd {
    pub result: Result<Vec<Place>, String>,
    pub store: Option<(String, CachedPlaces)>,
}

/// The end of a lookup whose request failed with `message`: an outdated entry's places
/// if there is one, else the message; nothing is stored.
pub open spec fn failed_with(plan: FetchPlan, end: LookupEnd, message: Seq<char>) -> bool {
    &&& end.store is None
    &&& match plan.stale {
        Some(stale) => end.result matches Ok(places) && place_views(places@) == place_views(stale@),
        None => end.result matches Err(m) && m@ == message,
    }
}

/// The end of a lookup whose request found `places`: they are the result and are
/// stored under the lookup's key, with the normalised query and the time the cache was checked.
pub open spec fn succeeded_with(plan: FetchPlan, end: LookupEnd) -> bool {
    &&& end.result matches Ok(places)
    &&& end.store matches Some(entry)
    &&& entry.0@ == plan.key@
    &&& entry.1@ == (plan.normalized@, plan.checked_at, place_views(places@))
}

/// The message for a failed request that is shown in place of results.
fn failure(plan: FetchPlan, message: String) -> (res: LookupEnd)
    ensures
        failed_with(plan, res, message@),
{
    match plan.stale {
        Some(places) => LookupEnd { result: Ok(places), store: None },
        None => LookupEnd { result: Err(message), store: None },
    }
}

/// How a lookup ends with what its geocoder request gave at host time `now`.
pub open spec fn lookup_ended(plan: FetchPlan, outcome: FetchOutcome, now: u64, res: LookupEnd) -> bool {
    match outcome {
        FetchOutcome::Unreachable => failed_with(plan, res, "Could not look up that location."@),
        FetchOutcome::Answered { status, places } => if status != 200 {
            failed_with(plan, res, "Location service returned HTTP "@ + decimal(status as nat) + "."@)
        } else {
            match places {
                None => failed_with(plan, res, "Location service returned invalid data."@),
                Some(api) => if !timestamp_in_range((now as i64) as int) {
                    failed_with(plan, res, "Host timestamp is invalid."@)
                } else {
                    &&& succeeded_with(plan, res)
                    &&& res.result matches Ok(found) && resolution(
                        api_views(api@),
                        plan.query@,
                        (now as i64) as int,
                        place_views(found@),
                    )
                },
            }
        },
    }
}

/// Whether the country results of a geocoder answer can be computed at host time `now`.
pub open spec fn fetch_fits(query: Seq<char>, outcome: FetchOutcome, now: u64) -> bool {
    match outcome {
        FetchOutcome::Answered { status, places: Some(api) } => status == 200 && timestamp_in_range((now as i64) as int)
            ==> resolution_fits(api_views(api@), query, (now as i64) as int),
        _ => true,
    }
}

/// Ends a lookup with what the geocoder request gave, unless the matching country's
/// offsets would be sampled beyond the latest representable instant: then `None`.
pub fn finish_lookup(plan: FetchPlan, outcome: FetchOutcome, now: u64) -> (res: Option<LookupEnd>)
    ensures
        res is None <==> !fetch_fits(plan.query@, outcome, now),
        res matches Some(end) ==> lookup_ended(plan, outcome, now, end),
{
    let fits = match &outcome {
        FetchOutcome::Answered { status, places: Some(api) } => {
            let at: i64 = now as i64;
            !(*status == 200 && timestamp_valid(at)) || resolution_fits_at(api, plan.query.as_str(), at)
        },
        _ => true,
    };
    if !fits {
        return None;
    }
    Some(after_fetch(plan, outcome, now))
}

/// Ends a lookup with what the geocoder request gave; `now` is the host time at which
/// the answer is resolved.
pub fn after_fetch(plan: FetchPlan, outcome: FetchOutcome, now: u64) -> (res: LookupEnd)
    requires
        fetch_fits(plan.query@, outcome, now),
    ensures
        lookup_ended(plan, outcome, now, res),
{
    match outcome {
        FetchOutcome::Unreachable => failure(plan, String::from_str("Could not look up that location.")),
        FetchOutcome::Answered { status, places } => {
            if status != 200 {
                let mut message = String::from_str("Location service returned HTTP ");
                let number = decimal_string(status as u64);
                message.append(number.as_str());
                message.append(".");
                return failure(plan, message);
            }
            match places {
                None => failure(plan, String::from_str("Location service returned invalid data.")),
                Some(api) => {
                    let at: i64 = now as i64;
                    if !timestamp_valid(at) {
                        return failure(plan, String::from_str("Host timestamp is invalid."));
                    }
                    let found = resolve_api_places(api, plan.query.as_str(), at);
                    let kept = copy_places(&found);
                    let entry = CachedPlaces { query: plan.normalized, fetched_at: plan.checked_at, places: kept };
                    LookupEnd { result: Ok(found), store: Some((plan.key, entry)) }
                },
            }
        },
    }
}

/// A successful fetch stores an entry that `after_cache` serves back for the same
/// normalised query for seven days.
pub proof fn law_stored_places_are_served(normalized: Seq<char>, places: Seq<PlaceView>, fetched_at: u64, now: u64)
    requires
        now <= fetched_at + PLACE_CACHE_TTL_SECONDS,
    ensures
        cache_hit(normalized, Some((normalized, fetched_at, places)), now) == Some(places),
{
}

} // verus!
