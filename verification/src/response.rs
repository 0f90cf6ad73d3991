//! The results shown for a time query.
use vstd::prelude::*;
use crate::clock::{local_time_text, timestamp_in_range, timestamp_valid, wall_clock, zone_in_database, zone_known, zone_local_text, zone_utc_offset};
use crate::place::{Place, PlaceView, place_views};
use crate::text::{ascii_case_eq, eq_ignore_ascii_case};

verus! {

/// The icon of a result: a file of the module's package.
pub enum Icon {
    PackagePath(String),
}

/// What choosing a result does: show a message, or copy a text.
pub enum Action {
    ShowMessage(String),
    CopyText(String),
}

/// One result line: an id, a title, a subtitle, an icon and an action.
pub struct ResultItem {
    pub id: String,
    pub title: String,
    pub subtitle: String,
    pub icon: Icon,
    pub action: Action,
}

/// The results for a query, and whether they replace those of other modules.
pub struct QueryResponse {
    pub results: Vec<ResultItem>,
    pub exclusive: bool,
}

/// A failure of the module itself.
pub enum ModuleError {
    Internal(String),
}

/// What choosing a result does, as text: whether it copies (else it shows), and the text.
pub type ActionView = (bool, Seq<char>);

/// The id, title, subtitle, icon path and action of a result.
pub type ItemView = (Seq<char>, Seq<char>, Seq<char>, Seq<char>, ActionView);

impl View for ResultItem {
    type V = ItemView;

    open spec fn view(&self) -> ItemView {
        (
            self.id@,
            self.title@,
            self.subtitle@,
            match self.icon {
                Icon::PackagePath(p) => p@,
            },
            match self.action {
                Action::ShowMessage(m) => (false, m@),
                Action::CopyText(t) => (true, t@),
            },
        )
    }
}

/// The views of a list of results.
pub open spec fn item_views(v: Seq<ResultItem>) -> Seq<ItemView> {
    v.map_values(|i: ResultItem| i@)
}

/// The icon file of every result.
pub open spec fn icon_file() -> Seq<char> {
    "icon.svg"@
}

/// Where a place lies, for a title: the name alone when the country is empty or the
/// same up to ASCII case, else `name, country`.
pub open spec fn location_label(place: PlaceView) -> Seq<char> {
    if place.1.len() == 0 || ascii_case_eq(place.1, place.0) {
        place.0
    } else {
        place.0 + ", "@ + place.1
    }
}

/// The result for a place whose local time reads `clock` on `date`: titled
/// `<clock> in <location>`, subtitled `<date> \u{b7} <zone>`; choosing it copies the time.
pub open spec fn place_item(place: PlaceView, clock: Seq<char>, date: Seq<char>) -> ItemView {
    (
        "time:"@ + place.2,
        clock + " in "@ + location_label(place),
        date + " \u{b7} "@ + place.2,
        icon_file(),
        (true, clock),
    )
}

/// The result that reports a failed lookup with `message`.
pub open spec fn error_item(message: Seq<char>) -> ItemView {
    ("time:error"@, message, "Open-Meteo geocoding is temporarily unavailable"@, icon_file(), (false, message))
}

/// The result for `place` given its local time `clock` and `date`.
pub fn place_result(place: Place, clock: String, date: String) -> (res: ResultItem)
    ensures
        res@ == place_item(place@, clock@, date@),
{
    let location = if place.country.as_str().is_empty() || eq_ignore_ascii_case(place.country.as_str(), place.name.as_str()) {
        place.name
    } else {
        let mut label = place.name;
        label.append(", ");
        label.append(place.country.as_str());
        label
    };
    let mut id = String::from_str("time:");
    id.append(place.timezone.as_str());
    let mut title = clock.clone();
    title.append(" in ");
    title.append(location.as_str());
    let mut subtitle = date;
    subtitle.append(" \u{b7} ");
    subtitle.append(place.timezone.as_str());
    ResultItem {
        id,
        title,
        subtitle,
        icon: Icon::PackagePath(String::from_str("icon.svg")),
        action: Action::CopyText(clock),
    }
}

/// The pattern of a result's local date: weekday, month and day.
pub open spec fn date_pattern() -> Seq<char> {
    "%A, %B %-d"@
}

/// The result for `place` at `now` (a Unix time), when its zone is in the tz database.
pub fn result_for_place(place: Place, now: i64) -> (res: Option<ResultItem>)
    requires
        timestamp_in_range(now as int),
    ensures
        res is Some <==> zone_in_database(place.timezone@),
        res matches Some(item) ==> item@ == place_item(
            place@,
            wall_clock(now + zone_utc_offset(place.timezone@, now as int)),
            zone_local_text(place.timezone@, now as int, date_pattern()),
        ),
{
    if !zone_known(place.timezone.as_str()) {
        return None;
    }
    let clock = local_time_text(place.timezone.as_str(), now, "%H:%M");
    let date = local_time_text(place.timezone.as_str(), now, "%A, %B %-d");
    Some(place_result(place, clock, date))
}

/// The results for `places` at `now`: one for each place whose zone the tz database knows.
pub open spec fn shown_items(places: Seq<PlaceView>, now: int) -> Seq<ItemView>
    decreases places.len(),
{
    if places.len() == 0 {
        seq![]
    } else {
        let shown = shown_items(places.drop_last(), now);
        let p = places.last();
        if zone_in_database(p.2) {
            shown.push(place_item(p, wall_clock(now + zone_utc_offset(p.2, now)), zone_local_text(p.2, now, date_pattern())))
        } else {
            shown
        }
    }
}

/// A response shows at most one result per place it is given.
pub proof fn law_at_most_one_result_per_place(places: Seq<PlaceView>, now: int)
    ensures
        shown_items(places, now).len() <= places.len(),
    decreases places.len(),
{
    if places.len() > 0 {
        law_at_most_one_result_per_place(places.drop_last(), now);
    }
}

/// The result shown for one place: its item when the tz database knows its zone, else none.
pub open spec fn result_of(p: PlaceView, now: int) -> Seq<ItemView> {
    if zone_in_database(p.2) {
        seq![place_item(p, wall_clock(now + zone_utc_offset(p.2, now)), zone_local_text(p.2, now, date_pattern()))]
    } else {
        seq![]
    }
}

/// The results for one place are its own result.
pub proof fn law_one_place_one_result(p: PlaceView, now: int)
    ensures
        shown_items(seq![p], now) == result_of(p, now),
{
    assert(seq![p].drop_last() =~= Seq::<PlaceView>::empty());
    assert(seq![p].last() == p);
    assert(shown_items(seq![p].drop_last(), now) =~= Seq::<ItemView>::empty());
    assert(shown_items(seq![p], now) =~= result_of(p, now));
}

/// The results for two lists of places, one after the other, are the results for the
/// first list followed by those for the second: no place's result depends on another.
pub proof fn law_results_concatenate(a: Seq<PlaceView>, b: Seq<PlaceView>, now: int)
    ensures
        shown_items(a + b, now) == shown_items(a, now) + shown_items(b, now),
    decreases b.len(),
{
    if b.len() == 0 {
        assert(a + b =~= a);
        assert(shown_items(a, now) + shown_items(b, now) =~= shown_items(a, now));
    } else {
        law_results_concatenate(a, b.drop_last(), now);
        assert((a + b).drop_last() =~= a + b.drop_last());
        assert((a + b).last() == b.last());
        let p = b.last();
        if zone_in_database(p.2) {
            assert(shown_items(a + b, now) =~= shown_items(a, now) + shown_items(b, now));
        } else {
            assert(shown_items(a + b, now) =~= shown_items(a, now) + shown_items(b, now));
        }
    }
}

/// When the tz database knows every zone, each place gets exactly one result, in order.
pub proof fn law_every_known_place_shown(places: Seq<PlaceView>, now: int)
    requires
        forall|i: int| 0 <= i < places.len() ==> zone_in_database(#[trigger] places[i].2),
    ensures
        shown_items(places, now).len() == places.len(),
        forall|i: int| 0 <= i < places.len() ==> #[trigger] shown_items(places, now)[i] == result_of(places[i], now)[0],
    decreases places.len(),
{
    if places.len() > 0 {
        let init = places.drop_last();
        law_every_known_place_shown(init, now);
        assert(zone_in_database(places[places.len() - 1].2));
        assert(places.last() == places[places.len() - 1]);
        assert forall|i: int| 0 <= i < places.len() implies #[trigger] shown_items(places, now)[i] == result_of(places[i], now)[0] by {
            if i < init.len() {
                assert(init[i] == places[i]);
                assert(shown_items(places, now)[i] == shown_items(init, now)[i]);
            }
        }
    }
}

/// The response to a query that is not a time query: no results.
pub fn no_match_response() -> (res: QueryResponse)
    ensures
        res.results.len() == 0,
        !res.exclusive,
{
    QueryResponse { results: Vec::new(), exclusive: false }
}

/// The response to a time query whose lookup ended with `lookup`, showing at most
/// `max_results` of the places found, at host time `now`.
pub fn respond(lookup: Result<Vec<Place>, String>, max_results: u32, now: u64) -> (res: Result<QueryResponse, ModuleError>)
    ensures
        match lookup {
            Ok(places) => if !timestamp_in_range((now as i64) as int) {
                res matches Err(ModuleError::Internal(m)) && m@ == "host timestamp is invalid"@
            } else {
                res matches Ok(r) && item_views(r.results@) == shown_items(
                    place_views(places@).take(
                        if max_results < places.len() { max_results as int } else { places.len() as int },
                    ),
                    (now as i64) as int,
                ) && r.exclusive == (r.results.len() > 0) && ((forall|i: int|
                    0 <= i < places.len() && i < max_results ==> zone_in_database(#[trigger] places@[i].timezone@))
                    ==> r.results.len() == (if max_results < places.len() { max_results as int } else { places.len() as int }))
            },
            Err(message) => res matches Ok(r) && r.exclusive && item_views(r.results@) == seq![error_item(message@)],
        },
{
    match lookup {
        Ok(places) => {
            let at: i64 = now as i64;
            if !timestamp_valid(at) {
                return Err(ModuleError::Internal(String::from_str("host timestamp is invalid")));
            }
            let limit: usize = if (max_results as usize) < places.len() {
                max_results as usize
            } else {
                places.len()
            };
            let ghost pv = place_views(places@);
            let mut results: Vec<ResultItem> = Vec::new();
            let mut i: usize = 0;
            while i < limit
                invariant
                    i <= limit <= places.len(),
                    pv == place_views(places@),
                    timestamp_in_range(at as int),
                    item_views(results@) == shown_items(pv.take(i as int), at as int),
                decreases limit - i,
            {
                let place = places[i].duplicate();
                assert(pv[i as int] == place@);
                assert(pv.take(i + 1).drop_last() =~= pv.take(i as int));
                assert(pv.take(i + 1).last() == place@);
                let ghost before = item_views(results@);
                match result_for_place(place, at) {
                    Some(item) => {
                        results.push(item);
                        assert(item_views(results@) =~= before.push(item@));
                    },
                    None => {},
                }
                i = i + 1;
            }
            let exclusive = results.len() > 0;
            assert(item_views(results@).len() == results@.len());
            proof {
                let shown = pv.take(limit as int);
                if forall|i: int| 0 <= i < places.len() && i < max_results ==> zone_in_database(#[trigger] places@[i].timezone@) {
                    assert forall|i: int| 0 <= i < shown.len() implies zone_in_database(#[trigger] shown[i].2) by {
                        assert(shown[i] == places@[i]@);
                    }
                    law_every_known_place_shown(shown, at as int);
                }
            }
            Ok(QueryResponse { results, exclusive })
        },
        Err(message) => {
            let item = ResultItem {
                id: String::from_str("time:error"),
                title: message.clone(),
                subtitle: String::from_str("Open-Meteo geocoding is temporarily unavailable"),
                icon: Icon::PackagePath(String::from_str("icon.svg")),
                action: Action::ShowMessage(message),
            };
            let mut results: Vec<ResultItem> = Vec::new();
            results.push(item);
            assert(item_views(results@) =~= seq![error_item(message@)]);
            Ok(QueryResponse { results, exclusive: true })
        },
    }
}

} // verus!
