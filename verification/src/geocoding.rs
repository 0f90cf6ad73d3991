//! Requests to the geocoder and the places resolved from its answers.
use vstd::prelude::*;
use vstd::utf8::encode_utf8;
use crate::country::{candidate_zones, country_has_zones, country_places, country_result, zones_of};
use crate::clock::{samples_fit, samples_fit_at, timestamp_in_range};
use crate::place::{Place, PlaceView, place_views};
use crate::query::{normalize_name, normalized};
use crate::text::{ascii_case_eq, eq_ignore_ascii_case, str_equal, trim, trimmed, upper_seq};

verus! {

/// A place as the geocoder reports it.
pub struct ApiPlace {
    pub name: String,
    pub country: String,
    pub timezone: Option<String>,
    pub country_code: String,
    pub feature_code: String,
}

/// The name, country, zone, country code and feature code of a reported place.
pub type ApiPlaceView = (Seq<char>, Seq<char>, Option<Seq<char>>, Seq<char>, Seq<char>);

impl View for ApiPlace {
    type V = ApiPlaceView;

    open spec fn view(&self) -> ApiPlaceView {
        (
            self.name@,
            self.country@,
            match self.timezone {
                Some(t) => Some(t@),
                None => None,
            },
            self.country_code@,
            self.feature_code@,
        )
    }
}

/// The views of a list of reported places.
pub open spec fn api_views(v: Seq<ApiPlace>) -> Seq<ApiPlaceView> {
    v.map_values(|p: ApiPlace| p@)
}

/// Whether a reported place is an independent or dependent political entity with a
/// country code: a country.
pub open spec fn is_country_view(place: ApiPlaceView) -> bool {
    (place.4 == "PCLI"@ || place.4 == "PCLD"@ || place.4 == "PCLF"@ || place.4 == "PCLS"@) && place.3.len() > 0
}

/// Whether the geocoder reports `place` as a country.
pub fn is_country(place: &ApiPlace) -> (res: bool)
    ensures
        res == is_country_view(place@),
{
    let code = &place.feature_code;
    (str_equal(code.as_str(), "PCLI") || str_equal(code.as_str(), "PCLD") || str_equal(code.as_str(), "PCLF")
        || str_equal(code.as_str(), "PCLS")) && !place.country_code.as_str().is_empty()
}

/// Whether a reported place is a country whose name or country matches the query.
pub open spec fn matches_country(place: ApiPlaceView, query_key: Seq<char>) -> bool {
    is_country_view(place) && (normalized(place.0) == query_key || normalized(place.1) == query_key)
}

/// The first index from `from` on of a reported country that matches, or `places.len()`.
pub open spec fn first_country_from(places: Seq<ApiPlaceView>, query_key: Seq<char>, from: int) -> int
    decreases places.len() - from,
{
    if from >= places.len() {
        places.len() as int
    } else if matches_country(places[from], query_key) {
        from
    } else {
        first_country_from(places, query_key, from + 1)
    }
}

/// Whether two places are the same up to ASCII case of names, with the same zone.
pub open spec fn same_place(a: PlaceView, b: PlaceView) -> bool {
    ascii_case_eq(a.0, b.0) && ascii_case_eq(a.1, b.1) && a.2 == b.2
}

/// The places with a zone among the reported ones, in order, each kept unless an
/// earlier kept one is the same place.
pub open spec fn zoned_places(places: Seq<ApiPlaceView>) -> Seq<PlaceView>
    decreases places.len(),
{
    if places.len() == 0 {
        seq![]
    } else {
        let kept = zoned_places(places.drop_last());
        let p = places.last();
        match p.2 {
            Some(zone) => {
                let candidate = (p.0, p.1, zone);
                if trimmed(zone).len() == 0 || exists|i: int| 0 <= i < kept.len() && same_place(kept[i], candidate) {
                    kept
                } else {
                    kept.push(candidate)
                }
            },
            None => kept,
        }
    }
}

/// Among the places with a zone, no place repeats an earlier one, and every zone is
/// more than white space.
pub proof fn law_zoned_places_distinct(places: Seq<ApiPlaceView>)
    ensures
        forall|i: int, j: int| 0 <= i < j < zoned_places(places).len() ==> !same_place(#[trigger] zoned_places(places)[i], #[trigger] zoned_places(places)[j]),
        forall|i: int| 0 <= i < zoned_places(places).len() ==> trimmed(#[trigger] zoned_places(places)[i].2).len() > 0,
    decreases places.len(),
{
    if places.len() > 0 {
        law_zoned_places_distinct(places.drop_last());
        let kept = zoned_places(places.drop_last());
        let all = zoned_places(places);
        if all.len() > kept.len() {
            assert(all == kept.push(all.last()));
            assert forall|i: int, j: int| 0 <= i < j < all.len() implies !same_place(#[trigger] all[i], #[trigger] all[j]) by {
                assert(all[i] == kept[i]);
                if j < kept.len() {
                    assert(all[j] == kept[j]);
                }
            }
            assert forall|i: int| 0 <= i < all.len() implies trimmed(#[trigger] all[i].2).len() > 0 by {
                if i < kept.len() {
                    assert(all[i] == kept[i]);
                }
            }
        }
    }
}

/// Whether the country results that `resolve_api_places` may compute at `now` are
/// representable: they are when no reported country matches, or the matching country
/// has no zones, or the offsets' samples fit.
pub open spec fn resolution_fits(places: Seq<ApiPlaceView>, query: Seq<char>, now: int) -> bool {
    let k = first_country_from(places, normalized(query), 0);
    k < places.len() && candidate_zones(upper_seq(places[k].3)).len() > 0 ==> samples_fit(now)
}

/// What the geocoder's places resolve to: the whole country when a reported country
/// matches the query, else the reported places that have a zone, without repeats.
pub open spec fn resolution(places: Seq<ApiPlaceView>, query: Seq<char>, now: int, res: Seq<PlaceView>) -> bool {
    let k = first_country_from(places, normalized(query), 0);
    if k < places.len() {
        country_result(places[k].0, places[k].3, now, res)
    } else {
        res == zoned_places(places)
    }
}

/// Whether some place of `places` is the same place as `candidate`.
fn has_same_place(places: &Vec<Place>, candidate: &Place) -> (res: bool)
    ensures
        res == exists|i: int| 0 <= i < places.len() && same_place(place_views(places@)[i], candidate@),
{
    let mut i: usize = 0;
    while i < places.len()
        invariant
            i <= places.len(),
            forall|j: int| 0 <= j < i ==> !same_place(#[trigger] place_views(places@)[j], candidate@),
        decreases places.len() - i,
    {
        let p = &places[i];
        assert(place_views(places@)[i as int] == p@);
        if eq_ignore_ascii_case(p.name.as_str(), candidate.name.as_str())
            && eq_ignore_ascii_case(p.country.as_str(), candidate.country.as_str())
            && str_equal(p.timezone.as_str(), candidate.timezone.as_str()) {
            return true;
        }
        i = i + 1;
    }
    false
}

/// The index of the first reported country that matches `query`, or the number of places.
pub fn first_country_index(api_places: &Vec<ApiPlace>, query: &str) -> (res: usize)
    ensures
        res == first_country_from(api_views(api_places@), normalized(query@), 0),
{
    let ghost api = api_views(api_places@);
    let key = normalize_name(query);
    let mut k: usize = 0;
    while k < api_places.len()
        invariant
            k <= api_places.len(),
            api == api_views(api_places@),
            key@ == normalized(query@),
            first_country_from(api, key@, 0) == first_country_from(api, key@, k as int),
        ensures
            first_country_from(api, key@, 0) == k,
        decreases api_places.len() - k,
    {
        let p = &api_places[k];
        assert(api[k as int] == p@);
        if is_country(p) {
            let name_key = normalize_name(p.name.as_str());
            let country_key = normalize_name(p.country.as_str());
            if str_equal(name_key.as_str(), key.as_str()) || str_equal(country_key.as_str(), key.as_str()) {
                assert(matches_country(api[k as int], key@));
                break;
            }
        }
        k = k + 1;
    }
    k
}

/// Whether the country results of the geocoder's answer at `now` are representable
/// (see `resolution_fits`).
pub fn resolution_fits_at(api_places: &Vec<ApiPlace>, query: &str, now: i64) -> (res: bool)
    ensures
        res == resolution_fits(api_views(api_places@), query@, now as int),
{
    let k = first_country_index(api_places, query);
    if k < api_places.len() {
        let p = &api_places[k];
        assert(api_views(api_places@)[k as int] == p@);
        !country_has_zones(p.country_code.as_str()) || samples_fit_at(now)
    } else {
        true
    }
}

/// The places of the geocoder's answer for `query` at `now` (a Unix time).
pub fn resolve_api_places(api_places: Vec<ApiPlace>, query: &str, now: i64) -> (res: Vec<Place>)
    requires
        timestamp_in_range(now as int),
        resolution_fits(api_views(api_places@), query@, now as int),
    ensures
        resolution(api_views(api_places@), query@, now as int, place_views(res@)),
{
    let ghost api = api_views(api_places@);
    let k = first_country_index(&api_places, query);
    if k < api_places.len() {
        let p = &api_places[k];
        assert(api[k as int] == p@);
        return country_places(p.name.as_str(), p.country_code.as_str(), now);
    }
    let mut out: Vec<Place> = Vec::new();
    let mut i: usize = 0;
    while i < api_places.len()
        invariant
            i <= api_places.len(),
            api == api_views(api_places@),
            place_views(out@) == zoned_places(api.take(i as int)),
        decreases api_places.len() - i,
    {
        let p = &api_places[i];
        assert(api[i as int] == p@);
        assert(api.take(i + 1).drop_last() =~= api.take(i as int));
        assert(api.take(i + 1).last() == p@);
        match &p.timezone {
            Some(zone) => {
                if !trim(zone.as_str()).is_empty() {
                    let candidate = Place { name: p.name.clone(), country: p.country.clone(), timezone: zone.clone() };
                    if !has_same_place(&out, &candidate) {
                        let ghost before = place_views(out@);
                        out.push(candidate);
                        assert(place_views(out@) =~= before.push(candidate@));
                    }
                }
            },
            None => {},
        }
        i = i + 1;
    }
    assert(api.take(api_places.len() as int) =~= api);
    out
}

/// When a reported country matches the query, every place found lies in one of that
/// country's zones: the other reported places are left out.
pub proof fn law_matching_country_excludes_other_places(places: Seq<ApiPlaceView>, query: Seq<char>, now: int, res: Seq<PlaceView>)
    requires
        resolution(places, query, now, res),
        first_country_from(places, normalized(query), 0) < places.len(),
    ensures
        forall|i: int| 0 <= i < res.len() ==> candidate_zones(upper_seq(places[first_country_from(places, normalized(query), 0)].3)).contains(#[trigger] res[i].2),
{
    let k = first_country_from(places, normalized(query), 0);
    let zones = candidate_zones(upper_seq(places[k].3));
    assert forall|i: int| 0 <= i < res.len() implies zones.contains(#[trigger] res[i].2) by {
        assert(zones_of(res)[i] == res[i].2);
    }
}

/// Whether a byte is sent as itself in a URL: ASCII letters, digits and `-._~`.
pub open spec fn is_unreserved(b: u8) -> bool {
    (48 <= b <= 57) || (65 <= b <= 90) || (97 <= b <= 122) || b == 45 || b == 46 || b == 95 || b == 126
}

/// The upper-case hexadecimal digit for `d < 16`.
pub open spec fn hex_upper(d: u8) -> char {
    if d < 10 {
        ((d + 48) as u32) as char
    } else {
        ((d + 55) as u32) as char
    }
}

/// The percent-encoding of `bytes`: unreserved bytes as themselves, every other byte
/// as `%` and two upper-case hexadecimal digits.
pub open spec fn percent_encoded(bytes: Seq<u8>) -> Seq<char>
    decreases bytes.len(),
{
    if bytes.len() == 0 {
        seq![]
    } else {
        let b = bytes.last();
        let tail = if is_unreserved(b) {
            seq![(b as u32) as char]
        } else {
            seq!['%', hex_upper(b / 16), hex_upper(b % 16)]
        };
        percent_encoded(bytes.drop_last()) + tail
    }
}

/// `urlencoding::encode`: percent-encodes every byte of the UTF-8 text except ASCII
/// letters, digits and `-._~`.
#[verifier::external_body]
fn url_encode(text: &str) -> (res: String)
    ensures
        res@ == percent_encoded(encode_utf8(text@)),
{
    urlencoding::encode(text).into_owned()
}

/// The geocoder's search address for `query`.
pub open spec fn search_url(query: Seq<char>) -> Seq<char> {
    "https://geocoding-api.open-meteo.com/v1/search?name="@ + percent_encoded(encode_utf8(query))
        + "&count=10&language=en&format=json"@
}

/// The geocoder's search address for `query`: at most ten results, in English, as JSON.
pub fn geocoding_url(query: &str) -> (res: String)
    ensures
        res@ == search_url(query@),
{
    let mut url = String::from_str("https://geocoding-api.open-meteo.com/v1/search?name=");
    let encoded = url_encode(query);
    url.append(encoded.as_str());
    url.append("&count=10&language=en&format=json");
    url
}

} // verus!
