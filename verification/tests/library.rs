use chrono::{TimeZone, Utc};
use rayslash_time::cache::{fnv1a_hash, place_cache_key};
use rayslash_time::clock::offset_signature;
use rayslash_time::country::country_places;
use rayslash_time::geocoding::{geocoding_url, is_country, resolve_api_places, ApiPlace};
use rayslash_time::lookup::{after_cache, after_fetch, begin_lookup, finish_lookup, start_lookup, AfterCache, CachedPlaces, FetchOutcome, LookupStart};
use rayslash_time::country::country_has_zones;
use rayslash_time::places::common_places_fit_at;
use rayslash_time::geocoding::{first_country_index, resolution_fits_at};
use rayslash_time::place::Place;
use rayslash_time::places::{common_country, common_places};
use rayslash_time::query::{normalize_name, parse};
use rayslash_time::response::{no_match_response, place_result, respond, result_for_place, Action, Icon, ModuleError};
use rayslash_time::text::{decimal_string, eq_ignore_ascii_case, hex16, trim};
use rayslash_time::zones::{capital_label, capital_zone, country_zones, zone_location};

fn noon_july_2026() -> i64 {
    Utc.with_ymd_and_hms(2026, 7, 25, 12, 0, 0).unwrap().timestamp()
}

fn place(name: &str, country: &str, timezone: &str) -> Place {
    Place { name: name.to_owned(), country: country.to_owned(), timezone: timezone.to_owned() }
}

fn reported(name: &str, country: &str, code: &str, feature: &str, timezone: Option<&str>) -> ApiPlace {
    ApiPlace {
        name: name.to_owned(),
        country: country.to_owned(),
        timezone: timezone.map(|t| t.to_owned()),
        country_code: code.to_owned(),
        feature_code: feature.to_owned(),
    }
}

#[test]
fn parse_trims_the_place_and_the_query() {
    assert_eq!(parse("   Time In   Lisbon  "), Some("Lisbon"));
    assert_eq!(parse("time in\u{a0}Oslo"), None);
    assert_eq!(parse("time inOslo"), None);
    assert_eq!(parse("time in    "), None);
    assert_eq!(parse("times in Oslo"), None);
}

#[test]
fn trim_removes_unicode_white_space() {
    assert_eq!(trim("\u{3000} a b \u{2009}\n"), "a b");
    assert_eq!(trim("   "), "");
}

#[test]
fn normalize_keeps_letters_and_digits_in_lower_case() {
    assert_eq!(normalize_name("São Paulo!"), "sãopaulo");
    assert_eq!(normalize_name("New-York City 2"), "newyorkcity2");
    assert_eq!(normalize_name(&normalize_name("Rio de Janeiro")), normalize_name("Rio de Janeiro"));
}

#[test]
fn ascii_case_comparison() {
    assert!(eq_ignore_ascii_case("United States", "UNITED states"));
    assert!(!eq_ignore_ascii_case("Zürich", "ZÜRICH"));
    assert!(!eq_ignore_ascii_case("Oslo", "Osl"));
}

#[test]
fn numerals() {
    assert_eq!(decimal_string(0), "0");
    assert_eq!(decimal_string(503), "503");
    assert_eq!(hex16(0xab), "00000000000000ab");
}

#[test]
fn cache_keys_hash_the_normalised_query() {
    assert_eq!(place_cache_key("tokyo"), "place-v2-2680b27d5079f639.json");
    assert_eq!(place_cache_key(""), "place-v2-cbf29ce484222325.json");
    assert_eq!(place_cache_key("são paulo"), "place-v2-c65507444c17e32e.json");
    assert_eq!(fnv1a_hash(""), 0xcbf29ce484222325);
}

#[test]
fn common_cities_and_aliases() {
    let now = noon_july_2026() as u64;
    let nyc = common_places("NYC", now).unwrap();
    assert_eq!(nyc.len(), 1);
    assert_eq!(nyc[0].name, "New York");
    assert_eq!(nyc[0].country, "United States");
    assert_eq!(nyc[0].timezone, "America/New_York");
    let delhi = common_places("delhi", now).unwrap();
    assert_eq!(delhi[0].timezone, "Asia/Kolkata");
    assert!(common_places("Atlantis", now).is_none());
}

#[test]
fn common_countries_list_their_zones() {
    let now = noon_july_2026() as u64;
    let usa = common_places("U.S.A.", now).unwrap();
    assert!(usa.len() > 1);
    assert_eq!(usa[0].name, "Washington, D.C.");
    assert_eq!(usa[0].timezone, "America/New_York");
    let japan = common_country("japan", now).unwrap();
    assert_eq!(japan.len(), 1);
    assert_eq!(japan[0].name, "Japan");
    assert_eq!(japan[0].country, "");
    assert_eq!(japan[0].timezone, "Asia/Tokyo");
    assert!(common_country("japan", 9_000_000_000_000).is_none());
    assert!(common_country("atlantis", now).is_none());
}

#[test]
fn country_zone_table() {
    let brazil = country_zones("BR");
    assert_eq!(brazil.len(), 16);
    assert_eq!(brazil[0], "America/Noronha");
    assert_eq!(country_zones("CN"), vec!["Asia/Shanghai", "Asia/Urumqi"]);
    assert!(country_zones("DE").contains(&"Europe/Berlin"));
    assert!(country_zones("ZZ").is_empty());
    assert!(country_zones("").is_empty());
}

#[test]
fn capitals() {
    assert_eq!(capital_zone("AU"), Some("Australia/Sydney"));
    assert_eq!(capital_label("AU"), Some("Canberra"));
    assert_eq!(capital_zone("FR"), None);
    assert_eq!(capital_label("us"), None);
}

#[test]
fn zone_locations() {
    assert_eq!(zone_location("America/Noronha"), "Fernando de Noronha");
    assert_eq!(zone_location("America/Argentina/Buenos_Aires"), "Buenos Aires");
    assert_eq!(zone_location("UTC"), "UTC");
    assert_eq!(zone_location("America/"), "");
}

#[test]
fn offsets_of_a_zone_without_daylight_saving() {
    let tokyo = offset_signature("Asia/Tokyo", noon_july_2026());
    assert_eq!(tokyo, vec![32400; 24]);
    let london = offset_signature("Europe/London", noon_july_2026());
    assert_eq!(london[0], 3600);
    assert!(london.contains(&0));
}

#[test]
fn country_places_lowercase_code_and_single_zone() {
    let places = country_places("Japan", "jp", noon_july_2026());
    assert_eq!(places.len(), 1);
    assert_eq!(places[0].name, "Japan");
    assert_eq!(places[0].country, "");
    assert!(country_places("Nowhere", "ZZ", noon_july_2026()).is_empty());
}

#[test]
fn country_places_label_other_zones_by_location() {
    let places = country_places("Brazil", "BR", noon_july_2026());
    assert!(places.iter().all(|p| p.country == "Brazil"));
    assert!(places[1..].iter().all(|p| !p.name.contains('_') && !p.name.contains('/')));
}

#[test]
fn geocoder_places_are_deduplicated() {
    let answer = vec![
        reported("Springfield", "United States", "US", "PPL", Some("America/Chicago")),
        reported("SPRINGFIELD", "united states", "US", "PPL", Some("America/Chicago")),
        reported("Springfield", "United States", "US", "PPL", Some("America/New_York")),
        reported("Nowhere", "", "", "PPL", Some("   ")),
        reported("Somewhere", "", "", "PPL", None),
    ];
    let places = resolve_api_places(answer, "springfield", noon_july_2026());
    assert_eq!(places.len(), 2);
    assert_eq!(places[0].timezone, "America/Chicago");
    assert_eq!(places[1].timezone, "America/New_York");
}

#[test]
fn only_political_entities_are_countries() {
    assert!(is_country(&reported("France", "France", "FR", "PCLI", None)));
    assert!(!is_country(&reported("France", "France", "", "PCLI", None)));
    assert!(!is_country(&reported("Paris", "France", "FR", "PPLC", None)));
}

#[test]
fn geocoder_url_encodes_the_query() {
    assert_eq!(
        geocoding_url("São Paulo"),
        "https://geocoding-api.open-meteo.com/v1/search?name=S%C3%A3o%20Paulo&count=10&language=en&format=json"
    );
}

#[test]
fn results_show_local_time() {
    let item = result_for_place(place("Tokyo", "Japan", "Asia/Tokyo"), noon_july_2026()).unwrap();
    assert_eq!(item.id, "time:Asia/Tokyo");
    assert_eq!(item.title, "21:00 in Tokyo, Japan");
    assert_eq!(item.subtitle, "Saturday, July 25 · Asia/Tokyo");
    assert!(matches!(item.action, Action::CopyText(ref t) if t == "21:00"));
    assert!(result_for_place(place("Atlantis", "", "Atlantis/Capital"), noon_july_2026()).is_none());
}

#[test]
fn result_titles_drop_a_repeated_or_missing_country() {
    let same = place_result(place("Singapore", "SINGAPORE", "Asia/Singapore"), "20:00".to_owned(), "Saturday, July 25".to_owned());
    assert_eq!(same.title, "20:00 in Singapore");
    let none = place_result(place("Japan", "", "Asia/Tokyo"), "21:00".to_owned(), "Saturday, July 25".to_owned());
    assert_eq!(none.title, "21:00 in Japan");
    assert!(matches!(none.icon, Icon::PackagePath(ref p) if p == "icon.svg"));
}

#[test]
fn responses() {
    let now = noon_july_2026() as u64;
    let places = vec![place("Tokyo", "Japan", "Asia/Tokyo"), place("X", "", "No/Zone"), place("Oslo", "Norway", "Europe/Oslo")];
    let r = match respond(Ok(places), 2, now) {
        Ok(r) => r,
        Err(_) => panic!("a valid host time gives results"),
    };
    assert_eq!(r.results.len(), 1);
    assert!(r.exclusive);
    let empty = match respond(Ok(vec![place("X", "", "No/Zone")]), 5, now) {
        Ok(r) => r,
        Err(_) => panic!("a valid host time gives results"),
    };
    assert!(empty.results.is_empty());
    assert!(!empty.exclusive);
    let failed = match respond(Err("Could not look up that location.".to_owned()), 5, now) {
        Ok(r) => r,
        Err(_) => panic!("errors are shown as a result"),
    };
    assert!(failed.exclusive);
    assert_eq!(failed.results[0].id, "time:error");
    assert_eq!(failed.results[0].title, "Could not look up that location.");
    assert!(matches!(failed.results[0].action, Action::ShowMessage(_)));
    assert!(matches!(respond(Ok(vec![]), 5, 9_000_000_000_000), Err(ModuleError::Internal(ref m)) if m == "host timestamp is invalid"));
    let none = no_match_response();
    assert!(none.results.is_empty() && !none.exclusive);
}

#[test]
fn lookup_uses_common_places_first() {
    let now = noon_july_2026() as u64;
    match begin_lookup("  Tokyo ", now) {
        LookupStart::Found(places) => assert_eq!(places[0].timezone, "Asia/Tokyo"),
        LookupStart::ReadCache(_) => panic!("Tokyo is a common city"),
    }
}

#[test]
fn lookup_reads_the_cache_then_fetches() {
    let now = noon_july_2026() as u64;
    let pending = match begin_lookup("  Springfield IL ", now) {
        LookupStart::Found(_) => panic!("not a common place"),
        LookupStart::ReadCache(p) => p,
    };
    assert_eq!(pending.normalized, "springfield il");
    assert_eq!(pending.key, place_cache_key("springfield il"));
    let fresh = CachedPlaces { query: "springfield il".to_owned(), fetched_at: now - 3600, places: vec![place("Springfield", "United States", "America/Chicago")] };
    match after_cache(pending, Some(fresh), now) {
        AfterCache::Found(places) => assert_eq!(places[0].timezone, "America/Chicago"),
        AfterCache::Fetch(_) => panic!("a fresh entry answers"),
    }
}

#[test]
fn lookup_falls_back_to_an_outdated_entry() {
    let now = noon_july_2026() as u64;
    let pending = match begin_lookup("Springfield IL", now) {
        LookupStart::Found(_) => panic!("not a common place"),
        LookupStart::ReadCache(p) => p,
    };
    let old = CachedPlaces { query: "springfield il".to_owned(), fetched_at: now - 8 * 24 * 3600, places: vec![place("Springfield", "United States", "America/Chicago")] };
    let plan = match after_cache(pending, Some(old), now) {
        AfterCache::Found(_) => panic!("an outdated entry does not answer"),
        AfterCache::Fetch(plan) => plan,
    };
    assert!(plan.url.contains("name=Springfield%20IL&"));
    let end = after_fetch(plan, FetchOutcome::Unreachable, now);
    assert!(end.store.is_none());
    match end.result {
        Ok(places) => assert_eq!(places[0].name, "Springfield"),
        Err(_) => panic!("the outdated entry is used"),
    }
}

#[test]
fn lookup_reports_http_errors_and_stores_answers() {
    let now = noon_july_2026() as u64;
    let start = |q: &str| match begin_lookup(q, now) {
        LookupStart::Found(_) => panic!("not a common place"),
        LookupStart::ReadCache(p) => p,
    };
    let plan = match after_cache(start("Gotham"), None, now) {
        AfterCache::Found(_) => panic!("nothing cached"),
        AfterCache::Fetch(plan) => plan,
    };
    let end = after_fetch(plan, FetchOutcome::Answered { status: 503, places: None }, now);
    assert!(matches!(end.result, Err(ref m) if m == "Location service returned HTTP 503."));
    let plan = match after_cache(start("Gotham"), None, now) {
        AfterCache::Found(_) => panic!("nothing cached"),
        AfterCache::Fetch(plan) => plan,
    };
    let end = after_fetch(plan, FetchOutcome::Answered { status: 200, places: None }, now);
    assert!(matches!(end.result, Err(ref m) if m == "Location service returned invalid data."));
    let plan = match after_cache(start("Gotham"), None, now) {
        AfterCache::Found(_) => panic!("nothing cached"),
        AfterCache::Fetch(plan) => plan,
    };
    let answer = vec![reported("Gotham", "United States", "US", "PPL", Some("America/New_York"))];
    let end = after_fetch(plan, FetchOutcome::Answered { status: 200, places: Some(answer) }, now);
    let (key, entry) = end.store.expect("answers are stored");
    assert_eq!(key, place_cache_key("gotham"));
    assert_eq!(entry.query, "gotham");
    assert_eq!(entry.fetched_at, now);
    assert_eq!(entry.places.len(), 1);
    match end.result {
        Ok(places) => assert_eq!(places[0].timezone, "America/New_York"),
        Err(_) => panic!("the answer resolves"),
    }
}

const NEAR_THE_END_OF_TIME: u64 = 8_210_266_000_000;

#[test]
fn lookups_stop_where_offsets_cannot_be_sampled() {
    let now = noon_july_2026() as u64;
    assert!(common_places_fit_at("japan", now));
    assert!(!common_places_fit_at("japan", NEAR_THE_END_OF_TIME));
    assert!(common_places_fit_at("tokyo", NEAR_THE_END_OF_TIME));
    assert!(common_places_fit_at("gotham", NEAR_THE_END_OF_TIME));
    assert!(start_lookup("Japan", NEAR_THE_END_OF_TIME).is_none());
    assert!(matches!(start_lookup("Tokyo", NEAR_THE_END_OF_TIME), Some(LookupStart::Found(_))));
    assert!(matches!(start_lookup("Japan", now), Some(LookupStart::Found(_))));
}

#[test]
fn countries_with_and_without_zones() {
    assert!(country_has_zones("br"));
    assert!(country_has_zones("CN"));
    assert!(!country_has_zones("ZZ"));
}

#[test]
fn first_matching_country() {
    let answer = vec![
        reported("Georgia", "United States", "US", "ADM1", Some("America/New_York")),
        reported("Georgia", "Georgia", "GE", "PCLI", None),
    ];
    assert_eq!(first_country_index(&answer, "georgia"), 1);
    assert_eq!(first_country_index(&answer, "tbilisi"), 2);
    assert!(resolution_fits_at(&answer, "georgia", noon_july_2026()));
    assert!(!resolution_fits_at(&answer, "georgia", NEAR_THE_END_OF_TIME as i64));
    assert!(resolution_fits_at(&answer, "tbilisi", NEAR_THE_END_OF_TIME as i64));
}

#[test]
fn finishing_a_lookup_with_a_country_answer() {
    let now = noon_july_2026() as u64;
    let pending = match begin_lookup("Georgia", now) {
        LookupStart::Found(_) => panic!("not a common place"),
        LookupStart::ReadCache(p) => p,
    };
    let plan = match after_cache(pending, None, now) {
        AfterCache::Found(_) => panic!("nothing cached"),
        AfterCache::Fetch(plan) => plan,
    };
    let answer = vec![reported("Georgia", "Georgia", "GE", "PCLI", None)];
    let end = finish_lookup(plan, FetchOutcome::Answered { status: 200, places: Some(answer) }, now).unwrap();
    match end.result {
        Ok(places) => {
            assert_eq!(places.len(), 1);
            assert_eq!(places[0].name, "Georgia");
            assert_eq!(places[0].timezone, "Asia/Tbilisi");
        },
        Err(_) => panic!("the country resolves"),
    }
}

#[test]
fn host_times_that_chrono_represents() {
    let latest: i64 = 8_210_266_876_799;
    let earliest: i64 = -8_334_601_228_800;
    assert!(respond(Ok(vec![]), 1, latest as u64).is_ok());
    assert!(respond(Ok(vec![]), 1, (latest + 1) as u64).is_err());
    assert!(respond(Ok(vec![]), 1, earliest as u64).is_ok());
    assert!(respond(Ok(vec![]), 1, (earliest - 1) as u64).is_err());
}

fn views(places: &[Place]) -> Vec<(String, String, String)> {
    places.iter().map(|p| (p.name.clone(), p.country.clone(), p.timezone.clone())).collect()
}

#[test]
fn country_codes_in_any_case_give_the_same_places() {
    let now = noon_july_2026();
    assert_eq!(views(&country_places("Brazil", "br", now)), views(&country_places("Brazil", "BR", now)));
    assert_eq!(views(&country_places("Brazil", "bR", now)).len(), 4);
}

#[test]
fn spellings_of_one_name_give_the_same_common_places() {
    let now = noon_july_2026() as u64;
    let a = views(&common_places("New York", now).unwrap());
    assert_eq!(a, views(&common_places("new-york", now).unwrap()));
    assert_eq!(a, views(&common_places("NEW YORK", now).unwrap()));
    let b = views(&common_places("United States", now).unwrap());
    assert_eq!(b, views(&common_places("united-states", now).unwrap()));
}

#[test]
fn country_aliases_give_the_same_places() {
    let now = noon_july_2026() as u64;
    let us = views(&common_country("us", now).unwrap());
    for alias in ["usa", "unitedstates", "unitedstatesofamerica"] {
        assert_eq!(us, views(&common_country(alias, now).unwrap()));
    }
    assert_eq!(views(&common_country("uk", now).unwrap()), views(&common_country("unitedkingdom", now).unwrap()));
    assert_eq!(views(&common_country("korea", now).unwrap()), views(&common_country("southkorea", now).unwrap()));
}

#[test]
fn clock_text_is_the_instant_shifted_by_the_offset() {
    let noon = noon_july_2026();
    let kolkata = result_for_place(place("Kolkata", "India", "Asia/Kolkata"), noon).unwrap();
    assert!(kolkata.title.starts_with("17:30 in "));
    let st_johns = result_for_place(place("St. John's", "Canada", "America/St_Johns"), noon).unwrap();
    assert!(st_johns.title.starts_with("09:30 in "));
    let before_epoch = result_for_place(place("Tokyo", "Japan", "Asia/Tokyo"), -1).unwrap();
    assert!(before_epoch.title.starts_with("08:59 in "));
}

#[test]
fn answers_are_stored_with_the_time_the_cache_was_checked() {
    let checked = noon_july_2026() as u64;
    let pending = match begin_lookup("Gotham", checked) {
        LookupStart::Found(_) => panic!("not a common place"),
        LookupStart::ReadCache(p) => p,
    };
    let plan = match after_cache(pending, None, checked) {
        AfterCache::Found(_) => panic!("nothing cached"),
        AfterCache::Fetch(plan) => plan,
    };
    assert_eq!(plan.checked_at, checked);
    let answer = vec![reported("Gotham", "United States", "US", "PPL", Some("America/New_York"))];
    let end = after_fetch(plan, FetchOutcome::Answered { status: 200, places: Some(answer) }, checked + 5);
    let (_, entry) = end.store.expect("answers are stored");
    assert_eq!(entry.fetched_at, checked);
}
