use chrono::{TimeZone, Utc};
use rayslash_time::country::country_places;
use rayslash_time::geocoding::{resolve_api_places, ApiPlace};
use rayslash_time::places::common_places;
use rayslash_time::query::parse;

fn july_2026() -> i64 {
    Utc.with_ymd_and_hms(2026, 7, 25, 12, 0, 0).unwrap().timestamp()
}

fn api_place(name: &str, country: &str, code: &str, feature: &str, timezone: Option<&str>) -> ApiPlace {
    ApiPlace {
        name: name.to_owned(),
        country: country.to_owned(),
        timezone: timezone.map(|t| t.to_owned()),
        country_code: code.to_owned(),
        feature_code: feature.to_owned(),
    }
}

#[test]
fn parses_location() {
    assert_eq!(parse("time in São Paulo"), Some("São Paulo"));
    assert_eq!(parse("TIME IN Tokyo"), Some("Tokyo"));
}

#[test]
fn ignores_other_queries() {
    assert_eq!(parse("timer 5m"), None);
    assert_eq!(parse("time in "), None);
}

#[test]
fn common_city_index_resolves_without_the_network() {
    let places = common_places("São Paulo", july_2026() as u64).expect("common city should resolve");
    assert_eq!(places.len(), 1);
    assert_eq!(places[0].timezone, "America/Sao_Paulo");
}

#[test]
fn exact_country_result_excludes_unrelated_geocoder_matches() {
    let results = vec![
        api_place("United States", "United States", "US", "PCLI", None),
        api_place("Brazil", "Brazil", "BR", "PCLI", None),
        api_place("Mount Vernon", "United States", "US", "PPL", Some("America/Chicago")),
    ];
    let now = Utc.with_ymd_and_hms(2026, 7, 25, 12, 0, 0).unwrap().timestamp();
    let places = resolve_api_places(results, "united states", now);

    assert!(!places.is_empty());
    assert_eq!(places[0].name, "Washington, D.C.");
    assert_eq!(places[0].timezone, "America/New_York");
    assert!(places.iter().all(|place| place.country == "United States"));
}

#[test]
fn brazil_has_four_rule_distinct_zones_with_capital_first() {
    let now = Utc.with_ymd_and_hms(2026, 7, 25, 12, 0, 0).unwrap().timestamp();
    let places = country_places("Brazil", "BR", now);

    assert_eq!(places.len(), 4);
    assert_eq!(places[0].name, "Brasília");
    assert_eq!(places[0].timezone, "America/Sao_Paulo");
}

#[test]
fn argentina_and_china_have_one_national_time_result() {
    let now = Utc.with_ymd_and_hms(2026, 7, 25, 12, 0, 0).unwrap().timestamp();

    assert_eq!(country_places("Argentina", "AR", now).len(), 1);
    let china = country_places("China", "CN", now);
    assert_eq!(china.len(), 1);
    assert_eq!(china[0].timezone, "Asia/Shanghai");
}
