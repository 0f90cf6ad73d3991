//! Places that resolve without the geocoder: common cities and common countries.
use vstd::prelude::*;
use crate::clock::{samples_fit, samples_fit_at, timestamp_in_range, timestamp_valid};
use crate::country::{law_country_result_unique, candidate_zones, country_has_zones, country_places, country_result};
use crate::place::{Place, PlaceView, place_views};
use crate::query::{normalize_name, normalized};
use crate::text::{str_equal, upper_seq};
use crate::zones::{keeps_time_of, named_after, underscores_to_spaces};

verus! {

/// The common city for a normalised name: its name, country and zone.
pub open spec fn city_row(key: Seq<char>) -> Option<PlaceView> {
    if key == "amsterdam"@ {
        Some(("Amsterdam"@, "Netherlands"@, "Europe/Amsterdam"@))
    } else if key == "athens"@ {
        Some(("Athens"@, "Greece"@, "Europe/Athens"@))
    } else if key == "auckland"@ {
        Some(("Auckland"@, "New Zealand"@, "Pacific/Auckland"@))
    } else if key == "bangkok"@ {
        Some(("Bangkok"@, "Thailand"@, "Asia/Bangkok"@))
    } else if key == "beijing"@ {
        Some(("Beijing"@, "China"@, "Asia/Shanghai"@))
    } else if key == "berlin"@ {
        Some(("Berlin"@, "Germany"@, "Europe/Berlin"@))
    } else if key == "bogota"@ {
        Some(("Bogot\u{e1}"@, "Colombia"@, "America/Bogota"@))
    } else if key == "buenosaires"@ {
        Some(("Buenos Aires"@, "Argentina"@, "America/Argentina/Buenos_Aires"@))
    } else if key == "cairo"@ {
        Some(("Cairo"@, "Egypt"@, "Africa/Cairo"@))
    } else if key == "capetown"@ {
        Some(("Cape Town"@, "South Africa"@, "Africa/Johannesburg"@))
    } else if key == "chicago"@ {
        Some(("Chicago"@, "United States"@, "America/Chicago"@))
    } else if key == "delhi"@ || key == "newdelhi"@ {
        Some(("New Delhi"@, "India"@, "Asia/Kolkata"@))
    } else if key == "denver"@ {
        Some(("Denver"@, "United States"@, "America/Denver"@))
    } else if key == "dubai"@ {
        Some(("Dubai"@, "United Arab Emirates"@, "Asia/Dubai"@))
    } else if key == "dublin"@ {
        Some(("Dublin"@, "Ireland"@, "Europe/Dublin"@))
    } else if key == "helsinki"@ {
        Some(("Helsinki"@, "Finland"@, "Europe/Helsinki"@))
    } else if key == "hongkong"@ {
        Some(("Hong Kong"@, "Hong Kong"@, "Asia/Hong_Kong"@))
    } else if key == "honolulu"@ {
        Some(("Honolulu"@, "United States"@, "Pacific/Honolulu"@))
    } else if key == "istanbul"@ {
        Some(("Istanbul"@, "T\u{fc}rkiye"@, "Europe/Istanbul"@))
    } else if key == "jakarta"@ {
        Some(("Jakarta"@, "Indonesia"@, "Asia/Jakarta"@))
    } else if key == "johannesburg"@ {
        Some(("Johannesburg"@, "South Africa"@, "Africa/Johannesburg"@))
    } else if key == "karachi"@ {
        Some(("Karachi"@, "Pakistan"@, "Asia/Karachi"@))
    } else if key == "lagos"@ {
        Some(("Lagos"@, "Nigeria"@, "Africa/Lagos"@))
    } else if key == "lima"@ {
        Some(("Lima"@, "Peru"@, "America/Lima"@))
    } else if key == "lisbon"@ {
        Some(("Lisbon"@, "Portugal"@, "Europe/Lisbon"@))
    } else if key == "london"@ {
        Some(("London"@, "United Kingdom"@, "Europe/London"@))
    } else if key == "losangeles"@ || key == "la"@ {
        Some(("Los Angeles"@, "United States"@, "America/Los_Angeles"@))
    } else if key == "madrid"@ {
        Some(("Madrid"@, "Spain"@, "Europe/Madrid"@))
    } else if key == "manila"@ {
        Some(("Manila"@, "Philippines"@, "Asia/Manila"@))
    } else if key == "melbourne"@ {
        Some(("Melbourne"@, "Australia"@, "Australia/Melbourne"@))
    } else if key == "mexicocity"@ {
        Some(("Mexico City"@, "Mexico"@, "America/Mexico_City"@))
    } else if key == "moscow"@ {
        Some(("Moscow"@, "Russia"@, "Europe/Moscow"@))
    } else if key == "mumbai"@ {
        Some(("Mumbai"@, "India"@, "Asia/Kolkata"@))
    } else if key == "nairobi"@ {
        Some(("Nairobi"@, "Kenya"@, "Africa/Nairobi"@))
    } else if key == "newyork"@ || key == "newyorkcity"@ || key == "nyc"@ {
        Some(("New York"@, "United States"@, "America/New_York"@))
    } else if key == "oslo"@ {
        Some(("Oslo"@, "Norway"@, "Europe/Oslo"@))
    } else if key == "paris"@ {
        Some(("Paris"@, "France"@, "Europe/Paris"@))
    } else if key == "reykjavik"@ {
        Some(("Reykjav\u{ed}k"@, "Iceland"@, "Atlantic/Reykjavik"@))
    } else if key == "riodejaneiro"@ || key == "rio"@ {
        Some(("Rio de Janeiro"@, "Brazil"@, "America/Sao_Paulo"@))
    } else if key == "rome"@ {
        Some(("Rome"@, "Italy"@, "Europe/Rome"@))
    } else if key == "sanfrancisco"@ || key == "sf"@ {
        Some(("San Francisco"@, "United States"@, "America/Los_Angeles"@))
    } else if key == "santiago"@ {
        Some(("Santiago"@, "Chile"@, "America/Santiago"@))
    } else if key == "saopaulo"@ || key == "s\u{e3}opaulo"@ {
        Some(("S\u{e3}o Paulo"@, "Brazil"@, "America/Sao_Paulo"@))
    } else if key == "seoul"@ {
        Some(("Seoul"@, "South Korea"@, "Asia/Seoul"@))
    } else if key == "shanghai"@ {
        Some(("Shanghai"@, "China"@, "Asia/Shanghai"@))
    } else if key == "singapore"@ {
        Some(("Singapore"@, "Singapore"@, "Asia/Singapore"@))
    } else if key == "stockholm"@ {
        Some(("Stockholm"@, "Sweden"@, "Europe/Stockholm"@))
    } else if key == "sydney"@ {
        Some(("Sydney"@, "Australia"@, "Australia/Sydney"@))
    } else if key == "taipei"@ {
        Some(("Taipei"@, "Taiwan"@, "Asia/Taipei"@))
    } else if key == "tehran"@ {
        Some(("Tehran"@, "Iran"@, "Asia/Tehran"@))
    } else if key == "tokyo"@ {
        Some(("Tokyo"@, "Japan"@, "Asia/Tokyo"@))
    } else if key == "toronto"@ {
        Some(("Toronto"@, "Canada"@, "America/Toronto"@))
    } else if key == "vancouver"@ {
        Some(("Vancouver"@, "Canada"@, "America/Vancouver"@))
    } else if key == "vienna"@ {
        Some(("Vienna"@, "Austria"@, "Europe/Vienna"@))
    } else if key == "warsaw"@ {
        Some(("Warsaw"@, "Poland"@, "Europe/Warsaw"@))
    } else if key == "washington"@ || key == "washingtondc"@ {
        Some(("Washington, D.C."@, "United States"@, "America/New_York"@))
    } else if key == "zurich"@ {
        Some(("Z\u{fc}rich"@, "Switzerland"@, "Europe/Zurich"@))
    } else {
        None
    }
}

/// Names under which a common city is found besides its own name, normalised: short
/// forms, and spellings without accents.
pub open spec fn other_name(key: Seq<char>, city: Seq<char>) -> bool {
    ||| key == "delhi"@ && city == "New Delhi"@
    ||| key == "la"@ && city == "Los Angeles"@
    ||| key == "newyorkcity"@ && city == "New York"@
    ||| key == "nyc"@ && city == "New York"@
    ||| key == "rio"@ && city == "Rio de Janeiro"@
    ||| key == "sf"@ && city == "San Francisco"@
    ||| key == "washington"@ && city == "Washington, D.C."@
    ||| key == "bogota"@ && city == "Bogot\u{e1}"@
    ||| key == "reykjavik"@ && city == "Reykjav\u{ed}k"@
    ||| key == "zurich"@ && city == "Z\u{fc}rich"@
    ||| key == "saopaulo"@ && city == "S\u{e3}o Paulo"@
    ||| key == "s\u{e3}opaulo"@ && city == "S\u{e3}o Paulo"@
}

/// Keys of common cities that are the cities' names, normalised.
proof fn lemma_city_keys_first()
    ensures
        normalized("Amsterdam"@) == "amsterdam"@,
        normalized("Athens"@) == "athens"@,
        normalized("Auckland"@) == "auckland"@,
        normalized("Bangkok"@) == "bangkok"@,
        normalized("Beijing"@) == "beijing"@,
        normalized("Berlin"@) == "berlin"@,
        normalized("Buenos Aires"@) == "buenosaires"@,
        normalized("Cairo"@) == "cairo"@,
        normalized("Cape Town"@) == "capetown"@,
        normalized("Chicago"@) == "chicago"@,
        normalized("New Delhi"@) == "newdelhi"@,
        normalized("Denver"@) == "denver"@,
{
    reveal_with_fuel(normalized, 13);
    reveal_strlit("Amsterdam");
    reveal_strlit("amsterdam");
    assert(normalized("Amsterdam"@) =~= "amsterdam"@);
    reveal_strlit("Athens");
    reveal_strlit("athens");
    assert(normalized("Athens"@) =~= "athens"@);
    reveal_strlit("Auckland");
    reveal_strlit("auckland");
    assert(normalized("Auckland"@) =~= "auckland"@);
    reveal_strlit("Bangkok");
    reveal_strlit("bangkok");
    assert(normalized("Bangkok"@) =~= "bangkok"@);
    reveal_strlit("Beijing");
    reveal_strlit("beijing");
    assert(normalized("Beijing"@) =~= "beijing"@);
    reveal_strlit("Berlin");
    reveal_strlit("berlin");
    assert(normalized("Berlin"@) =~= "berlin"@);
    reveal_strlit("Buenos Aires");
    reveal_strlit("buenosaires");
    assert(normalized("Buenos Aires"@) =~= "buenosaires"@);
    reveal_strlit("Cairo");
    reveal_strlit("cairo");
    assert(normalized("Cairo"@) =~= "cairo"@);
    reveal_strlit("Cape Town");
    reveal_strlit("capetown");
    assert(normalized("Cape Town"@) =~= "capetown"@);
    reveal_strlit("Chicago");
    reveal_strlit("chicago");
    assert(normalized("Chicago"@) =~= "chicago"@);
    reveal_strlit("New Delhi");
    reveal_strlit("newdelhi");
    assert(normalized("New Delhi"@) =~= "newdelhi"@);
    reveal_strlit("Denver");
    reveal_strlit("denver");
    assert(normalized("Denver"@) =~= "denver"@);
}

/// Keys of common cities that are the cities' names, normalised.
proof fn lemma_city_keys_second()
    ensures
        normalized("Dubai"@) == "dubai"@,
        normalized("Dublin"@) == "dublin"@,
        normalized("Helsinki"@) == "helsinki"@,
        normalized("Hong Kong"@) == "hongkong"@,
        normalized("Honolulu"@) == "honolulu"@,
        normalized("Istanbul"@) == "istanbul"@,
        normalized("Jakarta"@) == "jakarta"@,
        normalized("Johannesburg"@) == "johannesburg"@,
        normalized("Karachi"@) == "karachi"@,
        normalized("Lagos"@) == "lagos"@,
        normalized("Lima"@) == "lima"@,
        normalized("Lisbon"@) == "lisbon"@,
{
    reveal_with_fuel(normalized, 13);
    reveal_strlit("Dubai");
    reveal_strlit("dubai");
    assert(normalized("Dubai"@) =~= "dubai"@);
    reveal_strlit("Dublin");
    reveal_strlit("dublin");
    assert(normalized("Dublin"@) =~= "dublin"@);
    reveal_strlit("Helsinki");
    reveal_strlit("helsinki");
    assert(normalized("Helsinki"@) =~= "helsinki"@);
    reveal_strlit("Hong Kong");
    reveal_strlit("hongkong");
    assert(normalized("Hong Kong"@) =~= "hongkong"@);
    reveal_strlit("Honolulu");
    reveal_strlit("honolulu");
    assert(normalized("Honolulu"@) =~= "honolulu"@);
    reveal_strlit("Istanbul");
    reveal_strlit("istanbul");
    assert(normalized("Istanbul"@) =~= "istanbul"@);
    reveal_strlit("Jakarta");
    reveal_strlit("jakarta");
    assert(normalized("Jakarta"@) =~= "jakarta"@);
    reveal_strlit("Johannesburg");
    reveal_strlit("johannesburg");
    assert(normalized("Johannesburg"@) =~= "johannesburg"@);
    reveal_strlit("Karachi");
    reveal_strlit("karachi");
    assert(normalized("Karachi"@) =~= "karachi"@);
    reveal_strlit("Lagos");
    reveal_strlit("lagos");
    assert(normalized("Lagos"@) =~= "lagos"@);
    reveal_strlit("Lima");
    reveal_strlit("lima");
    assert(normalized("Lima"@) =~= "lima"@);
    reveal_strlit("Lisbon");
    reveal_strlit("lisbon");
    assert(normalized("Lisbon"@) =~= "lisbon"@);
}

/// Keys of common cities that are the cities' names, normalised.
proof fn lemma_city_keys_third()
    ensures
        normalized("London"@) == "london"@,
        normalized("Los Angeles"@) == "losangeles"@,
        normalized("Madrid"@) == "madrid"@,
        normalized("Manila"@) == "manila"@,
        normalized("Melbourne"@) == "melbourne"@,
        normalized("Mexico City"@) == "mexicocity"@,
        normalized("Moscow"@) == "moscow"@,
        normalized("Mumbai"@) == "mumbai"@,
        normalized("Nairobi"@) == "nairobi"@,
        normalized("New York"@) == "newyork"@,
        normalized("Oslo"@) == "oslo"@,
        normalized("Paris"@) == "paris"@,
{
    reveal_with_fuel(normalized, 12);
    reveal_strlit("London");
    reveal_strlit("london");
    assert(normalized("London"@) =~= "london"@);
    reveal_strlit("Los Angeles");
    reveal_strlit("losangeles");
    assert(normalized("Los Angeles"@) =~= "losangeles"@);
    reveal_strlit("Madrid");
    reveal_strlit("madrid");
    assert(normalized("Madrid"@) =~= "madrid"@);
    reveal_strlit("Manila");
    reveal_strlit("manila");
    assert(normalized("Manila"@) =~= "manila"@);
    reveal_strlit("Melbourne");
    reveal_strlit("melbourne");
    assert(normalized("Melbourne"@) =~= "melbourne"@);
    reveal_strlit("Mexico City");
    reveal_strlit("mexicocity");
    assert(normalized("Mexico City"@) =~= "mexicocity"@);
    reveal_strlit("Moscow");
    reveal_strlit("moscow");
    assert(normalized("Moscow"@) =~= "moscow"@);
    reveal_strlit("Mumbai");
    reveal_strlit("mumbai");
    assert(normalized("Mumbai"@) =~= "mumbai"@);
    reveal_strlit("Nairobi");
    reveal_strlit("nairobi");
    assert(normalized("Nairobi"@) =~= "nairobi"@);
    reveal_strlit("New York");
    reveal_strlit("newyork");
    assert(normalized("New York"@) =~= "newyork"@);
    reveal_strlit("Oslo");
    reveal_strlit("oslo");
    assert(normalized("Oslo"@) =~= "oslo"@);
    reveal_strlit("Paris");
    reveal_strlit("paris");
    assert(normalized("Paris"@) =~= "paris"@);
}

/// Keys of common cities that are the cities' names, normalised.
proof fn lemma_city_keys_fourth()
    ensures
        normalized("Rio de Janeiro"@) == "riodejaneiro"@,
        normalized("Rome"@) == "rome"@,
        normalized("San Francisco"@) == "sanfrancisco"@,
        normalized("Santiago"@) == "santiago"@,
        normalized("Seoul"@) == "seoul"@,
        normalized("Shanghai"@) == "shanghai"@,
        normalized("Singapore"@) == "singapore"@,
        normalized("Stockholm"@) == "stockholm"@,
        normalized("Sydney"@) == "sydney"@,
        normalized("Taipei"@) == "taipei"@,
        normalized("Tehran"@) == "tehran"@,
        normalized("Tokyo"@) == "tokyo"@,
{
    reveal_with_fuel(normalized, 15);
    reveal_strlit("Rio de Janeiro");
    reveal_strlit("riodejaneiro");
    assert(normalized("Rio de Janeiro"@) =~= "riodejaneiro"@);
    reveal_strlit("Rome");
    reveal_strlit("rome");
    assert(normalized("Rome"@) =~= "rome"@);
    reveal_strlit("San Francisco");
    reveal_strlit("sanfrancisco");
    assert(normalized("San Francisco"@) =~= "sanfrancisco"@);
    reveal_strlit("Santiago");
    reveal_strlit("santiago");
    assert(normalized("Santiago"@) =~= "santiago"@);
    reveal_strlit("Seoul");
    reveal_strlit("seoul");
    assert(normalized("Seoul"@) =~= "seoul"@);
    reveal_strlit("Shanghai");
    reveal_strlit("shanghai");
    assert(normalized("Shanghai"@) =~= "shanghai"@);
    reveal_strlit("Singapore");
    reveal_strlit("singapore");
    assert(normalized("Singapore"@) =~= "singapore"@);
    reveal_strlit("Stockholm");
    reveal_strlit("stockholm");
    assert(normalized("Stockholm"@) =~= "stockholm"@);
    reveal_strlit("Sydney");
    reveal_strlit("sydney");
    assert(normalized("Sydney"@) =~= "sydney"@);
    reveal_strlit("Taipei");
    reveal_strlit("taipei");
    assert(normalized("Taipei"@) =~= "taipei"@);
    reveal_strlit("Tehran");
    reveal_strlit("tehran");
    assert(normalized("Tehran"@) =~= "tehran"@);
    reveal_strlit("Tokyo");
    reveal_strlit("tokyo");
    assert(normalized("Tokyo"@) =~= "tokyo"@);
}

/// Keys of common cities that are the cities' names, normalised.
proof fn lemma_city_keys_fifth()
    ensures
        normalized("Toronto"@) == "toronto"@,
        normalized("Vancouver"@) == "vancouver"@,
        normalized("Vienna"@) == "vienna"@,
        normalized("Warsaw"@) == "warsaw"@,
        normalized("Washington, D.C."@) == "washingtondc"@,
{
    reveal_with_fuel(normalized, 17);
    reveal_strlit("Toronto");
    reveal_strlit("toronto");
    assert(normalized("Toronto"@) =~= "toronto"@);
    reveal_strlit("Vancouver");
    reveal_strlit("vancouver");
    assert(normalized("Vancouver"@) =~= "vancouver"@);
    reveal_strlit("Vienna");
    reveal_strlit("vienna");
    assert(normalized("Vienna"@) =~= "vienna"@);
    reveal_strlit("Warsaw");
    reveal_strlit("warsaw");
    assert(normalized("Warsaw"@) =~= "warsaw"@);
    reveal_strlit("Washington, D.C.");
    reveal_strlit("washingtondc");
    assert(normalized("Washington, D.C."@) =~= "washingtondc"@);
}

/// Each common city is found under its own name, normalised, or under one of its other
/// names: a key never gives another city.
pub proof fn law_city_found_by_own_name(key: Seq<char>)
    ensures
        city_row(key) matches Some(city) ==> key == normalized(city.0) || other_name(key, city.0),
{
    lemma_city_keys_first();
    lemma_city_keys_second();
    lemma_city_keys_third();
    lemma_city_keys_fourth();
    lemma_city_keys_fifth();
}

/// The common cities that a zone is named after.
proof fn lemma_cities_named_after()
    ensures
        named_after("Europe/Amsterdam"@, "Amsterdam"@),
        named_after("Europe/Athens"@, "Athens"@),
        named_after("Pacific/Auckland"@, "Auckland"@),
        named_after("Asia/Bangkok"@, "Bangkok"@),
        named_after("Europe/Berlin"@, "Berlin"@),
        named_after("America/Argentina/Buenos_Aires"@, "Buenos Aires"@),
        named_after("Africa/Cairo"@, "Cairo"@),
        named_after("America/Chicago"@, "Chicago"@),
        named_after("America/Denver"@, "Denver"@),
        named_after("Asia/Dubai"@, "Dubai"@),
        named_after("Europe/Dublin"@, "Dublin"@),
        named_after("Europe/Helsinki"@, "Helsinki"@),
        named_after("Asia/Hong_Kong"@, "Hong Kong"@),
        named_after("Pacific/Honolulu"@, "Honolulu"@),
        named_after("Europe/Istanbul"@, "Istanbul"@),
        named_after("Asia/Jakarta"@, "Jakarta"@),
        named_after("Africa/Johannesburg"@, "Johannesburg"@),
        named_after("Asia/Karachi"@, "Karachi"@),
        named_after("Africa/Lagos"@, "Lagos"@),
        named_after("America/Lima"@, "Lima"@),
        named_after("Europe/Lisbon"@, "Lisbon"@),
        named_after("Europe/London"@, "London"@),
        named_after("America/Los_Angeles"@, "Los Angeles"@),
        named_after("Europe/Madrid"@, "Madrid"@),
        named_after("Asia/Manila"@, "Manila"@),
        named_after("Australia/Melbourne"@, "Melbourne"@),
        named_after("America/Mexico_City"@, "Mexico City"@),
        named_after("Europe/Moscow"@, "Moscow"@),
        named_after("Africa/Nairobi"@, "Nairobi"@),
        named_after("America/New_York"@, "New York"@),
        named_after("Europe/Oslo"@, "Oslo"@),
        named_after("Europe/Paris"@, "Paris"@),
        named_after("Europe/Rome"@, "Rome"@),
        named_after("America/Santiago"@, "Santiago"@),
        named_after("Asia/Seoul"@, "Seoul"@),
        named_after("Asia/Shanghai"@, "Shanghai"@),
        named_after("Asia/Singapore"@, "Singapore"@),
        named_after("Europe/Stockholm"@, "Stockholm"@),
        named_after("Australia/Sydney"@, "Sydney"@),
        named_after("Asia/Taipei"@, "Taipei"@),
        named_after("Asia/Tehran"@, "Tehran"@),
        named_after("Asia/Tokyo"@, "Tokyo"@),
        named_after("America/Toronto"@, "Toronto"@),
        named_after("America/Vancouver"@, "Vancouver"@),
        named_after("Europe/Vienna"@, "Vienna"@),
        named_after("Europe/Warsaw"@, "Warsaw"@),
{
    reveal_strlit("Europe/Amsterdam");
    reveal_strlit("Amsterdam");
    assert(underscores_to_spaces("Europe/Amsterdam"@.skip(7)) =~= "Amsterdam"@);
    reveal_strlit("Europe/Athens");
    reveal_strlit("Athens");
    assert(underscores_to_spaces("Europe/Athens"@.skip(7)) =~= "Athens"@);
    reveal_strlit("Pacific/Auckland");
    reveal_strlit("Auckland");
    assert(underscores_to_spaces("Pacific/Auckland"@.skip(8)) =~= "Auckland"@);
    reveal_strlit("Asia/Bangkok");
    reveal_strlit("Bangkok");
    assert(underscores_to_spaces("Asia/Bangkok"@.skip(5)) =~= "Bangkok"@);
    reveal_strlit("Europe/Berlin");
    reveal_strlit("Berlin");
    assert(underscores_to_spaces("Europe/Berlin"@.skip(7)) =~= "Berlin"@);
    reveal_strlit("America/Argentina/Buenos_Aires");
    reveal_strlit("Buenos Aires");
    assert(underscores_to_spaces("America/Argentina/Buenos_Aires"@.skip(18)) =~= "Buenos Aires"@);
    reveal_strlit("Africa/Cairo");
    reveal_strlit("Cairo");
    assert(underscores_to_spaces("Africa/Cairo"@.skip(7)) =~= "Cairo"@);
    reveal_strlit("America/Chicago");
    reveal_strlit("Chicago");
    assert(underscores_to_spaces("America/Chicago"@.skip(8)) =~= "Chicago"@);
    reveal_strlit("America/Denver");
    reveal_strlit("Denver");
    assert(underscores_to_spaces("America/Denver"@.skip(8)) =~= "Denver"@);
    reveal_strlit("Asia/Dubai");
    reveal_strlit("Dubai");
    assert(underscores_to_spaces("Asia/Dubai"@.skip(5)) =~= "Dubai"@);
    reveal_strlit("Europe/Dublin");
    reveal_strlit("Dublin");
    assert(underscores_to_spaces("Europe/Dublin"@.skip(7)) =~= "Dublin"@);
    reveal_strlit("Europe/Helsinki");
    reveal_strlit("Helsinki");
    assert(underscores_to_spaces("Europe/Helsinki"@.skip(7)) =~= "Helsinki"@);
    reveal_strlit("Asia/Hong_Kong");
    reveal_strlit("Hong Kong");
    assert(underscores_to_spaces("Asia/Hong_Kong"@.skip(5)) =~= "Hong Kong"@);
    reveal_strlit("Pacific/Honolulu");
    reveal_strlit("Honolulu");
    assert(underscores_to_spaces("Pacific/Honolulu"@.skip(8)) =~= "Honolulu"@);
    reveal_strlit("Europe/Istanbul");
    reveal_strlit("Istanbul");
    assert(underscores_to_spaces("Europe/Istanbul"@.skip(7)) =~= "Istanbul"@);
    reveal_strlit("Asia/Jakarta");
    reveal_strlit("Jakarta");
    assert(underscores_to_spaces("Asia/Jakarta"@.skip(5)) =~= "Jakarta"@);
    reveal_strlit("Africa/Johannesburg");
    reveal_strlit("Johannesburg");
    assert(underscores_to_spaces("Africa/Johannesburg"@.skip(7)) =~= "Johannesburg"@);
    reveal_strlit("Asia/Karachi");
    reveal_strlit("Karachi");
    assert(underscores_to_spaces("Asia/Karachi"@.skip(5)) =~= "Karachi"@);
    reveal_strlit("Africa/Lagos");
    reveal_strlit("Lagos");
    assert(underscores_to_spaces("Africa/Lagos"@.skip(7)) =~= "Lagos"@);
    reveal_strlit("America/Lima");
    reveal_strlit("Lima");
    assert(underscores_to_spaces("America/Lima"@.skip(8)) =~= "Lima"@);
    reveal_strlit("Europe/Lisbon");
    reveal_strlit("Lisbon");
    assert(underscores_to_spaces("Europe/Lisbon"@.skip(7)) =~= "Lisbon"@);
    reveal_strlit("Europe/London");
    reveal_strlit("London");
    assert(underscores_to_spaces("Europe/London"@.skip(7)) =~= "London"@);
    reveal_strlit("America/Los_Angeles");
    reveal_strlit("Los Angeles");
    assert(underscores_to_spaces("America/Los_Angeles"@.skip(8)) =~= "Los Angeles"@);
    reveal_strlit("Europe/Madrid");
    reveal_strlit("Madrid");
    assert(underscores_to_spaces("Europe/Madrid"@.skip(7)) =~= "Madrid"@);
    reveal_strlit("Asia/Manila");
    reveal_strlit("Manila");
    assert(underscores_to_spaces("Asia/Manila"@.skip(5)) =~= "Manila"@);
    reveal_strlit("Australia/Melbourne");
    reveal_strlit("Melbourne");
    assert(underscores_to_spaces("Australia/Melbourne"@.skip(10)) =~= "Melbourne"@);
    reveal_strlit("America/Mexico_City");
    reveal_strlit("Mexico City");
    assert(underscores_to_spaces("America/Mexico_City"@.skip(8)) =~= "Mexico City"@);
    reveal_strlit("Europe/Moscow");
    reveal_strlit("Moscow");
    assert(underscores_to_spaces("Europe/Moscow"@.skip(7)) =~= "Moscow"@);
    reveal_strlit("Africa/Nairobi");
    reveal_strlit("Nairobi");
    assert(underscores_to_spaces("Africa/Nairobi"@.skip(7)) =~= "Nairobi"@);
    reveal_strlit("America/New_York");
    reveal_strlit("New York");
    assert(underscores_to_spaces("America/New_York"@.skip(8)) =~= "New York"@);
    reveal_strlit("Europe/Oslo");
    reveal_strlit("Oslo");
    assert(underscores_to_spaces("Europe/Oslo"@.skip(7)) =~= "Oslo"@);
    reveal_strlit("Europe/Paris");
    reveal_strlit("Paris");
    assert(underscores_to_spaces("Europe/Paris"@.skip(7)) =~= "Paris"@);
    reveal_strlit("Europe/Rome");
    reveal_strlit("Rome");
    assert(underscores_to_spaces("Europe/Rome"@.skip(7)) =~= "Rome"@);
    reveal_strlit("America/Santiago");
    reveal_strlit("Santiago");
    assert(underscores_to_spaces("America/Santiago"@.skip(8)) =~= "Santiago"@);
    reveal_strlit("Asia/Seoul");
    reveal_strlit("Seoul");
    assert(underscores_to_spaces("Asia/Seoul"@.skip(5)) =~= "Seoul"@);
    reveal_strlit("Asia/Shanghai");
    reveal_strlit("Shanghai");
    assert(underscores_to_spaces("Asia/Shanghai"@.skip(5)) =~= "Shanghai"@);
    reveal_strlit("Asia/Singapore");
    reveal_strlit("Singapore");
    assert(underscores_to_spaces("Asia/Singapore"@.skip(5)) =~= "Singapore"@);
    reveal_strlit("Europe/Stockholm");
    reveal_strlit("Stockholm");
    assert(underscores_to_spaces("Europe/Stockholm"@.skip(7)) =~= "Stockholm"@);
    reveal_strlit("Australia/Sydney");
    reveal_strlit("Sydney");
    assert(underscores_to_spaces("Australia/Sydney"@.skip(10)) =~= "Sydney"@);
    reveal_strlit("Asia/Taipei");
    reveal_strlit("Taipei");
    assert(underscores_to_spaces("Asia/Taipei"@.skip(5)) =~= "Taipei"@);
    reveal_strlit("Asia/Tehran");
    reveal_strlit("Tehran");
    assert(underscores_to_spaces("Asia/Tehran"@.skip(5)) =~= "Tehran"@);
    reveal_strlit("Asia/Tokyo");
    reveal_strlit("Tokyo");
    assert(underscores_to_spaces("Asia/Tokyo"@.skip(5)) =~= "Tokyo"@);
    reveal_strlit("America/Toronto");
    reveal_strlit("Toronto");
    assert(underscores_to_spaces("America/Toronto"@.skip(8)) =~= "Toronto"@);
    reveal_strlit("America/Vancouver");
    reveal_strlit("Vancouver");
    assert(underscores_to_spaces("America/Vancouver"@.skip(8)) =~= "Vancouver"@);
    reveal_strlit("Europe/Vienna");
    reveal_strlit("Vienna");
    assert(underscores_to_spaces("Europe/Vienna"@.skip(7)) =~= "Vienna"@);
    reveal_strlit("Europe/Warsaw");
    reveal_strlit("Warsaw");
    assert(underscores_to_spaces("Europe/Warsaw"@.skip(7)) =~= "Warsaw"@);
}

/// Each common city resolves to a zone that keeps its own local time: the zone named
/// after the city, or for a city that no zone is named after, the zone of its region.
pub proof fn law_city_zone_keeps_city_time(key: Seq<char>)
    ensures
        city_row(key) matches Some(city) ==> keeps_time_of(city.2, city.0),
{
    lemma_cities_named_after();
}

/// The common country for a normalised name: its name and ISO code.
pub open spec fn country_row(key: Seq<char>) -> Option<(Seq<char>, Seq<char>)> {
    if key == "argentina"@ {
        Some(("Argentina"@, "AR"@))
    } else if key == "australia"@ {
        Some(("Australia"@, "AU"@))
    } else if key == "brazil"@ {
        Some(("Brazil"@, "BR"@))
    } else if key == "canada"@ {
        Some(("Canada"@, "CA"@))
    } else if key == "china"@ {
        Some(("China"@, "CN"@))
    } else if key == "france"@ {
        Some(("France"@, "FR"@))
    } else if key == "germany"@ {
        Some(("Germany"@, "DE"@))
    } else if key == "india"@ {
        Some(("India"@, "IN"@))
    } else if key == "indonesia"@ {
        Some(("Indonesia"@, "ID"@))
    } else if key == "italy"@ {
        Some(("Italy"@, "IT"@))
    } else if key == "japan"@ {
        Some(("Japan"@, "JP"@))
    } else if key == "mexico"@ {
        Some(("Mexico"@, "MX"@))
    } else if key == "newzealand"@ {
        Some(("New Zealand"@, "NZ"@))
    } else if key == "russia"@ {
        Some(("Russia"@, "RU"@))
    } else if key == "southafrica"@ {
        Some(("South Africa"@, "ZA"@))
    } else if key == "southkorea"@ || key == "korea"@ {
        Some(("South Korea"@, "KR"@))
    } else if key == "spain"@ {
        Some(("Spain"@, "ES"@))
    } else if key == "unitedkingdom"@ || key == "uk"@ {
        Some(("United Kingdom"@, "GB"@))
    } else if key == "unitedstates"@ || key == "unitedstatesofamerica"@ || key == "usa"@ || key == "us"@ {
        Some(("United States"@, "US"@))
    } else {
        None
    }
}

fn new_place(name: &str, country: &str, timezone: &str) -> (res: Place)
    ensures
        res@ == (name@, country@, timezone@),
{
    Place { name: name.to_owned(), country: country.to_owned(), timezone: timezone.to_owned() }
}

/// The common city for a normalised name.
fn city_for(key: &str) -> (res: Option<Place>)
    ensures
        res matches Some(p) ==> city_row(key@) == Some(p@),
        res is None <==> city_row(key@) is None,
{
    if str_equal(key, "amsterdam") {
        return Some(new_place("Amsterdam", "Netherlands", "Europe/Amsterdam"));
    }
    if str_equal(key, "athens") {
        return Some(new_place("Athens", "Greece", "Europe/Athens"));
    }
    if str_equal(key, "auckland") {
        return Some(new_place("Auckland", "New Zealand", "Pacific/Auckland"));
    }
    if str_equal(key, "bangkok") {
        return Some(new_place("Bangkok", "Thailand", "Asia/Bangkok"));
    }
    if str_equal(key, "beijing") {
        return Some(new_place("Beijing", "China", "Asia/Shanghai"));
    }
    if str_equal(key, "berlin") {
        return Some(new_place("Berlin", "Germany", "Europe/Berlin"));
    }
    if str_equal(key, "bogota") {
        return Some(new_place("Bogot\u{e1}", "Colombia", "America/Bogota"));
    }
    if str_equal(key, "buenosaires") {
        return Some(new_place("Buenos Aires", "Argentina", "America/Argentina/Buenos_Aires"));
    }
    if str_equal(key, "cairo") {
        return Some(new_place("Cairo", "Egypt", "Africa/Cairo"));
    }
    if str_equal(key, "capetown") {
        return Some(new_place("Cape Town", "South Africa", "Africa/Johannesburg"));
    }
    if str_equal(key, "chicago") {
        return Some(new_place("Chicago", "United States", "America/Chicago"));
    }
    if str_equal(key, "delhi") || str_equal(key, "newdelhi") {
        return Some(new_place("New Delhi", "India", "Asia/Kolkata"));
    }
    if str_equal(key, "denver") {
        return Some(new_place("Denver", "United States", "America/Denver"));
    }
    if str_equal(key, "dubai") {
        return Some(new_place("Dubai", "United Arab Emirates", "Asia/Dubai"));
    }
    if str_equal(key, "dublin") {
        return Some(new_place("Dublin", "Ireland", "Europe/Dublin"));
    }
    if str_equal(key, "helsinki") {
        return Some(new_place("Helsinki", "Finland", "Europe/Helsinki"));
    }
    if str_equal(key, "hongkong") {
        return Some(new_place("Hong Kong", "Hong Kong", "Asia/Hong_Kong"));
    }
    if str_equal(key, "honolulu") {
        return Some(new_place("Honolulu", "United States", "Pacific/Honolulu"));
    }
    if str_equal(key, "istanbul") {
        return Some(new_place("Istanbul", "T\u{fc}rkiye", "Europe/Istanbul"));
    }
    if str_equal(key, "jakarta") {
        return Some(new_place("Jakarta", "Indonesia", "Asia/Jakarta"));
    }
    if str_equal(key, "johannesburg") {
        return Some(new_place("Johannesburg", "South Africa", "Africa/Johannesburg"));
    }
    if str_equal(key, "karachi") {
        return Some(new_place("Karachi", "Pakistan", "Asia/Karachi"));
    }
    if str_equal(key, "lagos") {
        return Some(new_place("Lagos", "Nigeria", "Africa/Lagos"));
    }
    if str_equal(key, "lima") {
        return Some(new_place("Lima", "Peru", "America/Lima"));
    }
    if str_equal(key, "lisbon") {
        return Some(new_place("Lisbon", "Portugal", "Europe/Lisbon"));
    }
    if str_equal(key, "london") {
        return Some(new_place("London", "United Kingdom", "Europe/London"));
    }
    if str_equal(key, "losangeles") || str_equal(key, "la") {
        return Some(new_place("Los Angeles", "United States", "America/Los_Angeles"));
    }
    if str_equal(key, "madrid") {
        return Some(new_place("Madrid", "Spain", "Europe/Madrid"));
    }
    if str_equal(key, "manila") {
        return Some(new_place("Manila", "Philippines", "Asia/Manila"));
    }
    if str_equal(key, "melbourne") {
        return Some(new_place("Melbourne", "Australia", "Australia/Melbourne"));
    }
    if str_equal(key, "mexicocity") {
        return Some(new_place("Mexico City", "Mexico", "America/Mexico_City"));
    }
    if str_equal(key, "moscow") {
        return Some(new_place("Moscow", "Russia", "Europe/Moscow"));
    }
    if str_equal(key, "mumbai") {
        return Some(new_place("Mumbai", "India", "Asia/Kolkata"));
    }
    if str_equal(key, "nairobi") {
        return Some(new_place("Nairobi", "Kenya", "Africa/Nairobi"));
    }
    if str_equal(key, "newyork") || str_equal(key, "newyorkcity") || str_equal(key, "nyc") {
        return Some(new_place("New York", "United States", "America/New_York"));
    }
    if str_equal(key, "oslo") {
        return Some(new_place("Oslo", "Norway", "Europe/Oslo"));
    }
    if str_equal(key, "paris") {
        return Some(new_place("Paris", "France", "Europe/Paris"));
    }
    if str_equal(key, "reykjavik") {
        return Some(new_place("Reykjav\u{ed}k", "Iceland", "Atlantic/Reykjavik"));
    }
    if str_equal(key, "riodejaneiro") || str_equal(key, "rio") {
        return Some(new_place("Rio de Janeiro", "Brazil", "America/Sao_Paulo"));
    }
    if str_equal(key, "rome") {
        return Some(new_place("Rome", "Italy", "Europe/Rome"));
    }
    if str_equal(key, "sanfrancisco") || str_equal(key, "sf") {
        return Some(new_place("San Francisco", "United States", "America/Los_Angeles"));
    }
    if str_equal(key, "santiago") {
        return Some(new_place("Santiago", "Chile", "America/Santiago"));
    }
    if str_equal(key, "saopaulo") || str_equal(key, "s\u{e3}opaulo") {
        return Some(new_place("S\u{e3}o Paulo", "Brazil", "America/Sao_Paulo"));
    }
    if str_equal(key, "seoul") {
        return Some(new_place("Seoul", "South Korea", "Asia/Seoul"));
    }
    if str_equal(key, "shanghai") {
        return Some(new_place("Shanghai", "China", "Asia/Shanghai"));
    }
    if str_equal(key, "singapore") {
        return Some(new_place("Singapore", "Singapore", "Asia/Singapore"));
    }
    if str_equal(key, "stockholm") {
        return Some(new_place("Stockholm", "Sweden", "Europe/Stockholm"));
    }
    if str_equal(key, "sydney") {
        return Some(new_place("Sydney", "Australia", "Australia/Sydney"));
    }
    if str_equal(key, "taipei") {
        return Some(new_place("Taipei", "Taiwan", "Asia/Taipei"));
    }
    if str_equal(key, "tehran") {
        return Some(new_place("Tehran", "Iran", "Asia/Tehran"));
    }
    if str_equal(key, "tokyo") {
        return Some(new_place("Tokyo", "Japan", "Asia/Tokyo"));
    }
    if str_equal(key, "toronto") {
        return Some(new_place("Toronto", "Canada", "America/Toronto"));
    }
    if str_equal(key, "vancouver") {
        return Some(new_place("Vancouver", "Canada", "America/Vancouver"));
    }
    if str_equal(key, "vienna") {
        return Some(new_place("Vienna", "Austria", "Europe/Vienna"));
    }
    if str_equal(key, "warsaw") {
        return Some(new_place("Warsaw", "Poland", "Europe/Warsaw"));
    }
    if str_equal(key, "washington") || str_equal(key, "washingtondc") {
        return Some(new_place("Washington, D.C.", "United States", "America/New_York"));
    }
    if str_equal(key, "zurich") {
        return Some(new_place("Z\u{fc}rich", "Switzerland", "Europe/Zurich"));
    }
    None
}

/// The common country for a normalised name: its name and ISO code.
fn country_for(key: &str) -> (res: Option<(&'static str, &'static str)>)
    ensures
        res matches Some(row) ==> country_row(key@) == Some((row.0@, row.1@)),
        res is None <==> country_row(key@) is None,
{
    if str_equal(key, "argentina") {
        return Some(("Argentina", "AR"));
    }
    if str_equal(key, "australia") {
        return Some(("Australia", "AU"));
    }
    if str_equal(key, "brazil") {
        return Some(("Brazil", "BR"));
    }
    if str_equal(key, "canada") {
        return Some(("Canada", "CA"));
    }
    if str_equal(key, "china") {
        return Some(("China", "CN"));
    }
    if str_equal(key, "france") {
        return Some(("France", "FR"));
    }
    if str_equal(key, "germany") {
        return Some(("Germany", "DE"));
    }
    if str_equal(key, "india") {
        return Some(("India", "IN"));
    }
    if str_equal(key, "indonesia") {
        return Some(("Indonesia", "ID"));
    }
    if str_equal(key, "italy") {
        return Some(("Italy", "IT"));
    }
    if str_equal(key, "japan") {
        return Some(("Japan", "JP"));
    }
    if str_equal(key, "mexico") {
        return Some(("Mexico", "MX"));
    }
    if str_equal(key, "newzealand") {
        return Some(("New Zealand", "NZ"));
    }
    if str_equal(key, "russia") {
        return Some(("Russia", "RU"));
    }
    if str_equal(key, "southafrica") {
        return Some(("South Africa", "ZA"));
    }
    if str_equal(key, "southkorea") || str_equal(key, "korea") {
        return Some(("South Korea", "KR"));
    }
    if str_equal(key, "spain") {
        return Some(("Spain", "ES"));
    }
    if str_equal(key, "unitedkingdom") || str_equal(key, "uk") {
        return Some(("United Kingdom", "GB"));
    }
    if str_equal(key, "unitedstates") || str_equal(key, "unitedstatesofamerica") || str_equal(key, "usa") || str_equal(key, "us") {
        return Some(("United States", "US"));
    }
    None
}

/// Whether the common country that `key` names, if any, can be shown at host time
/// `now`: the time is not representable, or the country has no zones, or its offsets'
/// samples are representable.
pub open spec fn country_fits(key: Seq<char>, now: u64) -> bool {
    match country_row(key) {
        Some(row) => timestamp_in_range((now as i64) as int) && candidate_zones(upper_seq(row.1)).len() > 0 ==> samples_fit(
            (now as i64) as int,
        ),
        None => true,
    }
}

/// Whether the common places of `query` can be computed at host time `now`.
pub open spec fn common_places_fit(query: Seq<char>, now: u64) -> bool {
    city_row(normalized(query)) is None ==> country_fits(normalized(query), now)
}

/// Whether the common places of `query` can be computed at host time `now`.
pub fn common_places_fit_at(query: &str, now: u64) -> (res: bool)
    ensures
        res == common_places_fit(query@, now),
{
    let key = normalize_name(query);
    if city_for(key.as_str()).is_some() {
        return true;
    }
    match country_for(key.as_str()) {
        None => true,
        Some((_, code)) => {
            let at: i64 = now as i64;
            !(timestamp_valid(at) && country_has_zones(code)) || samples_fit_at(at)
        },
    }
}

/// What the common countries give for a normalised name at host time `now`.
pub open spec fn common_country_result(key: Seq<char>, now: u64, res: Option<Vec<Place>>) -> bool {
    match country_row(key) {
        None => res is None,
        Some(row) => if timestamp_in_range((now as i64) as int) {
            res matches Some(places) && country_result(row.0, row.1, (now as i64) as int, place_views(places@))
        } else {
            res is None
        },
    }
}

/// The places of a common country, for a normalised name, at host time `now`.
pub fn common_country(normalized: &str, now: u64) -> (res: Option<Vec<Place>>)
    requires
        country_fits(normalized@, now),
    ensures
        common_country_result(normalized@, now, res),
{
    let (name, code) = match country_for(normalized) {
        Some(row) => row,
        None => return None,
    };
    let at: i64 = now as i64;
    if !timestamp_valid(at) {
        return None;
    }
    Some(country_places(name, code, at))
}

/// What the common places give for a query at host time `now`.
pub open spec fn common_places_result(query: Seq<char>, now: u64, res: Option<Vec<Place>>) -> bool {
    match city_row(normalized(query)) {
        Some(city) => res matches Some(places) && place_views(places@) == seq![city],
        None => common_country_result(normalized(query), now, res),
    }
}

/// The places that a query names without the geocoder: a common city, or a common
/// country at host time `now`.
pub fn common_places(query: &str, now: u64) -> (res: Option<Vec<Place>>)
    requires
        common_places_fit(query@, now),
    ensures
        common_places_result(query@, now, res),
{
    let key = normalize_name(query);
    match city_for(key.as_str()) {
        Some(place) => {
            let mut places: Vec<Place> = Vec::new();
            places.push(place);
            assert(place_views(places@) =~= seq![place@]);
            Some(places)
        },
        None => common_country(key.as_str(), now),
    }
}

/// The view of an optional list of places.
pub open spec fn optional_place_views(res: Option<Vec<Place>>) -> Option<Seq<PlaceView>> {
    match res {
        Some(v) => Some(place_views(v@)),
        None => None,
    }
}

/// Names of the same common country give the same places at one host time.
pub proof fn law_same_country_same_places(a: Seq<char>, b: Seq<char>, now: u64, ra: Option<Vec<Place>>, rb: Option<Vec<Place>>)
    requires
        country_row(a) == country_row(b),
        common_country_result(a, now, ra),
        common_country_result(b, now, rb),
    ensures
        optional_place_views(ra) == optional_place_views(rb),
{
    if let Some(row) = country_row(a) {
        if timestamp_in_range((now as i64) as int) {
            law_country_result_unique(row.0, row.1, (now as i64) as int, place_views(ra->0@), place_views(rb->0@));
        }
    }
}

/// Queries with the same normalised name give the same common places at one host time:
/// case, spaces and punctuation do not matter.
pub proof fn law_common_places_follow_normalized_name(a: Seq<char>, b: Seq<char>, now: u64, ra: Option<Vec<Place>>, rb: Option<Vec<Place>>)
    requires
        normalized(a) == normalized(b),
        common_places_result(a, now, ra),
        common_places_result(b, now, rb),
    ensures
        optional_place_views(ra) == optional_place_views(rb),
{
    if city_row(normalized(a)) is None {
        law_same_country_same_places(normalized(a), normalized(b), now, ra, rb);
    }
}

/// Whether `a` and `b` are names of one common country: `us`, `usa`, `unitedstates`
/// and `unitedstatesofamerica`; `uk` and `unitedkingdom`; `korea` and `southkorea`.
pub open spec fn country_aliases(a: Seq<char>, b: Seq<char>) -> bool {
    let us = |k: Seq<char>| k == "us"@ || k == "usa"@ || k == "unitedstates"@ || k == "unitedstatesofamerica"@;
    let uk = |k: Seq<char>| k == "uk"@ || k == "unitedkingdom"@;
    let korea = |k: Seq<char>| k == "korea"@ || k == "southkorea"@;
    (us(a) && us(b)) || (uk(a) && uk(b)) || (korea(a) && korea(b))
}

/// The rows that the aliases of the common countries select.
proof fn lemma_alias_rows()
    ensures
        country_row("us"@) == Some(("United States"@, "US"@)),
        country_row("usa"@) == Some(("United States"@, "US"@)),
        country_row("unitedstates"@) == Some(("United States"@, "US"@)),
        country_row("unitedstatesofamerica"@) == Some(("United States"@, "US"@)),
        country_row("uk"@) == Some(("United Kingdom"@, "GB"@)),
        country_row("unitedkingdom"@) == Some(("United Kingdom"@, "GB"@)),
        country_row("korea"@) == Some(("South Korea"@, "KR"@)),
        country_row("southkorea"@) == Some(("South Korea"@, "KR"@)),
{
    reveal_strlit("argentina");
    reveal_strlit("australia");
    reveal_strlit("brazil");
    reveal_strlit("canada");
    reveal_strlit("china");
    reveal_strlit("france");
    reveal_strlit("germany");
    reveal_strlit("india");
    reveal_strlit("indonesia");
    reveal_strlit("italy");
    reveal_strlit("japan");
    reveal_strlit("korea");
    reveal_strlit("mexico");
    reveal_strlit("newzealand");
    reveal_strlit("russia");
    reveal_strlit("southafrica");
    reveal_strlit("southkorea");
    reveal_strlit("spain");
    reveal_strlit("uk");
    reveal_strlit("unitedkingdom");
    reveal_strlit("unitedstates");
    reveal_strlit("unitedstatesofamerica");
    reveal_strlit("us");
    reveal_strlit("usa");
    assert("argentina"@.len() == 9);
    assert("australia"@.len() == 9);
    assert("brazil"@.len() == 6);
    assert("canada"@.len() == 6);
    assert("china"@.len() == 5);
    assert("france"@.len() == 6);
    assert("germany"@.len() == 7);
    assert("india"@.len() == 5);
    assert("indonesia"@.len() == 9);
    assert("italy"@.len() == 5);
    assert("japan"@.len() == 5);
    assert("korea"@.len() == 5);
    assert("mexico"@.len() == 6);
    assert("newzealand"@.len() == 10);
    assert("russia"@.len() == 6);
    assert("southafrica"@.len() == 11);
    assert("southkorea"@.len() == 10);
    assert("spain"@.len() == 5);
    assert("uk"@.len() == 2);
    assert("unitedkingdom"@.len() == 13);
    assert("unitedstates"@.len() == 12);
    assert("unitedstatesofamerica"@.len() == 21);
    assert("us"@.len() == 2);
    assert("usa"@.len() == 3);
    // names of one length differ in a letter
    assert("us"@[1] != "uk"@[1]);
    assert("korea"@[0] != "china"@[0]);
    assert("korea"@[0] != "india"@[0]);
    assert("korea"@[0] != "italy"@[0]);
    assert("korea"@[0] != "japan"@[0]);
    assert("korea"@[0] != "spain"@[0]);
    assert("southkorea"@[0] != "newzealand"@[0]);
}

/// The names of one common country give the same places at one host time.
pub proof fn law_country_aliases_agree(a: Seq<char>, b: Seq<char>, now: u64, ra: Option<Vec<Place>>, rb: Option<Vec<Place>>)
    requires
        country_aliases(a, b),
        common_country_result(a, now, ra),
        common_country_result(b, now, rb),
    ensures
        optional_place_views(ra) == optional_place_views(rb),
{
    lemma_alias_rows();
    assert(country_row(a) == country_row(b));
    law_same_country_same_places(a, b, now, ra, rb);
}

} // verus!
