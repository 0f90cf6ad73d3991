# rayslash_time

Answers queries such as `time in Tokyo` or `time in São Paulo` with the local time of
the place. Common cities and countries resolve from built-in tables; other places are
looked up with the Open-Meteo geocoder, whose answers are cached for a week.

The library in `src/` is verified with Verus:

- `query` recognises time queries and normalises place names;
- `places` holds the common cities and countries;
- `zone_table`, `zones` read the tz database's `zone1970.tab` (release 2025b), the
  capitals' zones and labels, and readable zone locations;
- `clock` is where `chrono` and `chrono-tz` compute instants, offsets and local times;
- `signature_order`, `grouping`, `country` pick one zone per group of a country's zones
  that keep the same time over the next two years, the capital's first;
- `geocoding` builds the geocoder's address and resolves its answers;
- `cache` computes cache keys; `lookup` runs a lookup step by step (common places,
  cache, geocoder); `response` builds the results shown.

`app/` is the host side: the host's clock, cache and HTTP client behind a trait, JSON
decoding and encoding with `serde`, and the loop that drives a lookup.
