//! Instants, zone names and UTC offsets, computed by `chrono` and `chrono-tz`.
use vstd::prelude::*;
use chrono::Offset;
use chrono::TimeZone;
use crate::text::digit_char;

verus! {

/// The earliest second that `chrono` can represent: -262143-01-01T00:00:00Z.
pub const EARLIEST_TIMESTAMP: i64 = -8334601228800;

/// The latest second that `chrono` can represent: +262142-12-31T23:59:59Z.
pub const LATEST_TIMESTAMP: i64 = 8210266876799;

/// The spacing of the samples of a zone's offset: 31 days, in seconds.
pub const SAMPLE_STEP: i64 = 2678400;

/// The number of samples in a zone's offset signature.
pub const SAMPLE_COUNT: usize = 24;

/// Whether `secs` seconds after the Unix epoch is an instant that `chrono` represents.
pub open spec fn timestamp_in_range(secs: int) -> bool {
    EARLIEST_TIMESTAMP <= secs <= LATEST_TIMESTAMP
}

/// Whether all samples of an offset signature taken from `now` are representable.
pub open spec fn samples_fit(now: int) -> bool {
    timestamp_in_range(now) && now + (SAMPLE_COUNT - 1) * SAMPLE_STEP <= LATEST_TIMESTAMP
}

/// Whether all samples of an offset signature taken from `now` are representable.
pub fn samples_fit_at(now: i64) -> (res: bool)
    ensures
        res == samples_fit(now as int),
{
    EARLIEST_TIMESTAMP <= now && now <= LATEST_TIMESTAMP - (SAMPLE_COUNT as i64 - 1) * SAMPLE_STEP
}

/// `DateTime::<Utc>::from_timestamp(secs, 0).is_some()`: `chrono` represents the
/// dates from year -262143 to year 262142.
#[verifier::external_body]
pub(crate) fn timestamp_valid(secs: i64) -> (res: bool)
    ensures
        res == timestamp_in_range(secs as int),
{
    chrono::DateTime::<chrono::Utc>::from_timestamp(secs, 0).is_some()
}

/// Whether `chrono-tz` knows a zone of this exact name.
pub uninterp spec fn zone_in_database(zone: Seq<char>) -> bool;

/// `zone.parse::<chrono_tz::Tz>().is_ok()`: whether the name is in the compiled
/// tz database.
#[verifier::external_body]
pub(crate) fn zone_known(zone: &str) -> (res: bool)
    ensures
        res == zone_in_database(zone@),
{
    zone.parse::<chrono_tz::Tz>().is_ok()
}

/// The offset from UTC, in seconds, that the zone observes at the instant.
pub uninterp spec fn zone_utc_offset(zone: Seq<char>, secs: int) -> i32;

/// `Tz::offset_from_utc_datetime(..).fix().local_minus_utc()` at `secs` seconds after
/// the epoch; the result is named by `zone_utc_offset`.
#[verifier::external_body]
pub(crate) fn utc_offset(zone: &str, secs: i64) -> (res: i32)
    requires
        zone_in_database(zone@),
        timestamp_in_range(secs as int),
    ensures
        res == zone_utc_offset(zone@, secs as int),
{
    let tz: chrono_tz::Tz = zone.parse().unwrap();
    let at = chrono::DateTime::<chrono::Utc>::from_timestamp(secs, 0).unwrap();
    tz.offset_from_utc_datetime(&at.naive_utc()).fix().local_minus_utc()
}

/// The local time in the zone at the instant, as `chrono` formats it with `pattern`.
pub uninterp spec fn zone_local_text(zone: Seq<char>, secs: int, pattern: Seq<char>) -> Seq<char>;

/// `n` (below 100) in two decimal digits.
pub open spec fn two_digits(n: int) -> Seq<char> {
    seq![digit_char((n / 10) as nat), digit_char((n % 10) as nat)]
}

/// The wall-clock time `HH:MM` of the local second count `local` (seconds after the
/// epoch, shifted by the zone's offset).
pub open spec fn wall_clock(local: int) -> Seq<char> {
    two_digits((local % 86400) / 3600) + seq![':'] + two_digits((local % 3600) / 60)
}

/// The display patterns used for results: the wall-clock time and the date.
pub open spec fn known_pattern(pattern: Seq<char>) -> bool {
    pattern == "%H:%M"@ || pattern == "%A, %B %-d"@
}

/// `DateTime::with_timezone` followed by `format(pattern)`; the text is named by
/// `zone_local_text`. The patterns admitted contain only valid specifiers, so the
/// formatting cannot fail. The local time is the instant shifted by the zone's offset
/// (`zone_utc_offset`); for `%H:%M` the text is its hour and minute in two digits each.
#[verifier::external_body]
pub(crate) fn local_time_text(zone: &str, secs: i64, pattern: &str) -> (res: String)
    requires
        zone_in_database(zone@),
        timestamp_in_range(secs as int),
        known_pattern(pattern@),
    ensures
        res@ == zone_local_text(zone@, secs as int, pattern@),
        pattern@ == "%H:%M"@ ==> res@ == wall_clock(secs + zone_utc_offset(zone@, secs as int)),
{
    let tz: chrono_tz::Tz = zone.parse().unwrap();
    let at = chrono::DateTime::<chrono::Utc>::from_timestamp(secs, 0).unwrap();
    at.with_timezone(&tz).format(pattern).to_string()
}

/// The zone's offsets at `now` and at each following step of 31 days.
pub open spec fn signature(zone: Seq<char>, now: int) -> Seq<i32> {
    Seq::new(SAMPLE_COUNT as nat, |m: int| zone_utc_offset(zone, now + m * SAMPLE_STEP))
}

/// The offsets that tell apart zones with different rules over the next two years.
pub fn offset_signature(zone: &str, now: i64) -> (res: Vec<i32>)
    requires
        zone_in_database(zone@),
        samples_fit(now as int),
    ensures
        res@ == signature(zone@, now as int),
{
    let mut out: Vec<i32> = Vec::new();
    let mut m: usize = 0;
    while m < SAMPLE_COUNT
        invariant
            m <= SAMPLE_COUNT,
            zone_in_database(zone@),
            samples_fit(now as int),
            out@.len() == m,
            forall|k: int| 0 <= k < m ==> out@[k] == zone_utc_offset(zone@, now + k * SAMPLE_STEP),
        decreases SAMPLE_COUNT - m,
    {
        let mi: i64 = m as i64;
        assert(mi * SAMPLE_STEP <= (SAMPLE_COUNT - 1) * SAMPLE_STEP) by (nonlinear_arith)
            requires 0 <= mi <= SAMPLE_COUNT - 1;
        let at: i64 = now + mi * SAMPLE_STEP;
        out.push(utc_offset(zone, at));
        m = m + 1;
    }
    assert(out@ =~= signature(zone@, now as int));
    out
}

} // verus!
