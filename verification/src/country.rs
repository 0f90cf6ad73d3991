//! The results for a whole country: one place per group of zones that keep the same time.
use vstd::prelude::*;
use crate::clock::{offset_signature, samples_fit, signature, timestamp_in_range, zone_in_database, zone_known};
use crate::grouping::{is_capital_zone, covers, group_zones, grouping_done, has_group, is_capital, opt_view, signature_per_zone, signature_views, stands_for_group};
use crate::place::{Place, PlaceView, place_views};
use crate::signature_order::{lemma_lex_irreflexive, lemma_lex_transitive, lex_less};
use crate::text::{ascii_uppercase, law_upper_idempotent, str_equal, upper_seq};
use crate::zones::{capital_label, capital_of, capital_zone, country_zone_names, country_zones, str_views, zone_location, zone_location_of};

verus! {

/// The zones of `zones` that the tz database knows, in order.
pub open spec fn known_zones(zones: Seq<Seq<char>>) -> Seq<Seq<char>>
    decreases zones.len(),
{
    if zones.len() == 0 {
        seq![]
    } else if zone_in_database(zones.last()) {
        known_zones(zones.drop_last()).push(zones.last())
    } else {
        known_zones(zones.drop_last())
    }
}

/// The zones of `zones` equal to `zone`.
pub open spec fn zones_named(zones: Seq<Seq<char>>, zone: Seq<char>) -> Seq<Seq<char>>
    decreases zones.len(),
{
    if zones.len() == 0 {
        seq![]
    } else if zones.last() == zone {
        zones_named(zones.drop_last(), zone).push(zones.last())
    } else {
        zones_named(zones.drop_last(), zone)
    }
}

/// The zones that stand for a country (`code` in upper case): those of `zone1970.tab`
/// that the tz database knows; China observes Beijing Time nationwide, so there only
/// `Asia/Shanghai`.
pub open spec fn candidate_zones(code: Seq<char>) -> Seq<Seq<char>> {
    let known = known_zones(country_zone_names(code));
    if code == "CN"@ {
        zones_named(known, "Asia/Shanghai"@)
    } else {
        known
    }
}

/// The zone of the capital of the country `code`, where the table has one.
pub open spec fn capital_zone_of(code: Seq<char>) -> Option<Seq<char>> {
    match capital_of(code) {
        Some(row) => Some(row.0),
        None => None,
    }
}

/// Whether `zone` stands for the group of zones of `zones` that share its signature:
/// it is the capital's zone where that is in the group, else the group's first zone.
pub open spec fn represents_group(zones: Seq<Seq<char>>, zone: Seq<char>, capital: Option<Seq<char>>, now: int) -> bool {
    if exists|j: int| 0 <= j < zones.len() && is_capital(zones[j], capital) && signature(zones[j], now) == signature(zone, now) {
        is_capital(zone, capital)
    } else {
        exists|k: int|
            0 <= k < zones.len() && zones[k] == zone && forall|j: int| 0 <= j < k ==> signature(zones[j], now) != signature(zone, now)
    }
}

/// `picked` holds one zone of `zones` for each signature that they show at `now`,
/// the one that stands for its group; the capital's group comes first, the others
/// follow in increasing order of signature.
pub open spec fn one_zone_per_rule(zones: Seq<Seq<char>>, picked: Seq<Seq<char>>, capital: Option<Seq<char>>, now: int) -> bool {
    &&& forall|i: int| 0 <= i < picked.len() ==> zones.contains(#[trigger] picked[i])
    &&& forall|i: int, j: int|
        0 <= i < j < picked.len() ==> signature(#[trigger] picked[i], now) != signature(#[trigger] picked[j], now)
    &&& forall|z: Seq<char>| #[trigger] zones.contains(z) ==> exists|i: int| 0 <= i < picked.len() && signature(picked[i], now) == signature(z, now)
    &&& forall|i: int| 0 <= i < picked.len() ==> represents_group(zones, #[trigger] picked[i], capital, now)
    &&& forall|i: int| 0 < i < picked.len() ==> !is_capital(#[trigger] picked[i], capital)
    &&& forall|i: int, j: int|
        0 <= i < j < picked.len() && !is_capital(picked[i], capital) ==> lex_less(
            signature(#[trigger] picked[i], now),
            signature(#[trigger] picked[j], now),
        )
}

/// The place shown for the `i`-th of `count` zones of a country: with several, the
/// capital's zone first is labelled by the capital, the others by their location,
/// under the country's name; a single one is labelled by the country alone.
pub open spec fn country_place(name: Seq<char>, code: Seq<char>, count: int, i: int, zone: Seq<char>) -> PlaceView {
    if count > 1 {
        let label = if i == 0 && is_capital(zone, capital_zone_of(code)) {
            match capital_of(code) {
                Some(row) => row.1,
                None => name,
            }
        } else {
            zone_location_of(zone)
        };
        (label, name, zone)
    } else {
        (name, seq![], zone)
    }
}

/// The zones of a list of places.
pub open spec fn zones_of(places: Seq<PlaceView>) -> Seq<Seq<char>> {
    places.map_values(|p: PlaceView| p.2)
}

/// Whether `places` is what a country shows at `now`: one place per group of its
/// zones that keep the same time over the next two years.
pub open spec fn country_result(name: Seq<char>, country_code: Seq<char>, now: int, places: Seq<PlaceView>) -> bool {
    let code = upper_seq(country_code);
    let zones = candidate_zones(code);
    &&& (places.len() == 0 <==> zones.len() == 0)
    &&& one_zone_per_rule(zones, zones_of(places), capital_zone_of(code), now)
    &&& forall|i: int| 0 <= i < places.len() ==> #[trigger] places[i] == country_place(name, code, places.len() as int, i, places[i].2)
}

/// The grouping of the zones by index gives one zone per rule.
proof fn lemma_picked_zones(
    zones: Seq<Seq<char>>,
    sigs: Seq<Seq<i32>>,
    capital: Option<Seq<char>>,
    reps: Seq<usize>,
    now: int,
    picked: Seq<Seq<char>>,
)
    requires
        grouping_done(zones, sigs, capital, reps, zones.len() as int),
        sigs.len() == zones.len(),
        forall|j: int| 0 <= j < zones.len() ==> #[trigger] sigs[j] == signature(zones[j], now),
        picked.len() == reps.len(),
        forall|i: int| 0 <= i < picked.len() ==> #[trigger] picked[i] == zones[reps[i] as int],
    ensures
        one_zone_per_rule(zones, picked, capital, now),
{
    let n = zones.len() as int;
    assert forall|i: int| 0 <= i < picked.len() implies zones.contains(#[trigger] picked[i]) by {
        assert(zones[reps[i] as int] == picked[i]);
    }
    assert forall|i: int, j: int| 0 <= i < j < picked.len() implies signature(#[trigger] picked[i], now) != signature(#[trigger] picked[j], now) by {
        assert(sigs[reps[i] as int] != sigs[reps[j] as int]);
        assert(sigs[reps[i] as int] == signature(zones[reps[i] as int], now));
        assert(sigs[reps[j] as int] == signature(zones[reps[j] as int], now));
    }
    assert forall|z: Seq<char>| #[trigger] zones.contains(z) implies exists|i: int| 0 <= i < picked.len() && signature(picked[i], now) == signature(z, now) by {
        let j = choose|j: int| 0 <= j < zones.len() && zones[j] == z;
        assert(has_group(sigs, reps, sigs[j]));
        let p = choose|p: int| 0 <= p < reps.len() && #[trigger] sigs[reps[p] as int] == sigs[j];
        assert(sigs[reps[p] as int] == signature(zones[reps[p] as int], now));
        assert(signature(picked[p], now) == signature(z, now));
    }
    assert forall|i: int| 0 <= i < picked.len() implies represents_group(zones, #[trigger] picked[i], capital, now) by {
        let r = reps[i] as int;
        assert(stands_for_group(zones, sigs, capital, n, r));
        assert(sigs[r] == signature(zones[r], now));
        if exists|j: int| 0 <= j < zones.len() && is_capital(zones[j], capital) && signature(zones[j], now) == signature(picked[i], now) {
            let j = choose|j: int| 0 <= j < zones.len() && is_capital(zones[j], capital) && signature(zones[j], now) == signature(picked[i], now);
            assert(sigs[j] == signature(zones[j], now));
            assert(is_capital(zones[j], capital) && sigs[j] == sigs[r]);
        } else {
            if exists|j: int| 0 <= j < n && is_capital(zones[j], capital) && sigs[j] == sigs[r] {
                let j = choose|j: int| 0 <= j < n && is_capital(zones[j], capital) && sigs[j] == sigs[r];
                assert(sigs[j] == signature(zones[j], now));
            }
            assert forall|j: int| 0 <= j < r implies signature(zones[j], now) != signature(picked[i], now) by {
                assert(sigs[j] == signature(zones[j], now));
                assert(sigs[j] != sigs[r]);
            }
        }
    }
    assert forall|i: int, j: int| 0 <= i < j < picked.len() && !is_capital(picked[i], capital) implies lex_less(
        signature(#[trigger] picked[i], now),
        signature(#[trigger] picked[j], now),
    ) by {
        assert(sigs[reps[i] as int] == signature(zones[reps[i] as int], now));
        assert(sigs[reps[j] as int] == signature(zones[reps[j] as int], now));
        assert(lex_less(sigs[reps[i] as int], sigs[reps[j] as int]));
    }
    assert forall|i: int| 0 < i < picked.len() implies !is_capital(#[trigger] picked[i], capital) by {
        assert(!is_capital(zones[reps[i] as int], capital));
    }
}

/// The zones of `listed` that the tz database knows.
fn keep_known(listed: &Vec<&'static str>) -> (res: Vec<&'static str>)
    ensures
        str_views(res@) == known_zones(str_views(listed@)),
        forall|j: int| 0 <= j < res.len() ==> zone_in_database(#[trigger] res@[j]@),
{
    let mut out: Vec<&'static str> = Vec::new();
    let mut i: usize = 0;
    while i < listed.len()
        invariant
            i <= listed.len(),
            str_views(out@) == known_zones(str_views(listed@).take(i as int)),
            forall|j: int| 0 <= j < out.len() ==> zone_in_database(#[trigger] out@[j]@),
        decreases listed.len() - i,
    {
        assert(str_views(listed@).take(i + 1).drop_last() =~= str_views(listed@).take(i as int));
        assert(str_views(listed@).take(i + 1).last() == listed@[i as int]@);
        if zone_known(listed[i]) {
            let ghost before = str_views(out@);
            out.push(listed[i]);
            assert(str_views(out@) =~= before.push(listed@[i as int]@));
        }
        i = i + 1;
    }
    assert(str_views(listed@).take(listed.len() as int) =~= str_views(listed@));
    out
}

/// The zones of `zones` named `Asia/Shanghai`.
fn keep_shanghai(zones: &Vec<&'static str>) -> (res: Vec<&'static str>)
    requires
        forall|j: int| 0 <= j < zones.len() ==> zone_in_database(#[trigger] zones@[j]@),
    ensures
        str_views(res@) == zones_named(str_views(zones@), "Asia/Shanghai"@),
        forall|j: int| 0 <= j < res.len() ==> zone_in_database(#[trigger] res@[j]@),
{
    let mut out: Vec<&'static str> = Vec::new();
    let mut i: usize = 0;
    while i < zones.len()
        invariant
            i <= zones.len(),
            forall|j: int| 0 <= j < zones.len() ==> zone_in_database(#[trigger] zones@[j]@),
            str_views(out@) == zones_named(str_views(zones@).take(i as int), "Asia/Shanghai"@),
            forall|j: int| 0 <= j < out.len() ==> zone_in_database(#[trigger] out@[j]@),
        decreases zones.len() - i,
    {
        assert(str_views(zones@).take(i + 1).drop_last() =~= str_views(zones@).take(i as int));
        assert(str_views(zones@).take(i + 1).last() == zones@[i as int]@);
        if str_equal(zones[i], "Asia/Shanghai") {
            let ghost before = str_views(out@);
            out.push(zones[i]);
            assert(str_views(out@) =~= before.push(zones@[i as int]@));
        }
        i = i + 1;
    }
    assert(str_views(zones@).take(zones.len() as int) =~= str_views(zones@));
    out
}

/// The offset signatures of the zones at `now`.
fn signatures_of(zones: &Vec<&'static str>, now: i64) -> (res: Vec<Vec<i32>>)
    requires
        forall|j: int| 0 <= j < zones.len() ==> zone_in_database(#[trigger] zones@[j]@),
        samples_fit(now as int),
    ensures
        res.len() == zones.len(),
        forall|j: int| 0 <= j < zones.len() ==> #[trigger] signature_views(res@)[j] == signature(str_views(zones@)[j], now as int),
{
    let mut out: Vec<Vec<i32>> = Vec::new();
    let mut i: usize = 0;
    while i < zones.len()
        invariant
            i <= zones.len(),
            out.len() == i,
            forall|j: int| 0 <= j < zones.len() ==> zone_in_database(#[trigger] zones@[j]@),
            samples_fit(now as int),
            forall|j: int| 0 <= j < i ==> #[trigger] signature_views(out@)[j] == signature(str_views(zones@)[j], now as int),
        decreases zones.len() - i,
    {
        let sig = offset_signature(zones[i], now);
        let ghost before = out@;
        out.push(sig);
        assert forall|j: int| 0 <= j < i + 1 implies #[trigger] signature_views(out@)[j] == signature(str_views(zones@)[j], now as int) by {
            if j < i {
                assert(out@[j] == before[j]);
                assert(signature_views(before)[j] == signature(str_views(zones@)[j], now as int));
            }
        }
        i = i + 1;
    }
    out
}

/// The zones that stand for the country `code` (in upper case).
fn zones_for_country(code: &str) -> (res: Vec<&'static str>)
    ensures
        str_views(res@) == candidate_zones(code@),
        forall|j: int| 0 <= j < res.len() ==> zone_in_database(#[trigger] res@[j]@),
{
    let listed = country_zones(code);
    let known = keep_known(&listed);
    if str_equal(code, "CN") {
        keep_shanghai(&known)
    } else {
        known
    }
}

/// Whether the country `country_code` (in any ASCII case) has zones to show.
pub fn country_has_zones(country_code: &str) -> (res: bool)
    ensures
        res == (candidate_zones(upper_seq(country_code@)).len() > 0),
{
    let code = ascii_uppercase(country_code);
    let zones = zones_for_country(code.as_str());
    zones.len() > 0
}

/// The places shown for a country at `now` (a Unix time): one per group of its zones
/// that keep the same time over the next two years.
pub fn country_places(country_name: &str, country_code: &str, now: i64) -> (res: Vec<Place>)
    requires
        timestamp_in_range(now as int),
        candidate_zones(upper_seq(country_code@)).len() > 0 ==> samples_fit(now as int),
    ensures
        country_result(country_name@, country_code@, now as int, place_views(res@)),
{
    let code = ascii_uppercase(country_code);
    let ghost c = upper_seq(country_code@);
    let zones = zones_for_country(code.as_str());
    let ghost zs = str_views(zones@);
    assert(zs == candidate_zones(c));
    if zones.len() == 0 {
        let out: Vec<Place> = Vec::new();
        assert(zones_of(place_views(out@)) =~= Seq::<Seq<char>>::empty());
        return out;
    }
    let capital = capital_zone(code.as_str());
    let ghost cap = opt_view(capital);
    assert(cap == capital_zone_of(c));
    let sigs = signatures_of(&zones, now);
    let ghost ss = signature_views(sigs@);
    assert(signature_per_zone(zs, ss)) by {
        assert forall|i: int, j: int| 0 <= i < zs.len() && 0 <= j < zs.len() && zs[i] == zs[j] implies ss[i] == ss[j] by {
            assert(ss[i] == signature(zs[i], now as int));
            assert(ss[j] == signature(zs[j], now as int));
        }
    }
    let reps = group_zones(&zones, &sigs, capital);
    let count = reps.len();
    let multiple = count > 1;
    let mut out: Vec<Place> = Vec::new();
    let mut k: usize = 0;
    while k < count
        invariant
            k <= count == reps.len(),
            multiple == (count > 1),
            grouping_done(zs, ss, cap, reps@, zs.len() as int),
            zs == str_views(zones@),
            cap == opt_view(capital),
            cap == capital_zone_of(c),
            c == code@,
            out.len() == k,
            forall|i: int| 0 <= i < k ==> #[trigger] place_views(out@)[i] == country_place(country_name@, c, count as int, i, zs[reps@[i] as int]),
        decreases count - k,
    {
        let zone = zones[reps[k]];
        assert(zone@ == zs[reps@[k as int] as int]);
        let name = if multiple {
            if k == 0 && is_capital_zone(zone, capital) {
                match capital_label(code.as_str()) {
                    Some(label) => label.to_owned(),
                    None => country_name.to_owned(),
                }
            } else {
                zone_location(zone)
            }
        } else {
            country_name.to_owned()
        };
        let country = if multiple {
            country_name.to_owned()
        } else {
            String::new()
        };
        let place = Place { name, country, timezone: zone.to_owned() };
        assert(place@ == country_place(country_name@, c, count as int, k as int, zone@));
        let ghost before = out@;
        out.push(place);
        assert forall|i: int| 0 <= i < k + 1 implies #[trigger] place_views(out@)[i] == country_place(country_name@, c, count as int, i, zs[reps@[i] as int]) by {
            if i < k {
                assert(out@[i] == before[i]);
                assert(place_views(before)[i] == country_place(country_name@, c, count as int, i, zs[reps@[i] as int]));
            }
        }
        k = k + 1;
    }
    let ghost picked = zones_of(place_views(out@));
    assert forall|i: int| 0 <= i < picked.len() implies #[trigger] picked[i] == zs[reps@[i] as int] by {
        assert(place_views(out@)[i] == country_place(country_name@, c, count as int, i, zs[reps@[i] as int]));
    }
    proof {
        lemma_picked_zones(zs, ss, cap, reps@, now as int, picked);
        assert(ss.len() == zs.len());
        assert(covers(ss, reps@, zs.len() as int));
        assert(zs.len() > 0);
        assert(ss[0] == ss[0]);
        assert(has_group(ss, reps@, ss[0]));
    }
    assert forall|i: int| 0 <= i < place_views(out@).len() implies #[trigger] place_views(out@)[i] == country_place(country_name@, c, place_views(out@).len() as int, i, place_views(out@)[i].2) by {
        assert(place_views(out@)[i] == country_place(country_name@, c, count as int, i, zs[reps@[i] as int]));
    }
    out
}

/// When the capital's zone is among a country's zones, the first place is the capital's.
pub proof fn law_capital_first(name: Seq<char>, country_code: Seq<char>, now: int, places: Seq<PlaceView>)
    requires
        country_result(name, country_code, now, places),
        capital_zone_of(upper_seq(country_code)) is Some,
        candidate_zones(upper_seq(country_code)).contains(capital_zone_of(upper_seq(country_code))->0),
    ensures
        places.len() > 0,
        places[0].2 == capital_zone_of(upper_seq(country_code))->0,
{
    let code = upper_seq(country_code);
    let zones = candidate_zones(code);
    let cap = capital_zone_of(code);
    let c = cap->0;
    let picked = zones_of(places);
    assert(zones.contains(c));
    let i = choose|i: int| 0 <= i < picked.len() && signature(picked[i], now) == signature(c, now);
    assert(represents_group(zones, picked[i], cap, now));
    let j = choose|j: int| 0 <= j < zones.len() && zones[j] == c;
    assert(is_capital(zones[j], cap) && signature(zones[j], now) == signature(picked[i], now));
    assert(is_capital(picked[i], cap));
    assert(i == 0);
}

proof fn lemma_zones_named(zones: Seq<Seq<char>>, zone: Seq<char>)
    ensures
        forall|i: int| 0 <= i < zones_named(zones, zone).len() ==> #[trigger] zones_named(zones, zone)[i] == zone,
    decreases zones.len(),
{
    if zones.len() > 0 {
        lemma_zones_named(zones.drop_last(), zone);
        let prev = zones_named(zones.drop_last(), zone);
        assert forall|i: int| 0 <= i < zones_named(zones, zone).len() implies #[trigger] zones_named(zones, zone)[i] == zone by {
            if i < prev.len() {
                assert(zones_named(zones, zone)[i] == prev[i]);
            }
        }
    }
}

/// China observes one national time: its result holds at most one place.
pub proof fn law_china_has_one_time(name: Seq<char>, now: int, places: Seq<PlaceView>)
    requires
        country_result(name, "CN"@, now, places),
    ensures
        places.len() <= 1,
{
    let code = upper_seq("CN"@);
    reveal_strlit("CN");
    assert(code =~= "CN"@);
    let zones = candidate_zones(code);
    lemma_zones_named(known_zones(country_zone_names(code)), "Asia/Shanghai"@);
    let picked = zones_of(places);
    if places.len() > 1 {
        assert(zones.contains(picked[0]));
        assert(zones.contains(picked[1]));
        assert(picked[0] == picked[1]);
        assert(signature(picked[0], now) != signature(picked[1], now));
    }
}

/// Several places of a country all name the country; a single place is named after
/// the country and names no country of its own.
pub proof fn law_country_places_name_the_country(name: Seq<char>, country_code: Seq<char>, now: int, places: Seq<PlaceView>)
    requires
        country_result(name, country_code, now, places),
    ensures
        places.len() > 1 ==> forall|i: int| 0 <= i < places.len() ==> #[trigger] places[i].1 == name,
        places.len() == 1 ==> places[0].0 == name && places[0].1.len() == 0,
{
    if places.len() > 1 {
        assert forall|i: int| 0 <= i < places.len() implies #[trigger] places[i].1 == name by {
            assert(places[i] == country_place(name, upper_seq(country_code), places.len() as int, i, places[i].2));
        }
    }
    if places.len() == 1 {
        assert(places[0] == country_place(name, upper_seq(country_code), 1, 0, places[0].2));
    }
}

/// The order of a country's picked zones: the capital's zone before any other, the
/// others by increasing signature.
pub open spec fn shown_before(x: Seq<char>, y: Seq<char>, capital: Option<Seq<char>>, now: int) -> bool {
    ||| is_capital(x, capital) && !is_capital(y, capital)
    ||| !is_capital(x, capital) && !is_capital(y, capital) && lex_less(signature(x, now), signature(y, now))
}

proof fn lemma_shown_before_strict(x: Seq<char>, y: Seq<char>, z: Seq<char>, capital: Option<Seq<char>>, now: int)
    ensures
        !shown_before(x, x, capital, now),
        shown_before(x, y, capital, now) && shown_before(y, z, capital, now) ==> shown_before(x, z, capital, now),
{
    lemma_lex_irreflexive(signature(x, now));
    if shown_before(x, y, capital, now) && shown_before(y, z, capital, now) && !is_capital(x, capital) {
        lemma_lex_transitive(signature(x, now), signature(y, now), signature(z, now));
    }
}

/// Two sequences strictly ordered by `shown_before` that hold the same zones are equal.
proof fn lemma_sorted_unique(a: Seq<Seq<char>>, b: Seq<Seq<char>>, capital: Option<Seq<char>>, now: int)
    requires
        forall|i: int, j: int| 0 <= i < j < a.len() ==> shown_before(#[trigger] a[i], #[trigger] a[j], capital, now),
        forall|i: int, j: int| 0 <= i < j < b.len() ==> shown_before(#[trigger] b[i], #[trigger] b[j], capital, now),
        forall|i: int| 0 <= i < a.len() ==> b.contains(#[trigger] a[i]),
        forall|j: int| 0 <= j < b.len() ==> a.contains(#[trigger] b[j]),
    ensures
        a == b,
    decreases a.len(),
{
    if a.len() == 0 {
        if b.len() > 0 {
            assert(a.contains(b[0]));
        }
        assert(a =~= b);
    } else if b.len() == 0 {
        assert(b.contains(a[0]));
    } else {
        let j = choose|j: int| 0 <= j < b.len() && b[j] == a[0];
        let i = choose|i: int| 0 <= i < a.len() && a[i] == b[0];
        lemma_shown_before_strict(a[0], b[0], a[0], capital, now);
        lemma_shown_before_strict(b[0], a[0], b[0], capital, now);
        if j > 0 {
            assert(shown_before(b[0], b[j], capital, now));
            if i > 0 {
                assert(shown_before(a[0], a[i], capital, now));
            }
        }
        assert(j == 0);
        let a1 = a.drop_first();
        let b1 = b.drop_first();
        assert forall|i: int| 0 <= i < a1.len() implies b1.contains(#[trigger] a1[i]) by {
            assert(a1[i] == a[i + 1]);
            assert(shown_before(a[0], a[i + 1], capital, now));
            lemma_shown_before_strict(a[0], a[0], a[0], capital, now);
            let k = choose|k: int| 0 <= k < b.len() && b[k] == a[i + 1];
            assert(k != 0);
            assert(b1[k - 1] == a1[i]);
        }
        assert forall|j: int| 0 <= j < b1.len() implies a1.contains(#[trigger] b1[j]) by {
            assert(b1[j] == b[j + 1]);
            assert(shown_before(b[0], b[j + 1], capital, now));
            lemma_shown_before_strict(b[0], b[0], b[0], capital, now);
            let k = choose|k: int| 0 <= k < a.len() && a[k] == b[j + 1];
            assert(k != 0);
            assert(a1[k - 1] == b1[j]);
        }
        assert forall|x: int, y: int| 0 <= x < y < a1.len() implies shown_before(#[trigger] a1[x], #[trigger] a1[y], capital, now) by {
            assert(a1[x] == a[x + 1] && a1[y] == a[y + 1]);
        }
        assert forall|x: int, y: int| 0 <= x < y < b1.len() implies shown_before(#[trigger] b1[x], #[trigger] b1[y], capital, now) by {
            assert(b1[x] == b[x + 1] && b1[y] == b[y + 1]);
        }
        lemma_sorted_unique(a1, b1, capital, now);
        assert(a =~= seq![a[0]] + a1);
        assert(b =~= seq![b[0]] + b1);
    }
}

/// Two zones that stand for the groups of the same signature are the same zone.
proof fn lemma_one_representative(zones: Seq<Seq<char>>, x: Seq<char>, y: Seq<char>, capital: Option<Seq<char>>, now: int)
    requires
        represents_group(zones, x, capital, now),
        represents_group(zones, y, capital, now),
        signature(x, now) == signature(y, now),
    ensures
        x == y,
{
    if !(exists|j: int| 0 <= j < zones.len() && is_capital(zones[j], capital) && signature(zones[j], now) == signature(x, now)) {
        let kx = choose|k: int|
            0 <= k < zones.len() && zones[k] == x && forall|j: int| 0 <= j < k ==> signature(zones[j], now) != signature(x, now);
        let ky = choose|k: int|
            0 <= k < zones.len() && zones[k] == y && forall|j: int| 0 <= j < k ==> signature(zones[j], now) != signature(y, now);
        if kx < ky {
            assert(signature(zones[kx], now) != signature(y, now));
        } else if ky < kx {
            assert(signature(zones[ky], now) != signature(x, now));
        }
    }
}

/// The ordering of picked zones follows `shown_before`.
proof fn lemma_picked_sorted(zones: Seq<Seq<char>>, picked: Seq<Seq<char>>, capital: Option<Seq<char>>, now: int)
    requires
        one_zone_per_rule(zones, picked, capital, now),
    ensures
        forall|i: int, j: int| 0 <= i < j < picked.len() ==> shown_before(#[trigger] picked[i], #[trigger] picked[j], capital, now),
{
    assert forall|i: int, j: int| 0 <= i < j < picked.len() implies shown_before(#[trigger] picked[i], #[trigger] picked[j], capital, now) by {
        assert(!is_capital(picked[j], capital));
        if !is_capital(picked[i], capital) {
            assert(lex_less(signature(picked[i], now), signature(picked[j], now)));
        }
    }
}

/// Every zone picked one way is picked the other way.
proof fn lemma_picked_contained(zones: Seq<Seq<char>>, a: Seq<Seq<char>>, b: Seq<Seq<char>>, capital: Option<Seq<char>>, now: int)
    requires
        one_zone_per_rule(zones, a, capital, now),
        one_zone_per_rule(zones, b, capital, now),
    ensures
        forall|i: int| 0 <= i < a.len() ==> b.contains(#[trigger] a[i]),
{
    assert forall|i: int| 0 <= i < a.len() implies b.contains(#[trigger] a[i]) by {
        assert(zones.contains(a[i]));
        let j = choose|j: int| 0 <= j < b.len() && signature(b[j], now) == signature(a[i], now);
        assert(represents_group(zones, b[j], capital, now));
        assert(represents_group(zones, a[i], capital, now));
        lemma_one_representative(zones, a[i], b[j], capital, now);
    }
}

/// A country shows one list of places: the relation `country_result` has a single solution.
pub proof fn law_country_result_unique(name: Seq<char>, country_code: Seq<char>, now: int, a: Seq<PlaceView>, b: Seq<PlaceView>)
    requires
        country_result(name, country_code, now, a),
        country_result(name, country_code, now, b),
    ensures
        a == b,
{
    let code = upper_seq(country_code);
    let zones = candidate_zones(code);
    let cap = capital_zone_of(code);
    let pa = zones_of(a);
    let pb = zones_of(b);
    lemma_picked_sorted(zones, pa, cap, now);
    lemma_picked_sorted(zones, pb, cap, now);
    lemma_picked_contained(zones, pa, pb, cap, now);
    lemma_picked_contained(zones, pb, pa, cap, now);
    lemma_sorted_unique(pa, pb, cap, now);
    assert(a.len() == b.len());
    assert forall|i: int| 0 <= i < a.len() implies a[i] == b[i] by {
        assert(pa[i] == a[i].2 && pb[i] == b[i].2);
        assert(a[i] == country_place(name, code, a.len() as int, i, a[i].2));
        assert(b[i] == country_place(name, code, b.len() as int, i, b[i].2));
    }
    assert(a =~= b);
}

/// A country code gives the same places in any ASCII case.
pub proof fn law_country_code_case(name: Seq<char>, country_code: Seq<char>, now: int, a: Seq<PlaceView>, b: Seq<PlaceView>)
    requires
        country_result(name, country_code, now, a),
        country_result(name, upper_seq(country_code), now, b),
    ensures
        a == b,
{
    law_upper_idempotent(country_code);
    law_country_result_unique(name, country_code, now, a, b);
}

} // verus!
