//! The zones of each country, the capitals' zones and labels, and zone locations.
use vstd::prelude::*;
use crate::text::{chars_of, push_char, str_equal};
use crate::zone_table::ZONE_TABLE;

verus! {

/// The first index at or after `from` where `s` holds `c`, or `s.len()` if none.
pub open spec fn find_from(s: Seq<char>, c: char, from: int) -> int
    decreases s.len() - from,
{
    if from >= s.len() {
        s.len() as int
    } else if s[from] == c {
        from
    } else {
        find_from(s, c, from + 1)
    }
}

pub proof fn lemma_find_from_bounds(s: Seq<char>, c: char, from: int)
    requires
        0 <= from,
    ensures
        from <= s.len() ==> from <= find_from(s, c, from) <= s.len(),
        from < s.len() ==> find_from(s, c, from) < s.len() ==> s[find_from(s, c, from)] == c,
        forall|k: int| from <= k < find_from(s, c, from) ==> s[k] != c,
    decreases s.len() - from,
{
    if from < s.len() && s[from] != c {
        lemma_find_from_bounds(s, c, from + 1);
    }
}

/// Whether `code` is one of the comma-separated items of `list` from position `from` on
/// (`list.split(',').any(|item| item == code)`).
pub open spec fn listed_from(list: Seq<char>, code: Seq<char>, from: int) -> bool
    decreases list.len() - from,
{
    let end = find_from(list, ',', from);
    if list.subrange(from, end) == code {
        true
    } else if from < end + 1 <= list.len() {
        listed_from(list, code, end + 1)
    } else {
        false
    }
}

/// Whether `code` stands in `list` at position `i` as one whole comma-separated item:
/// it holds no comma, and a comma or the list's end lies on each side of it.
pub open spec fn item_at(list: Seq<char>, code: Seq<char>, i: int) -> bool {
    &&& 0 <= i
    &&& i + code.len() <= list.len()
    &&& list.subrange(i, i + code.len()) == code
    &&& !code.contains(',')
    &&& (i == 0 || list[i - 1] == ',')
    &&& (i + code.len() == list.len() || list[i + code.len()] == ',')
}

proof fn lemma_listed_from_items(list: Seq<char>, code: Seq<char>, from: int)
    requires
        0 <= from <= list.len(),
        from == 0 || list[from - 1] == ',',
    ensures
        listed_from(list, code, from) <==> exists|i: int| from <= i && #[trigger] item_at(list, code, i),
    decreases list.len() - from,
{
    let end = find_from(list, ',', from);
    lemma_find_from_bounds(list, ',', from);
    let l = code.len() as int;
    if list.subrange(from, end) == code {
        assert forall|k: int| 0 <= k < code.len() implies code[k] != ',' by {
            assert(code[k] == list[from + k]);
        }
        assert(item_at(list, code, from));
    } else {
        // no item starts within the first item's span
        assert forall|i: int| from <= i <= end implies !#[trigger] item_at(list, code, i) by {
            if item_at(list, code, i) {
                if i > from {
                    assert(list[i - 1] != ',');
                } else if from + l < end {
                    assert(list[from + l] != ',');
                } else if from + l > end {
                    assert(list.subrange(from, from + l)[end - from] == ',');
                    assert(code.contains(','));
                } else {
                    assert(list.subrange(from, end) == code);
                }
            }
        }
        if end < list.len() {
            lemma_listed_from_items(list, code, end + 1);
            if exists|i: int| from <= i && #[trigger] item_at(list, code, i) {
                let i = choose|i: int| from <= i && #[trigger] item_at(list, code, i);
                assert(end + 1 <= i);
            }
        } else {
            if exists|i: int| from <= i && #[trigger] item_at(list, code, i) {
                let i = choose|i: int| from <= i && #[trigger] item_at(list, code, i);
                assert(i <= end);
            }
        }
    }
}

/// A code is listed in a comma-separated list exactly when it is one of its items,
/// wherever the item stands.
pub proof fn law_listed_means_some_item(list: Seq<char>, code: Seq<char>)
    ensures
        listed_from(list, code, 0) <==> exists|i: int| #[trigger] item_at(list, code, i),
{
    lemma_listed_from_items(list, code, 0);
}

/// The zone that a line of `zone1970.tab` lists for `code`: the third tab-separated
/// field, when the line has one and `code` is among the first field's countries.
pub open spec fn line_zone(line: Seq<char>, code: Seq<char>) -> Seq<Seq<char>> {
    let t1 = find_from(line, '\t', 0);
    let t2 = find_from(line, '\t', t1 + 1);
    let t3 = find_from(line, '\t', t2 + 1);
    if t1 < line.len() && t2 < line.len() && listed_from(line.take(t1), code, 0) {
        seq![line.subrange(t2 + 1, t3)]
    } else {
        seq![]
    }
}

/// The line of `text` that starts at `from`, without its line ending (`str::lines`:
/// a `\n`, or `\r\n`).
pub open spec fn line_at(text: Seq<char>, from: int) -> Seq<char> {
    let end = find_from(text, '\n', from);
    let line = text.subrange(from, end);
    if end < text.len() && line.len() > 0 && line.last() == '\r' {
        line.drop_last()
    } else {
        line
    }
}

/// The zones that the lines of `text` from position `from` on list for `code`, in order.
pub open spec fn zones_listed(text: Seq<char>, code: Seq<char>, from: int) -> Seq<Seq<char>>
    decreases text.len() + 1 - from,
{
    if 0 <= from < text.len() {
        let end = find_from(text, '\n', from);
        proof {
            lemma_find_from_bounds(text, '\n', from);
        }
        line_zone(line_at(text, from), code) + zones_listed(text, code, end + 1)
    } else {
        seq![]
    }
}

/// The zones of `zone1970.tab` that list the country `code`, in the table's order.
pub open spec fn country_zone_names(code: Seq<char>) -> Seq<Seq<char>> {
    zones_listed(ZONE_TABLE@, code, 0)
}

/// The views of a sequence of string slices.
pub open spec fn str_views(v: Seq<&str>) -> Seq<Seq<char>> {
    v.map_values(|s: &str| s@)
}

/// Whether `code` is one of the comma-separated items of `chars[from..to]`.
fn code_listed(chars: &Vec<char>, from: usize, to: usize, code: &Vec<char>) -> (res: bool)
    requires
        from <= to <= chars.len(),
    ensures
        res == listed_from(chars@.subrange(from as int, to as int), code@, 0),
{
    let ghost list = chars@.subrange(from as int, to as int);
    let mut start = from;
    loop
        invariant
            from <= start <= to <= chars.len(),
            list == chars@.subrange(from as int, to as int),
            listed_from(list, code@, 0) == listed_from(list, code@, start - from),
        decreases to - start,
    {
        // the end of the item that begins at `start`
        let mut end = start;
        while end < to && chars[end] != ','
            invariant
                start <= end <= to <= chars.len(),
                forall|k: int| start <= k < end ==> chars@[k] != ',',
            decreases to - end,
        {
            end = end + 1;
        }
        proof {
            lemma_find_from_bounds(list, ',', start - from);
            assert forall|k: int| (start - from) <= k < (end - from) implies list[k] != ',' by {
                assert(list[k] == chars@[k + from]);
            }
            if end < to {
                assert(list[end - from] == ',');
            }
            lemma_find_from_exact(list, ',', start - from, end - from);
        }
        let mut same = end - start == code.len();
        let mut k: usize = 0;
        while same && k < code.len()
            invariant
                start <= end <= to <= chars.len(),
                same ==> end - start == code.len(),
                k <= code.len(),
                same ==> forall|j: int| 0 <= j < k ==> chars@[start + j] == code@[j],
                !same ==> chars@.subrange(start as int, end as int) != code@,
            decreases code.len() - k + (if same { 1int } else { 0int }),
        {
            if chars[start + k] != code[k] {
                assert(chars@.subrange(start as int, end as int)[k as int] != code@[k as int]);
                same = false;
            } else {
                k = k + 1;
            }
        }
        assert(list.subrange(start - from, end - from) =~= chars@.subrange(start as int, end as int));
        if same {
            assert(chars@.subrange(start as int, end as int) =~= code@);
            return true;
        }
        if end >= to {
            return false;
        }
        start = end + 1;
    }
}

proof fn lemma_find_from_exact(s: Seq<char>, c: char, from: int, end: int)
    requires
        0 <= from <= end <= s.len(),
        forall|k: int| from <= k < end ==> s[k] != c,
        end < s.len() ==> s[end] == c,
    ensures
        find_from(s, c, from) == end,
    decreases end - from,
{
    if from < end {
        lemma_find_from_exact(s, c, from + 1, end);
    }
}

/// The first index at or after `from` where `chars[lo..to]` holds `c`, or `to` if none;
/// counted from `lo`, it is `find_from` on that slice.
fn find_in(chars: &Vec<char>, c: char, lo: usize, from: usize, to: usize) -> (res: usize)
    requires
        lo <= from <= to <= chars.len(),
    ensures
        from <= res <= to,
        res - lo == find_from(chars@.subrange(lo as int, to as int), c, from - lo),
{
    let ghost s = chars@.subrange(lo as int, to as int);
    let mut i = from;
    while i < to && chars[i] != c
        invariant
            lo <= from <= i <= to <= chars.len(),
            s == chars@.subrange(lo as int, to as int),
            find_from(s, c, from - lo) == find_from(s, c, i - lo),
        decreases to - i,
    {
        assert(s[i - lo] == chars@[i as int]);
        i = i + 1;
    }
    if i < to {
        assert(s[i - lo] == chars@[i as int]);
    }
    i
}

/// The zone that the table line `text[from..to]` lists for `code`, if any.
fn zone_of_line(text: &Vec<char>, from: usize, to: usize, code: &Vec<char>) -> (res: Option<&'static str>)
    requires
        from <= to <= text.len(),
        text@ == ZONE_TABLE@,
    ensures
        line_zone(text@.subrange(from as int, to as int), code@) == (match res {
            Some(zone) => seq![zone@],
            None => Seq::<Seq<char>>::empty(),
        }),
{
    let ghost line = text@.subrange(from as int, to as int);
    let t1 = find_in(text, '\t', from, from, to);
    if t1 >= to {
        return None;
    }
    let t2 = find_in(text, '\t', from, t1 + 1, to);
    if t2 >= to {
        return None;
    }
    let t3 = find_in(text, '\t', from, t2 + 1, to);
    assert(line.take(t1 - from) =~= text@.subrange(from as int, t1 as int));
    if code_listed(text, from, t1, code) {
        let zone = ZONE_TABLE.substring_char(t2 + 1, t3);
        assert(zone@ =~= line.subrange(t2 + 1 - from, t3 - from));
        Some(zone)
    } else {
        None
    }
}

/// The zones of `zone1970.tab` that list the country `country_code`, in the table's order.
pub fn country_zones(country_code: &str) -> (res: Vec<&'static str>)
    ensures
        str_views(res@) == country_zone_names(country_code@),
{
    let text = chars_of(ZONE_TABLE);
    let code = chars_of(country_code);
    let n = text.len();
    let mut out: Vec<&'static str> = Vec::new();
    let mut pos: usize = 0;
    assert(str_views(out@) + zones_listed(text@, code@, 0) =~= zones_listed(text@, code@, 0));
    while pos < n
        invariant
            pos <= n == text.len(),
            text@ == ZONE_TABLE@,
            code@ == country_code@,
            str_views(out@) + zones_listed(text@, code@, pos as int) == zones_listed(text@, code@, 0),
        decreases n - pos,
    {
        let end = find_in(&text, '\n', 0, pos, n);
        assert(text@.subrange(0, n as int) =~= text@);
        let ghost rest = zones_listed(text@, code@, end + 1);
        assert(zones_listed(text@, code@, pos as int) == line_zone(line_at(text@, pos as int), code@) + rest);
        let mut line_end = end;
        if end < n && end > pos && text[end - 1] == '\r' {
            line_end = end - 1;
        }
        assert(line_at(text@, pos as int) =~= text@.subrange(pos as int, line_end as int));
        let ghost before = str_views(out@);
        match zone_of_line(&text, pos, line_end, &code) {
            Some(zone) => {
                out.push(zone);
                assert(str_views(out@) =~= before.push(zone@));
                assert(str_views(out@) + rest =~= before + (seq![zone@] + rest));
            },
            None => {
                assert(before + rest =~= before + (Seq::<Seq<char>>::empty() + rest));
            },
        }
        if end < n {
            pos = end + 1;
        } else {
            assert(rest =~= zones_listed(text@, code@, n as int));
            pos = n;
        }
    }
    assert(zones_listed(text@, code@, pos as int) =~= Seq::<Seq<char>>::empty());
    assert(str_views(out@) =~= str_views(out@) + zones_listed(text@, code@, pos as int));
    out
}

/// The zone of the capital of the country `code`, and the capital's label.
pub open spec fn capital_of(code: Seq<char>) -> Option<(Seq<char>, Seq<char>)> {
    if code == "AR"@ {
        Some(("America/Argentina/Buenos_Aires"@, "Buenos Aires"@))
    } else if code == "AU"@ {
        Some(("Australia/Sydney"@, "Canberra"@))
    } else if code == "BR"@ {
        Some(("America/Sao_Paulo"@, "Bras\u{ed}lia"@))
    } else if code == "CA"@ {
        Some(("America/Toronto"@, "Ottawa"@))
    } else if code == "CD"@ {
        Some(("Africa/Kinshasa"@, "Kinshasa"@))
    } else if code == "CL"@ {
        Some(("America/Santiago"@, "Santiago"@))
    } else if code == "CN"@ {
        Some(("Asia/Shanghai"@, "Beijing"@))
    } else if code == "EC"@ {
        Some(("America/Guayaquil"@, "Quito"@))
    } else if code == "ES"@ {
        Some(("Europe/Madrid"@, "Madrid"@))
    } else if code == "FM"@ {
        Some(("Pacific/Pohnpei"@, "Palikir"@))
    } else if code == "GL"@ {
        Some(("America/Nuuk"@, "Nuuk"@))
    } else if code == "ID"@ {
        Some(("Asia/Jakarta"@, "Jakarta"@))
    } else if code == "KI"@ {
        Some(("Pacific/Tarawa"@, "South Tarawa"@))
    } else if code == "KZ"@ {
        Some(("Asia/Almaty"@, "Astana"@))
    } else if code == "MN"@ {
        Some(("Asia/Ulaanbaatar"@, "Ulaanbaatar"@))
    } else if code == "MX"@ {
        Some(("America/Mexico_City"@, "Mexico City"@))
    } else if code == "MY"@ {
        Some(("Asia/Kuala_Lumpur"@, "Kuala Lumpur"@))
    } else if code == "NZ"@ {
        Some(("Pacific/Auckland"@, "Wellington"@))
    } else if code == "PF"@ {
        Some(("Pacific/Tahiti"@, "Papeete"@))
    } else if code == "PG"@ {
        Some(("Pacific/Port_Moresby"@, "Port Moresby"@))
    } else if code == "PT"@ {
        Some(("Europe/Lisbon"@, "Lisbon"@))
    } else if code == "RU"@ {
        Some(("Europe/Moscow"@, "Moscow"@))
    } else if code == "UA"@ {
        Some(("Europe/Kyiv"@, "Kyiv"@))
    } else if code == "US"@ {
        Some(("America/New_York"@, "Washington, D.C."@))
    } else if code == "UZ"@ {
        Some(("Asia/Tashkent"@, "Tashkent"@))
    } else {
        None
    }
}

/// Whether the zone's name ends in `/` and the city's name, an underscore standing
/// for each space (`America/Mexico_City` for `Mexico City`).
pub open spec fn named_after(zone: Seq<char>, city: Seq<char>) -> bool {
    let k = zone.len() - city.len();
    &&& city.len() > 0
    &&& k >= 1
    &&& zone[k - 1] == '/'
    &&& underscores_to_spaces(zone.skip(k)) == city
}

/// Cities that no zone is named after, each with the zone that keeps its time: the
/// zone named after a larger city of its region, or a spelling of its own name
/// without accents.
pub open spec fn kept_by(city: Seq<char>, zone: Seq<char>) -> bool {
    ||| city == "Canberra"@ && zone == "Australia/Sydney"@
    ||| city == "Bras\u{ed}lia"@ && zone == "America/Sao_Paulo"@
    ||| city == "Ottawa"@ && zone == "America/Toronto"@
    ||| city == "Quito"@ && zone == "America/Guayaquil"@
    ||| city == "Palikir"@ && zone == "Pacific/Pohnpei"@
    ||| city == "South Tarawa"@ && zone == "Pacific/Tarawa"@
    ||| city == "Astana"@ && zone == "Asia/Almaty"@
    ||| city == "Wellington"@ && zone == "Pacific/Auckland"@
    ||| city == "Papeete"@ && zone == "Pacific/Tahiti"@
    ||| city == "Beijing"@ && zone == "Asia/Shanghai"@
    ||| city == "Washington, D.C."@ && zone == "America/New_York"@
    ||| city == "Bogot\u{e1}"@ && zone == "America/Bogota"@
    ||| city == "Cape Town"@ && zone == "Africa/Johannesburg"@
    ||| city == "New Delhi"@ && zone == "Asia/Kolkata"@
    ||| city == "Mumbai"@ && zone == "Asia/Kolkata"@
    ||| city == "Reykjav\u{ed}k"@ && zone == "Atlantic/Reykjavik"@
    ||| city == "Rio de Janeiro"@ && zone == "America/Sao_Paulo"@
    ||| city == "San Francisco"@ && zone == "America/Los_Angeles"@
    ||| city == "S\u{e3}o Paulo"@ && zone == "America/Sao_Paulo"@
    ||| city == "Z\u{fc}rich"@ && zone == "Europe/Zurich"@
}

/// Whether `zone` keeps the local time of `city`: the zone is named after the city,
/// or the city is one that no zone is named after and this zone keeps its time.
pub open spec fn keeps_time_of(zone: Seq<char>, city: Seq<char>) -> bool {
    named_after(zone, city) || kept_by(city, zone)
}

/// The capitals that a zone is named after.
proof fn lemma_capitals_named_after()
    ensures
        named_after("America/Argentina/Buenos_Aires"@, "Buenos Aires"@),
        named_after("Africa/Kinshasa"@, "Kinshasa"@),
        named_after("America/Santiago"@, "Santiago"@),
        named_after("Europe/Madrid"@, "Madrid"@),
        named_after("America/Nuuk"@, "Nuuk"@),
        named_after("Asia/Jakarta"@, "Jakarta"@),
        named_after("Asia/Ulaanbaatar"@, "Ulaanbaatar"@),
        named_after("America/Mexico_City"@, "Mexico City"@),
        named_after("Asia/Kuala_Lumpur"@, "Kuala Lumpur"@),
        named_after("Pacific/Port_Moresby"@, "Port Moresby"@),
        named_after("Europe/Lisbon"@, "Lisbon"@),
        named_after("Europe/Moscow"@, "Moscow"@),
        named_after("Europe/Kyiv"@, "Kyiv"@),
        named_after("Asia/Tashkent"@, "Tashkent"@),
{
    reveal_strlit("America/Argentina/Buenos_Aires");
    reveal_strlit("Buenos Aires");
    assert(underscores_to_spaces("America/Argentina/Buenos_Aires"@.skip(18)) =~= "Buenos Aires"@);
    reveal_strlit("Africa/Kinshasa");
    reveal_strlit("Kinshasa");
    assert(underscores_to_spaces("Africa/Kinshasa"@.skip(7)) =~= "Kinshasa"@);
    reveal_strlit("America/Santiago");
    reveal_strlit("Santiago");
    assert(underscores_to_spaces("America/Santiago"@.skip(8)) =~= "Santiago"@);
    reveal_strlit("Europe/Madrid");
    reveal_strlit("Madrid");
    assert(underscores_to_spaces("Europe/Madrid"@.skip(7)) =~= "Madrid"@);
    reveal_strlit("America/Nuuk");
    reveal_strlit("Nuuk");
    assert(underscores_to_spaces("America/Nuuk"@.skip(8)) =~= "Nuuk"@);
    reveal_strlit("Asia/Jakarta");
    reveal_strlit("Jakarta");
    assert(underscores_to_spaces("Asia/Jakarta"@.skip(5)) =~= "Jakarta"@);
    reveal_strlit("Asia/Ulaanbaatar");
    reveal_strlit("Ulaanbaatar");
    assert(underscores_to_spaces("Asia/Ulaanbaatar"@.skip(5)) =~= "Ulaanbaatar"@);
    reveal_strlit("America/Mexico_City");
    reveal_strlit("Mexico City");
    assert(underscores_to_spaces("America/Mexico_City"@.skip(8)) =~= "Mexico City"@);
    reveal_strlit("Asia/Kuala_Lumpur");
    reveal_strlit("Kuala Lumpur");
    assert(underscores_to_spaces("Asia/Kuala_Lumpur"@.skip(5)) =~= "Kuala Lumpur"@);
    reveal_strlit("Pacific/Port_Moresby");
    reveal_strlit("Port Moresby");
    assert(underscores_to_spaces("Pacific/Port_Moresby"@.skip(8)) =~= "Port Moresby"@);
    reveal_strlit("Europe/Lisbon");
    reveal_strlit("Lisbon");
    assert(underscores_to_spaces("Europe/Lisbon"@.skip(7)) =~= "Lisbon"@);
    reveal_strlit("Europe/Moscow");
    reveal_strlit("Moscow");
    assert(underscores_to_spaces("Europe/Moscow"@.skip(7)) =~= "Moscow"@);
    reveal_strlit("Europe/Kyiv");
    reveal_strlit("Kyiv");
    assert(underscores_to_spaces("Europe/Kyiv"@.skip(7)) =~= "Kyiv"@);
    reveal_strlit("Asia/Tashkent");
    reveal_strlit("Tashkent");
    assert(underscores_to_spaces("Asia/Tashkent"@.skip(5)) =~= "Tashkent"@);
}

/// The zone of each capital in the table keeps the capital's own local time: the place
/// labelled with a country's capital lies in that capital's zone.
pub proof fn law_capital_zone_keeps_capital_time(code: Seq<char>)
    ensures
        capital_of(code) matches Some(row) ==> keeps_time_of(row.0, row.1),
{
    lemma_capitals_named_after();
}

/// The zone of the capital of the country `country_code`, where the table has one.
pub fn capital_zone(country_code: &str) -> (res: Option<&'static str>)
    ensures
        res matches Some(zone) ==> capital_of(country_code@) matches Some(row) && row.0 == zone@,
        res is None <==> capital_of(country_code@) is None,
{
    if str_equal(country_code, "AR") {
        return Some("America/Argentina/Buenos_Aires");
    }
    if str_equal(country_code, "AU") {
        return Some("Australia/Sydney");
    }
    if str_equal(country_code, "BR") {
        return Some("America/Sao_Paulo");
    }
    if str_equal(country_code, "CA") {
        return Some("America/Toronto");
    }
    if str_equal(country_code, "CD") {
        return Some("Africa/Kinshasa");
    }
    if str_equal(country_code, "CL") {
        return Some("America/Santiago");
    }
    if str_equal(country_code, "CN") {
        return Some("Asia/Shanghai");
    }
    if str_equal(country_code, "EC") {
        return Some("America/Guayaquil");
    }
    if str_equal(country_code, "ES") {
        return Some("Europe/Madrid");
    }
    if str_equal(country_code, "FM") {
        return Some("Pacific/Pohnpei");
    }
    if str_equal(country_code, "GL") {
        return Some("America/Nuuk");
    }
    if str_equal(country_code, "ID") {
        return Some("Asia/Jakarta");
    }
    if str_equal(country_code, "KI") {
        return Some("Pacific/Tarawa");
    }
    if str_equal(country_code, "KZ") {
        return Some("Asia/Almaty");
    }
    if str_equal(country_code, "MN") {
        return Some("Asia/Ulaanbaatar");
    }
    if str_equal(country_code, "MX") {
        return Some("America/Mexico_City");
    }
    if str_equal(country_code, "MY") {
        return Some("Asia/Kuala_Lumpur");
    }
    if str_equal(country_code, "NZ") {
        return Some("Pacific/Auckland");
    }
    if str_equal(country_code, "PF") {
        return Some("Pacific/Tahiti");
    }
    if str_equal(country_code, "PG") {
        return Some("Pacific/Port_Moresby");
    }
    if str_equal(country_code, "PT") {
        return Some("Europe/Lisbon");
    }
    if str_equal(country_code, "RU") {
        return Some("Europe/Moscow");
    }
    if str_equal(country_code, "UA") {
        return Some("Europe/Kyiv");
    }
    if str_equal(country_code, "US") {
        return Some("America/New_York");
    }
    if str_equal(country_code, "UZ") {
        return Some("Asia/Tashkent");
    }
    None
}

/// The label of the capital of the country `country_code`, where the table has one.
pub fn capital_label(country_code: &str) -> (res: Option<&'static str>)
    ensures
        res matches Some(label) ==> capital_of(country_code@) matches Some(row) && row.1 == label@,
        res is None <==> capital_of(country_code@) is None,
{
    if str_equal(country_code, "AR") {
        return Some("Buenos Aires");
    }
    if str_equal(country_code, "AU") {
        return Some("Canberra");
    }
    if str_equal(country_code, "BR") {
        return Some("Bras\u{ed}lia");
    }
    if str_equal(country_code, "CA") {
        return Some("Ottawa");
    }
    if str_equal(country_code, "CD") {
        return Some("Kinshasa");
    }
    if str_equal(country_code, "CL") {
        return Some("Santiago");
    }
    if str_equal(country_code, "CN") {
        return Some("Beijing");
    }
    if str_equal(country_code, "EC") {
        return Some("Quito");
    }
    if str_equal(country_code, "ES") {
        return Some("Madrid");
    }
    if str_equal(country_code, "FM") {
        return Some("Palikir");
    }
    if str_equal(country_code, "GL") {
        return Some("Nuuk");
    }
    if str_equal(country_code, "ID") {
        return Some("Jakarta");
    }
    if str_equal(country_code, "KI") {
        return Some("South Tarawa");
    }
    if str_equal(country_code, "KZ") {
        return Some("Astana");
    }
    if str_equal(country_code, "MN") {
        return Some("Ulaanbaatar");
    }
    if str_equal(country_code, "MX") {
        return Some("Mexico City");
    }
    if str_equal(country_code, "MY") {
        return Some("Kuala Lumpur");
    }
    if str_equal(country_code, "NZ") {
        return Some("Wellington");
    }
    if str_equal(country_code, "PF") {
        return Some("Papeete");
    }
    if str_equal(country_code, "PG") {
        return Some("Port Moresby");
    }
    if str_equal(country_code, "PT") {
        return Some("Lisbon");
    }
    if str_equal(country_code, "RU") {
        return Some("Moscow");
    }
    if str_equal(country_code, "UA") {
        return Some("Kyiv");
    }
    if str_equal(country_code, "US") {
        return Some("Washington, D.C.");
    }
    if str_equal(country_code, "UZ") {
        return Some("Tashkent");
    }
    None
}

/// The last index before `end` where `s` holds `c`, or -1 if none.
pub open spec fn last_index_of(s: Seq<char>, c: char, end: int) -> int
    decreases end,
{
    if end <= 0 {
        -1
    } else if s[end - 1] == c {
        end - 1
    } else {
        last_index_of(s, c, end - 1)
    }
}

/// `s` with each underscore replaced by a space.
pub open spec fn underscores_to_spaces(s: Seq<char>) -> Seq<char> {
    s.map_values(|c: char| if c == '_' { ' ' } else { c })
}

/// A readable place for a zone: three zones have fixed labels; any other zone is
/// named by the part of its name after the last `/`, with spaces for underscores.
pub open spec fn zone_location_of(zone: Seq<char>) -> Seq<char> {
    if zone == "America/Noronha"@ {
        "Fernando de Noronha"@
    } else if zone == "America/Rio_Branco"@ {
        "Rio Branco"@
    } else if zone == "America/Sao_Paulo"@ {
        "S\u{e3}o Paulo"@
    } else {
        underscores_to_spaces(zone.skip(last_index_of(zone, '/', zone.len() as int) + 1))
    }
}

proof fn lemma_last_index_bounds(s: Seq<char>, c: char, end: int)
    requires
        end <= s.len(),
    ensures
        -1 <= last_index_of(s, c, end) < (if end > 0 { end } else { 0 }),
        last_index_of(s, c, end) >= 0 ==> s[last_index_of(s, c, end)] == c,
        forall|k: int| last_index_of(s, c, end) < k < end ==> s[k] != c,
    decreases end,
{
    if end > 0 && s[end - 1] != c {
        lemma_last_index_bounds(s, c, end - 1);
    }
}

/// A readable place for a zone, for zones that share a country's result list.
pub fn zone_location(zone: &str) -> (res: String)
    ensures
        res@ == zone_location_of(zone@),
{
    if str_equal(zone, "America/Noronha") {
        return "Fernando de Noronha".to_owned();
    }
    if str_equal(zone, "America/Rio_Branco") {
        return "Rio Branco".to_owned();
    }
    if str_equal(zone, "America/Sao_Paulo") {
        return "S\u{e3}o Paulo".to_owned();
    }
    let chars = chars_of(zone);
    let n = chars.len();
    let mut start: usize = n;
    while start > 0 && chars[start - 1] != '/'
        invariant
            start <= n == chars.len(),
            chars@ == zone@,
            last_index_of(zone@, '/', n as int) == last_index_of(zone@, '/', start as int),
        decreases start,
    {
        start = start - 1;
    }
    proof {
        lemma_last_index_bounds(zone@, '/', start as int);
    }
    assert(last_index_of(zone@, '/', n as int) + 1 == start);
    let ghost tail = zone@.skip(start as int);
    let mut out = String::new();
    let mut i = start;
    while i < n
        invariant
            start <= i <= n == chars.len(),
            chars@ == zone@,
            tail == zone@.skip(start as int),
            out@ == underscores_to_spaces(tail.take(i - start)),
        decreases n - i,
    {
        let c = chars[i];
        let shown = if c == '_' { ' ' } else { c };
        push_char(&mut out, shown);
        assert(underscores_to_spaces(tail.take(i + 1 - start)) =~= underscores_to_spaces(tail.take(i - start)).push(shown));
        i = i + 1;
    }
    assert(tail.take(n - start) =~= tail);
    out
}

proof fn lemma_tail_after_slash(zone: Seq<char>)
    ensures
        forall|i: int| 0 <= i < zone_location_tail(zone).len() ==> #[trigger] zone_location_tail(zone)[i] != '/' && zone_location_tail(zone)[i] != '_',
{
    let k = last_index_of(zone, '/', zone.len() as int);
    lemma_last_index_bounds(zone, '/', zone.len() as int);
    let tail = zone.skip(k + 1);
    assert forall|i: int| 0 <= i < zone_location_tail(zone).len() implies #[trigger] zone_location_tail(zone)[i] != '/' && zone_location_tail(zone)[i] != '_' by {
        assert(tail[i] == zone[k + 1 + i]);
    }
}

/// The part of a zone's name after its last `/`, with spaces for underscores.
pub open spec fn zone_location_tail(zone: Seq<char>) -> Seq<char> {
    underscores_to_spaces(zone.skip(last_index_of(zone, '/', zone.len() as int) + 1))
}

/// A zone's location holds neither `/` nor `_`.
pub proof fn law_location_is_plain(zone: Seq<char>)
    ensures
        forall|i: int| 0 <= i < zone_location_of(zone).len() ==> #[trigger] zone_location_of(zone)[i] != '/' && zone_location_of(zone)[i] != '_',
{
    let r = zone_location_of(zone);
    if zone == "America/Noronha"@ {
        reveal_strlit("Fernando de Noronha");
        assert(r == "Fernando de Noronha"@);
        assert forall|i: int| 0 <= i < r.len() implies #[trigger] r[i] != '/' && r[i] != '_' by {}
    } else if zone == "America/Rio_Branco"@ {
        reveal_strlit("Rio Branco");
        assert(r == "Rio Branco"@);
        assert forall|i: int| 0 <= i < r.len() implies #[trigger] r[i] != '/' && r[i] != '_' by {}
    } else if zone == "America/Sao_Paulo"@ {
        reveal_strlit("S\u{e3}o Paulo");
        assert(r == "S\u{e3}o Paulo"@);
        assert forall|i: int| 0 <= i < r.len() implies #[trigger] r[i] != '/' && r[i] != '_' by {}
    } else {
        lemma_tail_after_slash(zone);
        assert(r == zone_location_tail(zone));
    }
}

} // verus!
