//! Recognising `time in <place>` queries and normalising place names.
use vstd::prelude::*;
use vstd::utf8::encode_utf8;
use vstd::utf8::is_char_boundary;
use crate::text::{law_trim_idempotent, lemma_trim_start_after_space, lemma_trim_end_before_space, lemma_trimmed_ends, is_white_space, ascii_lower, chars_of, is_ascii_digit, is_ascii_lower, is_ascii_upper, lower_seq, push_char, to_ascii_lower, trim, trimmed};

verus! {

/// The prefix that marks a time query, in lower case.
pub open spec fn time_prefix() -> Seq<char> {
    seq!['t', 'i', 'm', 'e', ' ', 'i', 'n', ' ']
}

/// The place named by a time query: the trimmed query must start with `time in `
/// in any ASCII case and name a place after it; the place is trimmed too.
pub open spec fn place_query(query: Seq<char>) -> Option<Seq<char>> {
    let t = trimmed(query);
    if t.len() > 8 && lower_seq(t.take(8)) == time_prefix() && trimmed(t.skip(8)).len() > 0 {
        Some(trimmed(t.skip(8)))
    } else {
        None
    }
}

/// Whether the prefix test of `parse` can read the first eight bytes of the trimmed
/// query as a string: beyond eight bytes, the eighth must end a character.
pub open spec fn prefix_readable(query: Seq<char>) -> bool {
    let bytes = encode_utf8(trimmed(query));
    bytes.len() > 8 ==> is_char_boundary(bytes, 8)
}

/// The place named by a `time in <place>` query, or `None` for any other query.
pub fn parse(query: &str) -> (res: Option<&str>)
    requires
        prefix_readable(query@),
    ensures
        res matches Some(place) ==> place_query(query@) == Some(place@),
        res is None <==> place_query(query@) is None,
{
    let t = trim(query);
    let chars = chars_of(t);
    if chars.len() <= 8 {
        return None;
    }
    let prefix: Vec<char> = vec!['t', 'i', 'm', 'e', ' ', 'i', 'n', ' '];
    assert(prefix@ == time_prefix());
    let mut i: usize = 0;
    while i < 8
        invariant
            i <= 8 < chars.len(),
            chars@ == t@,
            t@ == trimmed(query@),
            prefix@ == time_prefix(),
            forall|j: int| 0 <= j < i ==> ascii_lower(chars@[j]) == time_prefix()[j],
        decreases 8 - i,
    {
        if to_ascii_lower(chars[i]) != prefix[i] {
            assert(lower_seq(t@.take(8))[i as int] != time_prefix()[i as int]);
            return None;
        }
        i = i + 1;
    }
    assert(lower_seq(t@.take(8)) =~= time_prefix());
    let rest = t.substring_char(8, chars.len());
    assert(rest@ =~= t@.skip(8));
    let place = trim(rest);
    if place.is_empty() {
        None
    } else {
        Some(place)
    }
}

/// A recognised time query names a place that is trimmed and not empty.
pub proof fn law_place_is_trimmed(query: Seq<char>)
    ensures
        place_query(query) matches Some(place) ==> place.len() > 0 && trimmed(place) == place,
{
    law_trim_idempotent(trimmed(query).skip(8));
}

/// A query recognised whatever the length of its place: white space, then `time in`
/// in any ASCII case, then white space, a non-empty trimmed place and white space
/// again names exactly that place (`time in LA` names `LA`).
pub proof fn law_time_query_recognised(
    lead: Seq<char>,
    prefix: Seq<char>,
    gap: Seq<char>,
    place: Seq<char>,
    trail: Seq<char>,
)
    requires
        forall|i: int| 0 <= i < lead.len() ==> is_white_space(#[trigger] lead[i]),
        forall|i: int| 0 <= i < gap.len() ==> is_white_space(#[trigger] gap[i]),
        forall|i: int| 0 <= i < trail.len() ==> is_white_space(#[trigger] trail[i]),
        lower_seq(prefix) == time_prefix(),
        place.len() > 0,
        trimmed(place) == place,
    ensures
        place_query(lead + prefix + gap + place + trail) == Some(place),
{
    let core = prefix + gap + place;
    let query = lead + prefix + gap + place + trail;
    lemma_trimmed_ends(place);
    assert(time_prefix().len() == 8);
    assert(lower_seq(prefix).len() == prefix.len());
    assert(ascii_lower(prefix[0]) == lower_seq(prefix)[0]);
    assert(!is_white_space(prefix[0]));
    assert(core[0] == prefix[0]);
    assert(core.last() == place.last());
    assert(query =~= lead + (core + trail));
    lemma_trim_start_after_space(lead, core + trail);
    lemma_trim_end_before_space(core, trail);
    assert(trimmed(query) == core);
    assert(core.take(8) =~= prefix);
    assert(core.skip(8) =~= gap + place);
    lemma_trim_start_after_space(gap, place);
    let empty: Seq<char> = seq![];
    lemma_trim_end_before_space(place, empty);
    assert(place + empty =~= place);
    assert(trimmed(gap + place) == place);
}

/// What `char::is_alphanumeric` returns for characters beyond ASCII.
pub uninterp spec fn non_ascii_alphanumeric(c: char) -> bool;

/// Whether `c` is alphabetic or numeric in Unicode.
pub open spec fn is_alphanumeric(c: char) -> bool {
    if (c as u32) < 128 {
        is_ascii_upper(c) || is_ascii_lower(c) || is_ascii_digit(c)
    } else {
        non_ascii_alphanumeric(c)
    }
}

/// `char::is_alphanumeric`. The contract states the ASCII range, where the
/// alphanumeric characters are the letters and digits, and names the rest.
#[verifier::external_body]
fn char_is_alphanumeric(c: char) -> (res: bool)
    ensures
        (c as u32) < 128 ==> res == (is_ascii_upper(c) || is_ascii_lower(c) || is_ascii_digit(c)),
        (c as u32) >= 128 ==> res == non_ascii_alphanumeric(c),
{
    c.is_alphanumeric()
}

/// The letters and digits of `s`, with ASCII letters in lower case.
pub open spec fn normalized(s: Seq<char>) -> Seq<char>
    decreases s.len(),
{
    if s.len() == 0 {
        seq![]
    } else if is_alphanumeric(s.last()) {
        normalized(s.drop_last()).push(ascii_lower(s.last()))
    } else {
        normalized(s.drop_last())
    }
}

/// A place name reduced to its letters and digits, ASCII letters in lower case.
pub fn normalize_name(value: &str) -> (res: String)
    ensures
        res@ == normalized(value@),
{
    let chars = chars_of(value);
    let mut out = String::new();
    let mut i: usize = 0;
    while i < chars.len()
        invariant
            i <= chars.len(),
            chars@ == value@,
            out@ == normalized(chars@.take(i as int)),
        decreases chars.len() - i,
    {
        let c = chars[i];
        assert(chars@.take(i + 1).drop_last() =~= chars@.take(i as int));
        if char_is_alphanumeric(c) {
            push_char(&mut out, to_ascii_lower(c));
        }
        i = i + 1;
    }
    assert(chars@.take(chars.len() as int) =~= chars@);
    out
}

#[verifier::spinoff_prover]
proof fn lemma_normalized_chars(s: Seq<char>)
    ensures
        forall|i: int| 0 <= i < normalized(s).len() ==> is_alphanumeric(#[trigger] normalized(s)[i]) && !is_ascii_upper(normalized(s)[i]),
    decreases s.len(),
{
    if s.len() > 0 {
        lemma_normalized_chars(s.drop_last());
        let c = s.last();
        if is_alphanumeric(c) {
            let lc = ascii_lower(c);
            if is_ascii_upper(c) {
                assert((lc as u32) < 128);
                assert(is_ascii_lower(lc));
            }
            assert(is_alphanumeric(lc));
            assert(!is_ascii_upper(lc));
            let prev = normalized(s.drop_last());
            assert(normalized(s) == prev.push(lc));
            assert forall|i: int| 0 <= i < normalized(s).len() implies is_alphanumeric(#[trigger] normalized(s)[i]) && !is_ascii_upper(normalized(s)[i]) by {
                if i < prev.len() {
                    assert(normalized(s)[i] == prev[i]);
                }
            }
        }
    }
}

proof fn lemma_normalized_fixed(s: Seq<char>)
    requires
        forall|i: int| 0 <= i < s.len() ==> is_alphanumeric(#[trigger] s[i]) && !is_ascii_upper(s[i]),
    ensures
        normalized(s) == s,
    decreases s.len(),
{
    if s.len() > 0 {
        lemma_normalized_fixed(s.drop_last());
        assert(s.drop_last().push(s.last()) =~= s);
    }
}

/// Normalising a normalised name changes nothing.
pub proof fn law_normalize_idempotent(name: Seq<char>)
    ensures
        normalized(normalized(name)) == normalized(name),
{
    lemma_normalized_chars(name);
    lemma_normalized_fixed(normalized(name));
}

/// What `str::to_lowercase` returns: the Unicode lower-case mapping of each character.
pub uninterp spec fn unicode_lowercase(s: Seq<char>) -> Seq<char>;

/// `str::to_lowercase`; its result is named by `unicode_lowercase`.
#[verifier::external_body]
pub(crate) fn to_lowercase(s: &str) -> (res: String)
    ensures
        res@ == unicode_lowercase(s@),
{
    s.to_lowercase()
}

} // verus!
