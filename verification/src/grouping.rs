//! Grouping a country's zones by their offset signatures, one zone standing for each group.
use vstd::prelude::*;
use crate::signature_order::{compare_signatures, lemma_lex_irreflexive, lemma_lex_total, lemma_lex_transitive, lex_less};
use crate::text::str_equal;
use crate::zones::str_views;

verus! {

/// The views of a sequence of signatures.
pub open spec fn signature_views(v: Seq<Vec<i32>>) -> Seq<Seq<i32>> {
    v.map_values(|s: Vec<i32>| s@)
}

/// The view of an optional string slice.
pub open spec fn opt_view(s: Option<&str>) -> Option<Seq<char>> {
    match s {
        Some(x) => Some(x@),
        None => None,
    }
}

/// Whether `zone` is the capital's zone.
pub open spec fn is_capital(zone: Seq<char>, capital: Option<Seq<char>>) -> bool {
    capital matches Some(c) && zone == c
}

/// Whether one of the first `upto` zones is the capital's and has signature `sig`.
pub open spec fn capital_in_group(
    zones: Seq<Seq<char>>,
    sigs: Seq<Seq<i32>>,
    capital: Option<Seq<char>>,
    upto: int,
    sig: Seq<i32>,
) -> bool {
    exists|j: int| 0 <= j < upto && is_capital(zones[j], capital) && sigs[j] == sig
}

/// Whether zone `r` stands for the group of its signature among the first `upto`
/// zones: it is the capital's zone where the group holds that, else the group's first zone.
pub open spec fn stands_for_group(
    zones: Seq<Seq<char>>,
    sigs: Seq<Seq<i32>>,
    capital: Option<Seq<char>>,
    upto: int,
    r: int,
) -> bool {
    if capital_in_group(zones, sigs, capital, upto, sigs[r]) {
        is_capital(zones[r], capital)
    } else {
        forall|j: int| 0 <= j < r ==> sigs[j] != sigs[r]
    }
}

/// Every zone before `upto` has a group with its signature.
pub open spec fn covers(sigs: Seq<Seq<i32>>, reps: Seq<usize>, upto: int) -> bool {
    forall|j: int| 0 <= j < upto ==> has_group(sigs, reps, #[trigger] sigs[j])
}

/// Some group has signature `sig`.
pub open spec fn has_group(sigs: Seq<Seq<i32>>, reps: Seq<usize>, sig: Seq<i32>) -> bool {
    exists|p: int| 0 <= p < reps.len() && #[trigger] sigs[reps[p] as int] == sig
}

/// The groups are in increasing order of signature.
pub open spec fn ordered_by_signature(sigs: Seq<Seq<i32>>, reps: Seq<usize>) -> bool {
    forall|p: int, q: int|
        0 <= p < q < reps.len() ==> lex_less(#[trigger] sigs[reps[p] as int], #[trigger] sigs[reps[q] as int])
}

/// Every group's zone stands for its group among the first `upto` zones.
pub open spec fn all_stand(
    zones: Seq<Seq<char>>,
    sigs: Seq<Seq<i32>>,
    capital: Option<Seq<char>>,
    reps: Seq<usize>,
    upto: int,
) -> bool {
    forall|p: int| 0 <= p < reps.len() ==> #[trigger] stands_for_group(zones, sigs, capital, upto, reps[p] as int)
}

/// The state of the grouping after the first `upto` zones: one zone per signature,
/// ordered by signature, each standing for its group.
pub open spec fn grouped_upto(
    zones: Seq<Seq<char>>,
    sigs: Seq<Seq<i32>>,
    capital: Option<Seq<char>>,
    reps: Seq<usize>,
    upto: int,
) -> bool {
    &&& forall|p: int| 0 <= p < reps.len() ==> reps[p] < upto
    &&& ordered_by_signature(sigs, reps)
    &&& covers(sigs, reps, upto)
    &&& all_stand(zones, sigs, capital, reps, upto)
}

/// Whether equal zone names always come with equal signatures.
pub open spec fn signature_per_zone(zones: Seq<Seq<char>>, sigs: Seq<Seq<i32>>) -> bool {
    &&& zones.len() == sigs.len()
    &&& forall|i: int, j: int| 0 <= i < zones.len() && 0 <= j < zones.len() && zones[i] == zones[j] ==> sigs[i] == sigs[j]
}

/// Whether `zone` is the capital's zone.
pub(crate) fn is_capital_zone(zone: &str, capital: Option<&str>) -> (res: bool)
    ensures
        res == is_capital(zone@, opt_view(capital)),
{
    match capital {
        Some(c) => str_equal(zone, c),
        None => false,
    }
}

/// No grouped zone other than the `p`-th has the signature of zone `i` when the `p`-th has it.
proof fn lemma_only_group(ss: Seq<Seq<i32>>, reps: Seq<usize>, i: int, p: int)
    requires
        0 <= p < reps.len(),
        ss[reps[p] as int] == ss[i],
        forall|a: int, b: int| 0 <= a < b < reps.len() ==> lex_less(#[trigger] ss[reps[a] as int], #[trigger] ss[reps[b] as int]),
    ensures
        forall|q: int| 0 <= q < reps.len() && q != p ==> ss[reps[q] as int] != ss[i],
{
    assert forall|q: int| 0 <= q < reps.len() && q != p implies ss[reps[q] as int] != ss[i] by {
        if q < p {
            assert(lex_less(ss[reps[q] as int], ss[reps[p] as int]));
            lemma_lex_irreflexive(ss[i]);
        } else {
            assert(lex_less(ss[reps[p] as int], ss[reps[q] as int]));
            lemma_lex_irreflexive(ss[i]);
        }
    }
}

/// Zone `i` joins the group at position `p`, which it may take over as the capital's zone.
proof fn lemma_join_group(
    zs: Seq<Seq<char>>,
    ss: Seq<Seq<i32>>,
    cap: Option<Seq<char>>,
    old_reps: Seq<usize>,
    new_reps: Seq<usize>,
    i: usize,
    p: int,
)
    requires
        0 <= i < zs.len(),
        signature_per_zone(zs, ss),
        grouped_upto(zs, ss, cap, old_reps, i as int),
        0 <= p < old_reps.len(),
        ss[old_reps[p] as int] == ss[i as int],
        new_reps == old_reps || (new_reps == old_reps.update(p, i) && is_capital(zs[i as int], cap)),
        new_reps == old_reps ==> !is_capital(zs[i as int], cap) || is_capital(zs[old_reps[p] as int], cap),
    ensures
        grouped_upto(zs, ss, cap, new_reps, i + 1),
{
    lemma_only_group(ss, old_reps, i as int, p);
    assert(ss[new_reps[p] as int] == ss[i as int]);
    assert forall|q: int| 0 <= q < new_reps.len() && q != p implies new_reps[q] == old_reps[q] by {}
    assert forall|a: int, b: int| 0 <= a < b < new_reps.len() implies lex_less(#[trigger] ss[new_reps[a] as int], #[trigger] ss[new_reps[b] as int]) by {
        assert(lex_less(ss[old_reps[a] as int], ss[old_reps[b] as int]));
    }
    assert forall|j: int| #![trigger ss[j]] 0 <= j < i + 1 implies has_group(ss, new_reps, ss[j]) by {
        if j == i {
            assert(ss[new_reps[p] as int] == ss[j]);
        } else {
            let q = choose|q: int| 0 <= q < old_reps.len() && #[trigger] ss[old_reps[q] as int] == ss[j];
            if q == p {
                assert(ss[new_reps[p] as int] == ss[j]);
            } else {
                assert(ss[new_reps[q] as int] == ss[j]);
            }
        }
    }
    assert forall|q: int| 0 <= q < new_reps.len() implies #[trigger] stands_for_group(zs, ss, cap, i + 1, new_reps[q] as int) by {
        let r2 = new_reps[q] as int;
        assert(stands_for_group(zs, ss, cap, i as int, old_reps[q] as int));
        if q != p {
            assert(ss[r2] != ss[i as int]);
            if capital_in_group(zs, ss, cap, i + 1, ss[r2]) {
                let j = choose|j: int| 0 <= j < i + 1 && is_capital(zs[j], cap) && ss[j] == ss[r2];
                assert(capital_in_group(zs, ss, cap, i as int, ss[r2]));
            }
        } else if is_capital(zs[i as int], cap) {
            assert(capital_in_group(zs, ss, cap, i + 1, ss[r2]));
        } else if capital_in_group(zs, ss, cap, i + 1, ss[r2]) {
            let j = choose|j: int| 0 <= j < i + 1 && is_capital(zs[j], cap) && ss[j] == ss[r2];
            assert(capital_in_group(zs, ss, cap, i as int, ss[r2]));
        }
    }
}

/// The signature of a zone that starts a new group differs from all grouped ones.
proof fn lemma_new_signature(
    zs: Seq<Seq<char>>,
    ss: Seq<Seq<i32>>,
    cap: Option<Seq<char>>,
    old_reps: Seq<usize>,
    i: usize,
    p: int,
)
    requires
        0 <= i < zs.len(),
        grouped_upto(zs, ss, cap, old_reps, i as int),
        0 <= p <= old_reps.len(),
        forall|q: int| 0 <= q < p ==> lex_less(ss[old_reps[q] as int], ss[i as int]),
        p < old_reps.len() ==> lex_less(ss[i as int], ss[old_reps[p] as int]),
    ensures
        forall|q: int| p <= q < old_reps.len() ==> lex_less(ss[i as int], #[trigger] ss[old_reps[q] as int]),
        forall|q: int| 0 <= q < old_reps.len() ==> ss[old_reps[q] as int] != ss[i as int],
        forall|j: int| 0 <= j < i ==> ss[j] != ss[i as int],
{
    assert forall|q: int| p <= q < old_reps.len() implies lex_less(ss[i as int], #[trigger] ss[old_reps[q] as int]) by {
        if q > p {
            assert(lex_less(ss[old_reps[p] as int], ss[old_reps[q] as int]));
            lemma_lex_transitive(ss[i as int], ss[old_reps[p] as int], ss[old_reps[q] as int]);
        }
    }
    assert forall|q: int| 0 <= q < old_reps.len() implies ss[old_reps[q] as int] != ss[i as int] by {
        lemma_lex_irreflexive(ss[i as int]);
    }
    assert forall|j: int| 0 <= j < i implies ss[j] != ss[i as int] by {
        assert(0 <= j < i);
        let q = choose|q: int| 0 <= q < old_reps.len() && #[trigger] ss[old_reps[q] as int] == ss[j];
    }
}

/// Inserting a new group keeps the groups ordered by signature.
proof fn lemma_new_group_order(ss: Seq<Seq<i32>>, old_reps: Seq<usize>, i: usize, p: int)
    requires
        0 <= p <= old_reps.len(),
        ordered_by_signature(ss, old_reps),
        forall|q: int| 0 <= q < p ==> lex_less(ss[old_reps[q] as int], ss[i as int]),
        forall|q: int| p <= q < old_reps.len() ==> lex_less(ss[i as int], #[trigger] ss[old_reps[q] as int]),
    ensures
        ordered_by_signature(ss, old_reps.insert(p, i)),
{
    let new_reps = old_reps.insert(p, i);
    assert forall|a: int, b: int| 0 <= a < b < new_reps.len() implies lex_less(#[trigger] ss[new_reps[a] as int], #[trigger] ss[new_reps[b] as int]) by {
        if b < p {
            assert(new_reps[a] == old_reps[a] && new_reps[b] == old_reps[b]);
            assert(lex_less(ss[old_reps[a] as int], ss[old_reps[b] as int]));
        } else if b == p {
            assert(new_reps[a] == old_reps[a]);
        } else if a < p {
            assert(new_reps[a] == old_reps[a] && new_reps[b] == old_reps[b - 1]);
            lemma_lex_transitive(ss[old_reps[a] as int], ss[i as int], ss[old_reps[b - 1] as int]);
        } else if a == p {
            assert(new_reps[b] == old_reps[b - 1]);
        } else {
            assert(new_reps[a] == old_reps[a - 1] && new_reps[b] == old_reps[b - 1]);
            assert(lex_less(ss[old_reps[a - 1] as int], ss[old_reps[b - 1] as int]));
        }
    }
}

/// After inserting a new group, every zone up to `i` still has its group.
proof fn lemma_new_group_cover(
    zs: Seq<Seq<char>>,
    ss: Seq<Seq<i32>>,
    cap: Option<Seq<char>>,
    old_reps: Seq<usize>,
    i: usize,
    p: int,
)
    requires
        0 <= p <= old_reps.len(),
        covers(ss, old_reps, i as int),
    ensures
        covers(ss, old_reps.insert(p, i), i + 1),
{
    let new_reps = old_reps.insert(p, i);
    assert forall|j: int| #![trigger ss[j]] 0 <= j < i + 1 implies has_group(ss, new_reps, ss[j]) by {
        if j == i {
            assert(ss[new_reps[p] as int] == ss[j]);
        } else {
            let q = choose|q: int| 0 <= q < old_reps.len() && #[trigger] ss[old_reps[q] as int] == ss[j];
            if q < p {
                assert(ss[new_reps[q] as int] == ss[j]);
            } else {
                assert(new_reps[q + 1] == old_reps[q]);
                assert(ss[new_reps[q + 1] as int] == ss[j]);
            }
        }
    }
}

/// After inserting a new group, each grouped zone still stands for its group.
proof fn lemma_new_group_stands(
    zs: Seq<Seq<char>>,
    ss: Seq<Seq<i32>>,
    cap: Option<Seq<char>>,
    old_reps: Seq<usize>,
    i: usize,
    p: int,
)
    requires
        0 <= p <= old_reps.len(),
        all_stand(zs, ss, cap, old_reps, i as int),
        forall|q: int| 0 <= q < old_reps.len() ==> ss[old_reps[q] as int] != ss[i as int],
        forall|j: int| 0 <= j < i ==> ss[j] != ss[i as int],
    ensures
        all_stand(zs, ss, cap, old_reps.insert(p, i), i + 1),
{
    let new_reps = old_reps.insert(p, i);
    assert forall|q: int| 0 <= q < new_reps.len() implies #[trigger] stands_for_group(zs, ss, cap, i + 1, new_reps[q] as int) by {
        let r2 = new_reps[q] as int;
        if q == p {
            if !is_capital(zs[i as int], cap) && capital_in_group(zs, ss, cap, i + 1, ss[r2]) {
                let j = choose|j: int| 0 <= j < i + 1 && is_capital(zs[j], cap) && ss[j] == ss[r2];
            }
        } else {
            let oq = if q < p { q } else { q - 1 };
            assert(new_reps[q] == old_reps[oq]);
            assert(stands_for_group(zs, ss, cap, i as int, old_reps[oq] as int));
            if capital_in_group(zs, ss, cap, i + 1, ss[r2]) {
                let j = choose|j: int| 0 <= j < i + 1 && is_capital(zs[j], cap) && ss[j] == ss[r2];
                assert(capital_in_group(zs, ss, cap, i as int, ss[r2]));
            }
        }
    }
}

/// Zone `i` starts a new group at position `p`, between the smaller and the larger signatures.
proof fn lemma_new_group(
    zs: Seq<Seq<char>>,
    ss: Seq<Seq<i32>>,
    cap: Option<Seq<char>>,
    old_reps: Seq<usize>,
    i: usize,
    p: int,
)
    requires
        0 <= i < zs.len(),
        grouped_upto(zs, ss, cap, old_reps, i as int),
        0 <= p <= old_reps.len(),
        forall|q: int| 0 <= q < p ==> lex_less(ss[old_reps[q] as int], ss[i as int]),
        p < old_reps.len() ==> lex_less(ss[i as int], ss[old_reps[p] as int]),
    ensures
        grouped_upto(zs, ss, cap, old_reps.insert(p, i), i + 1),
{
    let new_reps = old_reps.insert(p, i);
    lemma_new_signature(zs, ss, cap, old_reps, i, p);
    lemma_new_group_order(ss, old_reps, i, p);
    lemma_new_group_cover(zs, ss, cap, old_reps, i, p);
    lemma_new_group_stands(zs, ss, cap, old_reps, i, p);
    assert forall|q: int| 0 <= q < new_reps.len() implies new_reps[q] < i + 1 by {
        if q < p {
            assert(new_reps[q] == old_reps[q]);
        } else if q > p {
            assert(new_reps[q] == old_reps[q - 1]);
        }
    }
}

/// Adds zone `i` to the grouping of the zones before it.
fn add_zone(reps: &mut Vec<usize>, i: usize, zones: &Vec<&str>, sigs: &Vec<Vec<i32>>, capital: Option<&str>)
    requires
        i < zones.len(),
        signature_per_zone(str_views(zones@), signature_views(sigs@)),
        grouped_upto(str_views(zones@), signature_views(sigs@), opt_view(capital), old(reps)@, i as int),
    ensures
        grouped_upto(str_views(zones@), signature_views(sigs@), opt_view(capital), final(reps)@, i + 1),
{
    let ghost zs = str_views(zones@);
    let ghost ss = signature_views(sigs@);
    let ghost cap = opt_view(capital);
    let ghost old_reps = reps@;
    assert(ss[i as int] == sigs@[i as int]@);
    let mut p: usize = 0;
    while p < reps.len() && compare_signatures(&sigs[reps[p]], &sigs[i]) < 0
        invariant
            p <= reps.len(),
            reps@ == old_reps,
            i < zones.len() == sigs.len(),
            ss == signature_views(sigs@),
            grouped_upto(zs, ss, cap, old_reps, i as int),
            forall|q: int| 0 <= q < p ==> lex_less(ss[reps@[q] as int], ss[i as int]),
        decreases reps.len() - p,
    {
        assert(ss[reps@[p as int] as int] == sigs@[reps@[p as int] as int]@);
        p = p + 1;
    }
    let here_capital = is_capital_zone(zones[i], capital);
    let mut same_group = false;
    if p < reps.len() {
        assert(ss[reps@[p as int] as int] == sigs@[reps@[p as int] as int]@);
        let c = compare_signatures(&sigs[reps[p]], &sigs[i]);
        same_group = c == 0;
        proof {
            if !same_group {
                lemma_lex_total(ss[old_reps[p as int] as int], ss[i as int]);
            }
        }
    }
    if same_group {
        let rep_capital = is_capital_zone(zones[reps[p]], capital);
        if here_capital && !rep_capital {
            reps.set(p, i);
        }
        proof {
            lemma_join_group(zs, ss, cap, old_reps, reps@, i, p as int);
        }
    } else {
        reps.insert(p, i);
        proof {
            lemma_new_group(zs, ss, cap, old_reps, i, p as int);
        }
    }
}

/// The groups of all `n` zones, each standing for its group, with distinct signatures:
/// the capital's group first where there is one, then the others by increasing signature.
pub open spec fn grouping_done(
    zones: Seq<Seq<char>>,
    sigs: Seq<Seq<i32>>,
    capital: Option<Seq<char>>,
    reps: Seq<usize>,
    n: int,
) -> bool {
    &&& forall|p: int| 0 <= p < reps.len() ==> reps[p] < n
    &&& forall|p: int, q: int| 0 <= p < q < reps.len() ==> sigs[reps[p] as int] != sigs[reps[q] as int]
    &&& covers(sigs, reps, n)
    &&& all_stand(zones, sigs, capital, reps, n)
    &&& forall|p: int| 0 < p < reps.len() ==> !is_capital(zones[reps[p] as int], capital)
    &&& forall|p: int, q: int|
        0 <= p < q < reps.len() && !is_capital(zones[reps[p] as int], capital) ==> lex_less(
            sigs[reps[p] as int],
            sigs[reps[q] as int],
        )
}

proof fn lemma_ordered_distinct(ss: Seq<Seq<i32>>, reps: Seq<usize>)
    requires
        ordered_by_signature(ss, reps),
    ensures
        forall|p: int, q: int| 0 <= p < reps.len() && 0 <= q < reps.len() && p != q ==> ss[reps[p] as int] != ss[reps[q] as int],
{
    assert forall|p: int, q: int| 0 <= p < reps.len() && 0 <= q < reps.len() && p != q implies ss[reps[p] as int] != ss[reps[q] as int] by {
        lemma_lex_irreflexive(ss[reps[p] as int]);
        if p < q {
            assert(lex_less(ss[reps[p] as int], ss[reps[q] as int]));
        } else {
            assert(lex_less(ss[reps[q] as int], ss[reps[p] as int]));
        }
    }
}

/// Without a capital's group, the ordered groups are done.
proof fn lemma_done_without_capital(zs: Seq<Seq<char>>, ss: Seq<Seq<i32>>, cap: Option<Seq<char>>, reps: Seq<usize>, n: int)
    requires
        grouped_upto(zs, ss, cap, reps, n),
        forall|p: int| 0 <= p < reps.len() ==> !is_capital(zs[reps[p] as int], cap),
    ensures
        grouping_done(zs, ss, cap, reps, n),
{
    lemma_ordered_distinct(ss, reps);
}

/// Moving the capital's group to the front finishes the grouping.
proof fn lemma_capital_to_front(
    zs: Seq<Seq<char>>,
    ss: Seq<Seq<i32>>,
    cap: Option<Seq<char>>,
    reps: Seq<usize>,
    k: int,
    n: int,
)
    requires
        n <= zs.len(),
        signature_per_zone(zs, ss),
        grouped_upto(zs, ss, cap, reps, n),
        0 <= k < reps.len(),
        is_capital(zs[reps[k] as int], cap),
    ensures
        grouping_done(zs, ss, cap, reps.remove(k).insert(0, reps[k]), n),
{
    let moved = reps.remove(k).insert(0, reps[k]);
    lemma_ordered_distinct(ss, reps);
    // where each moved group came from
    assert(moved.len() == reps.len());
    assert forall|p: int| 0 <= p < moved.len() implies #[trigger] moved[p] == reps[if p == 0 { k } else if p <= k { p - 1 } else { p }] by {
        if p > 0 {
            assert(moved[p] == reps.remove(k)[p - 1]);
        }
    }
    assert forall|p: int, q: int| 0 <= p < q < moved.len() implies ss[moved[p] as int] != ss[moved[q] as int] by {
        let op = if p == 0 { k } else if p <= k { p - 1 } else { p };
        let oq = if q == 0 { k } else if q <= k { q - 1 } else { q };
        assert(moved[p] == reps[op] && moved[q] == reps[oq]);
    }
    assert forall|j: int| 0 <= j < n implies has_group(ss, moved, #[trigger] ss[j]) by {
        assert(has_group(ss, reps, ss[j]));
        let q = choose|q: int| 0 <= q < reps.len() && #[trigger] ss[reps[q] as int] == ss[j];
        let nq = if q == k { 0 } else if q < k { q + 1 } else { q };
        assert(moved[nq] == reps[q]);
        assert(ss[moved[nq] as int] == ss[j]);
    }
    assert forall|p: int| 0 <= p < moved.len() implies #[trigger] stands_for_group(zs, ss, cap, n, moved[p] as int) by {
        let op = if p == 0 { k } else if p <= k { p - 1 } else { p };
        assert(moved[p] == reps[op]);
        assert(stands_for_group(zs, ss, cap, n, reps[op] as int));
    }
    assert forall|p: int| 0 < p < moved.len() implies !is_capital(zs[moved[p] as int], cap) by {
        let op = if p <= k { p - 1 } else { p };
        assert(moved[p] == reps[op]);
        if is_capital(zs[reps[op] as int], cap) {
            assert(zs[reps[op] as int] == zs[reps[k] as int]);
            assert(ss[reps[op] as int] == ss[reps[k] as int]);
        }
    }
    assert forall|p: int, q: int| 0 <= p < q < moved.len() && !is_capital(zs[moved[p] as int], cap) implies lex_less(ss[moved[p] as int], ss[moved[q] as int]) by {
        assert(p != 0);
        let op = if p <= k { p - 1 } else { p };
        let oq = if q <= k { q - 1 } else { q };
        assert(moved[p] == reps[op] && moved[q] == reps[oq]);
        assert(op < oq);
        assert(lex_less(ss[reps[op] as int], ss[reps[oq] as int]));
    }
}

/// Groups the zones by signature: one zone stands for each group, the capital's group
/// comes first, the others follow in increasing order of signature. The result holds
/// indices into `zones`.
pub fn group_zones(zones: &Vec<&str>, sigs: &Vec<Vec<i32>>, capital: Option<&str>) -> (res: Vec<usize>)
    requires
        signature_per_zone(str_views(zones@), signature_views(sigs@)),
    ensures
        grouping_done(str_views(zones@), signature_views(sigs@), opt_view(capital), res@, zones.len() as int),
{
    let ghost zs = str_views(zones@);
    let ghost ss = signature_views(sigs@);
    let ghost cap = opt_view(capital);
    let mut reps: Vec<usize> = Vec::new();
    let mut i: usize = 0;
    while i < zones.len()
        invariant
            i <= zones.len(),
            zs == str_views(zones@),
            ss == signature_views(sigs@),
            cap == opt_view(capital),
            signature_per_zone(zs, ss),
            grouped_upto(zs, ss, cap, reps@, i as int),
        decreases zones.len() - i,
    {
        add_zone(&mut reps, i, zones, sigs, capital);
        i = i + 1;
    }
    let mut k: usize = 0;
    let mut found = false;
    while k < reps.len() && !found
        invariant
            k <= reps.len(),
            zs == str_views(zones@),
            cap == opt_view(capital),
            grouped_upto(zs, ss, cap, reps@, zones.len() as int),
            found ==> k < reps.len() && is_capital(zs[reps@[k as int] as int], cap),
            !found ==> forall|p: int| 0 <= p < k ==> !is_capital(zs[reps@[p] as int], cap),
        decreases reps.len() - k + (if found { 0int } else { 1int }),
    {
        if is_capital_zone(zones[reps[k]], capital) {
            found = true;
        } else {
            k = k + 1;
        }
    }
    if found {
        proof {
            lemma_capital_to_front(zs, ss, cap, reps@, k as int, zones.len() as int);
        }
        let r = reps.remove(k);
        reps.insert(0, r);
    } else {
        proof {
            lemma_done_without_capital(zs, ss, cap, reps@, zones.len() as int);
        }
    }
    reps
}

} // verus!
