//! Fuzzy resolution of a spoken sensor name against the configured list.
use vstd::prelude::*;
use crate::skills::jeedom::{Sensor, sensors_view};
use crate::text::{char_count, to_lowercase, unicode_lowercase};

verus! {

/// What `strsim::damerau_levenshtein` returns for two strings: the
/// Damerau–Levenshtein edit distance between their characters.
pub uninterp spec fn dl_distance(a: Seq<char>, b: Seq<char>) -> nat;

/// Calls `strsim::damerau_levenshtein`. Its result is named `dl_distance`;
/// it is at most the longer length, as strsim documents of its normalized
/// form (`1 - distance / longer length`, a score between 0 and 1).
#[verifier::external_body]
fn damerau_levenshtein(a: &str, b: &str) -> (d: usize)
    ensures
        d == dl_distance(a@, b@),
        d <= a@.len() || d <= b@.len(),
{
    strsim::damerau_levenshtein(a, b)
}

/// The longer of two lengths.
pub open spec fn longer(a: Seq<char>, b: Seq<char>) -> nat {
    if a.len() >= b.len() { a.len() } else { b.len() }
}

/// Numerator of the normalized similarity `1 - distance / longer length`
/// (1 for two empty strings), over `similarity_den`.
pub open spec fn similarity_num(a: Seq<char>, b: Seq<char>) -> int {
    if longer(a, b) == 0 { 1 } else { longer(a, b) - dl_distance(a, b) }
}

pub open spec fn similarity_den(a: Seq<char>, b: Seq<char>) -> int {
    if longer(a, b) == 0 { 1 } else { longer(a, b) as int }
}

/// Similarity of at least 0.75, the acceptance threshold.
pub open spec fn close_enough(a: Seq<char>, b: Seq<char>) -> bool {
    4 * similarity_num(a, b) >= 3 * similarity_den(a, b)
}

/// `a1` is at least as similar to `b1` as `a2` is to `b2`.
pub open spec fn at_least_as_similar(a1: Seq<char>, b1: Seq<char>, a2: Seq<char>, b2: Seq<char>) -> bool {
    similarity_num(a1, b1) * similarity_den(a2, b2) >= similarity_num(a2, b2) * similarity_den(a1, b1)
}

/// The index of the best match of `asked` among `names`: the most similar
/// name above the threshold, the last one on ties.
pub open spec fn best_match(names: Seq<Seq<char>>, asked: Seq<char>) -> Option<int>
    decreases names.len(),
{
    if names.len() == 0 {
        None
    } else {
        let prev = best_match(names.drop_last(), asked);
        let i = names.len() - 1;
        if close_enough(names[i], asked) {
            match prev {
                None => Some(i),
                Some(p) => if at_least_as_similar(names[i], asked, names[p], asked) { Some(i) } else { prev },
            }
        } else {
            prev
        }
    }
}

/// The lowercased names of a sensor list.
pub open spec fn lowered_names(list: Seq<Sensor>) -> Seq<Seq<char>> {
    list.map_values(|s: Sensor| unicode_lowercase(s.name@))
}

proof fn lemma_best_match_bound(names: Seq<Seq<char>>, asked: Seq<char>)
    ensures
        best_match(names, asked) matches Some(p) ==> 0 <= p < names.len(),
    decreases names.len(),
{
    if names.len() > 0 {
        lemma_best_match_bound(names.drop_last(), asked);
    }
}

/// Fuzzy-resolves the spoken sensor name against a sensor list, ignoring
/// letter case: the index of the most similar sensor whose similarity
/// reaches 0.75.
pub fn resolve_in(list: &[Sensor], asked: &str) -> (r: Option<usize>)
    ensures
        match best_match(lowered_names(list@), unicode_lowercase(asked@)) {
            Some(i) => r == Some(i as usize),
            None => r is None,
        },
        r matches Some(i) ==> i < list@.len(),
{
    let asked_lower = to_lowercase(asked);
    let ghost a = asked_lower@;
    let ghost names = lowered_names(list@);
    let alen = char_count(asked_lower.as_str());
    let mut best: Option<(usize, u128, u128)> = None;
    let mut i: usize = 0;
    while i < list.len()
        invariant
            i <= list.len(),
            a == unicode_lowercase(asked@),
            asked_lower@ == a,
            names == lowered_names(list@),
            alen == a.len(),
            match best_match(names.take(i as int), a) {
                Some(p) => best matches Some((bi, bn, bd)) && bi == p && bn == similarity_num(names[p], a)
                    && bd == similarity_den(names[p], a) && bn <= u64::MAX && bd <= u64::MAX,
                None => best is None,
            },
        decreases list.len() - i,
    {
        let name = to_lowercase(list[i].name.as_str());
        assert(name@ == names[i as int]);
        let nlen = char_count(name.as_str());
        let d = damerau_levenshtein(name.as_str(), asked_lower.as_str());
        let m: usize = if nlen >= alen { nlen } else { alen };
        let (num, den): (u128, u128) = if m == 0 { (1, 1) } else { ((m - d) as u128, m as u128) };
        assert(num == similarity_num(name@, a) && den == similarity_den(name@, a));
        proof {
            assert(names.take(i + 1).drop_last() =~= names.take(i as int));
            assert(names.take(i + 1)[i as int] == names[i as int]);
            lemma_best_match_bound(names.take(i as int), a);
            match best_match(names.take(i as int), a) {
                Some(p) => {
                    assert(names.take(i + 1)[p] == names[p]);
                    assert(names.take(i as int)[p] == names[p]);
                },
                None => {},
            }
        }
        if 4 * num >= 3 * den {
            match best {
                None => {
                    best = Some((i, num, den));
                },
                Some((_, bn, bd)) => {
                    assert(num * bd <= u64::MAX as u128 * u64::MAX as u128) by (nonlinear_arith)
                        requires num <= u64::MAX, bd <= u64::MAX;
                    assert(bn * den <= u64::MAX as u128 * u64::MAX as u128) by (nonlinear_arith)
                        requires bn <= u64::MAX, den <= u64::MAX;
                    if num * bd >= bn * den {
                        best = Some((i, num, den));
                    }
                },
            }
        }
        i = i + 1;
    }
    assert(names.take(list.len() as int) == names);
    proof {
        lemma_best_match_bound(names, a);
    }
    match best {
        Some((bi, _, _)) => Some(bi),
        None => None,
    }
}

/// The normalized Damerau–Levenshtein similarity of two strings, as a
/// fraction: `similarity_num / similarity_den`.
pub fn similarity(a: &str, b: &str) -> (r: (u128, u128))
    ensures
        r.0 == similarity_num(a@, b@),
        r.1 == similarity_den(a@, b@),
        r.0 <= u64::MAX,
        r.1 <= u64::MAX,
{
    let la = char_count(a);
    let lb = char_count(b);
    let d = damerau_levenshtein(a, b);
    let m: usize = if la >= lb { la } else { lb };
    if m == 0 { (1, 1) } else { ((m - d) as u128, m as u128) }
}

} // verus!
