//! Typosquatting: new package names that lie a small edit distance away
//! from a popular package's name.
use vstd::prelude::*;
use crate::feed::ecosystem::PackageRef;
use crate::text::{append_all, byte_len, chars_of, decimal, decimal_chars, str_byte_len, string_of, string_views};

verus! {

/// The Levenshtein distance: the fewest single-character insertions,
/// deletions and substitutions that turn `a` into `b`.
pub open spec fn edit_distance(a: Seq<char>, b: Seq<char>) -> nat
    decreases a.len() + b.len(),
{
    if a.len() == 0 {
        b.len()
    } else if b.len() == 0 {
        a.len()
    } else {
        let sub = edit_distance(a.drop_last(), b.drop_last()) + if a.last() == b.last() {
            0nat
        } else {
            1nat
        };
        let del = edit_distance(a.drop_last(), b) + 1;
        let ins = edit_distance(a, b.drop_last()) + 1;
        if sub <= del && sub <= ins {
            sub
        } else if del <= ins {
            del
        } else {
            ins
        }
    }
}

/// `levenshtein::levenshtein`: the edit distance between two strings,
/// counted in characters. The contract claims the crate computes exactly
/// the Levenshtein distance.
#[verifier::external_body]
fn get_levenshtein_distance(str1: &str, str2: &str) -> (r: usize)
    ensures
        r == edit_distance(str1@, str2@),
{
    levenshtein::levenshtein(str1, str2)
}

/// Risk points of a near-miss name, by its distance.
pub open spec fn distance_risk(distance: int) -> u8 {
    if distance == 1 {
        90
    } else if distance == 2 {
        75
    } else if distance == 3 {
        60
    } else {
        40
    }
}

/// Calculate the risk score of a near-miss name from its distance: one
/// character off is very suspicious, four or more less so.
pub fn calculate_risk_score(distance: usize) -> (r: u8)
    ensures
        r == distance_risk(distance as int),
{
    if distance == 1 {
        90
    } else if distance == 2 {
        75
    } else if distance == 3 {
        60
    } else {
        40
    }
}

/// A new package whose name is close to a popular package's.
#[derive(Debug, Clone)]
pub struct TyposquatFinding {
    pub rule_name: String,
    pub risk_score: u8,
    pub evidence: String,
    pub legit_package_name: String,
    /// Edit distance between the two names.
    pub distance: usize,
    /// Length of the new package's name, in bytes.
    pub name_len: usize,
}

/// A popular name within the threshold of `name`, and not equal to it.
pub open spec fn near_miss(name: Seq<char>, popular: Seq<char>, threshold: int) -> bool {
    0 < edit_distance(name, popular) <= threshold
}

/// The popular name closest to `name` among its near misses (the first of
/// them on a tie), or -1 when there is none.
pub open spec fn closest_near_miss(name: Seq<char>, popular: Seq<Seq<char>>, threshold: int) -> int
    decreases popular.len(),
{
    if popular.len() == 0 {
        -1
    } else {
        let r = closest_near_miss(name, popular.skip(1), threshold);
        if near_miss(name, popular[0], threshold) && (r < 0 || edit_distance(name, popular[0])
            <= edit_distance(name, popular.skip(1)[r])) {
            0
        } else if r < 0 {
            -1
        } else {
            r + 1
        }
    }
}

/// The evidence line of a near miss.
pub open spec fn squat_evidence(name: Seq<char>, distance: nat, popular: Seq<char>) -> Seq<char> {
    "'"@ + name + "' differs by "@ + decimal(distance) + " character(s) from '"@ + popular + "'"@
}

/// The finding for a package, if its name is long enough and close to a
/// popular name: (popular name, distance, evidence, name length).
pub open spec fn squat_of(pkg: PackageRef, popular: Seq<Seq<char>>, threshold: int, min_len: int) -> Option<
    (Seq<char>, nat, Seq<char>, nat),
> {
    match pkg.title {
        Some(t) => {
            let name = t@;
            let j = closest_near_miss(name, popular, threshold);
            if byte_len(name) < min_len || j < 0 {
                None
            } else {
                let d = edit_distance(name, popular[j]);
                Some((popular[j], d, squat_evidence(name, d, popular[j]), byte_len(name)))
            }
        },
        None => None,
    }
}

/// The findings for the packages, in order, at most one per package.
pub open spec fn squats(
    pkgs: Seq<PackageRef>,
    popular: Seq<Seq<char>>,
    threshold: int,
    min_len: int,
) -> Seq<(Seq<char>, nat, Seq<char>, nat)>
    decreases pkgs.len(),
{
    if pkgs.len() == 0 {
        Seq::empty()
    } else {
        let rest = squats(pkgs.drop_last(), popular, threshold, min_len);
        match squat_of(pkgs.last(), popular, threshold, min_len) {
            Some(f) => rest.push(f),
            None => rest,
        }
    }
}

/// A finding as (popular name, distance, evidence, name length).
pub open spec fn finding_tuple(f: TyposquatFinding) -> (Seq<char>, nat, Seq<char>, nat) {
    (f.legit_package_name@, f.distance as nat, f.evidence@, f.name_len as nat)
}

/// Every finding is a `typosquat_detection` with the risk of its distance.
pub open spec fn well_formed_finding(f: TyposquatFinding) -> bool {
    f.rule_name@ == "typosquat_detection"@ && f.risk_score == distance_risk(f.distance as int)
}

/// The closest near miss of `name` among the popular names, with its
/// distance.
fn closest_popular(name: &str, popular: &[String], threshold: usize) -> (r: Option<(usize, usize)>)
    ensures
        match r {
            Some((j, d)) => j < popular@.len() && j == closest_near_miss(
                name@,
                string_views(popular@),
                threshold as int,
            ) && d == edit_distance(name@, popular@[j as int]@),
            None => closest_near_miss(name@, string_views(popular@), threshold as int) < 0,
        },
{
    let ghost ps = string_views(popular@);
    let n = popular.len();
    let mut i: usize = n;
    let mut found: Option<(usize, usize)> = None;
    while i > 0
        invariant
            n == popular@.len(),
            ps == string_views(popular@),
            i <= n,
            match found {
                Some((j, d)) => i <= j < n && j - i == closest_near_miss(name@, ps.skip(i as int), threshold as int)
                    && d == edit_distance(name@, popular@[j as int]@),
                None => closest_near_miss(name@, ps.skip(i as int), threshold as int) < 0,
            },
        decreases i,
    {
        let k = i - 1;
        let d = get_levenshtein_distance(name, popular[k].as_str());
        assert(ps.skip(k as int)[0] == popular@[k as int]@);
        assert(ps.skip(k as int).skip(1) == ps.skip(i as int));
        let closer = match found {
            Some((_, fd)) => d <= fd,
            None => true,
        };
        if d > 0 && d <= threshold && closer {
            found = Some((k, d));
        }
        i = k;
    }
    assert(ps.skip(0) == ps);
    found
}

/// Compare each new package with the popular packages and report, for each
/// whose name is at least `min_len` bytes long, the closest popular package
/// at a distance from 1 to `threshold` (the earliest listed on a tie).
pub fn find_typosquats(
    new_packages: &[PackageRef],
    popular: &[String],
    threshold: usize,
    min_len: usize,
) -> (r: Vec<TyposquatFinding>)
    requires
        forall|i: int|
            0 <= i < new_packages@.len() ==> ((#[trigger] new_packages@[i]).title matches Some(t)
                ==> byte_len(t@) <= usize::MAX),
    ensures
        r@.len() == squats(new_packages@, string_views(popular@), threshold as int, min_len as int).len(),
        forall|i: int|
            0 <= i < r@.len() ==> finding_tuple(#[trigger] r@[i]) == squats(
                new_packages@,
                string_views(popular@),
                threshold as int,
                min_len as int,
            )[i] && well_formed_finding(r@[i]),
{
    let ghost ps = string_views(popular@);
    let mut out: Vec<TyposquatFinding> = Vec::new();
    let n = new_packages.len();
    for i in 0..n
        invariant
            n == new_packages@.len(),
            ps == string_views(popular@),
            forall|i: int|
                0 <= i < new_packages@.len() ==> ((#[trigger] new_packages@[i]).title matches Some(t)
                    ==> byte_len(t@) <= usize::MAX),
            out@.len() == squats(new_packages@.take(i as int), ps, threshold as int, min_len as int).len(),
            forall|j: int|
                0 <= j < out@.len() ==> finding_tuple(#[trigger] out@[j]) == squats(
                    new_packages@.take(i as int),
                    ps,
                    threshold as int,
                    min_len as int,
                )[j] && well_formed_finding(out@[j]),
    {
        assert(new_packages@.take(i + 1).drop_last() == new_packages@.take(i as int));
        assert(new_packages@.take(i + 1).last() == new_packages@[i as int]);
        let pkg = &new_packages[i];
        match &pkg.title {
            Some(name) => {
                let len = str_byte_len(name.as_str());
                if len >= min_len {
                    match closest_popular(name.as_str(), popular, threshold) {
                        Some((j, d)) => {
                            let pop = &popular[j];
                            let mut ev = chars_of("'");
                            append_all(&mut ev, &chars_of(name.as_str()));
                            append_all(&mut ev, &chars_of("' differs by "));
                            append_all(&mut ev, &decimal_chars(d as u64));
                            append_all(&mut ev, &chars_of(" character(s) from '"));
                            append_all(&mut ev, &chars_of(pop.as_str()));
                            append_all(&mut ev, &chars_of("'"));
                            assert(ev@ =~= squat_evidence(name@, d as nat, pop@));
                            let f = TyposquatFinding {
                                rule_name: "typosquat_detection".to_owned(),
                                risk_score: calculate_risk_score(d),
                                evidence: string_of(&ev),
                                legit_package_name: pop.clone(),
                                distance: d,
                                name_len: len,
                            };
                            out.push(f);
                        },
                        None => {},
                    }
                }
            },
            None => {},
        }
    }
    assert(new_packages@.take(n as int) == new_packages@);
    out
}

} // verus!
