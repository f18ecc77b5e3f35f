//! The npm change feed: package references built from registry metadata,
//! and the version order used to pick a package's latest release.
use vstd::prelude::*;
use core::cmp::Ordering;
use crate::feed::ecosystem::{Ecosystem, PackageRef};
use crate::text::{
    append_all, chars_of, parse_unsigned, parse_unsigned_chars, slice_chars, split_at_char,
    split_on, string_of, views,
};

verus! {

/// `str::trim_start_matches('v')`: every leading `v` removed.
pub open spec fn strip_leading_v(s: Seq<char>) -> Seq<char>
    decreases s.len(),
{
    if s.len() > 0 && s[0] == 'v' {
        strip_leading_v(s.skip(1))
    } else {
        s
    }
}

/// The fields that parse as `u32`, in order; the others are dropped.
pub open spec fn parsed_parts(fields: Seq<Seq<char>>) -> Seq<u32>
    decreases fields.len(),
{
    if fields.len() == 0 {
        Seq::empty()
    } else {
        let rest = parsed_parts(fields.drop_last());
        match parse_unsigned(fields.last(), 0xffff_ffffnat) {
            Some(v) => rest.push(v as u32),
            None => rest,
        }
    }
}

/// The numeric parts of a version string: leading `v`s dropped, split at
/// `.`, and the parts that are not numbers skipped.
pub open spec fn version_parts(v: Seq<char>) -> Seq<u32> {
    parsed_parts(split_on(strip_leading_v(v), '.'))
}

/// Lexicographic comparison of two part lists, as `Vec::cmp` orders them:
/// -1, 0 or 1.
pub open spec fn lex_sign(a: Seq<u32>, b: Seq<u32>) -> int
    decreases a.len(),
{
    if a.len() == 0 && b.len() == 0 {
        0
    } else if a.len() == 0 {
        -1
    } else if b.len() == 0 {
        1
    } else if a[0] < b[0] {
        -1
    } else if a[0] > b[0] {
        1
    } else {
        lex_sign(a.skip(1), b.skip(1))
    }
}

/// The ordering a sign stands for.
pub open spec fn sign_ordering(s: int) -> Ordering {
    if s < 0 {
        Ordering::Less
    } else if s == 0 {
        Ordering::Equal
    } else {
        Ordering::Greater
    }
}

/// Swapping the arguments negates the comparison.
pub proof fn lemma_lex_sign_antisymmetric(a: Seq<u32>, b: Seq<u32>)
    ensures
        lex_sign(a, b) == -lex_sign(b, a),
        -1 <= lex_sign(a, b) <= 1,
    decreases a.len(),
{
    if a.len() > 0 && b.len() > 0 && a[0] == b[0] {
        lemma_lex_sign_antisymmetric(a.skip(1), b.skip(1));
    }
}

/// The order is transitive.
pub proof fn lemma_lex_sign_transitive(a: Seq<u32>, b: Seq<u32>, c: Seq<u32>)
    requires
        lex_sign(a, b) >= 0,
        lex_sign(b, c) >= 0,
    ensures
        lex_sign(a, c) >= 0,
    decreases a.len(),
{
    if a.len() > 0 && b.len() > 0 && c.len() > 0 && a[0] == b[0] && b[0] == c[0] {
        lemma_lex_sign_transitive(a.skip(1), b.skip(1), c.skip(1));
    }
}

/// The numeric parts of a version string.
pub fn version_parts_of(v: &str) -> (r: Vec<u32>)
    ensures
        r@ == version_parts(v@),
{
    let cs = chars_of(v);
    let n = cs.len();
    let mut start: usize = 0;
    assert(cs@.skip(0) == cs@);
    while start < n && cs[start] == 'v'
        invariant
            n == cs@.len(),
            start <= n,
            strip_leading_v(cs@) == strip_leading_v(cs@.skip(start as int)),
        decreases n - start,
    {
        assert(cs@.skip(start as int).skip(1) == cs@.skip(start + 1));
        start = start + 1;
    }
    let rest = slice_chars(&cs, start, n);
    assert(rest@ == cs@.skip(start as int));
    let fields = split_at_char(&rest, '.');
    let ghost fv = views(fields@);
    let mut parts: Vec<u32> = Vec::new();
    let m = fields.len();
    for i in 0..m
        invariant
            m == fields@.len(),
            fv == views(fields@),
            parts@ == parsed_parts(fv.take(i as int)),
    {
        assert(fv.take(i + 1).drop_last() == fv.take(i as int));
        assert(fv.take(i + 1).last() == fields@[i as int]@);
        match parse_unsigned_chars(&fields[i], 0xffff_ffffu64) {
            Some(x) => parts.push(x as u32),
            None => {},
        }
    }
    assert(fv.take(m as int) == fv);
    parts
}

/// The parts after the first `i`.
pub open spec fn tail_from(s: Seq<u32>, i: usize) -> Seq<u32> {
    s.skip(i as int)
}

/// The parts of the version at position `k`.
pub open spec fn parts_of_entry(versions: Seq<String>, k: usize) -> Seq<u32> {
    version_parts(versions[k as int]@)
}

/// Compare two version strings by their numeric parts, lexicographically.
pub fn semver_cmp(a: &str, b: &str) -> (r: Ordering)
    ensures
        r == sign_ordering(lex_sign(version_parts(a@), version_parts(b@))),
{
    let pa = version_parts_of(a);
    let pb = version_parts_of(b);
    let mut i: usize = 0;
    assert(pa@.skip(0) == pa@);
    assert(pb@.skip(0) == pb@);
    while i < pa.len() && i < pb.len()
        invariant
            pa@ == version_parts(a@),
            pb@ == version_parts(b@),
            i <= pa@.len(),
            i <= pb@.len(),
            lex_sign(pa@, pb@) == lex_sign(tail_from(pa@, i), tail_from(pb@, i)),
        decreases pa@.len() - i,
    {
        assert(tail_from(pa@, i)[0] == pa@[i + 0] && tail_from(pb@, i)[0] == pb@[i + 0]);
        if pa[i] < pb[i] {
            return Ordering::Less;
        } else if pa[i] > pb[i] {
            return Ordering::Greater;
        }
        assert(tail_from(pa@, i).skip(1) == pa@.skip(i + 1));
        assert(tail_from(pb@, i).skip(1) == pb@.skip(i + 1));
        i = i + 1;
    }
    if pa.len() == pb.len() {
        Ordering::Equal
    } else if pa.len() < pb.len() {
        Ordering::Less
    } else {
        Ordering::Greater
    }
}

/// The sign `semver_cmp` gives two version strings: -1, 0 or 1.
pub open spec fn version_order(a: Seq<char>, b: Seq<char>) -> int {
    lex_sign(version_parts(a), version_parts(b))
}

/// `semver_cmp` is antisymmetric: swapping the versions turns `Less` into
/// `Greater` and keeps `Equal`.
pub proof fn law_semver_cmp_antisymmetric(a: Seq<char>, b: Seq<char>)
    ensures
        version_order(a, b) == -version_order(b, a),
        sign_ordering(version_order(a, b)) == Ordering::Less <==> sign_ordering(version_order(b, a))
            == Ordering::Greater,
        sign_ordering(version_order(a, b)) == Ordering::Equal <==> sign_ordering(version_order(b, a))
            == Ordering::Equal,
{
    lemma_lex_sign_antisymmetric(version_parts(a), version_parts(b));
}

/// `semver_cmp` is transitive: a version not after a second, which is not
/// after a third, is not after the third.
pub proof fn law_semver_cmp_transitive(a: Seq<char>, b: Seq<char>, c: Seq<char>)
    requires
        sign_ordering(version_order(a, b)) != Ordering::Greater,
        sign_ordering(version_order(b, c)) != Ordering::Greater,
    ensures
        sign_ordering(version_order(a, c)) != Ordering::Greater,
{
    lemma_lex_sign_antisymmetric(version_parts(a), version_parts(b));
    lemma_lex_sign_antisymmetric(version_parts(b), version_parts(c));
    lemma_lex_sign_antisymmetric(version_parts(a), version_parts(c));
    lemma_lex_sign_transitive(version_parts(c), version_parts(b), version_parts(a));
}

/// The parts of the `k`-th version.
pub open spec fn parts_at(versions: Seq<String>, k: int) -> Seq<u32> {
    version_parts(versions[k]@)
}

/// `k` is the last position holding a greatest version.
pub open spec fn is_last_max(versions: Seq<String>, k: int) -> bool {
    &&& 0 <= k < versions.len()
    &&& forall|j: int|
        0 <= j < versions.len() ==> lex_sign(parts_at(versions, k), #[trigger] parts_at(versions, j))
            >= 0
    &&& forall|j: int|
        k < j < versions.len() ==> lex_sign(parts_at(versions, k), #[trigger] parts_at(versions, j))
            > 0
}

/// The greatest version by `semver_cmp`, the last of equals, as
/// `Iterator::max_by` picks it.
pub fn latest_version(versions: &[String]) -> (r: Option<String>)
    ensures
        r is None <==> versions@.len() == 0,
        r matches Some(v) ==> exists|k: int| is_last_max(versions@, k) && versions@[k] == v,
{
    if versions.len() == 0 {
        return None;
    }
    let n = versions.len();
    let mut best: usize = 0;
    proof {
        lemma_lex_sign_antisymmetric(parts_at(versions@, 0), parts_at(versions@, 0));
    }
    for i in 1..n
        invariant
            n == versions@.len(),
            best < i,
            forall|j: int|
                0 <= j < i ==> lex_sign(parts_of_entry(versions@, best), #[trigger] parts_at(versions@, j))
                    >= 0,
            forall|j: int|
                best < j < i ==> lex_sign(parts_of_entry(versions@, best), #[trigger] parts_at(versions@, j))
                    > 0,
    {
        let c = semver_cmp(versions[best].as_str(), versions[i].as_str());
        let ghost pb = parts_of_entry(versions@, best);
        let ghost pi = parts_of_entry(versions@, i);
        match c {
            Ordering::Greater => {},
            _ => {
                proof {
                    lemma_lex_sign_antisymmetric(pb, pi);
                    assert forall|j: int| 0 <= j < i + 1 implies lex_sign(pi, #[trigger] parts_at(versions@, j)) >= 0 by {
                        if j < i {
                            lemma_lex_sign_transitive(pi, pb, parts_at(versions@, j));
                        } else {
                            lemma_lex_sign_antisymmetric(pi, pi);
                        }
                    }
                }
                best = i;
            },
        }
    }
    Some(versions[best].clone())
}

/// A change-feed entry names a package unless its id begins with `_`
/// (design documents of the replica).
pub fn is_package_id(id: &str) -> (r: bool)
    ensures
        r == !(id@.len() > 0 && id@[0] == '_'),
{
    let cs = chars_of(id);
    !(cs.len() > 0 && cs[0] == '_')
}

/// Registry metadata of an npm package: its name, description and the
/// versions it has published.
#[derive(Debug, Clone)]
pub struct NpmPackageMetadata {
    pub name: Option<String>,
    pub description: Option<String>,
    pub versions: Vec<String>,
}

/// The npmjs.com page of a package.
pub open spec fn npm_link(id: Seq<char>) -> Seq<char> {
    "https://www.npmjs.com/package/"@ + id
}

/// The npmjs.com page of a package.
pub fn npm_link_of(id: &str) -> (r: String)
    ensures
        r@ == npm_link(id@),
{
    let mut out = chars_of("https://www.npmjs.com/package/");
    append_all(&mut out, &chars_of(id));
    string_of(&out)
}

/// The package reference for a change-feed entry: from its metadata when
/// the registry returned it, else from the id alone.
pub fn npm_package_ref(pkg_id: &str, meta: Option<NpmPackageMetadata>) -> (r: PackageRef)
    ensures
        r.ecosystem == Ecosystem::Npm,
        r.author is None,
        r.published_date is None,
        r.link matches Some(l) && l@ == npm_link(pkg_id@),
        match meta {
            Some(m) => {
                &&& r.name@ == (match m.name {
                    Some(x) => x@,
                    None => pkg_id@,
                })
                &&& r.title == m.name
                &&& r.description == m.description
                &&& (r.version is None <==> m.versions@.len() == 0)
                &&& (r.version matches Some(v) ==> exists|k: int|
                    is_last_max(m.versions@, k) && m.versions@[k] == v)
            },
            None => {
                &&& r.name@ == pkg_id@
                &&& r.title matches Some(t) && t@ == pkg_id@
                &&& r.description is None
                &&& r.version is None
            },
        },
{
    let link = npm_link_of(pkg_id);
    match meta {
        Some(m) => {
            let version = latest_version(&m.versions);
            let name = match &m.name {
                Some(x) => x.clone(),
                None => pkg_id.to_owned(),
            };
            PackageRef {
                ecosystem: Ecosystem::Npm,
                name,
                version,
                title: m.name,
                description: m.description,
                link: Some(link),
                author: None,
                published_date: None,
            }
        },
        None => PackageRef {
            ecosystem: Ecosystem::Npm,
            name: pkg_id.to_owned(),
            version: None,
            title: Some(pkg_id.to_owned()),
            description: None,
            link: Some(link),
            author: None,
            published_date: None,
        },
    }
}

/// The change-feed request: fifty changes, from the cursor when there is one.
pub open spec fn changes_url(since: Option<Seq<char>>) -> Seq<char> {
    match since {
        Some(seq) => "https://replicate.npmjs.com/_changes?since="@ + seq + "&limit=50"@,
        None => "https://replicate.npmjs.com/_changes?limit=50"@,
    }
}

/// The change-feed request URL.
pub fn changes_url_for(since: Option<&str>) -> (r: String)
    ensures
        r@ == changes_url(
            match since {
                Some(s) => Some(s@),
                None => None,
            },
        ),
{
    match since {
        Some(seq) => {
            let mut out = chars_of("https://replicate.npmjs.com/_changes?since=");
            append_all(&mut out, &chars_of(seq));
            append_all(&mut out, &chars_of("&limit=50"));
            string_of(&out)
        },
        None => "https://replicate.npmjs.com/_changes?limit=50".to_owned(),
    }
}

} // verus!
