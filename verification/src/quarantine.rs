//! Quarantine: where a flagged package's archive is kept, how its entry is
//! named, and which entries are evicted to stay within the disk budget.
use vstd::prelude::*;
use crate::feed::ecosystem::{ecosystem_label, Ecosystem};
use crate::output::{severity_band, severity_label};
use crate::text::{append_all, chars_of, contains_seq, decimal, decimal_chars, ends_with, is_ascii_alnum, occurs_at, replace, replace_all, string_of};

verus! {

/// Where a quarantined package was written.
pub struct QuarantineResult {
    pub path: String,
    pub archive_file: String,
    pub metadata_file: Option<String>,
    pub bytes_written: u64,
}

/// A downloaded package to quarantine.
#[derive(Clone)]
pub struct QuarantinePayload {
    pub raw_data: Vec<u8>,
    pub download_url: String,
    pub package_name: String,
    pub package_version: Option<String>,
    pub ecosystem: Ecosystem,
}

/// A character as it may stand in a path component: ASCII letters, digits,
/// `-`, `_` and `.` are kept, anything else becomes `_`.
pub open spec fn path_char(c: char) -> char {
    if is_ascii_alnum(c) || c == '-' || c == '_' || c == '.' {
        c
    } else {
        '_'
    }
}

/// Every character made safe for a path component.
pub open spec fn path_chars(s: Seq<char>) -> Seq<char> {
    Seq::new(s.len(), |i: int| path_char(s[i]))
}

/// A name safe as one path component: characters mapped by `path_char`,
/// then every `..` replaced by `_`.
pub open spec fn safe_path_name(s: Seq<char>) -> Seq<char> {
    replace_all(path_chars(s), ".."@, "_"@)
}

/// Make a name safe as one path component.
pub fn sanitize_name(s: &str) -> (r: String)
    ensures
        r@ == safe_path_name(s@),
{
    let cs = chars_of(s);
    let n = cs.len();
    let mut m: Vec<char> = Vec::new();
    for i in 0..n
        invariant
            n == cs@.len(),
            m@.len() == i,
            forall|j: int| 0 <= j < i ==> m@[j] == path_char(#[trigger] cs@[j]),
    {
        let c = cs[i];
        let d = if crate::text::char_is_ascii_alnum(c) || c == '-' || c == '_' || c == '.' {
            c
        } else {
            '_'
        };
        m.push(d);
    }
    assert(m@ =~= path_chars(s@));
    let dots = chars_of("..");
    proof {
        reveal_strlit("..");
    }
    string_of(&replace(&m, &dots, &chars_of("_")))
}

/// A character allowed in a path component by `path_char`.
pub open spec fn component_char(c: char) -> bool {
    is_ascii_alnum(c) || c == '-' || c == '_' || c == '.'
}

proof fn lemma_dots_replaced(t: Seq<char>)
    requires
        forall|i: int| 0 <= i < t.len() ==> component_char(#[trigger] t[i]),
    ensures
        forall|i: int|
            0 <= i < replace_all(t, ".."@, "_"@).len() ==> component_char(
                #[trigger] replace_all(t, ".."@, "_"@)[i],
            ),
        forall|i: int|
            0 <= i && i + 1 < replace_all(t, ".."@, "_"@).len() ==> !(#[trigger] replace_all(
                t,
                ".."@,
                "_"@,
            )[i] == '.' && replace_all(t, ".."@, "_"@)[i + 1] == '.'),
        replace_all(t, ".."@, "_"@).len() > 0 && replace_all(t, ".."@, "_"@)[0] == '.' ==> t.len()
            > 0 && t[0] == '.' && !(t.len() >= 2 && t[1] == '.'),
    decreases t.len(),
{
    reveal_strlit("..");
    reveal_strlit("_");
    let p = ".."@;
    let u = "_"@;
    let r = replace_all(t, p, u);
    if t.len() < 2 {
        assert(r == t);
    } else if t.take(2) == p {
        let rest = t.skip(2);
        lemma_dots_replaced(rest);
        let rr = replace_all(rest, p, u);
        assert(r == u + rr);
        assert forall|i: int| 0 <= i < r.len() implies component_char(#[trigger] r[i]) by {
            if i > 0 {
                assert(r[i] == rr[i - 1]);
            }
        }
        assert forall|i: int| 0 <= i && i + 1 < r.len() implies !(#[trigger] r[i] == '.' && r[i + 1] == '.') by {
            if i > 0 {
                assert(r[i] == rr[i - 1] && r[i + 1] == rr[i]);
            }
        }
    } else {
        let rest = t.skip(1);
        lemma_dots_replaced(rest);
        let rr = replace_all(rest, p, u);
        assert(r == seq![t[0]] + rr);
        assert forall|i: int| 0 <= i < r.len() implies component_char(#[trigger] r[i]) by {
            if i > 0 {
                assert(r[i] == rr[i - 1]);
            }
        }
        assert forall|i: int| 0 <= i && i + 1 < r.len() implies !(#[trigger] r[i] == '.' && r[i + 1] == '.') by {
            if i > 0 {
                assert(r[i] == rr[i - 1] && r[i + 1] == rr[i]);
            } else if t[0] == '.' && rr.len() > 0 && rr[0] == '.' {
                assert(rest[0] == '.');
                assert(t.take(2) =~= p);
            }
        }
        if t[0] == '.' {
            assert(t[1] != '.') by {
                if t[1] == '.' {
                    assert(t.take(2) =~= p);
                }
            }
        }
    }
}

/// A sanitized name is a single, harmless path component: it holds only
/// ASCII letters, digits, `-`, `_` and `.` (so no separator), and no `..`.
pub proof fn law_sanitized_name_is_one_component(s: Seq<char>)
    ensures
        forall|i: int| 0 <= i < safe_path_name(s).len() ==> component_char(#[trigger] safe_path_name(s)[i]),
        !contains_seq(safe_path_name(s), ".."@),
{
    reveal_strlit("..");
    let t = path_chars(s);
    assert forall|i: int| 0 <= i < t.len() implies component_char(#[trigger] t[i]) by {}
    lemma_dots_replaced(t);
    let r = safe_path_name(s);
    if contains_seq(r, ".."@) {
        let i = choose|i: int| occurs_at(r, ".."@, i);
        assert(r.subrange(i, i + 2)[0] == r[i] && r.subrange(i, i + 2)[1] == r[i + 1]);
        assert(r[i] == '.' && r[i + 1] == '.');
    }
}

/// The archive's extension: `.whl` for a wheel or zip download, else
/// `.tar.gz`.
pub open spec fn archive_ext(url: Seq<char>) -> Seq<char> {
    if crate::text::has_suffix(url, ".whl"@) || crate::text::has_suffix(url, ".zip"@) {
        ".whl"@
    } else {
        ".tar.gz"@
    }
}

/// The extension the archive of a download is stored under.
pub fn archive_extension(url: &str) -> (r: &'static str)
    ensures
        r@ == archive_ext(url@),
{
    let u = chars_of(url);
    if ends_with(&u, &chars_of(".whl")) || ends_with(&u, &chars_of(".zip")) {
        ".whl"
    } else {
        ".tar.gz"
    }
}

/// The directory of an ecosystem under the quarantine root.
pub fn ecosystem_dir_name(ecosystem: Ecosystem) -> (r: &'static str)
    ensures
        r@ == ecosystem_label(ecosystem),
{
    ecosystem.label()
}

/// The name of a package's quarantine entry: safe name, safe version
/// (`unknown` when none), and timestamp, joined by `_`.
pub open spec fn entry_name(name: Seq<char>, version: Option<Seq<char>>, timestamp: Seq<char>) -> Seq<char> {
    safe_path_name(name) + "_"@ + safe_path_name(
        match version {
            Some(v) => v,
            None => "unknown"@,
        },
    ) + "_"@ + timestamp
}

/// The directory name of a package's quarantine entry.
pub fn entry_dir_name(name: &str, version: Option<&str>, timestamp: &str) -> (r: String)
    ensures
        r@ == entry_name(
            name@,
            match version {
                Some(v) => Some(v@),
                None => None,
            },
            timestamp@,
        ),
{
    let safe_name = sanitize_name(name);
    let safe_version = match version {
        Some(v) => sanitize_name(v),
        None => sanitize_name("unknown"),
    };
    let mut out = chars_of(safe_name.as_str());
    append_all(&mut out, &chars_of("_"));
    append_all(&mut out, &chars_of(safe_version.as_str()));
    append_all(&mut out, &chars_of("_"));
    append_all(&mut out, &chars_of(timestamp));
    string_of(&out)
}

/// The quarantine log line of a package: time, name, ecosystem, severity,
/// severity band and recommendation.
pub open spec fn log_line(
    timestamp: Seq<char>,
    name: Seq<char>,
    eco: Ecosystem,
    severity: u8,
    recommendation: Seq<char>,
) -> Seq<char> {
    timestamp + " "@ + name + " "@ + ecosystem_label(eco) + " "@ + decimal(severity as nat) + " "@
        + severity_band(severity as int) + " "@ + recommendation + "\n"@
}

/// The line appended to the quarantine log for a package.
pub fn audit_log_line(
    timestamp: &str,
    name: &str,
    ecosystem: Ecosystem,
    severity: u8,
    recommendation: &str,
) -> (r: String)
    ensures
        r@ == log_line(timestamp@, name@, ecosystem, severity, recommendation@),
{
    let mut out = chars_of(timestamp);
    append_all(&mut out, &chars_of(" "));
    append_all(&mut out, &chars_of(name));
    append_all(&mut out, &chars_of(" "));
    append_all(&mut out, &chars_of(ecosystem_dir_name(ecosystem)));
    append_all(&mut out, &chars_of(" "));
    append_all(&mut out, &decimal_chars(severity as u64));
    append_all(&mut out, &chars_of(" "));
    append_all(&mut out, &chars_of(severity_label(severity)));
    append_all(&mut out, &chars_of(" "));
    append_all(&mut out, &chars_of(recommendation));
    append_all(&mut out, &chars_of("\n"));
    string_of(&out)
}

// ── Eviction ───────────────────────────────────────────────────────────

/// A quarantine entry on disk: its size in bytes and its modification time.
#[derive(Debug, Clone, Copy)]
pub struct DiskEntry {
    pub size: u64,
    pub modified: u128,
}

/// Entry `a` was modified before entry `b` (the earlier listed first on a
/// tie), which is the order entries are evicted in.
pub open spec fn evicted_before(entries: Seq<DiskEntry>, a: int, b: int) -> bool {
    entries[a].modified < entries[b].modified || (entries[a].modified == entries[b].modified && a
        < b)
}

/// The sum of the entries' sizes.
pub open spec fn total_size(entries: Seq<DiskEntry>) -> int
    decreases entries.len(),
{
    if entries.len() == 0 {
        0
    } else {
        total_size(entries.drop_last()) + entries.last().size
    }
}

/// The total size of the first `k` entries that were not chosen.
pub open spec fn kept_prefix(entries: Seq<DiskEntry>, chosen: Seq<usize>, k: int) -> int
    decreases k,
{
    if k <= 0 {
        0
    } else {
        kept_prefix(entries, chosen, k - 1) + if chosen.contains((k - 1) as usize) {
            0int
        } else {
            entries[k - 1].size as int
        }
    }
}

/// The total size of the entries that were not chosen.
pub open spec fn kept_size(entries: Seq<DiskEntry>, chosen: Seq<usize>) -> int {
    kept_prefix(entries, chosen, entries.len() as int)
}

/// `chosen` lists, oldest first, exactly the oldest entries: distinct
/// positions, in eviction order, each before every entry not chosen.
pub open spec fn oldest_first(entries: Seq<DiskEntry>, chosen: Seq<usize>) -> bool {
    &&& forall|t: int| 0 <= t < chosen.len() ==> (chosen[t] as int) < entries.len()
    &&& forall|t1: int, t2: int|
        0 <= t1 < t2 < chosen.len() ==> evicted_before(entries, chosen[t1] as int, chosen[t2] as int)
    &&& forall|i: int, t: int|
        0 <= i < entries.len() && !chosen.contains(i as usize) && 0 <= t < chosen.len()
            ==> evicted_before(entries, chosen[t] as int, i)
}

/// The entries to evict so that what remains fits in `budget` bytes: the
/// oldest first, stopping as soon as the remainder fits.
pub open spec fn budget_eviction(entries: Seq<DiskEntry>, budget: int, chosen: Seq<usize>) -> bool {
    &&& oldest_first(entries, chosen)
    &&& (kept_size(entries, chosen) <= budget || chosen.len() == entries.len())
    &&& (chosen.len() > 0 ==> kept_size(entries, chosen.drop_last()) > budget)
}

proof fn lemma_total_size_bound(entries: Seq<DiskEntry>, k: int)
    requires
        0 <= k <= entries.len(),
    ensures
        total_size(entries.take(k)) <= total_size(entries),
        total_size(entries) >= 0,
    decreases entries.len(),
{
    if entries.len() > 0 {
        if k == entries.len() {
            assert(entries.take(k) == entries);
            lemma_total_size_bound(entries.drop_last(), 0);
        } else {
            assert(entries.take(k) == entries.drop_last().take(k));
            lemma_total_size_bound(entries.drop_last(), k);
        }
    }
}

/// With nothing chosen, everything is kept.
proof fn lemma_kept_nothing_chosen(entries: Seq<DiskEntry>, k: int)
    requires
        0 <= k <= entries.len(),
    ensures
        kept_prefix(entries, Seq::empty(), k) == total_size(entries.take(k)),
    decreases k,
{
    if k > 0 {
        lemma_kept_nothing_chosen(entries, k - 1);
        assert(entries.take(k).drop_last() == entries.take(k - 1));
    }
}

/// Kept sizes are never negative.
proof fn lemma_kept_nonneg(entries: Seq<DiskEntry>, chosen: Seq<usize>, k: int)
    ensures
        kept_prefix(entries, chosen, k) >= 0,
    decreases k,
{
    if k > 0 {
        lemma_kept_nonneg(entries, chosen, k - 1);
    }
}

/// Choosing one more entry removes its size from what is kept.
proof fn lemma_kept_push(entries: Seq<DiskEntry>, chosen: Seq<usize>, b: usize, k: int)
    requires
        !chosen.contains(b),
        0 <= k <= entries.len(),
        entries.len() <= usize::MAX,
        (b as int) < entries.len(),
    ensures
        kept_prefix(entries, chosen.push(b), k) == kept_prefix(entries, chosen, k) - if (b as int) < k {
            entries[b as int].size as int
        } else {
            0int
        },
    decreases k,
{
    if k > 0 {
        lemma_kept_push(entries, chosen, b, k - 1);
        let i = (k - 1) as usize;
        assert(i as int == k - 1);
        assert(chosen.push(b).contains(i) <==> (chosen.contains(i) || i == b)) by {
            if chosen.push(b).contains(i) {
                let u = choose|u: int| 0 <= u < chosen.push(b).len() && chosen.push(b)[u] == i;
                if u < chosen.len() {
                    assert(chosen[u] == i);
                }
            }
            if chosen.contains(i) {
                let u = choose|u: int| 0 <= u < chosen.len() && chosen[u] == i;
                assert(chosen.push(b)[u] == i);
            }
            if i == b {
                assert(chosen.push(b)[chosen.len() as int] == i);
            }
        }
        if i == b {
            assert(kept_prefix(entries, chosen.push(b), k) == kept_prefix(entries, chosen.push(b), k - 1));
            assert(kept_prefix(entries, chosen, k) == kept_prefix(entries, chosen, k - 1) + entries[k - 1].size);
        } else {
            assert(chosen.push(b).contains(i) == chosen.contains(i));
        }
    }
}

/// The entries to evict, oldest first, so that the rest fits within
/// `max_disk_mb` MiB; none when the budget is 0 (no limit) or already met.
pub fn plan_budget_eviction(entries: &[DiskEntry], max_disk_mb: u64) -> (r: Vec<usize>)
    requires
        max_disk_mb * 1048576 <= u64::MAX,
        total_size(entries@) <= u64::MAX,
    ensures
        max_disk_mb == 0 ==> r@.len() == 0,
        max_disk_mb > 0 ==> budget_eviction(entries@, max_disk_mb * 1048576, r@),
{
    let mut chosen: Vec<usize> = Vec::new();
    if max_disk_mb == 0 {
        return chosen;
    }
    let max_bytes: u64 = max_disk_mb * 1048576;
    let n = entries.len();
    let mut total: u64 = 0;
    for i in 0..n
        invariant
            n == entries@.len(),
            total == total_size(entries@.take(i as int)),
            total_size(entries@) <= u64::MAX,
    {
        proof {
            assert(entries@.take(i + 1).drop_last() == entries@.take(i as int));
            lemma_total_size_bound(entries@, i + 1);
        }
        total = total + entries[i].size;
    }
    assert(entries@.take(n as int) == entries@);
    proof {
        lemma_kept_nothing_chosen(entries@, n as int);
    }
    let mut evicted: Vec<bool> = Vec::new();
    for i in 0..n
        invariant
            evicted@.len() == i,
            forall|j: int| 0 <= j < i ==> !evicted@[j],
    {
        evicted.push(false);
    }
    let ghost all = entries@;
    assert(chosen@ =~= Seq::<usize>::empty());
    while total > max_bytes && chosen.len() < n
        invariant
            n == all.len(),
            all == entries@,
            evicted@.len() == n,
            oldest_first(all, chosen@),
            forall|t1: int, t2: int| 0 <= t1 < t2 < chosen@.len() ==> chosen@[t1] != chosen@[t2],
            forall|j: int| 0 <= j < n ==> (evicted@[j] <==> chosen@.contains(j as usize)),
            chosen@.len() <= n,
            total == kept_size(all, chosen@),
            chosen@.len() > 0 ==> kept_size(all, chosen@.drop_last()) > max_bytes,
        ensures
            total <= max_bytes || chosen@.len() == n,
        decreases n - chosen@.len(),
    {
        // The oldest entry not yet evicted.
        let mut best: usize = n;
        for j in 0..n
            invariant
                n == all.len(),
                all == entries@,
                evicted@.len() == n,
                best == n || (best < j && !evicted@[best as int]),
                forall|k: int|
                    0 <= k < j && !evicted@[k] ==> (best < n && (k == best || evicted_before(all, best as int, k))),
        {
            if !evicted[j] {
                if best == n || entries[j].modified < entries[best].modified {
                    best = j;
                }
            }
        }
        if best == n {
            proof {
                assert forall|j: usize| (j as int) < n implies #[trigger] chosen@.contains(j) by {
                    assert(evicted@[j as int]);
                }
                lemma_distinct_cover(chosen@, n as int);
            }
            break;
        }
        let ghost before = chosen@;
        proof {
            assert(!before.contains(best));
            lemma_kept_push(all, before, best, n as int);
            lemma_kept_nonneg(all, before.push(best), n as int);
            assert(before.push(best).drop_last() == before);
        }
        chosen.push(best);
        evicted.set(best, true);
        total = total - entries[best].size;
        proof {
            assert forall|t1: int, t2: int| 0 <= t1 < t2 < chosen@.len() implies evicted_before(all, chosen@[t1] as int, chosen@[t2] as int) by {
                if t2 == chosen@.len() - 1 {
                    assert(!before.contains(best));
                    assert(chosen@[t1] == before[t1]);
                } else {
                    assert(chosen@[t1] == before[t1] && chosen@[t2] == before[t2]);
                }
            }
            assert forall|i: int, t: int|
                0 <= i < all.len() && !chosen@.contains(i as usize) && 0 <= t < chosen@.len()
                    implies evicted_before(all, chosen@[t] as int, i) by {
                assert(!before.contains(i as usize)) by {
                    if before.contains(i as usize) {
                        let u = choose|u: int| 0 <= u < before.len() && before[u] == i as usize;
                        assert(chosen@[u] == i as usize);
                    }
                }
                assert(i != best as int) by {
                    assert(chosen@[chosen@.len() - 1] == best);
                }
                if t < before.len() {
                    assert(chosen@[t] == before[t]);
                }
            }
            assert forall|t1: int, t2: int| 0 <= t1 < t2 < chosen@.len() implies chosen@[t1] != chosen@[t2] by {
                if t2 == chosen@.len() - 1 {
                    assert(!before.contains(best));
                    assert(before[t1] == chosen@[t1]);
                } else {
                    assert(chosen@[t1] == before[t1] && chosen@[t2] == before[t2]);
                }
            }
            assert forall|j: int| 0 <= j < n implies (evicted@[j] <==> chosen@.contains(j as usize)) by {
                if j == best as int {
                    assert(chosen@[chosen@.len() - 1] == best);
                } else {
                    if chosen@.contains(j as usize) {
                        let u = choose|u: int| 0 <= u < chosen@.len() && chosen@[u] == j as usize;
                        assert(u < before.len());
                        assert(before[u] == j as usize);
                    }
                    if before.contains(j as usize) {
                        let u = choose|u: int| 0 <= u < before.len() && before[u] == j as usize;
                        assert(chosen@[u] == j as usize);
                    }
                }
            }
        }
    }
    chosen
}

/// A list of distinct positions below `n` that covers all of them has at
/// least `n` elements.
proof fn lemma_distinct_cover(chosen: Seq<usize>, n: int)
    requires
        0 <= n <= usize::MAX,
        forall|t1: int, t2: int| 0 <= t1 < t2 < chosen.len() ==> chosen[t1] != chosen[t2],
        forall|j: usize| (j as int) < n ==> #[trigger] chosen.contains(j),
    ensures
        chosen.len() >= n,
    decreases n,
{
    if n > 0 {
        let last = (n - 1) as usize;
        assert(chosen.contains(last));
        let u = choose|u: int| 0 <= u < chosen.len() && chosen[u] == last;
        let rest = chosen.take(u) + chosen.skip(u + 1);
        assert(rest.len() == chosen.len() - 1);
        assert forall|t: int| 0 <= t < rest.len() implies rest[t] == chosen[if t < u { t } else { t + 1 }] by {
            if t < u {
                assert(rest[t] == chosen.take(u)[t]);
            } else {
                assert(rest[t] == chosen.skip(u + 1)[t - u]);
            }
        }
        assert forall|t1: int, t2: int| 0 <= t1 < t2 < rest.len() implies rest[t1] != rest[t2] by {
            let a = if t1 < u { t1 } else { t1 + 1 };
            let b = if t2 < u { t2 } else { t2 + 1 };
            assert(rest[t1] == chosen[a] && rest[t2] == chosen[b]);
        }
        assert forall|j: usize| (j as int) < n - 1 implies #[trigger] rest.contains(j) by {
            assert(chosen.contains(j));
            let v = choose|v: int| 0 <= v < chosen.len() && chosen[v] == j;
            assert(v != u);
            if v < u {
                assert(rest[v] == j);
            } else {
                assert(rest[v - 1] == j);
            }
        }
        lemma_distinct_cover(rest, n - 1);
    }
}

/// The entries last modified before the cutoff; none when entries never
/// expire (`max_age_days` of 0).
pub fn expired_entries(entries: &[DiskEntry], cutoff: u128, max_age_days: u64) -> (r: Vec<usize>)
    ensures
        max_age_days == 0 ==> r@.len() == 0,
        max_age_days > 0 ==> forall|i: int|
            0 <= i < entries@.len() ==> (r@.contains(i as usize) <==> entries@[i].modified < cutoff),
        forall|t: int| 0 <= t < r@.len() ==> (r@[t] as int) < entries@.len(),
{
    let mut r: Vec<usize> = Vec::new();
    if max_age_days == 0 {
        return r;
    }
    let n = entries.len();
    for i in 0..n
        invariant
            n == entries@.len(),
            forall|t: int| 0 <= t < r@.len() ==> (r@[t] as int) < i,
            forall|j: int| 0 <= j < i ==> (r@.contains(j as usize) <==> entries@[j].modified < cutoff),
    {
        let ghost before = r@;
        if entries[i].modified < cutoff {
            r.push(i);
        }
        proof {
            assert forall|j: int| 0 <= j < i + 1 implies (r@.contains(j as usize) <==> entries@[j].modified < cutoff) by {
                if r@.contains(j as usize) {
                    let u = choose|u: int| 0 <= u < r@.len() && r@[u] == j as usize;
                    if u < before.len() {
                        assert(before[u] == j as usize);
                    }
                }
                if j < i && before.contains(j as usize) {
                    let u = choose|u: int| 0 <= u < before.len() && before[u] == j as usize;
                    assert(r@[u] == j as usize);
                }
                if j == i && entries@[j].modified < cutoff {
                    assert(r@[r@.len() - 1] == i);
                }
            }
        }
    }
    r
}

} // verus!
