//! YARA rules: their metadata, how their matches are scored, and where in
//! a file a match lies.
use vstd::prelude::*;
use crate::feed::ecosystem::{ecosystem_label, Ecosystem};
use crate::output::{YaraMatch, YaraScanResult};
use crate::text::{
    append_all, byte_len, char_is_alphanumeric, chars_eq, chars_of, count_char, decimal,
    decimal_chars, filter_chars, has_prefix, lemma_byte_len_encoding, lemma_byte_len_prefix_strict,
    lemma_byte_len_push, lemma_count_char_concat, lines_of, parse_unsigned, parse_unsigned_chars,
    slice_chars, split_lines, starts_with, str_byte_len, string_of, trim, trim_ws,
    unicode_alphanumeric, unicode_lowercase, views, width_of,
};

verus! {

/// Risk points of a critical match.
pub const SEVERITY_CRITICAL: u8 = 30;

/// Risk points of a high-severity match.
pub const SEVERITY_HIGH: u8 = 20;

/// Risk points of a medium-severity match.
pub const SEVERITY_MEDIUM: u8 = 10;

/// Risk points of a low-severity match.
pub const SEVERITY_LOW: u8 = 5;

/// Risk from which a scan counts as malicious.
pub const MALICIOUS_RISK_THRESHOLD: u8 = 70;

/// Largest file scanned when the configuration sets no limit (5 MiB).
pub const DEFAULT_MAX_FILE_SIZE: usize = 5242880;

/// What is known of a YARA rule: its metadata, where it comes from, and
/// whether it is enabled.
#[derive(Debug, Clone)]
pub struct YaraRuleInfo {
    pub name: String,
    pub severity: String,
    pub description: String,
    pub ecosystem: String,
    pub risk_score: u8,
    pub enabled: bool,
    pub source: String,
    pub file_path: String,
}

/// Risk points of a severity, by its lower-cased name; unknown names count
/// as medium.
pub open spec fn yara_severity_risk(severity: Seq<char>) -> u8 {
    let s = unicode_lowercase(severity);
    if s == "critical"@ {
        30
    } else if s == "high"@ {
        20
    } else if s == "medium"@ {
        10
    } else if s == "low"@ {
        5
    } else {
        10
    }
}

/// Map a severity name to its risk points.
pub fn severity_to_risk_score(severity: &str) -> (r: u8)
    ensures
        r == yara_severity_risk(severity@),
{
    let s = chars_of(severity.to_lowercase().as_str());
    if chars_eq(&s, &chars_of("critical")) {
        SEVERITY_CRITICAL
    } else if chars_eq(&s, &chars_of("high")) {
        SEVERITY_HIGH
    } else if chars_eq(&s, &chars_of("medium")) {
        SEVERITY_MEDIUM
    } else if chars_eq(&s, &chars_of("low")) {
        SEVERITY_LOW
    } else {
        SEVERITY_MEDIUM
    }
}

/// Points of the matches' severities, added with saturation at 255.
pub open spec fn yara_points(findings: Seq<YaraMatch>) -> int
    decreases findings.len(),
{
    if findings.len() == 0 {
        0
    } else {
        let s = yara_points(findings.drop_last()) + yara_severity_risk(findings.last().severity@);
        if s > 255 {
            255
        } else {
            s
        }
    }
}

/// The risk of a set of matches: their severities' points, capped at 100.
pub open spec fn yara_risk(findings: Seq<YaraMatch>) -> int {
    let s = yara_points(findings);
    if s > 100 {
        100
    } else {
        s
    }
}

/// The risk score of a scan's matches, from their severities (the score a
/// rule declares does not count here), capped at 100.
pub fn calculate_yara_risk_score(findings: &[YaraMatch]) -> (r: u8)
    ensures
        r == yara_risk(findings@),
        r <= 100,
{
    let mut score: u8 = 0;
    let n = findings.len();
    for i in 0..n
        invariant
            n == findings@.len(),
            score == yara_points(findings@.take(i as int)),
    {
        assert(findings@.take(i + 1).drop_last() == findings@.take(i as int));
        score = score.saturating_add(severity_to_risk_score(findings[i].severity.as_str()));
    }
    assert(findings@.take(n as int) == findings@);
    if score > 100 {
        100
    } else {
        score
    }
}

/// A scan is malicious from a risk of 70, or with a match of severity
/// exactly `critical`.
pub open spec fn scan_malicious(findings: Seq<YaraMatch>) -> bool {
    yara_risk(findings) >= 70 || exists|i: int|
        0 <= i < findings.len() && findings[i].severity@ == "critical"@
}

/// The verdict on a package from all the matches of its files.
pub fn scan_result(findings: Vec<YaraMatch>) -> (r: YaraScanResult)
    ensures
        r.findings == findings,
        r.risk_score == yara_risk(findings@),
        r.is_malicious == scan_malicious(findings@),
        r.risk_score >= 70 ==> r.is_malicious,
        (exists|i: int| 0 <= i < findings@.len() && findings@[i].severity@ == "critical"@) ==> r.is_malicious,
        r.is_malicious ==> r.risk_score >= 70 || exists|i: int|
            0 <= i < findings@.len() && findings@[i].severity@ == "critical"@,
{
    let risk_score = calculate_yara_risk_score(&findings);
    let crit = chars_of("critical");
    let mut critical = false;
    let n = findings.len();
    for i in 0..n
        invariant
            n == findings@.len(),
            crit@ == "critical"@,
            critical == exists|j: int| 0 <= j < i && findings@[j].severity@ == "critical"@,
    {
        if chars_eq(&chars_of(findings[i].severity.as_str()), &crit) {
            critical = true;
        }
    }
    YaraScanResult {
        is_malicious: risk_score >= MALICIOUS_RISK_THRESHOLD || critical,
        risk_score,
        findings,
    }
}

/// A rule's filter admits the ecosystem: `all`, or the ecosystem's name.
pub open spec fn ecosystem_accepts(filter: Seq<char>, eco: Ecosystem) -> bool {
    filter == "all"@ || filter == ecosystem_label(eco)
}

/// What a matching rule contributes to a scan: nothing when the rule is
/// disabled or meant for another ecosystem; otherwise its metadata, or for
/// a rule with no metadata a medium match described by its name.
pub fn rule_match(
    rule_name: &str,
    info: Option<&YaraRuleInfo>,
    ecosystem: Ecosystem,
    file: &str,
    strings_matched: Vec<String>,
) -> (r: Option<YaraMatch>)
    ensures
        r is None <==> (info matches Some(i) && (!i.enabled || !ecosystem_accepts(
            i.ecosystem@,
            ecosystem,
        ))),
        r matches Some(m) ==> {
            &&& m.rule_name@ == rule_name@
            &&& m.file@ == file@
            &&& m.strings_matched == strings_matched
            &&& match info {
                Some(i) => m.severity@ == i.severity@ && m.description@ == i.description@
                    && m.risk_score == i.risk_score,
                None => m.severity@ == "medium"@ && m.description@ == rule_name@ && m.risk_score
                    == 10,
            }
        },
{
    match info {
        Some(i) => {
            if !i.enabled {
                return None;
            }
            let f = chars_of(i.ecosystem.as_str());
            let eco = chars_of(ecosystem.label());
            if !(chars_eq(&f, &chars_of("all")) || chars_eq(&f, &eco)) {
                return None;
            }
            Some(
                YaraMatch {
                    rule_name: rule_name.to_owned(),
                    file: file.to_owned(),
                    severity: i.severity.clone(),
                    description: i.description.clone(),
                    risk_score: i.risk_score,
                    strings_matched,
                },
            )
        },
        None => {
            let severity = "medium".to_owned();
            let risk_score = severity_to_risk_score(severity.as_str());
            proof {
                reveal_strlit("medium");
                assert(unicode_lowercase("medium"@) == unicode_lowercase(severity@));
            }
            Some(
                YaraMatch {
                    rule_name: rule_name.to_owned(),
                    file: file.to_owned(),
                    severity,
                    description: rule_name.to_owned(),
                    risk_score: SEVERITY_MEDIUM,
                    strings_matched,
                },
            )
        },
    }
}

// ── Rule metadata ──────────────────────────────────────────────────────

/// `s` with every leading character that is in `set` removed.
pub open spec fn strip_front(s: Seq<char>, set: Seq<char>) -> Seq<char>
    decreases s.len(),
{
    if s.len() > 0 && set.contains(s[0]) {
        strip_front(s.skip(1), set)
    } else {
        s
    }
}

/// `s` with every trailing character that is in `set` removed.
pub open spec fn strip_back(s: Seq<char>, set: Seq<char>) -> Seq<char>
    decreases s.len(),
{
    if s.len() > 0 && set.contains(s.last()) {
        strip_back(s.drop_last(), set)
    } else {
        s
    }
}

/// `str::trim_start_matches` with a set of characters.
fn trim_start_set(s: &[char], set: &[char]) -> (r: Vec<char>)
    ensures
        r@ == strip_front(s@, set@),
{
    let n = s.len();
    let mut i: usize = 0;
    assert(s@.skip(0) == s@);
    while i < n && char_in(s[i], set)
        invariant
            n == s@.len(),
            i <= n,
            strip_front(s@, set@) == strip_front(s@.skip(i as int), set@),
        decreases n - i,
    {
        assert(s@.skip(i as int).skip(1) == s@.skip(i + 1));
        i = i + 1;
    }
    let r = slice_chars(s, i, n);
    assert(r@ == s@.skip(i as int));
    r
}

/// `str::trim_end_matches` with a set of characters.
fn trim_end_set(s: &[char], set: &[char]) -> (r: Vec<char>)
    ensures
        r@ == strip_back(s@, set@),
{
    let mut j: usize = s.len();
    assert(s@.take(j as int) == s@);
    while j > 0 && char_in(s[j - 1], set)
        invariant
            j <= s@.len(),
            strip_back(s@, set@) == strip_back(s@.take(j as int), set@),
        decreases j,
    {
        assert(s@.take(j as int).drop_last() == s@.take(j - 1));
        j = j - 1;
    }
    slice_chars(s, 0, j)
}

/// Whether `c` is one of `set`.
fn char_in(c: char, set: &[char]) -> (r: bool)
    ensures
        r == set@.contains(c),
{
    let n = set.len();
    for i in 0..n
        invariant
            n == set@.len(),
            forall|j: int| 0 <= j < i ==> set@[j] != c,
    {
        if set[i] == c {
            assert(set@[i as int] == c);
            return true;
        }
    }
    false
}

/// The value of a `key = "value"` metadata line, after the key.
pub open spec fn meta_value(rest: Seq<char>) -> Seq<char> {
    strip_back(strip_front(rest, seq!['=', ' ', '\t', '"']), seq!['"', ','])
}

/// The value of a `risk_score = n` line, after the key.
pub open spec fn score_value(rest: Seq<char>) -> Seq<char> {
    strip_back(strip_front(rest, seq!['=', ' ', '\t']), seq![','])
}

/// The metadata read so far.
pub struct RuleMeta {
    pub severity: Seq<char>,
    pub description: Seq<char>,
    pub ecosystem: Seq<char>,
    pub risk: u8,
}

/// One metadata line read: a `severity` line sets the severity and the
/// risk it implies; `description` and `ecosystem` lines set theirs; a
/// `risk_score` line sets the risk when its value is a `u8`.
pub open spec fn meta_step(m: RuleMeta, line: Seq<char>) -> RuleMeta {
    let t = trim_ws(line);
    if has_prefix(t, "severity"@) {
        let v = meta_value(t.skip(8));
        RuleMeta { severity: v, description: m.description, ecosystem: m.ecosystem, risk: yara_severity_risk(v) }
    } else if has_prefix(t, "description"@) {
        RuleMeta { severity: m.severity, description: meta_value(t.skip(11)), ecosystem: m.ecosystem, risk: m.risk }
    } else if has_prefix(t, "ecosystem"@) {
        RuleMeta { severity: m.severity, description: m.description, ecosystem: meta_value(t.skip(9)), risk: m.risk }
    } else if has_prefix(t, "risk_score"@) {
        match parse_unsigned(score_value(t.skip(10)), 255) {
            Some(v) => RuleMeta { severity: m.severity, description: m.description, ecosystem: m.ecosystem, risk: v as u8 },
            None => m,
        }
    } else {
        m
    }
}

/// The metadata lines read in order, up to the first `condition:` line.
pub open spec fn meta_scan(lines: Seq<Seq<char>>, m: RuleMeta) -> RuleMeta
    decreases lines.len(),
{
    if lines.len() == 0 {
        m
    } else if has_prefix(trim_ws(lines[0]), "condition:"@) {
        m
    } else {
        meta_scan(lines.skip(1), meta_step(m, lines[0]))
    }
}

/// The metadata of a rule file: medium severity, described by the rule's
/// name, for all ecosystems, unless its lines say otherwise.
pub open spec fn rule_meta(content: Seq<char>, rule_name: Seq<char>) -> RuleMeta {
    meta_scan(
        split_lines(content),
        RuleMeta { severity: "medium"@, description: rule_name, ecosystem: "all"@, risk: 10 },
    )
}

/// The metadata state as executable values.
struct MetaCursor {
    severity: Vec<char>,
    description: Vec<char>,
    ecosystem: Vec<char>,
    risk: u8,
}

impl MetaCursor {
    spec fn meta(&self) -> RuleMeta {
        RuleMeta {
            severity: self.severity@,
            description: self.description@,
            ecosystem: self.ecosystem@,
            risk: self.risk,
        }
    }
}

fn read_meta_line(m: MetaCursor, line: &[char]) -> (r: MetaCursor)
    ensures
        r.meta() == meta_step(m.meta(), line@),
{
    let t = trim(line);
    let n = t.len();
    let front = ['=', ' ', '\t', '"'];
    let back = ['"', ','];
    let score_front = ['=', ' ', '\t'];
    let score_back = [','];
    assert(front@ =~= seq!['=', ' ', '\t', '"']);
    assert(back@ =~= seq!['"', ',']);
    assert(score_front@ =~= seq!['=', ' ', '\t']);
    assert(score_back@ =~= seq![',']);
    if starts_with(&t, &chars_of("severity")) {
        proof {
            reveal_strlit("severity");
        }
        let rest = slice_chars(&t, 8, n);
        let v = trim_end_set(&trim_start_set(&rest, &front), &back);
        assert(rest@ == t@.skip(8));
        let risk = severity_to_risk_score(string_of(&v).as_str());
        MetaCursor { severity: v, description: m.description, ecosystem: m.ecosystem, risk }
    } else if starts_with(&t, &chars_of("description")) {
        proof {
            reveal_strlit("description");
        }
        let rest = slice_chars(&t, 11, n);
        assert(rest@ == t@.skip(11));
        let v = trim_end_set(&trim_start_set(&rest, &front), &back);
        MetaCursor { severity: m.severity, description: v, ecosystem: m.ecosystem, risk: m.risk }
    } else if starts_with(&t, &chars_of("ecosystem")) {
        proof {
            reveal_strlit("ecosystem");
        }
        let rest = slice_chars(&t, 9, n);
        assert(rest@ == t@.skip(9));
        let v = trim_end_set(&trim_start_set(&rest, &front), &back);
        MetaCursor { severity: m.severity, description: m.description, ecosystem: v, risk: m.risk }
    } else if starts_with(&t, &chars_of("risk_score")) {
        proof {
            reveal_strlit("risk_score");
        }
        let rest = slice_chars(&t, 10, n);
        assert(rest@ == t@.skip(10));
        let v = trim_end_set(&trim_start_set(&rest, &score_front), &score_back);
        match parse_unsigned_chars(&v, 255) {
            Some(x) => MetaCursor {
                severity: m.severity,
                description: m.description,
                ecosystem: m.ecosystem,
                risk: x as u8,
            },
            None => m,
        }
    } else {
        m
    }
}

/// Read a rule's metadata from its source: the `severity`, `description`,
/// `ecosystem` and `risk_score` lines before `condition:`.
pub fn parse_rule_metadata(content: &str, rule_name: &str, source: &str, file_path: &str) -> (r:
    YaraRuleInfo)
    ensures
        r.name@ == rule_name@,
        r.severity@ == rule_meta(content@, rule_name@).severity,
        r.description@ == rule_meta(content@, rule_name@).description,
        r.ecosystem@ == rule_meta(content@, rule_name@).ecosystem,
        r.risk_score == rule_meta(content@, rule_name@).risk,
        r.enabled,
        r.source@ == source@,
        r.file_path@ == file_path@,
{
    let lines = lines_of(&chars_of(content));
    let ghost ls = views(lines@);
    let mut m = MetaCursor {
        severity: chars_of("medium"),
        description: chars_of(rule_name),
        ecosystem: chars_of("all"),
        risk: SEVERITY_MEDIUM,
    };
    let n = lines.len();
    let mut i: usize = 0;
    let mut stop = false;
    let cond = chars_of("condition:");
    assert(ls.skip(0) == ls);
    while i < n && !stop
        invariant
            n == lines@.len(),
            ls == views(lines@),
            i <= n,
            cond@ == "condition:"@,
            stop ==> meta_scan(ls.skip(i as int), m.meta()) == m.meta(),
            rule_meta(content@, rule_name@) == meta_scan(ls.skip(i as int), m.meta()),
        decreases (n - i) * 2 + if stop {
            0int
        } else {
            1int
        },
    {
        assert(ls.skip(i as int)[0] == lines@[i as int]@);
        if starts_with(&trim(&lines[i]), &cond) {
            stop = true;
        } else {
            assert(ls.skip(i as int).skip(1) == ls.skip(i + 1));
            m = read_meta_line(m, &lines[i]);
            i = i + 1;
        }
    }
    YaraRuleInfo {
        name: rule_name.to_owned(),
        severity: string_of(&m.severity),
        description: string_of(&m.description),
        ecosystem: string_of(&m.ecosystem),
        risk_score: m.risk,
        enabled: true,
        source: source.to_owned(),
        file_path: file_path.to_owned(),
    }
}

// ── Match positions ────────────────────────────────────────────────────

/// `byte_offset` falls between two characters of `content` (or at an end).
pub open spec fn on_char_boundary(content: Seq<char>, byte_offset: int) -> bool {
    exists|k: int| 0 <= k <= content.len() && byte_len(content.take(k)) == byte_offset
}

/// The 1-based line of the character boundary after the first `k`
/// characters.
pub open spec fn line_of_prefix(content: Seq<char>, k: int) -> int {
    (count_char(content.take(k), '\n') + 1) as int
}

/// Convert a byte offset in a string to a 1-based line number; `None` past
/// the end. (Slicing at an offset inside a character panics, so such
/// offsets are not accepted.)
pub fn byte_offset_to_line(content: &str, byte_offset: usize) -> (r: Option<u32>)
    requires
        byte_len(content@) <= usize::MAX,
        count_char(content@, '\n') < u32::MAX,
        byte_offset <= byte_len(content@) ==> on_char_boundary(content@, byte_offset as int),
    ensures
        r is None <==> byte_offset > byte_len(content@),
        forall|k: int|
            0 <= k <= content@.len() && byte_len(content@.take(k)) == byte_offset ==> r == Some(
                line_of_prefix(content@, k) as u32,
            ),
{
    let len = str_byte_len(content);
    if byte_offset > len {
        proof {
            assert forall|k: int|
                0 <= k <= content@.len() && byte_len(content@.take(k)) == byte_offset implies false by {
                lemma_byte_len_prefix_strict(content@, k, content@.len() as int);
                assert(content@.take(content@.len() as int) == content@);
            }
        }
        return None;
    }
    let cs = chars_of(content);
    let ghost kb = choose|k: int| 0 <= k <= cs@.len() && byte_len(cs@.take(k)) == byte_offset;
    let n = cs.len();
    let mut i: usize = 0;
    let mut pos: usize = 0;
    let mut nl: u32 = 0;
    assert(cs@.take(0).len() == 0);
    while pos < byte_offset
        invariant
            n == cs@.len(),
            cs@ == content@,
            count_char(cs@, '\n') < u32::MAX,
            0 <= kb <= n,
            byte_len(cs@.take(kb)) == byte_offset,
            i <= kb,
            pos == byte_len(cs@.take(i as int)),
            nl == count_char(cs@.take(i as int), '\n'),
        decreases byte_offset - pos,
    {
        proof {
            if i == kb {
                assert(false);
            }
            lemma_byte_len_prefix_strict(cs@, i + 1, kb);
            assert(cs@.take(i + 1) == cs@.take(i as int).push(cs@[i as int]));
            lemma_byte_len_push(cs@.take(i as int), cs@[i as int]);
            assert(cs@.take(i + 1) + cs@.skip(i + 1) =~= cs@);
            lemma_count_char_concat(cs@.take(i + 1), cs@.skip(i + 1), '\n');
        }
        let c = cs[i];
        assert(cs@.take(i + 1).drop_last() == cs@.take(i as int));
        if c == '\n' {
            nl = nl + 1;
        }
        pos = pos + width_of(c);
        i = i + 1;
    }
    proof {
        if i < kb {
            lemma_byte_len_prefix_strict(cs@, i as int, kb);
        }
        assert forall|k: int|
            0 <= k <= content@.len() && byte_len(content@.take(k)) == byte_offset implies k == i by {
            if k < i {
                lemma_byte_len_prefix_strict(cs@, k, i as int);
            }
            if i < k {
                lemma_byte_len_prefix_strict(cs@, i as int, k);
            }
        }
        assert(cs@.take(i as int) + cs@.skip(i as int) =~= cs@);
        lemma_count_char_concat(cs@.take(i as int), cs@.skip(i as int), '\n');
    }
    Some(nl + 1)
}

// ── Custom rule names ──────────────────────────────────────────────────

/// Characters a custom rule's name may hold.
pub open spec fn rule_name_char(c: char) -> bool {
    unicode_alphanumeric(c) || c == '-' || c == '_'
}

/// The outcome of checking a custom rule's name: the name itself when it
/// is made only of allowed characters (and is not empty), else the error.
pub open spec fn rule_name_check(name: Seq<char>) -> Result<Seq<char>, Seq<char>> {
    let safe = filter_chars(name, |c: char| rule_name_char(c));
    if safe.len() == 0 {
        Err("Rule name must contain alphanumeric characters, hyphens, or underscores"@)
    } else if safe != name {
        Err(
            "Rule name '"@ + name
                + "' contains invalid characters. Only alphanumeric, hyphens, and underscores are allowed."@,
        )
    } else {
        Ok(safe)
    }
}

/// Check a custom rule's name, so that it cannot reach outside the rules
/// directory: only letters, digits, `-` and `_`.
pub fn check_rule_name(name: &str) -> (r: Result<String, String>)
    ensures
        match rule_name_check(name@) {
            Ok(s) => r matches Ok(x) && x@ == s,
            Err(e) => r matches Err(x) && x@ == e,
        },
{
    let cs = chars_of(name);
    let n = cs.len();
    let ghost keep = |c: char| rule_name_char(c);
    let mut safe: Vec<char> = Vec::new();
    for i in 0..n
        invariant
            n == cs@.len(),
            keep == (|c: char| rule_name_char(c)),
            safe@ == filter_chars(cs@.take(i as int), keep),
    {
        assert(cs@.take(i + 1).drop_last() == cs@.take(i as int));
        let c = cs[i];
        if char_is_alphanumeric(c) || c == '-' || c == '_' {
            safe.push(c);
        }
    }
    assert(cs@.take(n as int) == cs@);
    if safe.len() == 0 {
        return Err("Rule name must contain alphanumeric characters, hyphens, or underscores".to_owned());
    }
    if !chars_eq(&safe, &cs) {
        let mut m = chars_of("Rule name '");
        append_all(&mut m, &cs);
        append_all(
            &mut m,
            &chars_of(
                "' contains invalid characters. Only alphanumeric, hyphens, and underscores are allowed.",
            ),
        );
        return Err(string_of(&m));
    }
    Ok(string_of(&safe))
}

/// Built-in rules cannot be deleted.
pub fn check_deletable(info: &YaraRuleInfo) -> (r: Result<(), String>)
    ensures
        r is Ok <==> info.source@ != "builtin"@,
        r matches Err(e) ==> e@ == "Cannot delete built-in rules"@,
{
    if chars_eq(&chars_of(info.source.as_str()), &chars_of("builtin")) {
        Err("Cannot delete built-in rules".to_owned())
    } else {
        Ok(())
    }
}

/// A match's location: its line, or its byte offset where the line is not
/// known.
pub open spec fn match_location_text(identifier: Seq<char>, line: Option<u32>, offset: int) -> Seq<char> {
    match line {
        Some(ln) => identifier + " at line "@ + decimal(ln as nat),
        None => identifier + " at offset "@ + decimal(offset as nat),
    }
}

/// Describe where a pattern matched: `<id> at line <n>`, or
/// `<id> at offset <n>` for an offset past the end.
pub fn match_location(identifier: &str, content: &str, byte_offset: usize) -> (r: String)
    requires
        byte_len(content@) <= usize::MAX,
        count_char(content@, '\n') < u32::MAX,
        byte_offset <= byte_len(content@) ==> on_char_boundary(content@, byte_offset as int),
    ensures
        exists|line: Option<u32>|
            (line is None <==> byte_offset > byte_len(content@)) && (forall|k: int|
                0 <= k <= content@.len() && byte_len(content@.take(k)) == byte_offset ==> line
                    == Some(line_of_prefix(content@, k) as u32)) && r@ == match_location_text(
                identifier@,
                line,
                byte_offset as int,
            ),
{
    let line = byte_offset_to_line(content, byte_offset);
    let mut out = chars_of(identifier);
    match line {
        Some(ln) => {
            append_all(&mut out, &chars_of(" at line "));
            append_all(&mut out, &decimal_chars(ln as u64));
        },
        None => {
            append_all(&mut out, &chars_of(" at offset "));
            append_all(&mut out, &decimal_chars(byte_offset as u64));
        },
    }
    let r = string_of(&out);
    assert(r@ == match_location_text(identifier@, line, byte_offset as int));
    r
}


/// A scan is malicious exactly when its risk reaches 70 or one of its
/// matches has severity `critical`: a risk of 70 or more is malicious
/// whatever the severities, and so is any critical match whatever the
/// risk; below 70 with no critical match it is not.
pub proof fn law_scan_malicious_threshold(findings: Seq<YaraMatch>)
    ensures
        yara_risk(findings) >= 70 ==> scan_malicious(findings),
        forall|i: int| 0 <= i < findings.len() && findings[i].severity@ == "critical"@ ==> scan_malicious(findings),
        yara_risk(findings) < 70 && (forall|i: int| 0 <= i < findings.len() ==> findings[i].severity@ != "critical"@)
            ==> !scan_malicious(findings),
{
}

} // verus!
