//! GuardDog results: the rule findings it reports, the risk score they add
//! up to, and the arguments the scanner is run with.
use vstd::prelude::*;
use crate::text::{
    append_all, char_is_alphanumeric, chars_eq, chars_of, filter_chars, first_chars, string_of,
    string_views, take_chars, unicode_alphanumeric, unicode_lowercase,
};

verus! {

/// Result from GuardDog analysis.
#[derive(Debug, Clone)]
pub struct GuardDogResult {
    pub is_malicious: bool,
    pub risk_score: u8,
    pub findings: Vec<GuardDogFinding>,
}

/// Individual finding from GuardDog.
#[derive(Debug, Clone)]
pub struct GuardDogFinding {
    pub rule_name: String,
    pub severity: String,
    pub description: String,
}

/// The severity GuardDog's documentation gives each rule; unknown rules
/// count as medium.
pub open spec fn rule_severity(rule: Seq<char>) -> Seq<char> {
    if rule == "code-execution"@ || rule == "exec-base64"@ || rule == "download-executable"@ {
        "critical"@
    } else if rule == "exfiltrate-sensitive-data"@ || rule == "silent-process-execution"@ || rule
        == "dll-hijacking"@ || rule == "clipboard-access"@ || rule == "cmd-overwrite"@ || rule
        == "steganography"@ || rule == "api-obfuscation"@ || rule == "shady-links"@ || rule
        == "bundled_binary"@ || rule == "deceptive_author"@ || rule
        == "potentially_compromised_email_domain"@ {
        "high"@
    } else if rule == "unclaimed_maintainer_email_domain"@ || rule == "typosquatting"@ {
        "low"@
    } else {
        "medium"@
    }
}

/// Whether the name is one of `names`.
fn name_in(name: &[char], names: &[&str]) -> (r: bool)
    ensures
        r == exists|i: int| 0 <= i < names@.len() && name@ == names@[i]@,
{
    let n = names.len();
    for i in 0..n
        invariant
            n == names@.len(),
            forall|j: int| 0 <= j < i ==> name@ != #[trigger] names@[j]@,
    {
        if chars_eq(name, &chars_of(names[i])) {
            return true;
        }
    }
    false
}

/// Categorize rule severity based on rule name, for output that carries no
/// explicit severity.
pub fn categorize_rule_severity(rule_name: &str) -> (r: String)
    ensures
        r@ == rule_severity(rule_name@),
{
    let n = chars_of(rule_name);
    let critical = ["code-execution", "exec-base64", "download-executable"];
    let high = [
        "exfiltrate-sensitive-data",
        "silent-process-execution",
        "dll-hijacking",
        "clipboard-access",
        "cmd-overwrite",
        "steganography",
        "api-obfuscation",
        "shady-links",
        "bundled_binary",
        "deceptive_author",
        "potentially_compromised_email_domain",
    ];
    let low = ["unclaimed_maintainer_email_domain", "typosquatting"];
    if name_in(&n, &critical) {
        proof {
            let ghost c = critical@;
            assert(c[0]@ == "code-execution"@ && c[1]@ == "exec-base64"@ && c[2]@ == "download-executable"@);
        }
        "critical".to_owned()
    } else if name_in(&n, &high) {
        proof {
            let ghost c = critical@;
            assert(c[0]@ == "code-execution"@ && c[1]@ == "exec-base64"@ && c[2]@ == "download-executable"@);
            let ghost h = high@;
            assert(h[0]@ == "exfiltrate-sensitive-data"@);
            assert(h[1]@ == "silent-process-execution"@);
            assert(h[2]@ == "dll-hijacking"@);
            assert(h[3]@ == "clipboard-access"@);
            assert(h[4]@ == "cmd-overwrite"@);
            assert(h[5]@ == "steganography"@);
            assert(h[6]@ == "api-obfuscation"@);
            assert(h[7]@ == "shady-links"@);
            assert(h[8]@ == "bundled_binary"@);
            assert(h[9]@ == "deceptive_author"@);
            assert(h[10]@ == "potentially_compromised_email_domain"@);
        }
        "high".to_owned()
    } else if name_in(&n, &low) {
        proof {
            let ghost c = critical@;
            assert(c[0]@ == "code-execution"@ && c[1]@ == "exec-base64"@ && c[2]@ == "download-executable"@);
            let ghost h = high@;
            assert(h[0]@ == "exfiltrate-sensitive-data"@);
            assert(h[1]@ == "silent-process-execution"@);
            assert(h[2]@ == "dll-hijacking"@);
            assert(h[3]@ == "clipboard-access"@);
            assert(h[4]@ == "cmd-overwrite"@);
            assert(h[5]@ == "steganography"@);
            assert(h[6]@ == "api-obfuscation"@);
            assert(h[7]@ == "shady-links"@);
            assert(h[8]@ == "bundled_binary"@);
            assert(h[9]@ == "deceptive_author"@);
            assert(h[10]@ == "potentially_compromised_email_domain"@);
            let ghost l = low@;
            assert(l[0]@ == "unclaimed_maintainer_email_domain"@ && l[1]@ == "typosquatting"@);
        }
        "low".to_owned()
    } else {
        proof {
            let ghost c = critical@;
            assert(c[0]@ == "code-execution"@ && c[1]@ == "exec-base64"@ && c[2]@ == "download-executable"@);
            let ghost h = high@;
            assert(h[0]@ == "exfiltrate-sensitive-data"@);
            assert(h[1]@ == "silent-process-execution"@);
            assert(h[2]@ == "dll-hijacking"@);
            assert(h[3]@ == "clipboard-access"@);
            assert(h[4]@ == "cmd-overwrite"@);
            assert(h[5]@ == "steganography"@);
            assert(h[6]@ == "api-obfuscation"@);
            assert(h[7]@ == "shady-links"@);
            assert(h[8]@ == "bundled_binary"@);
            assert(h[9]@ == "deceptive_author"@);
            assert(h[10]@ == "potentially_compromised_email_domain"@);
            let ghost l = low@;
            assert(l[0]@ == "unclaimed_maintainer_email_domain"@ && l[1]@ == "typosquatting"@);
        }
        "medium".to_owned()
    }
}

/// Points a finding adds to the risk score, by its lower-cased severity.
pub open spec fn severity_points(severity: Seq<char>) -> int {
    let s = unicode_lowercase(severity);
    if s == "critical"@ {
        30
    } else if s == "high"@ {
        20
    } else if s == "medium"@ {
        10
    } else {
        5
    }
}

/// Points of the findings, added with saturation at 255.
pub open spec fn saturated_points(sevs: Seq<Seq<char>>) -> int
    decreases sevs.len(),
{
    if sevs.len() == 0 {
        0
    } else {
        let s = saturated_points(sevs.drop_last()) + severity_points(sevs.last());
        if s > 255 {
            255
        } else {
            s
        }
    }
}

/// The severities of the findings.
pub open spec fn severities(findings: Seq<GuardDogFinding>) -> Seq<Seq<char>> {
    findings.map_values(|f: GuardDogFinding| f.severity@)
}

/// The risk score of a set of findings: their points, capped at 100.
pub open spec fn findings_risk(findings: Seq<GuardDogFinding>) -> int {
    let s = saturated_points(severities(findings));
    if s > 100 {
        100
    } else {
        s
    }
}

/// Points for one severity.
fn points_of(severity: &str) -> (r: u8)
    ensures
        r == severity_points(severity@),
{
    let s = chars_of(severity.to_lowercase().as_str());
    if chars_eq(&s, &chars_of("critical")) {
        30
    } else if chars_eq(&s, &chars_of("high")) {
        20
    } else if chars_eq(&s, &chars_of("medium")) {
        10
    } else {
        5
    }
}

/// Calculate the risk score from GuardDog findings: 30 per critical, 20 per
/// high, 10 per medium and 5 per other finding, capped at 100.
pub fn calculate_risk_score(findings: &[GuardDogFinding]) -> (r: u8)
    ensures
        r == findings_risk(findings@),
        r <= 100,
{
    let ghost sevs = severities(findings@);
    let mut score: u8 = 0;
    let n = findings.len();
    for i in 0..n
        invariant
            n == findings@.len(),
            sevs == severities(findings@),
            score == saturated_points(sevs.take(i as int)),
    {
        assert(sevs.take(i + 1).drop_last() == sevs.take(i as int));
        assert(sevs.take(i + 1).last() == findings@[i as int].severity@);
        let p = points_of(findings[i].severity.as_str());
        score = score.saturating_add(p);
    }
    assert(sevs.take(n as int) == sevs);
    if score > 100 {
        100
    } else {
        score
    }
}

/// Characters allowed in a package name handed to the scanner.
pub open spec fn package_name_char(c: char) -> bool {
    unicode_alphanumeric(c) || c == '-' || c == '_' || c == '.'
}

/// Characters allowed in a version handed to the scanner.
pub open spec fn version_char(c: char) -> bool {
    unicode_alphanumeric(c) || c == '.'
}

/// Longest package name handed to the scanner.
pub const PACKAGE_NAME_MAX_LEN: usize = 100;

/// Longest version handed to the scanner.
pub const VERSION_MAX_LEN: usize = 20;

/// Sanitize a package name against command injection: letters, digits,
/// `-`, `_` and `.` kept, at most 100 characters.
pub fn sanitize_package_name(name: &str) -> (r: String)
    ensures
        r@ == first_chars(filter_chars(name@, |c: char| package_name_char(c)), 100),
{
    let cs = chars_of(name);
    let n = cs.len();
    let ghost keep = |c: char| package_name_char(c);
    let mut out: Vec<char> = Vec::new();
    for i in 0..n
        invariant
            n == cs@.len(),
            keep == (|c: char| package_name_char(c)),
            out@ == filter_chars(cs@.take(i as int), keep),
    {
        assert(cs@.take(i + 1).drop_last() == cs@.take(i as int));
        let c = cs[i];
        if char_is_alphanumeric(c) || c == '-' || c == '_' || c == '.' {
            out.push(c);
        }
    }
    assert(cs@.take(n as int) == cs@);
    string_of(&take_chars(&out, PACKAGE_NAME_MAX_LEN))
}

/// Sanitize a version string: letters, digits and `.` kept, at most 20
/// characters.
pub fn sanitize_version(version: &str) -> (r: String)
    ensures
        r@ == first_chars(filter_chars(version@, |c: char| version_char(c)), 20),
{
    let cs = chars_of(version);
    let n = cs.len();
    let ghost keep = |c: char| version_char(c);
    let mut out: Vec<char> = Vec::new();
    for i in 0..n
        invariant
            n == cs@.len(),
            keep == (|c: char| version_char(c)),
            out@ == filter_chars(cs@.take(i as int), keep),
    {
        assert(cs@.take(i + 1).drop_last() == cs@.take(i as int));
        let c = cs[i];
        if char_is_alphanumeric(c) || c == '.' {
            out.push(c);
        }
    }
    assert(cs@.take(n as int) == cs@);
    string_of(&take_chars(&out, VERSION_MAX_LEN))
}

/// The arguments GuardDog is run with: `pypi scan`, the sanitized package
/// (pinned as `name==version` when a version is given), JSON output.
pub open spec fn scan_args(name: Seq<char>, version: Option<Seq<char>>) -> Seq<Seq<char>> {
    let pkg = first_chars(filter_chars(name, |c: char| package_name_char(c)), 100);
    let target = match version {
        Some(v) => pkg + "=="@ + first_chars(filter_chars(v, |c: char| version_char(c)), 20),
        None => pkg,
    };
    seq!["pypi"@, "scan"@, target, "--output-format"@, "json"@]
}

/// The command-line arguments for a GuardDog scan of a package.
pub fn guarddog_args(package_name: &str, package_version: Option<&str>) -> (r: Vec<String>)
    ensures
        string_views(r@) == scan_args(
            package_name@,
            match package_version {
                Some(v) => Some(v@),
                None => None,
            },
        ),
{
    let safe_package = sanitize_package_name(package_name);
    let target = match package_version {
        Some(version) => {
            let safe_version = sanitize_version(version);
            let mut t = chars_of(safe_package.as_str());
            append_all(&mut t, &chars_of("=="));
            append_all(&mut t, &chars_of(safe_version.as_str()));
            string_of(&t)
        },
        None => safe_package,
    };
    let mut args: Vec<String> = Vec::new();
    args.push("pypi".to_owned());
    args.push("scan".to_owned());
    args.push(target);
    args.push("--output-format".to_owned());
    args.push("json".to_owned());
    assert(string_views(args@) =~= scan_args(
        package_name@,
        match package_version {
            Some(v) => Some(v@),
            None => None,
        },
    ));
    args
}

/// A value in GuardDog's per-rule result map: a description of the issue
/// found, or anything else (null, an empty object) for no issue.
#[derive(Debug, Clone)]
pub enum RuleOutcome {
    Issue(String),
    NoIssue,
}

/// One finding in GuardDog's legacy and array formats.
#[derive(Debug, Clone)]
pub struct ListedFinding {
    pub rule: String,
    pub severity: String,
    pub message: String,
}

/// GuardDog's JSON output, in the formats it is known to produce.
#[derive(Debug, Clone)]
pub enum GuardDogOutput {
    /// Output that is not JSON of a known shape.
    Unparsable,
    /// `results` maps each rule to its outcome (the map's order is kept).
    RuleMap(Vec<(String, RuleOutcome)>),
    /// `results` is an array of findings.
    Listed(Vec<ListedFinding>),
    /// The output is a bare array of findings.
    Bare(Vec<ListedFinding>),
}

/// The findings of a rule map: the rules with a non-empty description,
/// in map order, each with its documented severity.
pub open spec fn map_findings(results: Seq<(String, RuleOutcome)>) -> Seq<(Seq<char>, Seq<char>, Seq<char>)>
    decreases results.len(),
{
    if results.len() == 0 {
        Seq::empty()
    } else {
        let rest = map_findings(results.drop_last());
        let (rule, outcome) = results.last();
        match outcome {
            RuleOutcome::Issue(d) => if d@.len() > 0 {
                rest.push((rule@, rule_severity(rule@), d@))
            } else {
                rest
            },
            RuleOutcome::NoIssue => rest,
        }
    }
}

/// A finding as rule, severity and description.
pub open spec fn finding_view(f: GuardDogFinding) -> (Seq<char>, Seq<char>, Seq<char>) {
    (f.rule_name@, f.severity@, f.description@)
}

/// A listed finding as rule, severity and message.
pub open spec fn listed_view(f: ListedFinding) -> (Seq<char>, Seq<char>, Seq<char>) {
    (f.rule@, f.severity@, f.message@)
}

/// The listed findings as rule, severity and message.
pub open spec fn listed_views(list: Seq<ListedFinding>) -> Seq<(Seq<char>, Seq<char>, Seq<char>)> {
    Seq::new(list.len(), |i: int| listed_view(list[i]))
}

/// The findings are exactly these rule, severity, description triples.
pub open spec fn findings_are(
    findings: Seq<GuardDogFinding>,
    triples: Seq<(Seq<char>, Seq<char>, Seq<char>)>,
) -> bool {
    findings.len() == triples.len() && forall|i: int|
        0 <= i < findings.len() ==> finding_view(#[trigger] findings[i]) == triples[i]
}

/// The findings GuardDog's output lists, as rule, severity, description.
pub open spec fn output_findings(out: GuardDogOutput) -> Seq<(Seq<char>, Seq<char>, Seq<char>)> {
    match out {
        GuardDogOutput::Unparsable => Seq::empty(),
        GuardDogOutput::RuleMap(results) => map_findings(results@),
        GuardDogOutput::Listed(list) => listed_views(list@),
        GuardDogOutput::Bare(list) => listed_views(list@),
    }
}

/// A result is malicious from a risk of 70, or with any finding of
/// severity exactly `critical`.
pub open spec fn result_malicious(findings: Seq<GuardDogFinding>) -> bool {
    findings_risk(findings) >= 70 || exists|i: int|
        0 <= i < findings.len() && findings[i].severity@ == "critical"@
}

fn findings_of_list(list: &Vec<ListedFinding>) -> (r: Vec<GuardDogFinding>)
    ensures
        findings_are(r@, listed_views(list@)),
{
    let mut r: Vec<GuardDogFinding> = Vec::new();
    let n = list.len();
    for i in 0..n
        invariant
            n == list@.len(),
            r@.len() == i,
            forall|j: int| 0 <= j < i ==> finding_view(#[trigger] r@[j]) == listed_view(list@[j]),
    {
        let f = &list[i];
        r.push(
            GuardDogFinding {
                rule_name: f.rule.clone(),
                severity: f.severity.clone(),
                description: f.message.clone(),
            },
        );
    }
    r
}

fn findings_of_map(results: &Vec<(String, RuleOutcome)>) -> (r: Vec<GuardDogFinding>)
    ensures
        findings_are(r@, map_findings(results@)),
{
    let mut r: Vec<GuardDogFinding> = Vec::new();
    let n = results.len();
    for i in 0..n
        invariant
            n == results@.len(),
            findings_are(r@, map_findings(results@.take(i as int))),
    {
        assert(results@.take(i + 1).drop_last() == results@.take(i as int));
        let ghost before = r@;
        let (rule, outcome) = &results[i];
        match outcome {
            RuleOutcome::Issue(d) => {
                if !d.as_str().is_empty() {
                    r.push(
                        GuardDogFinding {
                            rule_name: rule.clone(),
                            severity: categorize_rule_severity(rule.as_str()),
                            description: d.clone(),
                        },
                    );
                }
            },
            RuleOutcome::NoIssue => {},
        }
    }
    assert(results@.take(n as int) == results@);
    r
}

/// Turn GuardDog's output into a result: its findings, their risk score,
/// and the verdict. Output that could not be read gives an empty, benign
/// result.
pub fn parse_guarddog_output(output: &GuardDogOutput) -> (r: GuardDogResult)
    ensures
        findings_are(r.findings@, output_findings(*output)),
        r.risk_score == findings_risk(r.findings@),
        r.is_malicious == result_malicious(r.findings@),
{
    let findings: Vec<GuardDogFinding> = match output {
        GuardDogOutput::Unparsable => {
            Vec::new()
        },
        GuardDogOutput::RuleMap(results) => findings_of_map(results),
        GuardDogOutput::Listed(list) => findings_of_list(list),
        GuardDogOutput::Bare(list) => findings_of_list(list),
    };
    let risk_score = calculate_risk_score(&findings);
    let mut critical = false;
    let n = findings.len();
    let crit = chars_of("critical");
    for i in 0..n
        invariant
            n == findings@.len(),
            crit@ == "critical"@,
            critical == exists|j: int| 0 <= j < i && findings@[j].severity@ == "critical"@,
    {
        if chars_eq(&chars_of(findings[i].severity.as_str()), &crit) {
            critical = true;
        }
    }
    let is_malicious = risk_score >= 70 || critical;
    GuardDogResult { is_malicious, risk_score, findings }
}

} // verus!
