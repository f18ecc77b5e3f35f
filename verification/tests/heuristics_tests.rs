use clu::analysis::heuristics::{apply_rule, regex_error, sanitize_error_string, HeuristicRule};
use clu::analysis::rules_file::{
    validate_heuristics_source, validate_heuristics_text, RuleItem, RulesDocument, RulesSource, TomlEntry, TomlScalar,
};
use clu::feed::pypi::PythonPackage;

fn pkg() -> PythonPackage {
    PythonPackage {
        title: Some("reqeusts".to_string()),
        link: Some("https://pypi.org/project/reqeusts/".to_string()),
        description: Some("Steal Your Tokens quickly".to_string()),
        author: None,
        published_date: Some("Mon, 01 Jan 2024".to_string()),
    }
}

fn rule(kind: &str, field: Option<&str>) -> HeuristicRule {
    HeuristicRule {
        name: "r".to_string(),
        rule_type: kind.to_string(),
        field: field.map(|s| s.to_string()),
        keywords: None,
        pattern: None,
        check: None,
        risk_score: 50,
        description: "desc".to_string(),
    }
}

#[test]
fn test_keyword_rule_matches_case_insensitively() {
    let mut r = rule("keyword", Some("description"));
    r.keywords = Some(vec!["absent".to_string(), "steal your".to_string()]);
    let m = apply_rule(r, &pkg()).unwrap();
    assert_eq!(m.evidence, "steal your");
    assert_eq!(m.location, "description");
    assert_eq!(m.risk_score, 50);
}

#[test]
fn test_keyword_rule_on_missing_field() {
    let mut r = rule("keyword", Some("author"));
    r.keywords = Some(vec!["x".to_string()]);
    assert!(apply_rule(r, &pkg()).is_none());
}

#[test]
fn test_regex_rule() {
    let mut r = rule("regex", Some("title"));
    r.pattern = Some("req[a-z]+s".to_string());
    let m = apply_rule(r, &pkg()).unwrap();
    assert_eq!(m.evidence, "reqeusts");
    let mut bad = rule("regex", Some("title"));
    bad.pattern = Some("(".to_string());
    assert!(apply_rule(bad, &pkg()).is_none());
}

#[test]
fn test_metadata_rule() {
    let mut r = rule("metadata", Some("author"));
    r.check = Some("is_none".to_string());
    let m = apply_rule(r, &pkg()).unwrap();
    assert_eq!(m.evidence, "author is_none");
    let mut s = rule("metadata", Some("published_date"));
    s.check = Some("is_some".to_string());
    assert!(apply_rule(s, &pkg()).is_some());
    let mut u = rule("metadata", Some("author"));
    u.check = Some("maybe".to_string());
    assert!(apply_rule(u, &pkg()).is_none());
}

#[test]
fn test_unknown_rule_type() {
    assert!(apply_rule(rule("other", Some("title")), &pkg()).is_none());
}

#[test]
fn test_sanitize_error_string() {
    assert_eq!(sanitize_error_string("a;b|c&d$e`f'g\"h\\i"), "a b c d e f g h i");
    assert_eq!(sanitize_error_string("tab\there\nnewline"), "tab\therenewline");
    assert_eq!(sanitize_error_string("../../../etc/passwd"), "[path-traversal-attempt]");
    assert_eq!(sanitize_error_string("../../etc"), "../../etc");
    assert_eq!(sanitize_error_string(&"x".repeat(300)).len(), 200);
}

#[test]
fn test_regex_error() {
    assert!(regex_error("a+b").is_none());
    assert!(regex_error("(").is_some());
}

fn entry(k: &str, v: TomlScalar) -> TomlEntry {
    TomlEntry { key: k.to_string(), value: v }
}

fn text(s: &str) -> TomlScalar {
    TomlScalar::Text(s.to_string())
}

#[test]
fn test_validate_good_rule_file() {
    let rules = vec![RuleItem::Table(vec![
        entry("name", text("suspicious_desc")),
        entry("type", text("keyword")),
        entry("field", text("description")),
        entry("keywords", TomlScalar::Other),
        entry("risk_score", TomlScalar::Integer(40)),
        entry("description", text("d")),
    ])];
    assert_eq!(validate_heuristics_source("h.toml", RulesSource::Parsed(RulesDocument::Rules(rules))), Ok(()));
}

#[test]
fn test_validate_reports_every_problem() {
    let rules = vec![
        RuleItem::Other,
        RuleItem::Table(vec![
            entry("type", text("metadata")),
            entry("field", text("bogus")),
            entry("check", text("maybe")),
            entry("risk_score", TomlScalar::Integer(150)),
        ]),
        RuleItem::Table(vec![
            entry("name", text("bad;regex")),
            entry("type", text("regex")),
            entry("field", text("title")),
            entry("pattern", text("(")),
            entry("risk_score", text("high")),
            entry("description", text("d")),
        ]),
    ];
    let errs = validate_heuristics_source("h.toml", RulesSource::Parsed(RulesDocument::Rules(rules))).unwrap_err();
    assert_eq!(errs[0], "Rule 0 is not a valid table");
    assert_eq!(errs[1], "Rule 1 missing 'name'");
    assert_eq!(errs[2], "Rule '#1' missing 'description'");
    assert_eq!(errs[3], "Rule '#1' has invalid risk_score 150, must be 0-100");
    assert_eq!(errs[4], "Metadata rule '#1' has invalid check [maybe], must be one of: [\"is_some\", \"is_none\"]");
    assert_eq!(
        errs[5],
        "Rule '#1' has invalid field [bogus], must be one of: [\"description\", \"title\", \"link\", \"author\", \"published_date\"]"
    );
    assert_eq!(errs[6], "Rule 'bad regex' risk_score must be an integer");
    assert!(errs[7].starts_with("Regex rule 'bad regex' has invalid pattern [(]: "));
    assert_eq!(errs.len(), 8);
}

#[test]
fn test_validate_document_level_errors() {
    assert_eq!(
        validate_heuristics_source("h.toml", RulesSource::Parsed(RulesDocument::Missing)).unwrap_err(),
        vec!["Missing 'rules' array in TOML".to_string()]
    );
    assert_eq!(
        validate_heuristics_source("h.toml", RulesSource::Parsed(RulesDocument::NotArray)).unwrap_err(),
        vec!["'rules' must be an array".to_string()]
    );
    assert_eq!(
        validate_heuristics_source("h.toml", RulesSource::Parsed(RulesDocument::Rules(vec![]))).unwrap_err(),
        vec!["Rules array is empty - no rules defined".to_string()]
    );
    assert_eq!(
        validate_heuristics_source("a;b.toml", RulesSource::Unreadable("not found".to_string())).unwrap_err(),
        vec!["Failed to read file [a b.toml]: not found".to_string()]
    );
    assert_eq!(
        validate_heuristics_source("h.toml", RulesSource::BadSyntax("bad `x`".to_string())).unwrap_err(),
        vec!["Invalid TOML syntax: bad  x ".to_string()]
    );
}

#[test]
fn test_validate_unknown_and_empty_type() {
    let rules = vec![
        RuleItem::Table(vec![
            entry("name", text("a")),
            entry("type", text("")),
            entry("risk_score", TomlScalar::Integer(1)),
            entry("description", text("d")),
        ]),
        RuleItem::Table(vec![
            entry("name", text("b")),
            entry("type", text("magic")),
            entry("risk_score", TomlScalar::Integer(-1)),
            entry("description", text("d")),
        ]),
    ];
    let errs = validate_heuristics_source("h.toml", RulesSource::Parsed(RulesDocument::Rules(rules))).unwrap_err();
    assert_eq!(
        errs,
        vec![
            "Rule 'a' has empty type".to_string(),
            "Rule 'b' has invalid risk_score -1, must be 0-100".to_string(),
            "Rule 'b' has unknown type [magic], must be 'keyword', 'regex', or 'metadata'".to_string(),
        ]
    );
}

#[test]
fn keyword_rule_reports_the_first_keyword_in_rule_order() {
    let mut r = rule("keyword", Some("description"));
    r.keywords = Some(vec!["QUICKLY".to_string(), "tokens".to_string()]);
    let m = apply_rule(r, &pkg()).unwrap();
    assert_eq!(m.evidence, "QUICKLY");
    assert_eq!(m.location, "description");
    let mut none = rule("keyword", Some("description"));
    none.keywords = Some(vec!["absent".to_string()]);
    assert!(apply_rule(none, &pkg()).is_none());
    let mut no_field = rule("keyword", None);
    no_field.keywords = Some(vec!["tokens".to_string()]);
    assert!(apply_rule(no_field, &pkg()).is_none());
}

#[test]
fn rule_file_text_is_parsed_and_checked() {
    let good = "[[rules]]\nname = \"x\"\ntype = \"keyword\"\nrisk_score = 10\ndescription = \"d\"\nfield = \"title\"\nkeywords = [\"a\"]\n";
    assert_eq!(validate_heuristics_text("h.toml", Ok(good.to_string())), Ok(()));
    assert_eq!(
        validate_heuristics_text("h.toml", Ok("rules = 5".to_string())),
        Err(vec!["'rules' must be an array".to_string()])
    );
    assert_eq!(
        validate_heuristics_text("h.toml", Ok("other = 1".to_string())),
        Err(vec!["Missing 'rules' array in TOML".to_string()])
    );
    assert_eq!(
        validate_heuristics_text("h.toml", Ok("rules = [1]".to_string())),
        Err(vec!["Rule 0 is not a valid table".to_string()])
    );
    let errs = validate_heuristics_text("h.toml", Ok("rules = [".to_string())).unwrap_err();
    assert_eq!(errs.len(), 1);
    assert!(errs[0].starts_with("Invalid TOML syntax: "));
    assert_eq!(
        validate_heuristics_text("h.toml", Err("boom".to_string())),
        Err(vec!["Failed to read file [h.toml]: boom".to_string()])
    );
}
