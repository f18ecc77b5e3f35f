//! What the rule-file check's diagnostics never carry.
use vstd::prelude::*;
use crate::analysis::heuristics::{echo_safe, law_sanitized_error_is_echo_safe, regex_new_error, sanitized_error, scrubbed};
use crate::analysis::rules_file;
use crate::analysis::rules_file::{
    about, all_rule_errors, field_errors, required_key_errors, rule_errors, rule_label, score_errors,
    str_value, type_errors, validation_errors, RuleItem, RulesDocument, RulesSource, TomlEntry,
    TomlScalar, lookup,
};
use crate::text::{decimal, first_chars, is_control_char, lemma_decimal_digits, match_count, signed_decimal};

verus! {

/// A character that a diagnostic may carry: no `;`, `|`, `&`, `$`,
/// backtick, newline or NUL.
pub open spec fn shell_quiet(c: char) -> bool {
    !(c == ';' || c == '|' || c == '&' || c == '$' || c == '`' || c == '\n' || c == '\0')
}

/// Every character of `s` is one a diagnostic may carry.
pub open spec fn quiet_text(s: Seq<char>) -> bool {
    forall|i: int| 0 <= i < s.len() ==> shell_quiet(#[trigger] s[i])
}

/// Every message of the list is quiet.
pub open spec fn all_quiet(ms: Seq<Seq<char>>) -> bool {
    forall|i: int| 0 <= i < ms.len() ==> quiet_text(#[trigger] ms[i])
}

proof fn lemma_concat(a: Seq<char>, b: Seq<char>)
    requires
        quiet_text(a),
        quiet_text(b),
    ensures
        quiet_text(a + b),
{
    assert forall|i: int| 0 <= i < (a + b).len() implies shell_quiet(#[trigger] (a + b)[i]) by {
        if i < a.len() {
            assert((a + b)[i] == a[i]);
        } else {
            assert((a + b)[i] == b[i - a.len()]);
        }
    }
}

proof fn lemma_all_concat(a: Seq<Seq<char>>, b: Seq<Seq<char>>)
    requires
        all_quiet(a),
        all_quiet(b),
    ensures
        all_quiet(a + b),
{
    assert forall|i: int| 0 <= i < (a + b).len() implies quiet_text(#[trigger] (a + b)[i]) by {
        if i < a.len() {
            assert((a + b)[i] == a[i]);
        } else {
            assert((a + b)[i] == b[i - a.len()]);
        }
    }
}

proof fn lemma_sanitized(s: Seq<char>)
    ensures
        quiet_text(sanitized_error(s)),
{
    law_sanitized_error_is_echo_safe(s);
    let t = sanitized_error(s);
    assert forall|i: int| 0 <= i < t.len() implies shell_quiet(#[trigger] t[i]) by {
        assert(echo_safe(t[i]));
        assert(is_control_char('\n'));
        assert(is_control_char('\0'));
    }
}

proof fn lemma_decimal(n: nat)
    ensures
        quiet_text(decimal(n)),
{
    lemma_decimal_digits(n);
    assert forall|i: int| 0 <= i < decimal(n).len() implies shell_quiet(#[trigger] decimal(n)[i]) by {
        assert('0' <= decimal(n)[i] <= '9');
    }
}

proof fn lemma_signed_decimal(n: int)
    ensures
        quiet_text(signed_decimal(n)),
{
    if n < 0 {
        lemma_decimal((-n) as nat);
        lemma_concat(seq!['-'], decimal((-n) as nat));
    } else {
        lemma_decimal(n as nat);
    }
}

proof fn lemma_about(rn: Seq<char>, rest: Seq<char>)
    requires
        quiet_text(rn),
        quiet_text(rest),
    ensures
        quiet_text(about(rn, rest)),
{
    reveal_strlit("Rule '");
    reveal_strlit("'");
    assert(quiet_text("Rule '"@));
    assert(quiet_text("'"@));
    lemma_concat("Rule '"@, rn);
    lemma_concat("Rule '"@ + rn, "'"@);
    lemma_concat("Rule '"@ + rn + "'"@, rest);
}

/// `<head>` + the rule's label + `<tail>`.
proof fn lemma_framed(head: Seq<char>, rn: Seq<char>, tail: Seq<char>)
    requires
        quiet_text(head),
        quiet_text(rn),
        quiet_text(tail),
    ensures
        quiet_text(head + rn + tail),
{
    lemma_concat(head, rn);
    lemma_concat(head + rn, tail);
}

proof fn lemma_label(idx: nat, e: Seq<TomlEntry>)
    ensures
        quiet_text(rule_label(idx, e)),
{
    match str_value(e, "name"@) {
        Some(n) => lemma_sanitized(n),
        None => {
            lemma_decimal(idx);
            lemma_concat(seq!['#'], decimal(idx));
        },
    }
}

proof fn lemma_required(idx: nat, e: Seq<TomlEntry>, rn: Seq<char>)
    requires
        quiet_text(rn),
    ensures
        all_quiet(required_key_errors(idx, e, rn)),
{
    reveal_strlit("Rule ");
    reveal_strlit(" missing 'name'");
    reveal_strlit(" missing 'type'");
    reveal_strlit(" missing 'risk_score'");
    reveal_strlit(" missing 'description'");
    assert(quiet_text("Rule "@));
    assert(quiet_text(" missing 'name'"@));
    assert(quiet_text(" missing 'type'"@));
    assert(quiet_text(" missing 'risk_score'"@));
    assert(quiet_text(" missing 'description'"@));
    lemma_decimal(idx);
    lemma_framed("Rule "@, decimal(idx), " missing 'name'"@);
    lemma_about(rn, " missing 'type'"@);
    lemma_about(rn, " missing 'risk_score'"@);
    lemma_about(rn, " missing 'description'"@);
    let a = rules_file::when(!rules_file::has_key(e, "name"@), "Rule "@ + decimal(idx) + " missing 'name'"@);
    let b = rules_file::when(!rules_file::has_key(e, "type"@), about(rn, " missing 'type'"@));
    let c = rules_file::when(!rules_file::has_key(e, "risk_score"@), about(rn, " missing 'risk_score'"@));
    let d = rules_file::when(!rules_file::has_key(e, "description"@), about(rn, " missing 'description'"@));
    lemma_all_concat(a, b);
    lemma_all_concat(a + b, c);
    lemma_all_concat(a + b + c, d);
}

proof fn lemma_score(e: Seq<TomlEntry>, rn: Seq<char>)
    requires
        quiet_text(rn),
    ensures
        all_quiet(score_errors(e, rn)),
{
    match lookup(e, "risk_score"@) {
        Some(TomlScalar::Integer(v)) => {
            reveal_strlit(" has invalid risk_score ");
            reveal_strlit(", must be 0-100");
            assert(quiet_text(" has invalid risk_score "@));
            assert(quiet_text(", must be 0-100"@));
            lemma_signed_decimal(v as int);
            lemma_framed(" has invalid risk_score "@, signed_decimal(v as int), ", must be 0-100"@);
            lemma_about(rn, " has invalid risk_score "@ + signed_decimal(v as int) + ", must be 0-100"@);
        },
        Some(_) => {
            reveal_strlit(" risk_score must be an integer");
            assert(quiet_text(" risk_score must be an integer"@));
            lemma_about(rn, " risk_score must be an integer"@);
        },
        None => {},
    }
}

proof fn lemma_type(e: Seq<TomlEntry>, rn: Seq<char>)
    requires
        quiet_text(rn),
    ensures
        all_quiet(type_errors(e, rn)),
{
    let t = match str_value(e, "type"@) {
        Some(t) => t,
        None => Seq::empty(),
    };
    if t == "keyword"@ {
        reveal_strlit("Keyword rule '");
        reveal_strlit("' missing 'field'");
        reveal_strlit("' missing 'keywords' array");
        assert(quiet_text("Keyword rule '"@));
        assert(quiet_text("' missing 'field'"@));
        assert(quiet_text("' missing 'keywords' array"@));
        lemma_framed("Keyword rule '"@, rn, "' missing 'field'"@);
        lemma_framed("Keyword rule '"@, rn, "' missing 'keywords' array"@);
        lemma_all_concat(
            rules_file::when(!rules_file::has_key(e, "field"@), "Keyword rule '"@ + rn + "' missing 'field'"@),
            rules_file::when(!rules_file::has_key(e, "keywords"@), "Keyword rule '"@ + rn + "' missing 'keywords' array"@),
        );
    } else if t == "regex"@ {
        reveal_strlit("Regex rule '");
        reveal_strlit("' missing 'field'");
        reveal_strlit("' missing 'pattern'");
        reveal_strlit("' has invalid pattern [");
        reveal_strlit("]: ");
        assert(quiet_text("Regex rule '"@));
        assert(quiet_text("' missing 'field'"@));
        assert(quiet_text("' missing 'pattern'"@));
        assert(quiet_text("' has invalid pattern ["@));
        assert(quiet_text("]: "@));
        lemma_framed("Regex rule '"@, rn, "' missing 'field'"@);
        lemma_framed("Regex rule '"@, rn, "' missing 'pattern'"@);
        let first = rules_file::when(!rules_file::has_key(e, "field"@), "Regex rule '"@ + rn + "' missing 'field'"@);
        let rest: Seq<Seq<char>> = if !rules_file::has_key(e, "pattern"@) {
            seq!["Regex rule '"@ + rn + "' missing 'pattern'"@]
        } else {
            match str_value(e, "pattern"@) {
                Some(p) => match regex_new_error(p) {
                    Some(err) => seq![
                        "Regex rule '"@ + rn + "' has invalid pattern ["@ + sanitized_error(p)
                            + "]: "@ + sanitized_error(err),
                    ],
                    None => Seq::empty(),
                },
                None => Seq::empty(),
            }
        };
        if rules_file::has_key(e, "pattern"@) {
            if let Some(p) = str_value(e, "pattern"@) {
                if let Some(err) = regex_new_error(p) {
                    lemma_sanitized(p);
                    lemma_sanitized(err);
                    let h = "Regex rule '"@ + rn + "' has invalid pattern ["@;
                    lemma_framed("Regex rule '"@, rn, "' has invalid pattern ["@);
                    lemma_framed(h, sanitized_error(p), "]: "@);
                    lemma_concat(h + sanitized_error(p) + "]: "@, sanitized_error(err));
                }
            }
        }
        assert(all_quiet(rest));
        lemma_all_concat(first, rest);
    } else if t == "metadata"@ {
        reveal_strlit("Metadata rule '");
        reveal_strlit("' missing 'field'");
        reveal_strlit("' missing 'check'");
        reveal_strlit("' has invalid check [");
        reveal_strlit("], must be one of: [\"is_some\", \"is_none\"]");
        assert(quiet_text("Metadata rule '"@));
        assert(quiet_text("' missing 'field'"@));
        assert(quiet_text("' missing 'check'"@));
        assert(quiet_text("' has invalid check ["@));
        assert(quiet_text("], must be one of: [\"is_some\", \"is_none\"]"@));
        lemma_framed("Metadata rule '"@, rn, "' missing 'field'"@);
        lemma_framed("Metadata rule '"@, rn, "' missing 'check'"@);
        let first = rules_file::when(!rules_file::has_key(e, "field"@), "Metadata rule '"@ + rn + "' missing 'field'"@);
        let rest: Seq<Seq<char>> = if !rules_file::has_key(e, "check"@) {
            seq!["Metadata rule '"@ + rn + "' missing 'check'"@]
        } else {
            match str_value(e, "check"@) {
                Some(c) => rules_file::when(
                    !rules_file::valid_check(c),
                    "Metadata rule '"@ + rn + "' has invalid check ["@ + sanitized_error(c)
                        + "], must be one of: [\"is_some\", \"is_none\"]"@,
                ),
                None => Seq::empty(),
            }
        };
        if rules_file::has_key(e, "check"@) {
            if let Some(c) = str_value(e, "check"@) {
                lemma_sanitized(c);
                let h = "Metadata rule '"@ + rn + "' has invalid check ["@;
                lemma_framed("Metadata rule '"@, rn, "' has invalid check ["@);
                lemma_framed(h, sanitized_error(c), "], must be one of: [\"is_some\", \"is_none\"]"@);
            }
        }
        assert(all_quiet(rest));
        lemma_all_concat(first, rest);
    } else if t.len() == 0 {
        reveal_strlit(" has empty type");
        assert(quiet_text(" has empty type"@));
        lemma_about(rn, " has empty type"@);
    } else {
        reveal_strlit(" has unknown type [");
        reveal_strlit("], must be 'keyword', 'regex', or 'metadata'");
        assert(quiet_text(" has unknown type ["@));
        assert(quiet_text("], must be 'keyword', 'regex', or 'metadata'"@));
        lemma_sanitized(t);
        lemma_framed(" has unknown type ["@, sanitized_error(t), "], must be 'keyword', 'regex', or 'metadata'"@);
        lemma_about(rn, " has unknown type ["@ + sanitized_error(t) + "], must be 'keyword', 'regex', or 'metadata'"@);
    }
}

proof fn lemma_field(e: Seq<TomlEntry>, rn: Seq<char>)
    requires
        quiet_text(rn),
    ensures
        all_quiet(field_errors(e, rn)),
{
    if let Some(f) = str_value(e, "field"@) {
        let tail = "], must be one of: [\"description\", \"title\", \"link\", \"author\", \"published_date\"]"@;
        reveal_strlit(" has invalid field [");
        reveal_strlit("], must be one of: [\"description\", \"title\", \"link\", \"author\", \"published_date\"]");
        assert(quiet_text(" has invalid field ["@));
        assert(quiet_text(tail));
        lemma_sanitized(f);
        lemma_framed(" has invalid field ["@, sanitized_error(f), tail);
        lemma_about(rn, " has invalid field ["@ + sanitized_error(f) + tail);
    }
}

proof fn lemma_rule(idx: nat, item: RuleItem)
    ensures
        all_quiet(rule_errors(idx, item)),
{
    match item {
        RuleItem::Other => {
            reveal_strlit("Rule ");
            reveal_strlit(" is not a valid table");
            assert(quiet_text("Rule "@));
            assert(quiet_text(" is not a valid table"@));
            lemma_decimal(idx);
            lemma_framed("Rule "@, decimal(idx), " is not a valid table"@);
        },
        RuleItem::Table(entries) => {
            let e = entries@;
            let rn = rule_label(idx, e);
            lemma_label(idx, e);
            lemma_required(idx, e, rn);
            lemma_score(e, rn);
            lemma_type(e, rn);
            lemma_field(e, rn);
            lemma_all_concat(required_key_errors(idx, e, rn), score_errors(e, rn));
            lemma_all_concat(required_key_errors(idx, e, rn) + score_errors(e, rn), type_errors(e, rn));
            lemma_all_concat(
                required_key_errors(idx, e, rn) + score_errors(e, rn) + type_errors(e, rn),
                field_errors(e, rn),
            );
        },
    }
}

proof fn lemma_all_rules(items: Seq<RuleItem>, n: nat)
    ensures
        all_quiet(all_rule_errors(items, n)),
    decreases n,
{
    if n > 0 {
        lemma_all_rules(items, (n - 1) as nat);
        lemma_rule((n - 1) as nat, items[n - 1]);
        lemma_all_concat(all_rule_errors(items, (n - 1) as nat), rule_errors((n - 1) as nat, items[n - 1]));
    }
}

/// No diagnostic of the rule-file check carries a shell metacharacter
/// (`;`, `|`, `&`, `$`, backtick), a newline or a NUL, whatever the path,
/// the rule names, types, fields, checks and patterns hold: everything
/// echoed from the file is scrubbed first. The one text passed on as it
/// came is the read error's own message, which must be quiet itself.
pub proof fn law_validation_errors_are_shell_quiet(path: Seq<char>, source: RulesSource)
    requires
        source matches RulesSource::Unreadable(e) ==> quiet_text(e@),
    ensures
        all_quiet(validation_errors(path, source)),
{
    match source {
        RulesSource::Unreadable(e) => {
            reveal_strlit("Failed to read file [");
            reveal_strlit("]: ");
            assert(quiet_text("Failed to read file ["@));
            assert(quiet_text("]: "@));
            lemma_sanitized(path);
            lemma_framed("Failed to read file ["@, sanitized_error(path), "]: "@);
            lemma_concat("Failed to read file ["@ + sanitized_error(path) + "]: "@, e@);
        },
        RulesSource::BadSyntax(e) => {
            reveal_strlit("Invalid TOML syntax: ");
            assert(quiet_text("Invalid TOML syntax: "@));
            lemma_sanitized(e@);
            lemma_concat("Invalid TOML syntax: "@, sanitized_error(e@));
        },
        RulesSource::Parsed(RulesDocument::Missing) => {
            reveal_strlit("Missing 'rules' array in TOML");
            assert(quiet_text("Missing 'rules' array in TOML"@));
        },
        RulesSource::Parsed(RulesDocument::NotArray) => {
            reveal_strlit("'rules' must be an array");
            assert(quiet_text("'rules' must be an array"@));
        },
        RulesSource::Parsed(RulesDocument::Rules(items)) => {
            reveal_strlit("Rules array is empty - no rules defined");
            assert(quiet_text("Rules array is empty - no rules defined"@));
            lemma_all_rules(items@, items@.len());
            lemma_all_concat(
                rules_file::when(items@.len() == 0, "Rules array is empty - no rules defined"@),
                all_rule_errors(items@, items@.len()),
            );
        },
    }
}

/// Counting in a prefix finds no more than counting in the whole text.
proof fn lemma_prefix_count(s: Seq<char>, p: Seq<char>, n: int)
    requires
        0 <= n <= s.len(),
    ensures
        match_count(s.take(n), p) <= match_count(s, p),
    decreases s.len(),
{
    let t = s.take(n);
    if p.len() > 0 && t.len() >= p.len() {
        let k = p.len() as int;
        assert(t.take(k) =~= s.take(k));
        if s.take(k) == p {
            assert(t.skip(k) =~= s.skip(k).take(n - k));
            lemma_prefix_count(s.skip(k), p, n - k);
        } else {
            assert(t.skip(1) =~= s.skip(1).take(n - 1));
            lemma_prefix_count(s.skip(1), p, n - 1);
        }
    }
}

/// A pattern whose first character never occurs is never counted.
proof fn lemma_absent_start(s: Seq<char>, p: Seq<char>)
    requires
        p.len() > 0,
        forall|i: int| 0 <= i < s.len() ==> #[trigger] s[i] != p[0],
    ensures
        match_count(s, p) == 0,
    decreases s.len(),
{
    if s.len() >= p.len() {
        assert(s.take(p.len() as int)[0] != p[0]);
        lemma_absent_start(s.skip(1), p);
    }
}

/// A rule file that cannot be read gives one diagnostic,
/// `Failed to read file [<path>]: <error>`, in which the path is scrubbed:
/// a path with more than two `../` (or `..\`) shows as
/// `[path-traversal-attempt]`, and the path shown never holds more than
/// two `../`.
pub proof fn law_unreadable_file_shows_scrubbed_path(path: Seq<char>, e: String)
    ensures
        validation_errors(path, RulesSource::Unreadable(e)) == seq![
            "Failed to read file ["@ + sanitized_error(path) + "]: "@ + e@,
        ],
        match_count(scrubbed(path), "../"@) > 2 || match_count(scrubbed(path), "..\\"@) > 2
            ==> sanitized_error(path) == "[path-traversal-attempt]"@,
        match_count(sanitized_error(path), "../"@) <= 2,
{
    reveal_strlit("[path-traversal-attempt]");
    reveal_strlit("../");
    let f = scrubbed(path);
    if match_count(f, "../"@) > 2 || match_count(f, "..\\"@) > 2 {
        let m = "[path-traversal-attempt]"@;
        assert(first_chars(m, 200) == m);
        assert forall|i: int| 0 <= i < m.len() implies #[trigger] m[i] != "../"@[0] by {}
        lemma_absent_start(m, "../"@);
    } else if f.len() > 200 {
        lemma_prefix_count(f, "../"@, 200);
    }
}

} // verus!
