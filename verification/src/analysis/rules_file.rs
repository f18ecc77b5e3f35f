//! Checking a heuristics rule file before it is loaded: every rule must
//! carry the keys its type needs, with values in range, and every
//! diagnostic that echoes file content is scrubbed first.
use vstd::prelude::*;
use toml::{Table, Value};
use crate::analysis::heuristics::{regex_error, regex_new_error, sanitize_error_string, sanitized_error};
use crate::text::{append_all, chars_eq, chars_of, decimal, decimal_chars, signed_decimal, signed_decimal_chars, string_of, string_views};

verus! {

/// A TOML value, as far as the check reads it.
#[derive(Debug, Clone)]
pub enum TomlScalar {
    Text(String),
    Integer(i64),
    Other,
}

/// One key of a rule table.
#[derive(Debug, Clone)]
pub struct TomlEntry {
    pub key: String,
    pub value: TomlScalar,
}

/// One element of an array of the file: a table, or any other value.
#[derive(Debug, Clone)]
pub enum RuleItem {
    Table(Vec<TomlEntry>),
    Other,
}

/// A value of the file's top-level table: an array, or any other value.
#[derive(Debug, Clone)]
pub enum TomlValue {
    Array(Vec<RuleItem>),
    Other,
}

/// The `rules` key of a parsed rule file.
#[derive(Debug, Clone)]
pub enum RulesDocument {
    Missing,
    NotArray,
    Rules(Vec<RuleItem>),
}

/// What reading and parsing the rule file gave: the read error's message,
/// the TOML error's message, or the document.
#[derive(Debug, Clone)]
pub enum RulesSource {
    Unreadable(String),
    BadSyntax(String),
    Parsed(RulesDocument),
}

/// The value stored under `key`, the first such entry.
pub open spec fn lookup(entries: Seq<TomlEntry>, key: Seq<char>) -> Option<TomlScalar>
    decreases entries.len(),
{
    if entries.len() == 0 {
        None
    } else if entries[0].key@ == key {
        Some(entries[0].value)
    } else {
        lookup(entries.skip(1), key)
    }
}

/// The table has the key.
pub open spec fn has_key(entries: Seq<TomlEntry>, key: Seq<char>) -> bool {
    lookup(entries, key) is Some
}

/// The string stored under `key`, if the value is a string.
pub open spec fn str_value(entries: Seq<TomlEntry>, key: Seq<char>) -> Option<Seq<char>> {
    match lookup(entries, key) {
        Some(TomlScalar::Text(s)) => Some(s@),
        _ => None,
    }
}

/// A one-message list when `cond` holds.
pub open spec fn when(cond: bool, msg: Seq<char>) -> Seq<Seq<char>> {
    if cond {
        seq![msg]
    } else {
        Seq::empty()
    }
}

/// `Rule '<name>'` followed by `rest`.
pub open spec fn about(rn: Seq<char>, rest: Seq<char>) -> Seq<char> {
    "Rule '"@ + rn + "'"@ + rest
}

/// The keys every rule needs.
pub open spec fn required_key_errors(idx: nat, e: Seq<TomlEntry>, rn: Seq<char>) -> Seq<Seq<char>> {
    when(!has_key(e, "name"@), "Rule "@ + decimal(idx) + " missing 'name'"@) + when(
        !has_key(e, "type"@),
        about(rn, " missing 'type'"@),
    ) + when(!has_key(e, "risk_score"@), about(rn, " missing 'risk_score'"@)) + when(
        !has_key(e, "description"@),
        about(rn, " missing 'description'"@),
    )
}

/// The risk score must be an integer from 0 to 100.
pub open spec fn score_errors(e: Seq<TomlEntry>, rn: Seq<char>) -> Seq<Seq<char>> {
    match lookup(e, "risk_score"@) {
        Some(TomlScalar::Integer(v)) => when(
            v < 0 || v > 100,
            about(rn, " has invalid risk_score "@ + signed_decimal(v as int) + ", must be 0-100"@),
        ),
        Some(_) => seq![about(rn, " risk_score must be an integer"@)],
        None => Seq::empty(),
    }
}

/// The checks a metadata rule may name.
pub open spec fn valid_check(c: Seq<char>) -> bool {
    c == "is_some"@ || c == "is_none"@
}

/// The fields a rule may read.
pub open spec fn valid_field(f: Seq<char>) -> bool {
    f == "description"@ || f == "title"@ || f == "link"@ || f == "author"@ || f
        == "published_date"@
}

/// The keys each rule type needs, and the values they must hold.
pub open spec fn type_errors(e: Seq<TomlEntry>, rn: Seq<char>) -> Seq<Seq<char>> {
    let t = match str_value(e, "type"@) {
        Some(t) => t,
        None => Seq::empty(),
    };
    if t == "keyword"@ {
        when(!has_key(e, "field"@), "Keyword rule '"@ + rn + "' missing 'field'"@) + when(
            !has_key(e, "keywords"@),
            "Keyword rule '"@ + rn + "' missing 'keywords' array"@,
        )
    } else if t == "regex"@ {
        when(!has_key(e, "field"@), "Regex rule '"@ + rn + "' missing 'field'"@) + if !has_key(
            e,
            "pattern"@,
        ) {
            seq!["Regex rule '"@ + rn + "' missing 'pattern'"@]
        } else {
            match str_value(e, "pattern"@) {
                Some(p) => match regex_new_error(p) {
                    Some(err) => seq![
                        "Regex rule '"@ + rn + "' has invalid pattern ["@ + sanitized_error(p)
                            + "]: "@ + sanitized_error(err),
                    ],
                    None => Seq::empty(),
                },
                None => Seq::empty(),
            }
        }
    } else if t == "metadata"@ {
        when(!has_key(e, "field"@), "Metadata rule '"@ + rn + "' missing 'field'"@) + if !has_key(
            e,
            "check"@,
        ) {
            seq!["Metadata rule '"@ + rn + "' missing 'check'"@]
        } else {
            match str_value(e, "check"@) {
                Some(c) => when(
                    !valid_check(c),
                    "Metadata rule '"@ + rn + "' has invalid check ["@ + sanitized_error(c)
                        + "], must be one of: [\"is_some\", \"is_none\"]"@,
                ),
                None => Seq::empty(),
            }
        }
    } else if t.len() == 0 {
        seq![about(rn, " has empty type"@)]
    } else {
        seq![
            about(
                rn,
                " has unknown type ["@ + sanitized_error(t)
                    + "], must be 'keyword', 'regex', or 'metadata'"@,
            ),
        ]
    }
}

/// The field a rule reads must be one of the package's fields.
pub open spec fn field_errors(e: Seq<TomlEntry>, rn: Seq<char>) -> Seq<Seq<char>> {
    match str_value(e, "field"@) {
        Some(f) => when(
            !valid_field(f),
            about(
                rn,
                " has invalid field ["@ + sanitized_error(f)
                    + "], must be one of: [\"description\", \"title\", \"link\", \"author\", \"published_date\"]"@,
            ),
        ),
        None => Seq::empty(),
    }
}

/// How diagnostics name a rule: its scrubbed name, else `#<index>`.
pub open spec fn rule_label(idx: nat, e: Seq<TomlEntry>) -> Seq<char> {
    match str_value(e, "name"@) {
        Some(n) => sanitized_error(n),
        None => seq!['#'] + decimal(idx),
    }
}

/// The diagnostics for the rule at position `idx`, in order.
pub open spec fn rule_errors(idx: nat, item: RuleItem) -> Seq<Seq<char>> {
    match item {
        RuleItem::Other => seq!["Rule "@ + decimal(idx) + " is not a valid table"@],
        RuleItem::Table(entries) => {
            let e = entries@;
            let rn = rule_label(idx, e);
            required_key_errors(idx, e, rn) + score_errors(e, rn) + type_errors(e, rn)
                + field_errors(e, rn)
        },
    }
}

/// The diagnostics for the first `n` rules.
pub open spec fn all_rule_errors(items: Seq<RuleItem>, n: nat) -> Seq<Seq<char>>
    decreases n,
{
    if n == 0 {
        Seq::empty()
    } else {
        all_rule_errors(items, (n - 1) as nat) + rule_errors((n - 1) as nat, items[n - 1])
    }
}

/// Every diagnostic for a rule file, in the order the check reports them.
pub open spec fn validation_errors(path: Seq<char>, source: RulesSource) -> Seq<Seq<char>> {
    match source {
        RulesSource::Unreadable(e) => seq![
            "Failed to read file ["@ + sanitized_error(path) + "]: "@ + e@,
        ],
        RulesSource::BadSyntax(e) => seq!["Invalid TOML syntax: "@ + sanitized_error(e@)],
        RulesSource::Parsed(RulesDocument::Missing) => seq!["Missing 'rules' array in TOML"@],
        RulesSource::Parsed(RulesDocument::NotArray) => seq!["'rules' must be an array"@],
        RulesSource::Parsed(RulesDocument::Rules(items)) => when(
            items@.len() == 0,
            "Rules array is empty - no rules defined"@,
        ) + all_rule_errors(items@, items@.len()),
    }
}

/// The value stored under `key`.
fn find_entry<'a>(e: &'a [TomlEntry], key: &str) -> (r: Option<&'a TomlScalar>)
    ensures
        match lookup(e@, key@) {
            Some(v) => r matches Some(x) && *x == v,
            None => r is None,
        },
{
    let k = chars_of(key);
    let n = e.len();
    let mut i: usize = 0;
    assert(e@.skip(0) == e@);
    while i < n
        invariant
            n == e@.len(),
            i <= n,
            k@ == key@,
            lookup(e@, key@) == lookup(e@.skip(i as int), key@),
        decreases n - i,
    {
        assert(e@.skip(i as int)[0] == e@[i as int]);
        if chars_eq(&chars_of(e[i].key.as_str()), &k) {
            return Some(&e[i].value);
        }
        assert(e@.skip(i as int).skip(1) == e@.skip(i + 1));
        i = i + 1;
    }
    None
}

/// The string stored under `key`, if the value is a string.
fn text_entry<'a>(e: &'a [TomlEntry], key: &str) -> (r: Option<&'a String>)
    ensures
        r is None <==> str_value(e@, key@) is None,
        r matches Some(s) ==> str_value(e@, key@) == Some(s@),
{
    match find_entry(e, key) {
        Some(TomlScalar::Text(s)) => Some(s),
        _ => None,
    }
}

/// Whether the table has the key.
fn has_entry(e: &[TomlEntry], key: &str) -> (r: bool)
    ensures
        r == has_key(e@, key@),
{
    find_entry(e, key).is_some()
}

/// Append one diagnostic when `cond` holds.
fn push_when(out: &mut Vec<String>, cond: bool, msg: &[char])
    ensures
        string_views(final(out)@) == string_views(old(out)@) + when(cond, msg@),
{
    let ghost before = string_views(out@);
    if cond {
        out.push(string_of(msg));
        assert(string_views(out@) =~= before + seq![msg@]);
    } else {
        assert(string_views(out@) =~= before + Seq::<Seq<char>>::empty());
    }
}

/// `a`, then `b`, then `c`.
fn cat3(a: &[char], b: &[char], c: &[char]) -> (r: Vec<char>)
    ensures
        r@ == a@ + b@ + c@,
{
    let mut r: Vec<char> = Vec::new();
    append_all(&mut r, a);
    append_all(&mut r, b);
    append_all(&mut r, c);
    r
}

/// `Rule '<name>'` followed by `rest`.
fn about_of(rn: &[char], rest: &str) -> (r: Vec<char>)
    ensures
        r@ == about(rn@, rest@),
{
    let r = cat3(&chars_of("Rule '"), rn, &chars_of("'"));
    let mut r = r;
    append_all(&mut r, &chars_of(rest));
    r
}

fn push_required_key_errors(out: &mut Vec<String>, idx: usize, e: &[TomlEntry], rn: &[char])
    ensures
        string_views(final(out)@) == string_views(old(out)@) + required_key_errors(
            idx as nat,
            e@,
            rn@,
        ),
{
    let ghost start = string_views(out@);
    let m1 = cat3(&chars_of("Rule "), &decimal_chars(idx as u64), &chars_of(" missing 'name'"));
    push_when(out, !has_entry(e, "name"), &m1);
    push_when(out, !has_entry(e, "type"), &about_of(rn, " missing 'type'"));
    push_when(out, !has_entry(e, "risk_score"), &about_of(rn, " missing 'risk_score'"));
    push_when(out, !has_entry(e, "description"), &about_of(rn, " missing 'description'"));
    assert(string_views(out@) =~= start + required_key_errors(idx as nat, e@, rn@));
}

fn push_score_errors(out: &mut Vec<String>, e: &[TomlEntry], rn: &[char])
    ensures
        string_views(final(out)@) == string_views(old(out)@) + score_errors(e@, rn@),
{
    let ghost start = string_views(out@);
    match find_entry(e, "risk_score") {
        Some(TomlScalar::Integer(v)) => {
            let v = *v;
            let mut m = about_of(rn, " has invalid risk_score ");
            append_all(&mut m, &signed_decimal_chars(v));
            append_all(&mut m, &chars_of(", must be 0-100"));
            assert(m@ =~= about(rn@, " has invalid risk_score "@ + signed_decimal(v as int) + ", must be 0-100"@));
            push_when(out, v < 0 || v > 100, &m);
        },
        Some(_) => {
            push_when(out, true, &about_of(rn, " risk_score must be an integer"));
        },
        None => {
            assert(string_views(out@) =~= start + Seq::<Seq<char>>::empty());
        },
    }
}

fn push_type_errors(out: &mut Vec<String>, e: &[TomlEntry], rn: &[char])
    ensures
        string_views(final(out)@) == string_views(old(out)@) + type_errors(e@, rn@),
{
    let ghost start = string_views(out@);
    let t: Vec<char> = match text_entry(e, "type") {
        Some(t) => chars_of(t.as_str()),
        None => Vec::new(),
    };
    if chars_eq(&t, &chars_of("keyword")) {
        push_when(out, !has_entry(e, "field"), &cat3(&chars_of("Keyword rule '"), rn, &chars_of("' missing 'field'")));
        push_when(out, !has_entry(e, "keywords"), &cat3(&chars_of("Keyword rule '"), rn, &chars_of("' missing 'keywords' array")));
        assert(string_views(out@) =~= start + type_errors(e@, rn@));
    } else if chars_eq(&t, &chars_of("regex")) {
        push_when(out, !has_entry(e, "field"), &cat3(&chars_of("Regex rule '"), rn, &chars_of("' missing 'field'")));
        let ghost mid = string_views(out@);
        if !has_entry(e, "pattern") {
            push_when(out, true, &cat3(&chars_of("Regex rule '"), rn, &chars_of("' missing 'pattern'")));
        } else {
            match text_entry(e, "pattern") {
                Some(p) => match regex_error(p.as_str()) {
                    Some(err) => {
                        let mut m = cat3(&chars_of("Regex rule '"), rn, &chars_of("' has invalid pattern ["));
                        append_all(&mut m, &chars_of(sanitize_error_string(p.as_str()).as_str()));
                        append_all(&mut m, &chars_of("]: "));
                        append_all(&mut m, &chars_of(sanitize_error_string(err.as_str()).as_str()));
                        push_when(out, true, &m);
                        assert(m@ =~= "Regex rule '"@ + rn@ + "' has invalid pattern ["@ + sanitized_error(p@) + "]: "@ + sanitized_error(err@));
                    },
                    None => {
                        assert(string_views(out@) =~= mid + Seq::<Seq<char>>::empty());
                    },
                },
                None => {
                    assert(string_views(out@) =~= mid + Seq::<Seq<char>>::empty());
                },
            }
        }
        assert(string_views(out@) =~= start + type_errors(e@, rn@));
    } else if chars_eq(&t, &chars_of("metadata")) {
        push_when(out, !has_entry(e, "field"), &cat3(&chars_of("Metadata rule '"), rn, &chars_of("' missing 'field'")));
        let ghost mid = string_views(out@);
        if !has_entry(e, "check") {
            push_when(out, true, &cat3(&chars_of("Metadata rule '"), rn, &chars_of("' missing 'check'")));
        } else {
            match text_entry(e, "check") {
                Some(c) => {
                    let cc = chars_of(c.as_str());
                    let ok = chars_eq(&cc, &chars_of("is_some")) || chars_eq(&cc, &chars_of("is_none"));
                    let mut m = cat3(&chars_of("Metadata rule '"), rn, &chars_of("' has invalid check ["));
                    append_all(&mut m, &chars_of(sanitize_error_string(c.as_str()).as_str()));
                    append_all(&mut m, &chars_of("], must be one of: [\"is_some\", \"is_none\"]"));
                    assert(m@ =~= "Metadata rule '"@ + rn@ + "' has invalid check ["@ + sanitized_error(c@) + "], must be one of: [\"is_some\", \"is_none\"]"@);
                    push_when(out, !ok, &m);
                },
                None => {
                    assert(string_views(out@) =~= mid + Seq::<Seq<char>>::empty());
                },
            }
        }
        assert(string_views(out@) =~= start + type_errors(e@, rn@));
    } else if t.len() == 0 {
        push_when(out, true, &about_of(rn, " has empty type"));
    } else {
        let mut m = about_of(rn, " has unknown type [");
        append_all(&mut m, &chars_of(sanitize_error_string(string_of(&t).as_str()).as_str()));
        append_all(&mut m, &chars_of("], must be 'keyword', 'regex', or 'metadata'"));
        assert(m@ =~= about(rn@, " has unknown type ["@ + sanitized_error(t@) + "], must be 'keyword', 'regex', or 'metadata'"@));
        push_when(out, true, &m);
    }
}

fn push_field_errors(out: &mut Vec<String>, e: &[TomlEntry], rn: &[char])
    ensures
        string_views(final(out)@) == string_views(old(out)@) + field_errors(e@, rn@),
{
    let ghost start = string_views(out@);
    match text_entry(e, "field") {
        Some(f) => {
            let fc = chars_of(f.as_str());
            let ok = chars_eq(&fc, &chars_of("description")) || chars_eq(&fc, &chars_of("title"))
                || chars_eq(&fc, &chars_of("link")) || chars_eq(&fc, &chars_of("author"))
                || chars_eq(&fc, &chars_of("published_date"));
            let mut m = about_of(rn, " has invalid field [");
            append_all(&mut m, &chars_of(sanitize_error_string(f.as_str()).as_str()));
            append_all(&mut m, &chars_of("], must be one of: [\"description\", \"title\", \"link\", \"author\", \"published_date\"]"));
            assert(m@ =~= about(rn@, " has invalid field ["@ + sanitized_error(f@) + "], must be one of: [\"description\", \"title\", \"link\", \"author\", \"published_date\"]"@));
            push_when(out, !ok, &m);
        },
        None => {
            assert(string_views(out@) =~= start + Seq::<Seq<char>>::empty());
        },
    }
}

fn push_rule_errors(out: &mut Vec<String>, idx: usize, item: &RuleItem)
    ensures
        string_views(final(out)@) == string_views(old(out)@) + rule_errors(idx as nat, *item),
{
    let ghost start = string_views(out@);
    match item {
        RuleItem::Other => {
            let m = cat3(&chars_of("Rule "), &decimal_chars(idx as u64), &chars_of(" is not a valid table"));
            push_when(out, true, &m);
        },
        RuleItem::Table(entries) => {
            let e = entries.as_slice();
            let rn: Vec<char> = match text_entry(e, "name") {
                Some(n) => chars_of(sanitize_error_string(n.as_str()).as_str()),
                None => {
                    let mut v: Vec<char> = Vec::new();
                    v.push('#');
                    append_all(&mut v, &decimal_chars(idx as u64));
                    v
                },
            };
            assert(rn@ == rule_label(idx as nat, e@));
            push_required_key_errors(out, idx, e, &rn);
            push_score_errors(out, e, &rn);
            push_type_errors(out, e, &rn);
            push_field_errors(out, e, &rn);
            assert(string_views(out@) =~= start + rule_errors(idx as nat, *item));
        },
    }
}

/// Check a rule file that has been read and parsed: `Ok` when it has no
/// problem, else every diagnostic, in order.
pub fn validate_heuristics_source(path: &str, source: RulesSource) -> (r: Result<(), Vec<String>>)
    ensures
        r is Ok <==> validation_errors(path@, source).len() == 0,
        r matches Err(es) ==> string_views(es@) == validation_errors(path@, source),
{
    let mut errors: Vec<String> = Vec::new();
    let safe_path = sanitize_error_string(path);
    match &source {
        RulesSource::Unreadable(e) => {
            let mut m = cat3(&chars_of("Failed to read file ["), &chars_of(safe_path.as_str()), &chars_of("]: "));
            append_all(&mut m, &chars_of(e.as_str()));
            push_when(&mut errors, true, &m);
        },
        RulesSource::BadSyntax(e) => {
            let mut m = chars_of("Invalid TOML syntax: ");
            append_all(&mut m, &chars_of(sanitize_error_string(e.as_str()).as_str()));
            push_when(&mut errors, true, &m);
        },
        RulesSource::Parsed(RulesDocument::Missing) => {
            push_when(&mut errors, true, &chars_of("Missing 'rules' array in TOML"));
        },
        RulesSource::Parsed(RulesDocument::NotArray) => {
            push_when(&mut errors, true, &chars_of("'rules' must be an array"));
        },
        RulesSource::Parsed(RulesDocument::Rules(items)) => {
            push_when(&mut errors, items.len() == 0, &chars_of("Rules array is empty - no rules defined"));
            let ghost head = string_views(errors@);
            let n = items.len();
            for i in 0..n
                invariant
                    n == items@.len(),
                    string_views(errors@) == head + all_rule_errors(items@, i as nat),
            {
                let ghost before = string_views(errors@);
                push_rule_errors(&mut errors, i, &items[i]);
                assert(all_rule_errors(items@, (i + 1) as nat) == all_rule_errors(items@, i as nat) + rule_errors(i as nat, items@[i as int]));
                assert(string_views(errors@) =~= head + all_rule_errors(items@, (i + 1) as nat));
            }
        },
    }
    assert(string_views(errors@) =~= Seq::<Seq<char>>::empty() + validation_errors(path@, source));
    if errors.len() == 0 {
        Ok(())
    } else {
        Err(errors)
    }
}

/// What `toml::from_str::<toml::Table>` makes of a file's text: the parse
/// error's message, or the top-level table key by key, in the table's
/// order. Arrays are kept element by element, and the tables in them key
/// by key with their string and integer values; any other value is
/// `Other`. Parsing depends on the text alone.
pub uninterp spec fn toml_table(text: Seq<char>) -> Result<Vec<(String, TomlValue)>, String>;

/// `toml::from_str` into a `toml::Table`, converted value by value.
#[verifier::external_body]
fn parse_toml_table(text: &str) -> (r: Result<Vec<(String, TomlValue)>, String>)
    ensures
        r == toml_table(text@),
{
    let table = toml::from_str::<Table>(text).map_err(|e| e.to_string())?;
    Ok(table.iter().map(|(k, v)| (k.clone(), match v {
        Value::Array(a) => TomlValue::Array(a.iter().map(|x| match x {
            Value::Table(t) => RuleItem::Table(t.iter().map(|(k, y)| TomlEntry { key: k.clone(), value: match y {
                Value::String(s) => TomlScalar::Text(s.clone()), Value::Integer(n) => TomlScalar::Integer(*n), _ => TomlScalar::Other } }).collect()),
            _ => RuleItem::Other }).collect()),
        _ => TomlValue::Other })).collect())
}

/// Position of the first key named `key`, or -1.
pub open spec fn field_position(fields: Seq<(String, TomlValue)>, key: Seq<char>) -> int
    decreases fields.len(),
{
    if fields.len() == 0 {
        -1
    } else {
        let r = field_position(fields.drop_last(), key);
        if r >= 0 {
            r
        } else if fields.last().0@ == key {
            fields.len() - 1
        } else {
            -1
        }
    }
}

/// The `rules` key of a parsed file: missing, not an array, or its
/// elements.
pub open spec fn rules_document(fields: Seq<(String, TomlValue)>) -> RulesDocument {
    let k = field_position(fields, "rules"@);
    if k < 0 {
        RulesDocument::Missing
    } else {
        match fields[k].1 {
            TomlValue::Array(items) => RulesDocument::Rules(items),
            _ => RulesDocument::NotArray,
        }
    }
}

/// Read the `rules` key of a parsed file.
pub fn rules_document_of(fields: Vec<(String, TomlValue)>) -> (r: RulesDocument)
    ensures
        r == rules_document(fields@),
{
    let n = fields.len();
    let key = chars_of("rules");
    let mut found: Option<usize> = None;
    for i in 0..n
        invariant
            n == fields@.len(),
            key@ == "rules"@,
            match found {
                Some(k) => k < i && field_position(fields@.take(i as int), "rules"@) == k,
                None => field_position(fields@.take(i as int), "rules"@) == -1,
            },
    {
        assert(fields@.take(i + 1).drop_last() =~= fields@.take(i as int));
        if found.is_none() && chars_eq(&chars_of(fields[i].0.as_str()), &key) {
            found = Some(i);
        }
    }
    assert(fields@.take(n as int) =~= fields@);
    match found {
        None => RulesDocument::Missing,
        Some(k) => {
            let mut fs = fields;
            let f = fs.remove(k);
            match f.1 {
                TomlValue::Array(items) => RulesDocument::Rules(items),
                _ => RulesDocument::NotArray,
            }
        },
    }
}

/// What a rule file gave the check: the read error's message, or the text
/// as the TOML parser reads it.
pub open spec fn rules_source_of(content: Result<String, String>) -> RulesSource {
    match content {
        Ok(text) => match toml_table(text@) {
            Ok(fields) => RulesSource::Parsed(rules_document(fields@)),
            Err(e) => RulesSource::BadSyntax(e),
        },
        Err(e) => RulesSource::Unreadable(e),
    }
}

/// Check a rule file from what reading it gave (its text, or the read
/// error's message): the text is parsed as TOML and checked; `Ok` when it
/// has no problem, else every diagnostic, in order.
pub fn validate_heuristics_text(path: &str, content: Result<String, String>) -> (r: Result<(), Vec<String>>)
    ensures
        r is Ok <==> validation_errors(path@, rules_source_of(content)).len() == 0,
        r matches Err(es) ==> string_views(es@) == validation_errors(path@, rules_source_of(content)),
{
    let source = match content {
        Ok(text) => match parse_toml_table(text.as_str()) {
            Ok(fields) => RulesSource::Parsed(rules_document_of(fields)),
            Err(e) => RulesSource::BadSyntax(e),
        },
        Err(e) => RulesSource::Unreadable(e),
    };
    validate_heuristics_source(path, source)
}

} // verus!
