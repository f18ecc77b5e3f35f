//! Heuristic rules over feed metadata: keyword, regular-expression and
//! metadata-presence rules, and the scrubbing of text that is echoed back in
//! rule-file diagnostics.
use vstd::prelude::*;
use crate::feed::pypi::PythonPackage;
use crate::text::{
    chars_eq, chars_of, contains, contains_seq, count_matches, first_chars, first_index_where,
    is_control_char, lemma_first_index_where, lemma_first_index_where_range, match_count,
    string_of, string_views, take_chars, unicode_lowercase, append_all,
};

verus! {

/// A rule that fired on a package.
#[derive(Debug, Clone)]
pub struct HeuristicMatch {
    pub rule_name: String,
    pub risk_score: u8,
    pub evidence: String,
    pub description: String,
    pub location: String,
}

/// The contents of a `HeuristicMatch`, as character sequences.
pub struct MatchView {
    pub rule_name: Seq<char>,
    pub risk_score: u8,
    pub evidence: Seq<char>,
    pub description: Seq<char>,
    pub location: Seq<char>,
}

impl View for HeuristicMatch {
    type V = MatchView;

    open spec fn view(&self) -> MatchView {
        MatchView {
            rule_name: self.rule_name@,
            risk_score: self.risk_score,
            evidence: self.evidence@,
            description: self.description@,
            location: self.location@,
        }
    }
}

/// One rule of the heuristics file.
#[derive(Debug)]
pub struct HeuristicRule {
    pub name: String,
    pub rule_type: String,
    pub field: Option<String>,
    pub keywords: Option<Vec<String>>,
    pub pattern: Option<String>,
    pub check: Option<String>,
    pub risk_score: u8,
    pub description: String,
}

/// The rules of a heuristics file.
#[derive(Debug)]
pub struct HeuristicRules {
    pub rules: Vec<HeuristicRule>,
}

// ── Regular expressions ────────────────────────────────────────────────

#[verifier::external_type_specification]
#[verifier::external_body]
pub struct ExRegex(regex::Regex);

/// The error message `regex::Regex::new` gives for a pattern, or `None`
/// when the pattern compiles.
pub uninterp spec fn regex_new_error(pattern: Seq<char>) -> Option<Seq<char>>;

/// The text of the leftmost-first match of a pattern in a haystack, as
/// `regex::Regex::find` returns it, or `None` when nothing matches.
pub uninterp spec fn regex_first_match(pattern: Seq<char>, haystack: Seq<char>) -> Option<Seq<char>>;

/// A compiled regular expression together with its source pattern.
pub struct CompiledRegex {
    pattern: String,
    re: regex::Regex,
}

impl CompiledRegex {
    /// The pattern the expression was compiled from.
    pub closed spec fn source(&self) -> Seq<char> {
        self.pattern@
    }
}

/// `regex::Regex::new`: compiles the pattern, or gives the error's message.
/// The contract claims that the outcome and the message depend on the
/// pattern alone.
#[verifier::external_body]
fn compile_regex(pattern: &str) -> (r: Result<CompiledRegex, String>)
    ensures
        r is Ok <==> regex_new_error(pattern@) is None,
        r matches Ok(c) ==> c.source() == pattern@,
        r matches Err(e) ==> regex_new_error(pattern@) == Some(e@),
{
    match regex::Regex::new(pattern) {
        Ok(re) => Ok(CompiledRegex { pattern: pattern.to_string(), re }),
        Err(e) => Err(e.to_string()),
    }
}

/// `regex::Regex::find`: the text of the first match in the haystack. The
/// contract claims that it depends on the pattern and the haystack alone,
/// and (as the crate documents) that a match is a substring of the haystack.
#[verifier::external_body]
fn find_first(re: &CompiledRegex, haystack: &str) -> (r: Option<String>)
    ensures
        r matches Some(m) ==> regex_first_match(re.source(), haystack@) == Some(m@),
        r is None ==> regex_first_match(re.source(), haystack@) is None,
        r matches Some(m) ==> contains_seq(haystack@, m@),
{
    re.re.find(haystack).map(|m| m.as_str().to_string())
}

/// The error `regex::Regex::new` reports for a pattern, if any.
pub fn regex_error(pattern: &str) -> (r: Option<String>)
    ensures
        r is None <==> regex_new_error(pattern@) is None,
        r matches Some(e) ==> regex_new_error(pattern@) == Some(e@),
{
    match compile_regex(pattern) {
        Ok(_) => None,
        Err(e) => Some(e),
    }
}

// ── Rule evaluation ────────────────────────────────────────────────────

/// The package field a keyword or regex rule reads, by name; `None` for a
/// name that is not one of them.
pub open spec fn text_field(pkg: PythonPackage, f: Seq<char>) -> Option<Option<String>> {
    if f == "description"@ {
        Some(pkg.description)
    } else if f == "title"@ {
        Some(pkg.title)
    } else if f == "link"@ {
        Some(pkg.link)
    } else if f == "author"@ {
        Some(pkg.author)
    } else {
        None
    }
}

/// The package field a metadata rule reads, by name.
pub open spec fn metadata_field(pkg: PythonPackage, f: Seq<char>) -> Option<Option<String>> {
    if f == "published_date"@ {
        Some(pkg.published_date)
    } else {
        text_field(pkg, f)
    }
}

/// A keyword occurs in the text, both taken in lower case.
pub open spec fn keyword_in(text: Seq<char>) -> spec_fn(Seq<char>) -> bool {
    |kw: Seq<char>| contains_seq(unicode_lowercase(text), unicode_lowercase(kw))
}

/// The match a rule reports.
pub open spec fn match_of(rule: HeuristicRule, evidence: Seq<char>, location: Seq<char>) -> MatchView {
    MatchView {
        rule_name: rule.name@,
        risk_score: rule.risk_score,
        evidence,
        description: rule.description@,
        location,
    }
}

/// A keyword rule fires with the first of its keywords that the field's
/// text contains, ignoring case.
pub open spec fn keyword_outcome(rule: HeuristicRule, pkg: PythonPackage) -> Option<MatchView> {
    match (rule.keywords, rule.field) {
        (Some(kws), Some(f)) => match text_field(pkg, f@) {
            Some(Some(t)) => {
                let ks = string_views(kws@);
                let k = first_index_where(ks, keyword_in(t@));
                if k < 0 {
                    None
                } else {
                    Some(match_of(rule, ks[k], f@))
                }
            },
            _ => None,
        },
        _ => None,
    }
}

/// A regex rule fires with the first match of its pattern in the field's
/// text; a pattern that does not compile never fires.
pub open spec fn regex_outcome(rule: HeuristicRule, pkg: PythonPackage) -> Option<MatchView> {
    match (rule.pattern, rule.field) {
        (Some(p), Some(f)) => match text_field(pkg, f@) {
            Some(Some(t)) => {
                if regex_new_error(p@) is Some {
                    None
                } else {
                    match regex_first_match(p@, t@) {
                        Some(m) => Some(match_of(rule, m, f@)),
                        None => None,
                    }
                }
            },
            _ => None,
        },
        _ => None,
    }
}

/// A metadata rule fires when its field is present (`is_some`) or absent
/// (`is_none`); the evidence is the field and check names.
pub open spec fn metadata_outcome(rule: HeuristicRule, pkg: PythonPackage) -> Option<MatchView> {
    match (rule.field, rule.check) {
        (Some(f), Some(c)) => match metadata_field(pkg, f@) {
            Some(v) => {
                let cond = if c@ == "is_some"@ {
                    v is Some
                } else if c@ == "is_none"@ {
                    v is None
                } else {
                    false
                };
                if cond {
                    Some(match_of(rule, f@ + " "@ + c@, f@))
                } else {
                    None
                }
            },
            None => None,
        },
        _ => None,
    }
}

/// What a rule reports on a package, by its type.
pub open spec fn rule_outcome(rule: HeuristicRule, pkg: PythonPackage) -> Option<MatchView> {
    if rule.rule_type@ == "keyword"@ {
        keyword_outcome(rule, pkg)
    } else if rule.rule_type@ == "regex"@ {
        regex_outcome(rule, pkg)
    } else if rule.rule_type@ == "metadata"@ {
        metadata_outcome(rule, pkg)
    } else {
        None
    }
}

/// The field a keyword or regex rule reads.
fn select_text_field<'a>(pkg: &'a PythonPackage, f: &[char]) -> (r: Option<&'a Option<String>>)
    ensures
        match text_field(*pkg, f@) {
            Some(v) => r matches Some(x) && *x == v,
            None => r is None,
        },
{
    if chars_eq(f, &chars_of("description")) {
        Some(&pkg.description)
    } else if chars_eq(f, &chars_of("title")) {
        Some(&pkg.title)
    } else if chars_eq(f, &chars_of("link")) {
        Some(&pkg.link)
    } else if chars_eq(f, &chars_of("author")) {
        Some(&pkg.author)
    } else {
        None
    }
}

fn new_match(rule: &HeuristicRule, evidence: String, location: String) -> (m: HeuristicMatch)
    ensures
        m@ == match_of(*rule, evidence@, location@),
{
    HeuristicMatch {
        rule_name: rule.name.clone(),
        risk_score: rule.risk_score,
        evidence,
        description: rule.description.clone(),
        location,
    }
}

/// Evaluate a keyword rule.
fn check_keywords(rule: &HeuristicRule, pkg: &PythonPackage) -> (r: Option<HeuristicMatch>)
    ensures
        r is None <==> keyword_outcome(*rule, *pkg) is None,
        r matches Some(m) ==> keyword_outcome(*rule, *pkg) == Some(m@),
{
    let kws = match &rule.keywords {
        Some(k) => k,
        None => return None,
    };
    let field = match &rule.field {
        Some(f) => f,
        None => return None,
    };
    let fc = chars_of(field.as_str());
    let text = match select_text_field(pkg, &fc) {
        Some(Some(t)) => t,
        _ => return None,
    };
    let lower = chars_of(text.as_str().to_lowercase().as_str());
    let ghost ks = string_views(kws@);
    let ghost pred = keyword_in(text@);
    let n = kws.len();
    for i in 0..n
        invariant
            n == kws@.len(),
            ks == string_views(kws@),
            pred == keyword_in(text@),
            rule.keywords == Some(*kws),
            rule.field == Some(*field),
            text_field(*pkg, field@) == Some(Some(*text)),
            lower@ == unicode_lowercase(text@),
            forall|j: int| 0 <= j < i ==> !pred(#[trigger] ks[j]),
    {
        let kw = &kws[i];
        let kl = chars_of(kw.as_str().to_lowercase().as_str());
        assert(ks[i as int] == kw@);
        if contains(&lower, &kl) {
            proof {
                lemma_first_index_where(ks, pred, i as int);
            }
            let evidence = kw.clone();
            let location = field.clone();
            return Some(new_match(rule, evidence, location));
        }
    }
    proof {
        lemma_first_index_where(ks, pred, n as int);
    }
    None
}

/// Evaluate a regex rule.
fn check_regex(rule: &HeuristicRule, pkg: &PythonPackage) -> (r: Option<HeuristicMatch>)
    ensures
        r is None <==> regex_outcome(*rule, *pkg) is None,
        r matches Some(m) ==> regex_outcome(*rule, *pkg) == Some(m@),
{
    let pattern = match &rule.pattern {
        Some(p) => p,
        None => return None,
    };
    let field = match &rule.field {
        Some(f) => f,
        None => return None,
    };
    let fc = chars_of(field.as_str());
    let text = match select_text_field(pkg, &fc) {
        Some(Some(t)) => t,
        _ => return None,
    };
    let re = match compile_regex(pattern.as_str()) {
        Ok(re) => re,
        Err(_) => return None,
    };
    match find_first(&re, text.as_str()) {
        Some(m) => {
            let location = field.clone();
            Some(new_match(rule, m, location))
        },
        None => None,
    }
}

/// Evaluate a metadata rule.
fn check_metadata(rule: &HeuristicRule, pkg: &PythonPackage) -> (r: Option<HeuristicMatch>)
    ensures
        r is None <==> metadata_outcome(*rule, *pkg) is None,
        r matches Some(m) ==> metadata_outcome(*rule, *pkg) == Some(m@),
{
    let field = match &rule.field {
        Some(f) => f,
        None => return None,
    };
    let check = match &rule.check {
        Some(c) => c,
        None => return None,
    };
    let fc = chars_of(field.as_str());
    let cc = chars_of(check.as_str());
    let value: &Option<String> = if chars_eq(&fc, &chars_of("published_date")) {
        &pkg.published_date
    } else {
        match select_text_field(pkg, &fc) {
            Some(v) => v,
            None => return None,
        }
    };
    let cond = if chars_eq(&cc, &chars_of("is_some")) {
        value.is_some()
    } else if chars_eq(&cc, &chars_of("is_none")) {
        value.is_none()
    } else {
        false
    };
    if cond {
        proof {
            reveal_strlit(" ");
        }
        let mut ev = fc.clone();
        ev.push(' ');
        append_all(&mut ev, &cc);
        assert(ev@ =~= field@ + " "@ + check@);
        let evidence = string_of(&ev);
        let location = field.clone();
        Some(new_match(rule, evidence, location))
    } else {
        None
    }
}

/// Evaluate one rule against a package, by the rule's type.
pub fn apply_rule(rule: HeuristicRule, pkg: &PythonPackage) -> (r: Option<HeuristicMatch>)
    ensures
        r is None <==> rule_outcome(rule, *pkg) is None,
        r matches Some(m) ==> rule_outcome(rule, *pkg) == Some(m@),
{
    evaluate_rule(&rule, pkg)
}

/// Evaluate one rule, read in place, against a package.
pub(crate) fn evaluate_rule(rule: &HeuristicRule, pkg: &PythonPackage) -> (r: Option<HeuristicMatch>)
    ensures
        r is None <==> rule_outcome(*rule, *pkg) is None,
        r matches Some(m) ==> rule_outcome(*rule, *pkg) == Some(m@),
{
    let t = chars_of(rule.rule_type.as_str());
    if chars_eq(&t, &chars_of("keyword")) {
        check_keywords(rule, pkg)
    } else if chars_eq(&t, &chars_of("regex")) {
        check_regex(rule, pkg)
    } else if chars_eq(&t, &chars_of("metadata")) {
        check_metadata(rule, pkg)
    } else {
        None
    }
}

/// The stub check on a package: it always reports an empty match.
fn heuristic_check(_pkg: PythonPackage) -> (r: Result<HeuristicMatch, String>)
    ensures
        r matches Ok(m) && m@.rule_name.len() == 0 && m@.risk_score == 0 && m@.evidence.len() == 0
            && m@.description.len() == 0 && m@.location.len() == 0,
{
    Ok(
        HeuristicMatch {
            rule_name: String::new(),
            risk_score: 0,
            evidence: String::new(),
            description: String::new(),
            location: String::new(),
        },
    )
}

// ── Scrubbing text for diagnostics ─────────────────────────────────────

/// Shell metacharacters become spaces.
pub open spec fn shell_safe(c: char) -> char {
    if c == ';' || c == '|' || c == '&' || c == '$' || c == '`' || c == '\'' || c == '"' || c
        == '\\' {
        ' '
    } else {
        c
    }
}

/// Control characters other than tab dropped, shell metacharacters blanked.
pub open spec fn scrubbed(s: Seq<char>) -> Seq<char>
    decreases s.len(),
{
    if s.len() == 0 {
        Seq::empty()
    } else {
        let rest = scrubbed(s.drop_last());
        let c = s.last();
        if is_control_char(c) && c != '\t' {
            rest
        } else {
            rest.push(shell_safe(c))
        }
    }
}

/// Longest text echoed back in a diagnostic.
pub const ERROR_TEXT_MAX_LEN: usize = 200;

/// The scrubbed text, replaced by a marker when it holds more than two
/// `../` or more than two `..\`, cut to 200 characters.
pub open spec fn sanitized_error(s: Seq<char>) -> Seq<char> {
    let f = scrubbed(s);
    let t = if match_count(f, "../"@) > 2 || match_count(f, "..\\"@) > 2 {
        "[path-traversal-attempt]"@
    } else {
        f
    };
    first_chars(t, ERROR_TEXT_MAX_LEN as int)
}

/// Make text safe to echo in an error message: no control characters but
/// tab, no shell metacharacters, no long path-traversal chains, at most 200
/// characters.
pub fn sanitize_error_string(s: &str) -> (r: String)
    ensures
        r@ == sanitized_error(s@),
{
    let cs = chars_of(s);
    let n = cs.len();
    let mut f: Vec<char> = Vec::new();
    for i in 0..n
        invariant
            n == cs@.len(),
            f@ == scrubbed(cs@.take(i as int)),
    {
        let c = cs[i];
        assert(cs@.take(i + 1).drop_last() == cs@.take(i as int));
        let is_ctl = crate::text::char_is_control(c);
        if !(is_ctl && c != '\t') {
            let d = if c == ';' || c == '|' || c == '&' || c == '$' || c == '`' || c == '\'' || c
                == '"' || c == '\\' {
                ' '
            } else {
                c
            };
            f.push(d);
        }
    }
    assert(cs@.take(n as int) == cs@);
    let up_pat = chars_of("../");
    let back_pat = chars_of("..\\");
    proof {
        reveal_strlit("../");
        reveal_strlit("..\\");
    }
    let up = count_matches(&f, &up_pat);
    let back = count_matches(&f, &back_pat);
    let t = if up > 2 || back > 2 {
        chars_of("[path-traversal-attempt]")
    } else {
        f
    };
    string_of(&take_chars(&t, ERROR_TEXT_MAX_LEN))
}


/// A character that may stand in a diagnostic: no shell metacharacter, no
/// control character but tab.
pub open spec fn echo_safe(c: char) -> bool {
    &&& !(c == ';' || c == '|' || c == '&' || c == '$' || c == '`' || c == '\'' || c == '"' || c == '\\')
    &&& (!is_control_char(c) || c == '\t')
}

proof fn lemma_scrubbed_echo_safe(s: Seq<char>)
    ensures
        forall|i: int| 0 <= i < scrubbed(s).len() ==> echo_safe(#[trigger] scrubbed(s)[i]),
    decreases s.len(),
{
    if s.len() > 0 {
        lemma_scrubbed_echo_safe(s.drop_last());
        let rest = scrubbed(s.drop_last());
        let c = s.last();
        if !(is_control_char(c) && c != '\t') {
            assert(echo_safe(shell_safe(c)));
            assert forall|i: int| 0 <= i < scrubbed(s).len() implies echo_safe(#[trigger] scrubbed(s)[i]) by {
                if i < rest.len() {
                    assert(scrubbed(s)[i] == rest[i]);
                }
            }
        }
    }
}

/// Every diagnostic text passed through the scrubber is safe to echo: at
/// most 200 characters, none of them a shell metacharacter (`;`, `|`, `&`,
/// `$`, backtick, quotes, backslash) or a control character other than tab.
pub proof fn law_sanitized_error_is_echo_safe(s: Seq<char>)
    ensures
        sanitized_error(s).len() <= ERROR_TEXT_MAX_LEN,
        forall|i: int| 0 <= i < sanitized_error(s).len() ==> echo_safe(#[trigger] sanitized_error(s)[i]),
{
    lemma_scrubbed_echo_safe(s);
    reveal_strlit("[path-traversal-attempt]");
    let f = scrubbed(s);
    let t = if match_count(f, "../"@) > 2 || match_count(f, "..\\"@) > 2 {
        "[path-traversal-attempt]"@
    } else {
        f
    };
    assert forall|i: int| 0 <= i < t.len() implies echo_safe(#[trigger] t[i]) by {
        if !(match_count(f, "../"@) > 2 || match_count(f, "..\\"@) > 2) {
            assert(t[i] == f[i]);
        }
    }
    let r = first_chars(t, ERROR_TEXT_MAX_LEN as int);
    assert forall|i: int| 0 <= i < r.len() implies echo_safe(#[trigger] r[i]) by {
        assert(r[i] == t[i]);
    }
}

/// No position before the one `first_index_where` finds satisfies `p`;
/// when it finds none, no position does.
proof fn lemma_first_index_where_least(s: Seq<Seq<char>>, p: spec_fn(Seq<char>) -> bool)
    ensures
        forall|j: int|
            0 <= j < s.len() && (first_index_where(s, p) < 0 || j < first_index_where(s, p))
                ==> !p(#[trigger] s[j]),
    decreases s.len(),
{
    if s.len() > 0 && !p(s[0]) {
        let t = s.skip(1);
        lemma_first_index_where_least(t, p);
        assert forall|j: int|
            0 <= j < s.len() && (first_index_where(s, p) < 0 || j < first_index_where(s, p))
                implies !p(#[trigger] s[j]) by {
            if j > 0 {
                assert(s[j] == t[j - 1]);
            }
        }
    }
}

/// A keyword rule fires only on a text field of the package that is
/// present, and then exactly when one of its keywords occurs in the text,
/// both taken in lower case; it reports the first such keyword, in the
/// rule's order, as the evidence and the field's name as the location.
pub proof fn law_keyword_rule_reports_first_match(rule: HeuristicRule, pkg: PythonPackage)
    requires
        rule.rule_type@ == "keyword"@,
    ensures
        !(rule.keywords is Some && rule.field is Some && text_field(pkg, rule.field.unwrap()@) matches Some(Some(_)))
            ==> rule_outcome(rule, pkg) is None,
        rule.keywords matches Some(kws) ==> rule.field matches Some(f) ==> text_field(pkg, f@) matches Some(Some(t)) ==> {
            let ks = string_views(kws@);
            &&& (rule_outcome(rule, pkg) is Some <==> exists|i: int|
                0 <= i < ks.len() && contains_seq(unicode_lowercase(t@), unicode_lowercase(#[trigger] ks[i])))
            &&& (rule_outcome(rule, pkg) matches Some(m) ==> exists|i: int|
                0 <= i < ks.len() && contains_seq(unicode_lowercase(t@), unicode_lowercase(#[trigger] ks[i]))
                    && (forall|j: int| 0 <= j < i ==> !contains_seq(unicode_lowercase(t@), unicode_lowercase(#[trigger] ks[j])))
                    && m == match_of(rule, ks[i], f@))
        },
{
    if let (Some(kws), Some(f)) = (rule.keywords, rule.field) {
        if let Some(Some(t)) = text_field(pkg, f@) {
            let ks = string_views(kws@);
            let p = keyword_in(t@);
            lemma_first_index_where_range(ks, p);
            lemma_first_index_where_least(ks, p);
            let k = first_index_where(ks, p);
            if k >= 0 {
                assert(p(ks[k]));
                assert forall|j: int| 0 <= j < k implies !contains_seq(unicode_lowercase(t@), unicode_lowercase(#[trigger] ks[j])) by {
                    assert(!p(ks[j]));
                }
            } else {
                assert forall|i: int| 0 <= i < ks.len() implies !contains_seq(unicode_lowercase(t@), unicode_lowercase(#[trigger] ks[i])) by {
                    assert(!p(ks[i]));
                }
            }
        }
    }
}


/// A metadata rule on a known field fires exactly as its check says:
/// `is_none` when the field is absent, `is_some` when it is present, and
/// never with any other check or on an unknown field; when it fires its
/// evidence is `<field> <check>` and its location the field.
pub proof fn law_metadata_rule_follows_its_check(rule: HeuristicRule, pkg: PythonPackage)
    requires
        rule.rule_type@ == "metadata"@,
    ensures
        rule.field matches Some(f) ==> rule.check matches Some(c) ==> metadata_field(pkg, f@) matches Some(v) ==> {
            &&& (c@ == "is_none"@ ==> (rule_outcome(rule, pkg) is Some <==> v is None))
            &&& (c@ == "is_some"@ ==> (rule_outcome(rule, pkg) is Some <==> v is Some))
            &&& (c@ != "is_none"@ && c@ != "is_some"@ ==> rule_outcome(rule, pkg) is None)
            &&& (rule_outcome(rule, pkg) matches Some(m) ==> m.evidence == f@ + " "@ + c@ && m.location == f@
                && m.rule_name == rule.name@ && m.risk_score == rule.risk_score)
        },
        rule.field is None || rule.check is None ==> rule_outcome(rule, pkg) is None,
        rule.field matches Some(f) ==> metadata_field(pkg, f@) is None ==> rule_outcome(rule, pkg) is None,
{
    reveal_strlit("keyword");
    reveal_strlit("regex");
    reveal_strlit("metadata");
    reveal_strlit("is_none");
    reveal_strlit("is_some");
    assert("metadata"@ != "keyword"@ && "metadata"@ != "regex"@) by {
        assert("metadata"@[0] != "keyword"@[0]);
        assert("metadata"@[0] != "regex"@[0]);
    }
    assert("is_none"@ != "is_some"@) by {
        assert("is_none"@[3] != "is_some"@[3]);
    }
}

} // verus!
