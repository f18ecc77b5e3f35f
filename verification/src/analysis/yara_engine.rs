//! The YARA engine: the rules compiled from the rule files with their
//! metadata, the management of custom rules, and the scan of a package's
//! files.
use vstd::prelude::*;
use crate::analysis::yara::{
    check_deletable, check_rule_name, ecosystem_accepts, parse_rule_metadata, rule_match, rule_meta,
    rule_name_check, scan_malicious, scan_result, yara_risk, YaraRuleInfo, DEFAULT_MAX_FILE_SIZE,
};
use crate::feed::ecosystem::Ecosystem;
use crate::output::{YaraMatch, YaraScanResult};
use crate::text::{
    append_all, byte_len, chars_eq, chars_of, count_char, decimal, decimal_chars, lemma_byte_len_prefix_strict,
    lemma_byte_len_push, lemma_count_char_bound, str_byte_len, string_of, string_views, width_of,
};

verus! {

// ── The outside engine ─────────────────────────────────────────────────

#[verifier::external_type_specification]
#[verifier::external_body]
pub struct ExYaraRules(yara_x::Rules);

#[verifier::external_type_specification]
#[verifier::external_body]
pub struct ExYaraCompiler<'a>(yara_x::Compiler<'a>);

/// One match of one pattern: the pattern's identifier and the byte offset
/// where the match starts.
pub struct PatternHit {
    pub pattern: String,
    pub offset: usize,
}

/// A rule that matched, with the matches of its patterns in order.
pub struct RuleHit {
    pub rule: String,
    pub hits: Vec<PatternHit>,
}

/// The error compiling one source on its own reports, or `None` when the
/// source compiles. Compilers here are made with `include` directives
/// turned off, so no other file is read and compiling depends on the
/// source text alone.
pub uninterp spec fn yara_compile_error(source: Seq<char>) -> Option<Seq<char>>;

/// The sources added to a compiler so far, in order (also those that did
/// not compile: their well-formed rules may still be kept). With `include`
/// directives turned off, what the compiler builds depends on these alone.
pub uninterp spec fn compiler_sources(compiler: yara_x::Compiler<'static>) -> Seq<Seq<char>>;

/// The sources a rule set was compiled from, in order.
pub uninterp spec fn rules_sources(rules: yara_x::Rules) -> Seq<Seq<char>>;

/// The rules that match a text (scanned as its UTF-8 bytes), each with the
/// start offsets of its patterns' matches, for the rule set compiled from
/// `sources` with `include` directives turned off, when the scan runs to
/// its end. Matching depends on the compiled sources and the text alone.
pub uninterp spec fn yara_hits(sources: Seq<Seq<char>>, text: Seq<char>) -> Seq<RuleHit>;

/// `yara_x::compile` with `include` directives turned off: a compiler made
/// by `Compiler::new`, `enable_includes(false)`, the one source added with
/// `add_source`, then `build`; the error, when there is one, as its
/// message. (`yara_x::compile` itself leaves includes on, which would let
/// a source read other files from disk.)
#[verifier::external_body]
fn compile_source(source: &str) -> (r: Result<yara_x::Rules, String>)
    ensures
        r is Ok <==> yara_compile_error(source@) is None,
        r matches Err(e) ==> yara_compile_error(source@) == Some(e@),
        r matches Ok(rules) ==> rules_sources(rules) == seq![source@],
{
    let mut compiler = yara_x::Compiler::new();
    compiler.enable_includes(false);
    match compiler.add_source(source) {
        Ok(_) => Ok(compiler.build()),
        Err(e) => Err(e.to_string()),
    }
}

/// `yara_x::Compiler::new` followed by `enable_includes(false)`: a compiler
/// with no source that reads no file named by an `include` directive.
#[verifier::external_body]
fn new_compiler() -> (r: yara_x::Compiler<'static>)
    ensures
        compiler_sources(r) == Seq::<Seq<char>>::empty(),
{
    let mut compiler = yara_x::Compiler::new();
    compiler.enable_includes(false);
    compiler
}

/// `yara_x::Compiler::add_source`: adds a source to the compiler; the
/// error's message when it does not compile. Whether it compiles also
/// depends on the sources added before (a rule name may only be used
/// once), so nothing is stated of the outcome; the source is recorded
/// either way.
#[verifier::external_body]
fn add_source(compiler: &mut yara_x::Compiler<'static>, source: &str) -> (r: Option<String>)
    ensures
        compiler_sources(*final(compiler)) == compiler_sources(*old(compiler)).push(source@),
{
    match compiler.add_source(source) {
        Ok(_) => None,
        Err(e) => Some(e.to_string()),
    }
}

/// `yara_x::Compiler::build`: the rules compiled from the added sources.
#[verifier::external_body]
fn build_rules(compiler: yara_x::Compiler<'static>) -> (r: yara_x::Rules)
    ensures
        rules_sources(r) == compiler_sources(compiler),
{
    compiler.build()
}

/// `yara_x::Scanner::scan` of a text's bytes with a scanner over `rules`,
/// given the timeout (in seconds) and the largest size scanned, when set:
/// the matching rules with the start offsets of their patterns' matches,
/// or the scan error's message. A scan of a text no longer than the size
/// limit that succeeds gives the rules' matches. An in-memory scan fails
/// only on a timeout or in a YARA module; this build compiles in no module
/// (yara-x without its default features), and with no timeout set the
/// scanner's deadline is a year away, so a scan without a timeout succeeds.
#[verifier::external_body]
fn scan_with(
    rules: &yara_x::Rules,
    data: &str,
    timeout_secs: Option<u64>,
    max_scan_size: Option<usize>,
) -> (r: Result<Vec<RuleHit>, String>)
    ensures
        timeout_secs is None ==> r is Ok,
        r matches Ok(h) ==> ((max_scan_size matches Some(m) ==> byte_len(data@) <= m) ==> h@ == yara_hits(
            rules_sources(*rules),
            data@,
        )),
{
    let mut scanner = yara_x::Scanner::new(rules);
    if let Some(t) = timeout_secs { scanner.set_timeout(std::time::Duration::from_secs(t)); }
    if let Some(m) = max_scan_size { scanner.max_scan_size(m); }
    match scanner.scan(data.as_bytes()) {
        Ok(res) => Ok(res.matching_rules().map(|r| RuleHit {
            rule: r.identifier().to_string(),
            hits: r.patterns().flat_map(|p| p.matches().map(move |m| PatternHit { pattern: p.identifier().to_string(), offset: m.range().start })).collect(),
        }).collect()),
        Err(e) => Err(e.to_string()),
    }
}

// ── Rule metadata as values ────────────────────────────────────────────

/// The contents of a `YaraRuleInfo`.
pub struct RuleInfoView {
    pub name: Seq<char>,
    pub severity: Seq<char>,
    pub description: Seq<char>,
    pub ecosystem: Seq<char>,
    pub risk_score: u8,
    pub enabled: bool,
    pub source: Seq<char>,
    pub file_path: Seq<char>,
}

impl View for YaraRuleInfo {
    type V = RuleInfoView;

    open spec fn view(&self) -> RuleInfoView {
        RuleInfoView {
            name: self.name@,
            severity: self.severity@,
            description: self.description@,
            ecosystem: self.ecosystem@,
            risk_score: self.risk_score,
            enabled: self.enabled,
            source: self.source@,
            file_path: self.file_path@,
        }
    }
}

/// The views of a list of rule records.
pub open spec fn info_views(ms: Seq<YaraRuleInfo>) -> Seq<RuleInfoView> {
    ms.map_values(|m: YaraRuleInfo| m@)
}

/// A rule file as read from the rules directory: the rule's name (the
/// file's stem), where it comes from (`builtin` or `custom`), its path and
/// its source text.
pub struct RuleFile {
    pub name: String,
    pub source: String,
    pub path: String,
    pub content: String,
}

/// The record a rule file gives: its metadata, enabled.
pub open spec fn file_info(f: RuleFile) -> RuleInfoView {
    let m = rule_meta(f.content@, f.name@);
    RuleInfoView {
        name: f.name@,
        severity: m.severity,
        description: m.description,
        ecosystem: m.ecosystem,
        risk_score: m.risk,
        enabled: true,
        source: f.source@,
        file_path: f.path@,
    }
}

/// The position of the first record with this name, or -1.
pub open spec fn position_of(ms: Seq<RuleInfoView>, name: Seq<char>) -> int
    decreases ms.len(),
{
    if ms.len() == 0 {
        -1
    } else if ms[0].name == name {
        0
    } else {
        let p = position_of(ms.drop_first(), name);
        if p < 0 {
            -1
        } else {
            p + 1
        }
    }
}

proof fn lemma_position_of(ms: Seq<RuleInfoView>, name: Seq<char>, i: int)
    requires
        0 <= i <= ms.len(),
        forall|j: int| 0 <= j < i ==> (#[trigger] ms[j]).name != name,
        i < ms.len() ==> ms[i].name == name,
    ensures
        position_of(ms, name) == if i < ms.len() {
            i
        } else {
            -1
        },
    decreases ms.len(),
{
    if ms.len() > 0 && i > 0 {
        assert(ms[0].name != name);
        assert forall|j: int| 0 <= j < i - 1 implies (#[trigger] ms.drop_first()[j]).name != name by {
            assert(ms.drop_first()[j] == ms[j + 1]);
        }
        if i < ms.len() {
            assert(ms.drop_first()[i - 1] == ms[i]);
        }
        lemma_position_of(ms.drop_first(), name, i - 1);
    }
}

proof fn lemma_position_of_found(ms: Seq<RuleInfoView>, name: Seq<char>)
    ensures
        -1 <= position_of(ms, name) < ms.len(),
        position_of(ms, name) >= 0 ==> ms[position_of(ms, name)].name == name,
        forall|j: int| 0 <= j < ms.len() && (position_of(ms, name) < 0 || j < position_of(ms, name))
            ==> (#[trigger] ms[j]).name != name,
    decreases ms.len(),
{
    if ms.len() > 0 && ms[0].name != name {
        let rest = ms.drop_first();
        lemma_position_of_found(rest, name);
        assert forall|j: int| 0 <= j < ms.len() && (position_of(ms, name) < 0 || j < position_of(ms, name))
            implies (#[trigger] ms[j]).name != name by {
            if j > 0 {
                assert(ms[j] == rest[j - 1]);
            }
        }
        if position_of(ms, name) >= 0 {
            assert(ms[position_of(ms, name)] == rest[position_of(rest, name)]);
        }
    }
}

/// Records whose names agree index by index have every name at the same
/// position.
proof fn lemma_position_of_same_names(a: Seq<RuleInfoView>, b: Seq<RuleInfoView>, name: Seq<char>)
    requires
        a.len() == b.len(),
        forall|i: int| 0 <= i < a.len() ==> (#[trigger] a[i]).name == b[i].name,
    ensures
        position_of(a, name) == position_of(b, name),
{
    lemma_position_of_found(a, name);
    let p = position_of(a, name);
    let i = if p < 0 {
        a.len() as int
    } else {
        p
    };
    assert forall|j: int| 0 <= j < i implies (#[trigger] b[j]).name != name by {
        assert(a[j].name == b[j].name);
    }
    if i < a.len() {
        assert(a[i].name == b[i].name);
    }
    lemma_position_of(b, name, i);
}

/// The record for a name, if there is one.
pub open spec fn rule_named(ms: Seq<RuleInfoView>, name: Seq<char>) -> Option<RuleInfoView> {
    let p = position_of(ms, name);
    if p < 0 {
        None
    } else {
        Some(ms[p])
    }
}

/// Records keyed by name: a record replaces the one with its name, or
/// joins the end.
pub open spec fn insert_named(ms: Seq<RuleInfoView>, info: RuleInfoView) -> Seq<RuleInfoView> {
    let p = position_of(ms, info.name);
    if p < 0 {
        ms.push(info)
    } else {
        ms.update(p, info)
    }
}

/// The sources of the rule files, in order.
pub open spec fn rule_file_sources(files: Seq<RuleFile>) -> Seq<Seq<char>> {
    files.map_values(|f: RuleFile| f.content@)
}

/// The records of the files whose source compiled, in file order, a later
/// file replacing an earlier one of the same name.
pub open spec fn accepted_infos(files: Seq<RuleFile>, outcomes: Seq<Option<String>>) -> Seq<RuleInfoView>
    decreases files.len(),
{
    if files.len() == 0 {
        Seq::empty()
    } else {
        let rest = accepted_infos(files.drop_last(), outcomes.drop_last());
        if outcomes.last() is None {
            insert_named(rest, file_info(files.last()))
        } else {
            rest
        }
    }
}

/// The saved enabled flag of a rule: the first entry for its name.
pub open spec fn saved_state(state: Seq<(String, bool)>, name: Seq<char>) -> Option<bool>
    decreases state.len(),
{
    if state.len() == 0 {
        None
    } else if state[0].0@ == name {
        Some(state[0].1)
    } else {
        saved_state(state.drop_first(), name)
    }
}

/// A record with its enabled flag set.
pub open spec fn with_enabled(v: RuleInfoView, enabled: bool) -> RuleInfoView {
    RuleInfoView {
        name: v.name,
        severity: v.severity,
        description: v.description,
        ecosystem: v.ecosystem,
        risk_score: v.risk_score,
        enabled,
        source: v.source,
        file_path: v.file_path,
    }
}

/// The records with the saved enabled flags applied; rules the state does
/// not name keep theirs.
pub open spec fn with_state(ms: Seq<RuleInfoView>, state: Seq<(String, bool)>) -> Seq<RuleInfoView> {
    Seq::new(
        ms.len(),
        |i: int|
            match saved_state(state, ms[i].name) {
                Some(b) => with_enabled(ms[i], b),
                None => ms[i],
            },
    )
}

fn copy_info(info: &YaraRuleInfo) -> (r: YaraRuleInfo)
    ensures
        r@ == info@,
{
    YaraRuleInfo {
        name: info.name.clone(),
        severity: info.severity.clone(),
        description: info.description.clone(),
        ecosystem: info.ecosystem.clone(),
        risk_score: info.risk_score,
        enabled: info.enabled,
        source: info.source.clone(),
        file_path: info.file_path.clone(),
    }
}

fn set_enabled(info: &YaraRuleInfo, enabled: bool) -> (r: YaraRuleInfo)
    ensures
        r@ == with_enabled(info@, enabled),
{
    YaraRuleInfo {
        name: info.name.clone(),
        severity: info.severity.clone(),
        description: info.description.clone(),
        ecosystem: info.ecosystem.clone(),
        risk_score: info.risk_score,
        enabled,
        source: info.source.clone(),
        file_path: info.file_path.clone(),
    }
}

/// The position of the record named `name`.
fn find_rule(ms: &Vec<YaraRuleInfo>, name: &str) -> (r: Option<usize>)
    ensures
        match r {
            Some(p) => position_of(info_views(ms@), name@) == p && p < ms@.len(),
            None => position_of(info_views(ms@), name@) == -1,
        },
{
    let n = ms.len();
    let target = chars_of(name);
    for i in 0..n
        invariant
            n == ms@.len(),
            target@ == name@,
            forall|j: int| 0 <= j < i ==> (#[trigger] info_views(ms@)[j]).name != name@,
    {
        if chars_eq(&chars_of(ms[i].name.as_str()), &target) {
            proof {
                lemma_position_of(info_views(ms@), name@, i as int);
            }
            return Some(i);
        }
        assert(info_views(ms@)[i as int] == ms@[i as int]@);
    }
    proof {
        lemma_position_of(info_views(ms@), name@, n as int);
    }
    None
}

fn insert_rule(ms: &mut Vec<YaraRuleInfo>, info: YaraRuleInfo)
    ensures
        info_views(final(ms)@) == insert_named(info_views(old(ms)@), info@),
{
    let ghost old_views = info_views(ms@);
    match find_rule(ms, info.name.as_str()) {
        Some(p) => {
            ms.set(p, info);
            assert(info_views(ms@) =~= old_views.update(p as int, info@));
        },
        None => {
            ms.push(info);
            assert(info_views(ms@) =~= old_views.push(info@));
        },
    }
}

fn saved_state_of(state: &[(String, bool)], name: &str) -> (r: Option<bool>)
    ensures
        r == saved_state(state@, name@),
{
    let n = state.len();
    let target = chars_of(name);
    let mut i: usize = 0;
    assert(state@.skip(0) =~= state@);
    while i < n
        invariant
            n == state@.len(),
            i <= n,
            target@ == name@,
            saved_state(state@, name@) == saved_state(state@.skip(i as int), name@),
        decreases n - i,
    {
        assert(state@.skip(i as int)[0] == state@[i as int]);
        if chars_eq(&chars_of(state[i].0.as_str()), &target) {
            return Some(state[i].1);
        }
        assert(state@.skip(i as int).drop_first() =~= state@.skip(i + 1));
        i = i + 1;
    }
    None
}

// ── The engine ─────────────────────────────────────────────────────────

/// Compiled YARA rules and what is known of each rule.
pub struct YaraEngine {
    rules: Option<yara_x::Rules>,
    metadata: Vec<YaraRuleInfo>,
}

impl YaraEngine {
    /// The records of the engine's rules, in order.
    pub closed spec fn rule_views(&self) -> Seq<RuleInfoView> {
        info_views(self.metadata@)
    }

    /// The engine holds compiled rules.
    pub closed spec fn has_rules(&self) -> bool {
        self.rules is Some
    }

    /// The sources the engine's rules were compiled from, in order.
    pub closed spec fn rule_sources(&self) -> Seq<Seq<char>> {
        match self.rules {
            Some(r) => rules_sources(r),
            None => Seq::empty(),
        }
    }

    /// Compile the rule files, in order, and record the metadata of those
    /// that compiled, with the saved enabled flags applied. Also returns,
    /// for each file, the compiler's error when it did not compile.
    pub fn from_rule_files(files: &[RuleFile], state: &[(String, bool)]) -> (r: (YaraEngine, Vec<
        Option<String>,
    >))
        ensures
            r.1@.len() == files@.len(),
            r.0.has_rules(),
            r.0.rule_views() == with_state(accepted_infos(files@, r.1@), state@),
            r.0.rule_sources() == rule_file_sources(files@),
    {
        let mut compiler = new_compiler();
        let mut outcomes: Vec<Option<String>> = Vec::new();
        let mut meta: Vec<YaraRuleInfo> = Vec::new();
        let n = files.len();
        for i in 0..n
            invariant
                n == files@.len(),
                outcomes@.len() == i,
                info_views(meta@) == accepted_infos(files@.take(i as int), outcomes@),
                compiler_sources(compiler) == rule_file_sources(files@.take(i as int)),
        {
            let f = &files[i];
            assert(rule_file_sources(files@.take(i + 1)) =~= rule_file_sources(files@.take(i as int)).push(
                files@[i as int].content@,
            ));
            let out = add_source(&mut compiler, f.content.as_str());
            let ghost before = outcomes@;
            if out.is_none() {
                let info = parse_rule_metadata(
                    f.content.as_str(),
                    f.name.as_str(),
                    f.source.as_str(),
                    f.path.as_str(),
                );
                assert(info@ == file_info(files@[i as int]));
                insert_rule(&mut meta, info);
            }
            outcomes.push(out);
            assert(files@.take(i + 1).drop_last() =~= files@.take(i as int));
            assert(outcomes@.drop_last() =~= before);
        }
        assert(files@.take(n as int) =~= files@);
        let rules = build_rules(compiler);
        let ghost accepted = info_views(meta@);
        let m = meta.len();
        for i in 0..m
            invariant
                m == meta@.len(),
                accepted.len() == m,
                forall|j: int| i <= j < m ==> (#[trigger] info_views(meta@)[j]) == accepted[j],
                forall|j: int| 0 <= j < i ==> (#[trigger] info_views(meta@)[j]) == with_state(accepted, state@)[j],
        {
            let ghost before = meta@;
            match saved_state_of(state, meta[i].name.as_str()) {
                Some(b) => {
                    let updated = set_enabled(&meta[i], b);
                    meta.set(i, updated);
                },
                None => {},
            }
            assert forall|j: int| 0 <= j < m implies (#[trigger] info_views(meta@)[j]) == (if j == i {
                with_state(accepted, state@)[j]
            } else {
                info_views(before)[j]
            }) by {
                assert(info_views(before)[j] == before[j]@);
            }
        }
        assert(info_views(meta@) =~= with_state(accepted, state@));
        (YaraEngine { rules: Some(rules), metadata: meta }, outcomes)
    }

    /// Every rule's record.
    pub fn list_rules(&self) -> (r: Vec<YaraRuleInfo>)
        ensures
            info_views(r@) == self.rule_views(),
    {
        let mut out: Vec<YaraRuleInfo> = Vec::new();
        let n = self.metadata.len();
        for i in 0..n
            invariant
                n == self.metadata@.len(),
                info_views(out@) == info_views(self.metadata@).take(i as int),
        {
            let ghost before = out@;
            let c = copy_info(&self.metadata[i]);
            out.push(c);
            assert(info_views(out@) =~= info_views(before).push(c@));
            assert(info_views(out@) =~= info_views(self.metadata@).take(i + 1));
        }
        assert(info_views(self.metadata@).take(n as int) =~= info_views(self.metadata@));
        out
    }

    /// The record of the rule with this name.
    pub fn get_rule(&self, name: &str) -> (r: Option<YaraRuleInfo>)
        ensures
            match rule_named(self.rule_views(), name@) {
                Some(v) => r matches Some(x) && x@ == v,
                None => r is None,
            },
    {
        match find_rule(&self.metadata, name) {
            Some(p) => Some(copy_info(&self.metadata[p])),
            None => None,
        }
    }

    /// Enable or disable a rule; an unknown name is an error and changes
    /// nothing.
    pub fn set_rule_enabled(&mut self, name: &str, enabled: bool) -> (r: Result<(), String>)
        ensures
            match rule_named(old(self).rule_views(), name@) {
                Some(v) => r is Ok && final(self).rule_views() == old(self).rule_views().update(
                    position_of(old(self).rule_views(), name@),
                    with_enabled(v, enabled),
                ),
                None => r matches Err(e) && e@ == "Rule not found"@ && final(self).rule_views()
                    == old(self).rule_views(),
            },
            final(self).has_rules() == old(self).has_rules(),
    {
        match find_rule(&self.metadata, name) {
            Some(p) => {
                let ghost before = info_views(self.metadata@);
                let updated = set_enabled(&self.metadata[p], enabled);
                self.metadata.set(p, updated);
                assert(info_views(self.metadata@) =~= before.update(p as int, with_enabled(before[p as int], enabled)));
                Ok(())
            },
            None => Err("Rule not found".to_owned()),
        }
    }

    /// The names of the disabled rules, in order: the state to save.
    pub fn disabled_rule_names(&self) -> (r: Vec<String>)
        ensures
            string_views(r@) == disabled_names(self.rule_views()),
    {
        let mut out: Vec<String> = Vec::new();
        let n = self.metadata.len();
        for i in 0..n
            invariant
                n == self.metadata@.len(),
                string_views(out@) == disabled_names(info_views(self.metadata@).take(i as int)),
        {
            assert(info_views(self.metadata@).take(i + 1).drop_last() =~= info_views(self.metadata@).take(
                i as int,
            ));
            if !self.metadata[i].enabled {
                out.push(self.metadata[i].name.clone());
                assert(string_views(out@) =~= disabled_names(info_views(self.metadata@).take(i as int)).push(
                    self.metadata@[i as int].name@,
                ));
            }
        }
        assert(info_views(self.metadata@).take(n as int) =~= info_views(self.metadata@));
        out
    }

    /// The file to remove for deleting a rule: an unknown rule, or a
    /// built-in one, cannot be deleted.
    pub fn delete_target(&self, name: &str) -> (r: Result<String, String>)
        ensures
            match rule_named(self.rule_views(), name@) {
                None => r matches Err(e) && e@ == "Rule not found"@,
                Some(v) => if v.source == "builtin"@ {
                    r matches Err(e) && e@ == "Cannot delete built-in rules"@
                } else {
                    r matches Ok(p) && p@ == v.file_path
                },
            },
    {
        match find_rule(&self.metadata, name) {
            Some(p) => {
                let info = &self.metadata[p];
                match check_deletable(info) {
                    Ok(()) => Ok(info.file_path.clone()),
                    Err(e) => Err(e),
                }
            },
            None => Err("Rule not found".to_owned()),
        }
    }
}

/// The names of the disabled records, in order.
pub open spec fn disabled_names(ms: Seq<RuleInfoView>) -> Seq<Seq<char>>
    decreases ms.len(),
{
    if ms.len() == 0 {
        Seq::empty()
    } else {
        let rest = disabled_names(ms.drop_last());
        if ms.last().enabled {
            rest
        } else {
            rest.push(ms.last().name)
        }
    }
}


// ── Custom rules ───────────────────────────────────────────────────────

/// The file a new custom rule is saved under: its source must compile on
/// its own, and its name must pass the name check.
pub open spec fn custom_rule_file(name: Seq<char>, content: Seq<char>) -> Result<Seq<char>, Seq<char>> {
    match yara_compile_error(content) {
        Some(e) => Err("Rule compilation failed: "@ + e),
        None => match rule_name_check(name) {
            Ok(safe) => Ok(safe + ".yar"@),
            Err(e) => Err(e),
        },
    }
}

/// Check a new custom rule and name the file it is saved under, in the
/// custom rules directory.
pub fn custom_rule_file_name(name: &str, content: &str) -> (r: Result<String, String>)
    ensures
        match custom_rule_file(name@, content@) {
            Ok(f) => r matches Ok(x) && x@ == f,
            Err(e) => r matches Err(x) && x@ == e,
        },
{
    match compile_source(content) {
        Ok(_) => {},
        Err(e) => {
            let mut m = chars_of("Rule compilation failed: ");
            append_all(&mut m, &chars_of(e.as_str()));
            return Err(string_of(&m));
        },
    }
    match check_rule_name(name) {
        Ok(safe) => {
            let mut f = chars_of(safe.as_str());
            append_all(&mut f, &chars_of(".yar"));
            Ok(string_of(&f))
        },
        Err(e) => Err(e),
    }
}

/// Try a rule on some data: the names of the rules of `content` that
/// match `test_data`. A source that does not compile gives
/// `Compilation error: ` and the compiler's message. The scan runs with no
/// timeout, so a rule that compiles is always tried (were the scan to
/// fail, the result would be `Scan error: ` and the scanner's message).
pub fn test_rule(content: &str, test_data: &str) -> (r: Result<Vec<String>, String>)
    ensures
        match yara_compile_error(content@) {
            Some(e) => r matches Err(x) && x@ == "Compilation error: "@ + e,
            None => r is Ok,
        },
        r matches Ok(v) ==> string_views(v@) == hit_rule_names(yara_hits(seq![content@], test_data@)),
{
    let rules = match compile_source(content) {
        Ok(rules) => rules,
        Err(e) => {
            let mut m = chars_of("Compilation error: ");
            append_all(&mut m, &chars_of(e.as_str()));
            return Err(string_of(&m));
        },
    };
    match scan_with(&rules, test_data, None, None) {
        Ok(hits) => {
            let mut names: Vec<String> = Vec::new();
            let n = hits.len();
            for i in 0..n
                invariant
                    n == hits@.len(),
                    string_views(names@) == hit_rule_names(hits@.take(i as int)),
            {
                let ghost before = names@;
                names.push(hits[i].rule.clone());
                assert(hits@.take(i + 1) =~= hits@.take(i as int).push(hits@[i as int]));
                assert(string_views(names@) =~= string_views(before).push(hits@[i as int].rule@));
                assert(hit_rule_names(hits@.take(i + 1)) =~= hit_rule_names(hits@.take(i as int)).push(
                    hits@[i as int].rule@,
                ));
            }
            assert(hits@.take(n as int) =~= hits@);
            Ok(names)
        },
        Err(e) => {
            proof {
                reveal_strlit("Scan error: ");
            }
            let mut m = chars_of("Scan error: ");
            append_all(&mut m, &chars_of(e.as_str()));
            assert(m@.take(12) =~= "Scan error: "@);
            Err(string_of(&m))
        },
    }
}

// ── Scanning ───────────────────────────────────────────────────────────

/// The names of the rules that matched, in order.
pub open spec fn hit_rule_names(hs: Seq<RuleHit>) -> Seq<Seq<char>> {
    hs.map_values(|h: RuleHit| h.rule@)
}

/// The contents of a `YaraMatch`.
pub struct FindingView {
    pub rule_name: Seq<char>,
    pub file: Seq<char>,
    pub severity: Seq<char>,
    pub description: Seq<char>,
    pub risk_score: u8,
    pub strings_matched: Seq<Seq<char>>,
}

/// A match, as values.
pub open spec fn finding_view(m: YaraMatch) -> FindingView {
    FindingView {
        rule_name: m.rule_name@,
        file: m.file@,
        severity: m.severity@,
        description: m.description@,
        risk_score: m.risk_score,
        strings_matched: string_views(m.strings_matched@),
    }
}

/// A list of matches, as values.
pub open spec fn finding_views(ms: Seq<YaraMatch>) -> Seq<FindingView> {
    ms.map_values(|m: YaraMatch| finding_view(m))
}

/// What one matching rule adds to a scan: nothing when its record
/// disables it or names another ecosystem; its record's severity,
/// description and risk otherwise; a medium match described by its name
/// when it has no record.
pub open spec fn contribution(
    rule: Seq<char>,
    info: Option<RuleInfoView>,
    eco: Ecosystem,
    file: Seq<char>,
    strings: Seq<Seq<char>>,
) -> Option<FindingView> {
    match info {
        Some(i) => if !i.enabled || !ecosystem_accepts(i.ecosystem, eco) {
            None
        } else {
            Some(
                FindingView {
                    rule_name: rule,
                    file,
                    severity: i.severity,
                    description: i.description,
                    risk_score: i.risk_score,
                    strings_matched: strings,
                },
            )
        },
        None => Some(
            FindingView {
                rule_name: rule,
                file,
                severity: "medium"@,
                description: rule,
                risk_score: 10,
                strings_matched: strings,
            },
        ),
    }
}

/// The line (1-based) at a byte offset that falls between two characters
/// of the text; `None` for an offset inside a character or past the end.
pub open spec fn offset_line(content: Seq<char>, offset: int) -> Option<int> {
    if exists|k: int| 0 <= k <= content.len() && byte_len(#[trigger] content.take(k)) == offset {
        let k = choose|k: int| 0 <= k <= content.len() && byte_len(#[trigger] content.take(k)) == offset;
        Some((count_char(content.take(k), '\n') + 1) as int)
    } else {
        None
    }
}

/// Where a pattern matched: its line, or its byte offset when no line is
/// known for it.
pub open spec fn hit_text(content: Seq<char>, h: PatternHit) -> Seq<char> {
    match offset_line(content, h.offset as int) {
        Some(ln) => h.pattern@ + " at line "@ + decimal(ln as nat),
        None => h.pattern@ + " at offset "@ + decimal(h.offset as nat),
    }
}

/// Where each pattern of a rule matched.
pub open spec fn hit_texts(content: Seq<char>, hs: Seq<PatternHit>) -> Seq<Seq<char>> {
    Seq::new(hs.len(), |i: int| hit_text(content, hs[i]))
}

/// The matches one file adds, rule by rule.
pub open spec fn rule_hit_findings(
    meta: Seq<RuleInfoView>,
    eco: Ecosystem,
    path: Seq<char>,
    content: Seq<char>,
    hits: Seq<RuleHit>,
) -> Seq<FindingView>
    decreases hits.len(),
{
    if hits.len() == 0 {
        Seq::empty()
    } else {
        let rest = rule_hit_findings(meta, eco, path, content, hits.drop_last());
        let h = hits.last();
        match contribution(h.rule@, rule_named(meta, h.rule@), eco, path, hit_texts(content, h.hits@)) {
            Some(f) => rest.push(f),
            None => rest,
        }
    }
}

/// The matches of a package, file by file: a file larger than `max` bytes
/// is skipped, and so is one whose scan failed (`None`).
pub open spec fn scan_findings(
    meta: Seq<RuleInfoView>,
    eco: Ecosystem,
    max: int,
    files: Seq<(String, String)>,
    outcomes: Seq<Option<Seq<RuleHit>>>,
) -> Seq<FindingView>
    decreases files.len(),
{
    if files.len() == 0 {
        Seq::empty()
    } else {
        let rest = scan_findings(meta, eco, max, files.drop_last(), outcomes.drop_last());
        let path = files.last().0@;
        let content = files.last().1@;
        if byte_len(content) > max {
            rest
        } else {
            match outcomes.last() {
                Some(hits) => rest + rule_hit_findings(meta, eco, path, content, hits),
                None => rest,
            }
        }
    }
}

/// What each file's scan gave: nothing (the scan failed, or timed out), or
/// the matches of the compiled rules on that file's text.
pub open spec fn scan_outcomes(
    sources: Seq<Seq<char>>,
    files: Seq<(String, String)>,
    outcomes: Seq<Option<Seq<RuleHit>>>,
) -> bool {
    &&& outcomes.len() == files.len()
    &&& forall|i: int|
        0 <= i < outcomes.len() ==> (#[trigger] outcomes[i]) is None || outcomes[i] == Some(
            yara_hits(sources, files[i].1@),
        )
}

/// Every file within the size limit has a scan outcome: no scan failed.
pub open spec fn scans_complete(
    files: Seq<(String, String)>,
    outcomes: Seq<Option<Seq<RuleHit>>>,
    max: int,
) -> bool {
    forall|i: int|
        0 <= i < outcomes.len() && byte_len(files[i].1@) <= max ==> (#[trigger] outcomes[i]) is Some
}

/// The largest file scanned: the configured limit, else 5 MiB.
pub open spec fn scan_limit(max_file_size: Option<usize>) -> int {
    match max_file_size {
        Some(m) => m as int,
        None => DEFAULT_MAX_FILE_SIZE as int,
    }
}

/// The line at a byte offset of the text, when the offset falls between
/// two characters.
fn line_at_offset(cs: &Vec<char>, offset: usize) -> (r: Option<usize>)
    requires
        byte_len(cs@) < usize::MAX,
    ensures
        match r {
            Some(x) => offset_line(cs@, offset as int) == Some(x as int),
            None => offset_line(cs@, offset as int) is None,
        },
{
    let n = cs.len();
    let mut i: usize = 0;
    let mut pos: usize = 0;
    let mut nl: usize = 0;
    proof {
        lemma_byte_len_prefix_strict(cs@, 0, n as int);
        assert(cs@.take(n as int) =~= cs@);
        assert(cs@.take(0) =~= Seq::<char>::empty());
    }
    while i < n && pos < offset
        invariant
            n == cs@.len(),
            n <= byte_len(cs@),
            byte_len(cs@) < usize::MAX,
            cs@.take(n as int) == cs@,
            i <= n,
            pos == byte_len(cs@.take(i as int)),
            nl == count_char(cs@.take(i as int), '\n'),
            nl <= i,
            i > 0 ==> byte_len(cs@.take(i - 1)) < offset,
        decreases n - i,
    {
        proof {
            assert(cs@.take(i + 1) == cs@.take(i as int).push(cs@[i as int]));
            lemma_byte_len_push(cs@.take(i as int), cs@[i as int]);
            lemma_byte_len_prefix_strict(cs@, i + 1, n as int);
            assert(cs@.take(i + 1).drop_last() == cs@.take(i as int));
        }
        let c = cs[i];
        if c == '\n' {
            nl = nl + 1;
        }
        pos = pos + width_of(c);
        i = i + 1;
    }
    if pos == offset {
        proof {
            assert(byte_len(cs@.take(i as int)) == offset);
            assert forall|k: int| 0 <= k <= cs@.len() && byte_len(#[trigger] cs@.take(k)) == offset implies k
                == i by {
                if k < i {
                    lemma_byte_len_prefix_strict(cs@, k, i as int);
                }
                if i < k {
                    lemma_byte_len_prefix_strict(cs@, i as int, k);
                }
            }
        }
        Some(nl + 1)
    } else {
        proof {
            assert forall|k: int| 0 <= k <= cs@.len() implies byte_len(#[trigger] cs@.take(k)) != offset by {
                if pos > offset {
                    if k < i {
                        lemma_byte_len_prefix_strict(cs@, k, i - 1);
                    } else if i < k {
                        lemma_byte_len_prefix_strict(cs@, i as int, k);
                    }
                } else {
                    lemma_byte_len_prefix_strict(cs@, k, i as int);
                }
            }
        }
        None
    }
}

/// The location texts of a rule's pattern matches.
fn hit_locations(content: &str, hits: &Vec<PatternHit>) -> (r: Vec<String>)
    requires
        byte_len(content@) < usize::MAX,
    ensures
        string_views(r@) == hit_texts(content@, hits@),
{
    let cs = chars_of(content);
    let mut out: Vec<String> = Vec::new();
    let n = hits.len();
    for i in 0..n
        invariant
            n == hits@.len(),
            cs@ == content@,
            byte_len(content@) < usize::MAX,
            string_views(out@) == hit_texts(content@, hits@).take(i as int),
    {
        let h = &hits[i];
        let mut t = chars_of(h.pattern.as_str());
        match line_at_offset(&cs, h.offset) {
            Some(ln) => {
                append_all(&mut t, &chars_of(" at line "));
                append_all(&mut t, &decimal_chars(ln as u64));
            },
            None => {
                append_all(&mut t, &chars_of(" at offset "));
                append_all(&mut t, &decimal_chars(h.offset as u64));
            },
        }
        let ghost before = out@;
        out.push(string_of(&t));
        assert(string_views(out@) =~= string_views(before).push(hit_text(content@, hits@[i as int])));
        assert(string_views(out@) =~= hit_texts(content@, hits@).take(i + 1));
    }
    assert(hit_texts(content@, hits@).take(n as int) =~= hit_texts(content@, hits@));
    out
}

impl YaraEngine {
    /// What the matches of one file add to a scan, rule by rule: nothing
    /// for a rule whose record disables it or names another ecosystem, its
    /// record's finding otherwise, and a medium finding for a rule without a
    /// record; each with where its patterns matched.
    pub fn findings_of_hits(&self, path: &str, content: &str, hits: &[RuleHit], ecosystem: Ecosystem) -> (r: Vec<
        YaraMatch,
    >)
        requires
            byte_len(content@) < usize::MAX,
        ensures
            finding_views(r@) == rule_hit_findings(self.rule_views(), ecosystem, path@, content@, hits@),
    {
        let ghost meta = self.rule_views();
        let mut findings: Vec<YaraMatch> = Vec::new();
        let m = hits.len();
        for k in 0..m
            invariant
                m == hits@.len(),
                meta == self.rule_views(),
                byte_len(content@) < usize::MAX,
                finding_views(findings@) == rule_hit_findings(meta, ecosystem, path@, content@, hits@.take(k as int)),
        {
            let h = &hits[k];
            assert(hits@.take(k + 1).drop_last() =~= hits@.take(k as int));
            assert(hits@.take(k + 1).last() == hits@[k as int]);
            let strings = hit_locations(content, &h.hits);
            let info = match find_rule(&self.metadata, h.rule.as_str()) {
                Some(p) => Some(&self.metadata[p]),
                None => None,
            };
            let ghost info_v: Option<RuleInfoView> = match info {
                Some(x) => Some(x@),
                None => None,
            };
            assert(info_v == rule_named(meta, h.rule@));
            let ghost before_k = finding_views(findings@);
            match rule_match(h.rule.as_str(), info, ecosystem, path, strings) {
                Some(f) => {
                    findings.push(f);
                    assert(finding_views(findings@) =~= before_k.push(finding_view(f)));
                },
                None => {},
            }
        }
        assert(hits@.take(m as int) =~= hits@);
        findings
    }

    /// Scan a package's files (path and text): files larger than the size
    /// limit are skipped, and so are files whose scan runs out of the
    /// timeout; without a timeout every file within the limit is scanned.
    /// Each matching rule adds what its record says. The verdict follows
    /// from the matches. Without compiled rules nothing is scanned.
    pub fn scan_package(
        &self,
        files: &[(String, String)],
        ecosystem: Ecosystem,
        max_file_size: Option<usize>,
        timeout_secs: Option<u64>,
    ) -> (r: Result<YaraScanResult, String>)
        requires
            forall|i: int| 0 <= i < files@.len() ==> byte_len((#[trigger] files@[i]).1@) < usize::MAX,
        ensures
            !self.has_rules() ==> (r matches Err(e) && e@ == "YARA: No rules compiled"@),
            self.has_rules() ==> (r matches Ok(res) && (exists|outcomes: Seq<Option<Seq<RuleHit>>>|
                outcomes.len() == files@.len() && scan_outcomes(self.rule_sources(), files@, outcomes)
                    && (timeout_secs is None ==> scans_complete(files@, outcomes, scan_limit(max_file_size)))
                    && finding_views(res.findings@) == #[trigger] scan_findings(
                    self.rule_views(),
                    ecosystem,
                    scan_limit(max_file_size),
                    files@,
                    outcomes,
                )) && res.risk_score == yara_risk(res.findings@) && res.is_malicious == scan_malicious(
                res.findings@,
            )),
    {
        let rules = match &self.rules {
            Some(r) => r,
            None => return Err("YARA: No rules compiled".to_owned()),
        };
        let max = match max_file_size {
            Some(m) => m,
            None => DEFAULT_MAX_FILE_SIZE,
        };
        let mut findings: Vec<YaraMatch> = Vec::new();
        let ghost mut outcomes: Seq<Option<Seq<RuleHit>>> = Seq::empty();
        let ghost meta = self.rule_views();
        let n = files.len();
        for i in 0..n
            invariant
                n == files@.len(),
                meta == self.rule_views(),
                max == scan_limit(max_file_size),
                forall|j: int| 0 <= j < files@.len() ==> byte_len((#[trigger] files@[j]).1@) < usize::MAX,
                outcomes.len() == i,
                finding_views(findings@) == scan_findings(meta, ecosystem, max as int, files@.take(i as int), outcomes),
                self.rule_sources() == rules_sources(*rules),
                scan_outcomes(self.rule_sources(), files@.take(i as int), outcomes),
                timeout_secs is None ==> scans_complete(files@.take(i as int), outcomes, max as int),
        {
            let ghost before = finding_views(findings@);
            let ghost old_out = outcomes;
            let path = &files[i].0;
            let content = &files[i].1;
            assert(files@.take(i + 1).drop_last() =~= files@.take(i as int));
            assert(files@.take(i + 1).last() == files@[i as int]);
            let size = str_byte_len(content.as_str());
            if size > max {
                proof {
                    outcomes = outcomes.push(None);
                    assert(outcomes.drop_last() =~= old_out);
                }
            } else {
                match scan_with(rules, content.as_str(), timeout_secs, Some(max)) {
                    Ok(hits) => {
                        let mut more = self.findings_of_hits(path.as_str(), content.as_str(), &hits, ecosystem);
                        let ghost added = finding_views(more@);
                        let ghost prior = findings@;
                        findings.append(&mut more);
                        assert(finding_views(findings@) =~= finding_views(prior) + added);
                        proof {
                            outcomes = outcomes.push(Some(hits@));
                        }
                    },
                    Err(_) => {
                        proof {
                            outcomes = outcomes.push(None);
                        }
                    },
                }
                proof {
                    assert(outcomes.drop_last() =~= old_out);
                }
            }
            assert(scan_findings(meta, ecosystem, max as int, files@.take(i + 1), outcomes) == {
                let rest = scan_findings(meta, ecosystem, max as int, files@.take(i as int), outcomes.drop_last());
                if byte_len(content@) > max as int {
                    rest
                } else {
                    match outcomes.last() {
                        Some(hits) => rest + rule_hit_findings(meta, ecosystem, path@, content@, hits),
                        None => rest,
                    }
                }
            });
            assert forall|j: int| 0 <= j < outcomes.len() implies (#[trigger] outcomes[j]) is None
                || outcomes[j] == Some(yara_hits(self.rule_sources(), files@.take(i + 1)[j].1@)) by {
                if j < i {
                    assert(outcomes[j] == old_out[j]);
                    assert(files@.take(i + 1)[j] == files@.take(i as int)[j]);
                }
            }
            assert(timeout_secs is None ==> scans_complete(files@.take(i + 1), outcomes, max as int)) by {
                if timeout_secs is None {
                    assert forall|j: int| 0 <= j < outcomes.len() && byte_len(files@.take(i + 1)[j].1@) <= max as int
                        implies (#[trigger] outcomes[j]) is Some by {
                        if j < i {
                            assert(outcomes[j] == old_out[j]);
                            assert(files@.take(i + 1)[j] == files@.take(i as int)[j]);
                        }
                    }
                }
            }
        }
        assert(files@.take(n as int) =~= files@);
        let res = scan_result(findings);
        Ok(res)
    }
}

/// A finding that the rule records allow on a package of `eco`: its rule
/// has no record, or a record that is enabled and accepts the ecosystem.
pub open spec fn finding_allowed(meta: Seq<RuleInfoView>, eco: Ecosystem, f: FindingView) -> bool {
    match rule_named(meta, f.rule_name) {
        Some(i) => i.enabled && ecosystem_accepts(i.ecosystem, eco),
        None => true,
    }
}

proof fn lemma_rule_hits_allowed(
    meta: Seq<RuleInfoView>,
    eco: Ecosystem,
    path: Seq<char>,
    content: Seq<char>,
    hits: Seq<RuleHit>,
)
    ensures
        forall|k: int|
            0 <= k < rule_hit_findings(meta, eco, path, content, hits).len() ==> finding_allowed(
                meta,
                eco,
                #[trigger] rule_hit_findings(meta, eco, path, content, hits)[k],
            ),
    decreases hits.len(),
{
    if hits.len() > 0 {
        let rest = rule_hit_findings(meta, eco, path, content, hits.drop_last());
        lemma_rule_hits_allowed(meta, eco, path, content, hits.drop_last());
        let h = hits.last();
        match contribution(h.rule@, rule_named(meta, h.rule@), eco, path, hit_texts(content, h.hits@)) {
            Some(f) => {
                assert(finding_allowed(meta, eco, f));
                let all = rest.push(f);
                assert(rule_hit_findings(meta, eco, path, content, hits) == all);
                assert forall|k: int| 0 <= k < all.len() implies finding_allowed(meta, eco, #[trigger] all[k]) by {
                    if k < rest.len() {
                        assert(all[k] == rest[k]);
                    }
                }
            },
            None => {
                assert(rule_hit_findings(meta, eco, path, content, hits) == rest);
            },
        }
    }
}

/// Rule records decide what a scan reports: every finding of a scan of a
/// package of `eco` comes from a rule without a record or from an enabled
/// rule whose record accepts `eco`. A disabled rule, or one meant for
/// another ecosystem, never yields a finding, whatever the files hold and
/// whatever the engine matched.
pub proof fn law_scan_respects_rule_records(
    meta: Seq<RuleInfoView>,
    eco: Ecosystem,
    max: int,
    files: Seq<(String, String)>,
    outcomes: Seq<Option<Seq<RuleHit>>>,
)
    ensures
        forall|k: int|
            0 <= k < scan_findings(meta, eco, max, files, outcomes).len() ==> finding_allowed(
                meta,
                eco,
                #[trigger] scan_findings(meta, eco, max, files, outcomes)[k],
            ),
    decreases files.len(),
{
    if files.len() > 0 {
        law_scan_respects_rule_records(meta, eco, max, files.drop_last(), outcomes.drop_last());
        let path = files.last().0@;
        let content = files.last().1@;
        let rest = scan_findings(meta, eco, max, files.drop_last(), outcomes.drop_last());
        if byte_len(content) <= max {
            match outcomes.last() {
                Some(hits) => {
                    lemma_rule_hits_allowed(meta, eco, path, content, hits);
                    let more = rule_hit_findings(meta, eco, path, content, hits);
                    let all = rest + more;
                    assert(scan_findings(meta, eco, max, files, outcomes) == all);
                    assert forall|k: int| 0 <= k < all.len() implies finding_allowed(meta, eco, #[trigger] all[k]) by {
                        if k < rest.len() {
                            assert(all[k] == rest[k]);
                        } else {
                            assert(all[k] == more[k - rest.len()]);
                        }
                    }
                },
                None => {},
            }
        }
    }
}

/// Every finding drawn from one file's hits names that file.
proof fn lemma_rule_hits_name_file(
    meta: Seq<RuleInfoView>,
    eco: Ecosystem,
    path: Seq<char>,
    content: Seq<char>,
    hits: Seq<RuleHit>,
)
    ensures
        forall|k: int|
            0 <= k < rule_hit_findings(meta, eco, path, content, hits).len()
                ==> (#[trigger] rule_hit_findings(meta, eco, path, content, hits)[k]).file == path,
    decreases hits.len(),
{
    if hits.len() > 0 {
        let rest = rule_hit_findings(meta, eco, path, content, hits.drop_last());
        lemma_rule_hits_name_file(meta, eco, path, content, hits.drop_last());
        let h = hits.last();
        match contribution(h.rule@, rule_named(meta, h.rule@), eco, path, hit_texts(content, h.hits@)) {
            Some(f) => {
                let all = rest.push(f);
                assert(rule_hit_findings(meta, eco, path, content, hits) == all);
                assert forall|k: int| 0 <= k < all.len() implies (#[trigger] all[k]).file == path by {
                    if k < rest.len() {
                        assert(all[k] == rest[k]);
                    }
                }
            },
            None => {},
        }
    }
}

/// Only files within the size limit are reported on: every finding of a
/// scan of a package names one of its files whose text is no longer than
/// `max` bytes, whatever the engine matched.
pub proof fn law_findings_come_from_files_within_limit(
    meta: Seq<RuleInfoView>,
    eco: Ecosystem,
    max: int,
    files: Seq<(String, String)>,
    outcomes: Seq<Option<Seq<RuleHit>>>,
)
    ensures
        forall|k: int|
            #![trigger scan_findings(meta, eco, max, files, outcomes)[k]]
            0 <= k < scan_findings(meta, eco, max, files, outcomes).len() ==> exists|j: int|
                0 <= j < files.len() && (#[trigger] files[j]).0@ == scan_findings(meta, eco, max, files, outcomes)[k].file
                    && byte_len(files[j].1@) <= max,
    decreases files.len(),
{
    if files.len() > 0 {
        let init = files.drop_last();
        law_findings_come_from_files_within_limit(meta, eco, max, init, outcomes.drop_last());
        let path = files.last().0@;
        let content = files.last().1@;
        let rest = scan_findings(meta, eco, max, init, outcomes.drop_last());
        let all = scan_findings(meta, eco, max, files, outcomes);
        assert forall|k: int| #![trigger rest[k]] 0 <= k < rest.len() implies exists|j: int|
            0 <= j < files.len() && (#[trigger] files[j]).0@ == rest[k].file && byte_len(files[j].1@) <= max by {
            let j = choose|j: int| 0 <= j < init.len() && (#[trigger] init[j]).0@ == rest[k].file && byte_len(init[j].1@) <= max;
            assert(files[j] == init[j]);
        }
        if byte_len(content) <= max {
            match outcomes.last() {
                Some(hits) => {
                    lemma_rule_hits_name_file(meta, eco, path, content, hits);
                    let more = rule_hit_findings(meta, eco, path, content, hits);
                    assert(all == rest + more);
                    assert forall|k: int| #![trigger all[k]] 0 <= k < all.len() implies exists|j: int|
                        0 <= j < files.len() && (#[trigger] files[j]).0@ == all[k].file && byte_len(files[j].1@) <= max by {
                        if k < rest.len() {
                            assert(all[k] == rest[k]);
                        } else {
                            assert(all[k] == more[k - rest.len()]);
                            assert(files[files.len() - 1] == files.last());
                        }
                    }
                },
                None => {},
            }
        }
    }
}

/// Turning a rule on or off is read back and touches no other rule: after
/// `set_rule_enabled(name, enabled)` on a rule that exists, the record of
/// `name` is its old record with the new flag, and the record of every
/// other name is what it was.
pub proof fn law_rule_toggle_read_back(
    ms: Seq<RuleInfoView>,
    name: Seq<char>,
    other: Seq<char>,
    enabled: bool,
)
    requires
        rule_named(ms, name) is Some,
        other != name,
    ensures
        ({
            let v = rule_named(ms, name)->0;
            let after = ms.update(position_of(ms, name), with_enabled(v, enabled));
            &&& rule_named(after, name) == Some(with_enabled(v, enabled))
            &&& rule_named(after, other) == rule_named(ms, other)
        }),
{
    let v = rule_named(ms, name)->0;
    let p = position_of(ms, name);
    lemma_position_of_found(ms, name);
    let after = ms.update(p, with_enabled(v, enabled));
    assert forall|i: int| 0 <= i < ms.len() implies (#[trigger] ms[i]).name == after[i].name by {}
    lemma_position_of_same_names(ms, after, name);
    lemma_position_of_same_names(ms, after, other);
    lemma_position_of_found(ms, other);
    let q = position_of(ms, other);
    if q >= 0 {
        assert(q != p);
        assert(after[q] == ms[q]);
    }
}

/// No name occurs twice among the records.
pub open spec fn names_unique(ms: Seq<RuleInfoView>) -> bool {
    forall|i: int, j: int| 0 <= i < j < ms.len() ==> (#[trigger] ms[i]).name != (#[trigger] ms[j]).name
}

/// A saved state that turns off exactly the given names, in order.
pub open spec fn saves_disabled(state: Seq<(String, bool)>, names: Seq<Seq<char>>) -> bool {
    &&& state.len() == names.len()
    &&& forall|i: int| 0 <= i < state.len() ==> (#[trigger] state[i]).0@ == names[i] && !state[i].1
}

proof fn lemma_saved_disabled(state: Seq<(String, bool)>, names: Seq<Seq<char>>, name: Seq<char>)
    requires
        saves_disabled(state, names),
    ensures
        saved_state(state, name) == if names.contains(name) {
            Some(false)
        } else {
            None::<bool>
        },
    decreases state.len(),
{
    if state.len() > 0 {
        let rest = state.drop_first();
        let others = names.drop_first();
        assert forall|i: int| 0 <= i < rest.len() implies (#[trigger] rest[i]).0@ == others[i] && !rest[i].1 by {
            assert(rest[i] == state[i + 1]);
        }
        lemma_saved_disabled(rest, others, name);
        assert(state[0].0@ == names[0]);
        if state[0].0@ != name {
            if names.contains(name) {
                let k = choose|k: int| 0 <= k < names.len() && names[k] == name;
                assert(k > 0);
                assert(others[k - 1] == name);
            }
            if others.contains(name) {
                let k = choose|k: int| 0 <= k < others.len() && others[k] == name;
                assert(names[k + 1] == name);
            }
        } else {
            assert(names[0] == name);
        }
    }
}

proof fn lemma_disabled_names_member(ms: Seq<RuleInfoView>, name: Seq<char>)
    ensures
        disabled_names(ms).contains(name) <==> exists|i: int|
            0 <= i < ms.len() && (#[trigger] ms[i]).name == name && !ms[i].enabled,
    decreases ms.len(),
{
    if ms.len() > 0 {
        let rest = ms.drop_last();
        lemma_disabled_names_member(rest, name);
        if disabled_names(ms).contains(name) {
            if !ms.last().enabled && ms.last().name == name {
                assert(ms[ms.len() - 1].name == name);
            } else {
                assert(disabled_names(rest).contains(name)) by {
                    let k = choose|k: int| 0 <= k < disabled_names(ms).len() && disabled_names(ms)[k] == name;
                    if !ms.last().enabled {
                        assert(k < disabled_names(rest).len());
                        assert(disabled_names(rest)[k] == name);
                    }
                }
                let i = choose|i: int| 0 <= i < rest.len() && (#[trigger] rest[i]).name == name && !rest[i].enabled;
                assert(ms[i] == rest[i]);
            }
        }
        if exists|i: int| 0 <= i < ms.len() && (#[trigger] ms[i]).name == name && !ms[i].enabled {
            let i = choose|i: int| 0 <= i < ms.len() && (#[trigger] ms[i]).name == name && !ms[i].enabled;
            if i == ms.len() - 1 {
                assert(disabled_names(ms) == disabled_names(rest).push(name));
                assert(disabled_names(ms)[disabled_names(rest).len() as int] == name);
            } else {
                assert(rest[i] == ms[i]);
                assert(disabled_names(rest).contains(name));
                let k = choose|k: int| 0 <= k < disabled_names(rest).len() && disabled_names(rest)[k] == name;
                if !ms.last().enabled {
                    assert(disabled_names(ms)[k] == name);
                }
            }
        }
    }
}

/// Saving the disabled rules and loading again restores every flag: when
/// the rules are loaded from the same files (each name once, all enabled
/// as loaded) with a state that turns off exactly the rules that
/// `disabled_rule_names` listed, every rule has the flag it had when the
/// state was saved.
pub proof fn law_rule_state_round_trip(
    loaded: Seq<RuleInfoView>,
    current: Seq<RuleInfoView>,
    state: Seq<(String, bool)>,
)
    requires
        names_unique(loaded),
        forall|i: int| 0 <= i < loaded.len() ==> (#[trigger] loaded[i]).enabled,
        current.len() == loaded.len(),
        forall|i: int| 0 <= i < loaded.len() ==> (#[trigger] current[i]) == with_enabled(loaded[i], current[i].enabled),
        saves_disabled(state, disabled_names(current)),
    ensures
        with_state(loaded, state) == current,
{
    let restored = with_state(loaded, state);
    assert forall|i: int| 0 <= i < loaded.len() implies (#[trigger] restored[i]) == current[i] by {
        let name = loaded[i].name;
        lemma_saved_disabled(state, disabled_names(current), name);
        lemma_disabled_names_member(current, name);
        assert(current[i] == with_enabled(loaded[i], current[i].enabled));
        if current[i].enabled {
            if disabled_names(current).contains(name) {
                let j = choose|j: int| 0 <= j < current.len() && (#[trigger] current[j]).name == name && !current[j].enabled;
                assert(current[j] == with_enabled(loaded[j], current[j].enabled));
                assert(j != i);
                if i < j {
                    assert(loaded[i].name != loaded[j].name);
                } else {
                    assert(loaded[j].name != loaded[i].name);
                }
            }
        } else {
            assert(current[i].name == name);
        }
    }
    assert(restored =~= current);
}

/// Rules loaded from files are all enabled, and each name occurs once (a
/// later file replaces an earlier one of the same name).
pub proof fn law_loaded_rules_enabled_and_unique(files: Seq<RuleFile>, outcomes: Seq<Option<String>>)
    ensures
        names_unique(accepted_infos(files, outcomes)),
        forall|i: int|
            0 <= i < accepted_infos(files, outcomes).len() ==> (#[trigger] accepted_infos(files, outcomes)[i]).enabled,
    decreases files.len(),
{
    if files.len() > 0 {
        let rest = accepted_infos(files.drop_last(), outcomes.drop_last());
        law_loaded_rules_enabled_and_unique(files.drop_last(), outcomes.drop_last());
        if outcomes.last() is None {
            let info = file_info(files.last());
            let all = accepted_infos(files, outcomes);
            assert(all == insert_named(rest, info));
            lemma_position_of_found(rest, info.name);
            let p = position_of(rest, info.name);
            if p < 0 {
                assert(all == rest.push(info));
                assert forall|a: int, b: int| 0 <= a < b < all.len() implies (#[trigger] all[a]).name != (#[trigger] all[b]).name by {
                    if b == rest.len() {
                        assert(rest[a].name != info.name);
                    } else {
                        assert(all[a] == rest[a] && all[b] == rest[b]);
                    }
                }
            } else {
                assert(all == rest.update(p, info));
                assert forall|a: int, b: int| 0 <= a < b < all.len() implies (#[trigger] all[a]).name != (#[trigger] all[b]).name by {
                    assert(all[a].name == rest[a].name);
                    assert(all[b].name == rest[b].name);
                }
            }
        }
    }
}

} // verus!
