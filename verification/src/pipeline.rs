//! The decisions of the watch loop: which stages run, which packages are
//! new, the final verdict on a package, and how the poll interval is read.
use vstd::prelude::*;
use crate::analysis::guarddog::GuardDogFinding;
use crate::analysis::llm::LlmAnalysisResult;
use crate::analysis::heuristics::{evaluate_rule, rule_outcome, HeuristicMatch, HeuristicRule, HeuristicRules, MatchView};
use crate::config::Config;
use crate::feed::pypi::PythonPackage;
use crate::text::{
    append_all, chars_eq, lowercase_chars, unicode_lowercase, chars_of, digits_value, parse_unsigned, parse_unsigned_chars, slice_chars,
    string_of, string_views, trim, trim_ws,
};

verus! {

/// Whether a stage's setting leaves it on: unset means on.
pub open spec fn is_stage_on(enabled: Option<bool>) -> bool {
    match enabled {
        Some(b) => b,
        None => true,
    }
}

/// A stage runs unless its setting turns it off.
pub fn is_stage_enabled(enabled: Option<bool>) -> (r: bool)
    ensures
        r == is_stage_on(enabled),
{
    match enabled {
        Some(b) => b,
        None => true,
    }
}

/// The matches of the rules that fire on a package, in rule order.
pub open spec fn fired(rules: Seq<HeuristicRule>, pkg: PythonPackage) -> Seq<MatchView>
    decreases rules.len(),
{
    if rules.len() == 0 {
        Seq::empty()
    } else {
        let rest = fired(rules.drop_last(), pkg);
        match rule_outcome(rules.last(), pkg) {
            Some(m) => rest.push(m),
            None => rest,
        }
    }
}

/// The views of a list of matches.
pub open spec fn match_views(ms: Seq<HeuristicMatch>) -> Seq<MatchView> {
    ms.map_values(|m: HeuristicMatch| m@)
}

/// Stage 1: every loaded rule applied to the package, when the stage is
/// enabled; nothing when it is off or no rules were loaded.
pub fn run_heuristics_stage(package: &PythonPackage, heuristics: &Option<HeuristicRules>, enabled: Option<bool>)
    -> (r: Vec<HeuristicMatch>)
    ensures
        match_views(r@) == match heuristics {
            Some(h) => if is_stage_on(enabled) {
                fired(h.rules@, *package)
            } else {
                Seq::empty()
            },
            None => Seq::empty(),
        },
{
    let mut out: Vec<HeuristicMatch> = Vec::new();
    if !is_stage_enabled(enabled) {
        assert(match_views(out@) =~= Seq::<MatchView>::empty());
        return out;
    }
    match heuristics {
        Some(h) => {
            let n = h.rules.len();
            for i in 0..n
                invariant
                    n == h.rules@.len(),
                    match_views(out@) == fired(h.rules@.take(i as int), *package),
            {
                let ghost before = out@;
                assert(h.rules@.take(i + 1).drop_last() =~= h.rules@.take(i as int));
                match evaluate_rule(&h.rules[i], package) {
                    Some(m) => {
                        out.push(m);
                        assert(match_views(out@) =~= match_views(before).push(m@));
                    },
                    None => {},
                }
            }
            assert(h.rules@.take(n as int) =~= h.rules@);
        },
        None => {
            assert(match_views(out@) =~= Seq::<MatchView>::empty());
        },
    }
    out
}

/// The verdict on a package: its severity (1-25), whether it is malicious,
/// and the recommendation.
pub struct Verdict {
    pub severity: u8,
    pub is_malicious: bool,
    pub recommendation: String,
}

/// Severity from the number of findings when no LLM verdict is available.
pub open spec fn fallback_severity(finding_count: int) -> int {
    if finding_count == 0 {
        1
    } else if finding_count <= 2 {
        6
    } else {
        12
    }
}

/// The recommendation for a severity: ignore up to 4, inspect above.
pub open spec fn recommendation_for(severity: int) -> Seq<char> {
    if severity <= 4 {
        "IGNORE"@
    } else {
        "INSPECT"@
    }
}

/// The decision on a package: the code-analysis severity when there is
/// one (malicious from 6); otherwise a severity from the number of
/// findings, malicious with more than three.
pub fn final_verdict(llm_severity: Option<u8>, finding_count: usize) -> (r: Verdict)
    ensures
        match llm_severity {
            Some(s) => r.severity == s && r.is_malicious == (s >= 6),
            None => r.severity == fallback_severity(finding_count as int) && r.is_malicious == (
            finding_count > 3),
        },
        r.recommendation@ == recommendation_for(r.severity as int),
        llm_severity is None && finding_count >= 1 ==> r.severity >= 6 && r.recommendation@ == "INSPECT"@,
        llm_severity is None && finding_count == 0 ==> r.severity == 1 && r.recommendation@ == "IGNORE"@
            && !r.is_malicious,
        llm_severity is None && finding_count > 3 ==> r.is_malicious && r.severity == 12,
{
    proof {
        law_fallback_verdict(finding_count as int);
    }
    let (severity, is_malicious): (u8, bool) = match llm_severity {
        Some(s) => (s, s >= 6),
        None => {
            let sev: u8 = if finding_count == 0 {
                1
            } else if finding_count <= 2 {
                6
            } else {
                12
            };
            (sev, finding_count > 3)
        },
    };
    let recommendation = if severity <= 4 {
        "IGNORE".to_owned()
    } else {
        "INSPECT".to_owned()
    };
    Verdict { severity, is_malicious, recommendation }
}

/// The new packages of a feed read: those with a title not seen before,
/// in feed order.
pub open spec fn is_new(p: PythonPackage, seen: Seq<Seq<char>>) -> bool {
    match p.title {
        Some(t) => !seen.contains(t@),
        None => false,
    }
}

/// A field-by-field copy of a package.
fn copy_package(p: &PythonPackage) -> (r: PythonPackage)
    ensures
        r == *p,
{
    PythonPackage {
        title: p.title.clone(),
        link: p.link.clone(),
        description: p.description.clone(),
        author: p.author.clone(),
        published_date: p.published_date.clone(),
    }
}

/// Keep the packages whose title has not been seen.
pub fn select_new_packages(packages: Vec<PythonPackage>, seen: &[String]) -> (r: Vec<PythonPackage>)
    ensures
        r@ == packages@.filter(|p: PythonPackage| is_new(p, string_views(seen@))),
{
    let ghost sv = string_views(seen@);
    let ghost keep = |p: PythonPackage| is_new(p, sv);
    let mut out: Vec<PythonPackage> = Vec::new();
    let n = packages.len();
    for i in 0..n
        invariant
            n == packages@.len(),
            sv == string_views(seen@),
            keep == (|p: PythonPackage| is_new(p, sv)),
            out@ == packages@.take(i as int).filter(keep),
    {
        reveal(Seq::filter);
        assert(packages@.take(i + 1).drop_last() == packages@.take(i as int));
        let p = &packages[i];
        let fresh = match &p.title {
            Some(t) => {
                let tc = chars_of(t.as_str());
                let mut found = false;
                let m = seen.len();
                for j in 0..m
                    invariant
                        m == seen@.len(),
                        sv == string_views(seen@),
                        tc@ == t@,
                        found == exists|k: int| 0 <= k < j && sv[k] == t@,
                {
                    assert(sv[j as int] == seen@[j as int]@);
                    if chars_eq(&chars_of(seen[j].as_str()), &tc) {
                        found = true;
                    }
                }
                proof {
                    if sv.contains(t@) {
                        let k = choose|k: int| 0 <= k < sv.len() && sv[k] == t@;
                        assert(sv[k] == t@);
                    }
                }
                !found
            },
            None => false,
        };
        if fresh {
            out.push(copy_package(p));
        }
    }
    assert(packages@.take(n as int) == packages@);
    out
}

/// What the LLM is told of the earlier stages' findings: each heuristic as
/// `rule: description`, each GuardDog finding as `rule [severity]:
/// description`.
pub open spec fn heuristic_summary(h: HeuristicMatch) -> Seq<char> {
    h.rule_name@ + ": "@ + h.description@
}

/// A GuardDog finding as the LLM is told of it.
pub open spec fn guarddog_summary(f: GuardDogFinding) -> Seq<char> {
    f.rule_name@ + " ["@ + f.severity@ + "]: "@ + f.description@
}

/// Summaries of the heuristic matches, in order.
pub fn heuristic_summaries(hs: &[HeuristicMatch]) -> (r: Vec<String>)
    ensures
        r@.len() == hs@.len(),
        forall|i: int| 0 <= i < hs@.len() ==> (#[trigger] r@[i])@ == heuristic_summary(hs@[i]),
{
    let mut r: Vec<String> = Vec::new();
    let n = hs.len();
    for i in 0..n
        invariant
            n == hs@.len(),
            r@.len() == i,
            forall|j: int| 0 <= j < i ==> (#[trigger] r@[j])@ == heuristic_summary(hs@[j]),
    {
        let mut s = chars_of(hs[i].rule_name.as_str());
        append_all(&mut s, &chars_of(": "));
        append_all(&mut s, &chars_of(hs[i].description.as_str()));
        r.push(string_of(&s));
    }
    r
}

/// Summaries of the GuardDog findings, in order.
pub fn guarddog_summaries(fs: &[GuardDogFinding]) -> (r: Vec<String>)
    ensures
        r@.len() == fs@.len(),
        forall|i: int| 0 <= i < fs@.len() ==> (#[trigger] r@[i])@ == guarddog_summary(fs@[i]),
{
    let mut r: Vec<String> = Vec::new();
    let n = fs.len();
    for i in 0..n
        invariant
            n == fs@.len(),
            r@.len() == i,
            forall|j: int| 0 <= j < i ==> (#[trigger] r@[j])@ == guarddog_summary(fs@[j]),
    {
        let mut s = chars_of(fs[i].rule_name.as_str());
        append_all(&mut s, &chars_of(" ["));
        append_all(&mut s, &chars_of(fs[i].severity.as_str()));
        append_all(&mut s, &chars_of("]: "));
        append_all(&mut s, &chars_of(fs[i].description.as_str()));
        r.push(string_of(&s));
    }
    r
}

// ── Poll interval ──────────────────────────────────────────────────────

/// The number of leading ASCII digits.
pub open spec fn leading_digits(s: Seq<char>) -> nat
    decreases s.len(),
{
    if s.len() > 0 && '0' <= s[0] && s[0] <= '9' {
        1 + leading_digits(s.skip(1))
    } else {
        0
    }
}

/// Seconds per unit of a duration suffix, or 0 for an unknown suffix.
pub open spec fn unit_seconds(unit: Seq<char>) -> int {
    if unit == "s"@ || unit == "sec"@ || unit == "second"@ || unit == "seconds"@ || unit.len() == 0 {
        1
    } else if unit == "m"@ || unit == "min"@ || unit == "minute"@ || unit == "minutes"@ {
        60
    } else if unit == "h"@ || unit == "hour"@ || unit == "hours"@ {
        3600
    } else {
        0
    }
}

/// A duration such as `30s`, `5m` or `2h` (seconds when no unit is given),
/// in seconds, or the error message.
pub open spec fn duration_seconds(s: Seq<char>) -> Result<int, Seq<char>> {
    let t = trim_ws(s);
    let k = leading_digits(t);
    if t.len() == 0 {
        Err("Empty duration string"@)
    } else if k == 0 {
        Err("No number found in '"@ + t + "'"@)
    } else {
        match parse_unsigned(t.take(k as int), 0xffff_ffff_ffff_ffffnat) {
            None => Err("Invalid number: '"@ + t.take(k as int) + "'"@),
            Some(n) => {
                let u = unit_seconds(t.skip(k as int));
                if u == 0 {
                    Err("Unknown unit: '"@ + t.skip(k as int) + "'. Use s, m, or h"@)
                } else {
                    Ok(n * u)
                }
            },
        }
    }
}

fn unit_of(u: &[char]) -> (r: u64)
    ensures
        r == unit_seconds(u@),
{
    if chars_eq(u, &chars_of("s")) || chars_eq(u, &chars_of("sec")) || chars_eq(u, &chars_of("second"))
        || chars_eq(u, &chars_of("seconds")) || u.len() == 0 {
        1
    } else if chars_eq(u, &chars_of("m")) || chars_eq(u, &chars_of("min")) || chars_eq(
        u,
        &chars_of("minute"),
    ) || chars_eq(u, &chars_of("minutes")) {
        60
    } else if chars_eq(u, &chars_of("h")) || chars_eq(u, &chars_of("hour")) || chars_eq(
        u,
        &chars_of("hours"),
    ) {
        3600
    } else {
        0
    }
}

/// A poll interval split into its number and the seconds of its unit.
fn split_duration(s: &str) -> (r: Result<(u64, u64), String>)
    ensures
        match duration_seconds(s@) {
            Ok(v) => r matches Ok((n, u)) && n * u == v && (u == 1 || u == 60 || u == 3600),
            Err(e) => r matches Err(x) && x@ == e,
        },
{
    let t = trim(&chars_of(s));
    if t.len() == 0 {
        return Err("Empty duration string".to_owned());
    }
    let n = t.len();
    let mut k: usize = 0;
    assert(t@.skip(0) == t@);
    while k < n && '0' <= t[k] && t[k] <= '9'
        invariant
            n == t@.len(),
            k <= n,
            leading_digits(t@) == k + leading_digits(t@.skip(k as int)),
        decreases n - k,
    {
        assert(t@.skip(k as int).skip(1) == t@.skip(k + 1));
        k = k + 1;
    }
    if k == 0 {
        let mut m = chars_of("No number found in '");
        append_all(&mut m, &t);
        append_all(&mut m, &chars_of("'"));
        return Err(string_of(&m));
    }
    let digits = slice_chars(&t, 0, k);
    assert(digits@ == t@.take(k as int));
    let unit = slice_chars(&t, k, n);
    assert(unit@ == t@.skip(k as int));
    let num = match parse_unsigned_chars(&digits, 0xffff_ffff_ffff_ffffu64) {
        Some(v) => v,
        None => {
            let mut m = chars_of("Invalid number: '");
            append_all(&mut m, &digits);
            append_all(&mut m, &chars_of("'"));
            return Err(string_of(&m));
        },
    };
    let u = unit_of(&unit);
    if u == 0 {
        let mut m = chars_of("Unknown unit: '");
        append_all(&mut m, &unit);
        append_all(&mut m, &chars_of("'. Use s, m, or h"));
        return Err(string_of(&m));
    }
    Ok((num, u))
}

/// Parse a poll interval into seconds.
pub fn parse_duration(s: &str) -> (r: Result<u64, String>)
    requires
        duration_seconds(s@) matches Ok(n) ==> n <= u64::MAX,
    ensures
        match duration_seconds(s@) {
            Ok(n) => r matches Ok(x) && x == n,
            Err(e) => r matches Err(x) && x@ == e,
        },
{
    match split_duration(s) {
        Ok((n, u)) => Ok(n * u),
        Err(e) => Err(e),
    }
}

/// Whether a poll interval, when it parses, fits in `u64` seconds: what
/// `parse_duration` asks of its input.
pub fn duration_fits(s: &str) -> (r: bool)
    ensures
        r == (duration_seconds(s@) matches Ok(n) ==> n <= u64::MAX),
{
    match split_duration(s) {
        Ok((n, u)) => n.checked_mul(u).is_some(),
        Err(_) => true,
    }
}


/// The feed the watcher polls when neither the command line nor the
/// configuration names one.
pub const DEFAULT_FEED_URL: &'static str = "https://pypi.org/rss/packages.xml";

/// The poll interval used when neither the command line nor the
/// configuration gives one.
pub const DEFAULT_POLL_INTERVAL: &'static str = "30s";

/// What the watcher runs with.
pub struct WatchOptions {
    pub url: String,
    pub poll_interval: String,
    pub check_updates: bool,
}

/// The first of the command-line value and the configured value, else the
/// default.
pub open spec fn first_given(cli: Option<Seq<char>>, configured: Option<Seq<char>>, default: Seq<char>) -> Seq<char> {
    match cli {
        Some(c) => c,
        None => match configured {
            Some(c) => c,
            None => default,
        },
    }
}

/// The view of an optional string.
pub open spec fn opt_view(o: Option<&str>) -> Option<Seq<char>> {
    match o {
        Some(s) => Some(s@),
        None => None,
    }
}

/// The watcher's settings: the command line wins over `config.toml`, which
/// wins over the built-in defaults; `--check-updates` turns update checks on
/// whatever the configuration says.
pub fn resolve_watch_options(
    cli_url: Option<&str>,
    cli_poll_interval: Option<&str>,
    cli_check_updates: bool,
    config: Option<&Config>,
) -> (r: WatchOptions)
    ensures
        r.url@ == first_given(
            opt_view(cli_url),
            match config {
                Some(c) => Some(c.feed.endpoint@),
                None => None,
            },
            DEFAULT_FEED_URL@,
        ),
        r.poll_interval@ == first_given(
            opt_view(cli_poll_interval),
            match config {
                Some(c) => Some(c.feed.poll_interval@),
                None => None,
            },
            DEFAULT_POLL_INTERVAL@,
        ),
        r.check_updates == (cli_check_updates || match config {
            Some(c) => c.feed.check_updates,
            None => false,
        }),
{
    let url = match cli_url {
        Some(u) => u.to_owned(),
        None => match config {
            Some(c) => c.feed.endpoint.clone(),
            None => DEFAULT_FEED_URL.to_owned(),
        },
    };
    let poll_interval = match cli_poll_interval {
        Some(p) => p.to_owned(),
        None => match config {
            Some(c) => c.feed.poll_interval.clone(),
            None => DEFAULT_POLL_INTERVAL.to_owned(),
        },
    };
    let check_updates = if cli_check_updates {
        true
    } else {
        match config {
            Some(c) => c.feed.check_updates,
            None => false,
        }
    };
    WatchOptions { url, poll_interval, check_updates }
}

/// How much the scanner logs.
#[derive(Debug, Clone, Copy, PartialEq, Eq, Structural)]
pub enum LogLevel {
    Debug,
    Info,
    Warn,
    Error,
}

/// The level a configured name selects, ignoring case; anything else, and
/// a missing configuration, selects `Info`.
pub open spec fn log_level_named(name: Option<Seq<char>>) -> LogLevel {
    match name {
        Some(n) => {
            let l = unicode_lowercase(n);
            if l == "debug"@ {
                LogLevel::Debug
            } else if l == "info"@ {
                LogLevel::Info
            } else if l == "warn"@ {
                LogLevel::Warn
            } else if l == "error"@ {
                LogLevel::Error
            } else {
                LogLevel::Info
            }
        },
        None => LogLevel::Info,
    }
}

/// The log level for the configured `output.log_level`, if a configuration
/// was loaded.
pub fn log_level_for(configured: Option<&str>) -> (r: LogLevel)
    ensures
        r == log_level_named(opt_view(configured)),
{
    match configured {
        Some(n) => {
            let l = lowercase_chars(&chars_of(n));
            if chars_eq(&l, &chars_of("debug")) {
                LogLevel::Debug
            } else if chars_eq(&l, &chars_of("info")) {
                LogLevel::Info
            } else if chars_eq(&l, &chars_of("warn")) {
                LogLevel::Warn
            } else if chars_eq(&l, &chars_of("error")) {
                LogLevel::Error
            } else {
                LogLevel::Info
            }
        },
        None => LogLevel::Info,
    }
}

// ── The LLM stage ──────────────────────────────────────────────────────

/// Where the LLM stage of one package stands.
#[derive(Debug)]
pub enum LlmStage {
    /// Nothing asked yet.
    Idle,
    /// The injection sentinel has been asked about the prompt body.
    AwaitingSentinel,
    /// The sentinel found the body clean; the analysis has been asked.
    AwaitingAnalysis,
    /// The stage is over.
    Finished,
}

/// What the stage learns from the outside.
#[derive(Debug)]
pub enum LlmStageEvent {
    /// The stage starts: whether it is enabled (with a model configured),
    /// and whether the package's source could be had.
    Start { enabled: bool, source_available: bool },
    /// The sentinel's reply: whether it detected an injection, or the
    /// error of asking it.
    SentinelReply(Result<bool, String>),
    /// The analysis' reply, or the error of asking for it.
    AnalysisReply(Result<LlmAnalysisResult, String>),
}

/// What the stage asks the caller to do next.
#[derive(Debug)]
pub enum LlmAction {
    /// Ask the sentinel whether the prompt body tries an injection.
    RunSentinel,
    /// Ask the model for its assessment.
    RunAnalysis,
    /// The stage is over, with the assessment to report, if any.
    Finish(Option<LlmAnalysisResult>),
}

/// One step of the LLM stage. The assessment is only asked for after the
/// sentinel found the body clean: a detected injection, any error, a
/// disabled stage or a missing source end the stage without an assessment,
/// and an assessment that came back ends it with that assessment. An event
/// that does not fit the state ends the stage without an assessment.
pub open spec fn llm_step(state: LlmStage, event: LlmStageEvent) -> (LlmStage, LlmAction) {
    match (state, event) {
        (LlmStage::Idle, LlmStageEvent::Start { enabled, source_available }) => if enabled
            && source_available {
            (LlmStage::AwaitingSentinel, LlmAction::RunSentinel)
        } else {
            (LlmStage::Finished, LlmAction::Finish(None))
        },
        (LlmStage::AwaitingSentinel, LlmStageEvent::SentinelReply(Ok(detected))) => if detected {
            (LlmStage::Finished, LlmAction::Finish(None))
        } else {
            (LlmStage::AwaitingAnalysis, LlmAction::RunAnalysis)
        },
        (LlmStage::AwaitingAnalysis, LlmStageEvent::AnalysisReply(Ok(x))) => (
            LlmStage::Finished,
            LlmAction::Finish(Some(x)),
        ),
        _ => (LlmStage::Finished, LlmAction::Finish(None)),
    }
}

/// One step of the LLM stage, as `llm_step` describes it.
pub fn llm_stage_step(state: LlmStage, event: LlmStageEvent) -> (r: (LlmStage, LlmAction))
    ensures
        r == llm_step(state, event),
{
    match (state, event) {
        (LlmStage::Idle, LlmStageEvent::Start { enabled, source_available }) => {
            if enabled && source_available {
                (LlmStage::AwaitingSentinel, LlmAction::RunSentinel)
            } else {
                (LlmStage::Finished, LlmAction::Finish(None))
            }
        },
        (LlmStage::AwaitingSentinel, LlmStageEvent::SentinelReply(Ok(detected))) => {
            if detected {
                (LlmStage::Finished, LlmAction::Finish(None))
            } else {
                (LlmStage::AwaitingAnalysis, LlmAction::RunAnalysis)
            }
        },
        (LlmStage::AwaitingAnalysis, LlmStageEvent::AnalysisReply(Ok(x))) => {
            (LlmStage::Finished, LlmAction::Finish(Some(x)))
        },
        _ => (LlmStage::Finished, LlmAction::Finish(None)),
    }
}

/// The injection gate: a sentinel that reports an injection ends the stage
/// without an assessment, and once the stage has ended no event makes it
/// ask for the analysis or report an assessment.
pub proof fn law_injection_blocks_analysis(event: LlmStageEvent, later: LlmStageEvent)
    ensures
        (event matches LlmStageEvent::SentinelReply(Ok(detected)) && detected) ==> llm_step(
            LlmStage::AwaitingSentinel,
            event,
        ) == (LlmStage::Finished, LlmAction::Finish(None)),
        llm_step(LlmStage::Finished, later) == (LlmStage::Finished, LlmAction::Finish(None)),
{
}

/// The assessment is asked for only in answer to a clean sentinel reply.
pub proof fn law_analysis_only_after_clean_sentinel(state: LlmStage, event: LlmStageEvent)
    ensures
        llm_step(state, event).1 is RunAnalysis <==> (state is AwaitingSentinel && event
            == LlmStageEvent::SentinelReply(Ok(false))),
{
}


/// Without a code-analysis verdict, a package with no finding is severity
/// 1 and ignored, and any package with a finding is severity 6 or more and
/// inspected; more findings never lower the severity, and severities above
/// 4, and only those, are inspected.
pub proof fn law_fallback_verdict(finding_count: int)
    requires
        finding_count >= 0,
    ensures
        finding_count == 0 ==> fallback_severity(finding_count) == 1 && recommendation_for(
            fallback_severity(finding_count),
        ) == "IGNORE"@,
        finding_count >= 1 ==> fallback_severity(finding_count) >= 6 && recommendation_for(
            fallback_severity(finding_count),
        ) == "INSPECT"@,
        finding_count > 3 ==> fallback_severity(finding_count) == 12,
        forall|c: int| finding_count <= c ==> fallback_severity(finding_count) <= #[trigger] fallback_severity(c),
        forall|s: int| #[trigger] recommendation_for(s) == "INSPECT"@ <==> s > 4,
{
    reveal_strlit("IGNORE");
    reveal_strlit("INSPECT");
    assert forall|s: int| #[trigger] recommendation_for(s) == "INSPECT"@ <==> s > 4 by {
        if s <= 4 {
            assert("IGNORE"@[1] != "INSPECT"@[1]);
        }
    }
}

} // verus!
