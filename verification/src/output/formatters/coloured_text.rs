//! Coloured terminal report formatting, with ANSI styles from owo-colors.
use vstd::prelude::*;
use owo_colors::OwoColorize;
use crate::analysis::guarddog::GuardDogFinding;
use crate::analysis::heuristics::HeuristicMatch;
use crate::analysis::llm::LlmAnalysisResult;
use crate::analysis::typosquat::TyposquatFinding;
use crate::output::{llm_flagged, AnalysisReport, Formatter};
use crate::text::{append_all, chars_eq, chars_of, decimal, decimal_chars, string_of, unicode_lowercase};

verus! {

/// Writes a report as coloured terminal text.
pub struct ColouredTextFormatter {}

/// Text in a foreground colour: the colour's code, the text, then the
/// default-foreground reset.
pub open spec fn fg(code: Seq<char>, s: Seq<char>) -> Seq<char> {
    "\x1b["@ + code + "m"@ + s + "\x1b[39m"@
}

/// Bold text, then a full reset.
pub open spec fn bold(s: Seq<char>) -> Seq<char> {
    "\x1b[1m"@ + s + "\x1b[0m"@
}

/// Dimmed text, then a full reset.
pub open spec fn dimmed(s: Seq<char>) -> Seq<char> {
    "\x1b[2m"@ + s + "\x1b[0m"@
}

/// `OwoColorize::green`, written out as the crate writes it.
#[verifier::external_body]
fn green(s: &str) -> (r: String)
    ensures
        r@ == fg("32"@, s@),
{
    s.green().to_string()
}

/// `OwoColorize::yellow`, written out as the crate writes it.
#[verifier::external_body]
fn yellow(s: &str) -> (r: String)
    ensures
        r@ == fg("33"@, s@),
{
    s.yellow().to_string()
}

/// `OwoColorize::red`, written out as the crate writes it.
#[verifier::external_body]
fn red(s: &str) -> (r: String)
    ensures
        r@ == fg("31"@, s@),
{
    s.red().to_string()
}

/// `OwoColorize::white`, written out as the crate writes it.
#[verifier::external_body]
fn white(s: &str) -> (r: String)
    ensures
        r@ == fg("37"@, s@),
{
    s.white().to_string()
}

/// `OwoColorize::bright_cyan`, written out as the crate writes it.
#[verifier::external_body]
fn bright_cyan(s: &str) -> (r: String)
    ensures
        r@ == fg("96"@, s@),
{
    s.bright_cyan().to_string()
}

/// `OwoColorize::bright_white`, written out as the crate writes it.
#[verifier::external_body]
fn bright_white(s: &str) -> (r: String)
    ensures
        r@ == fg("97"@, s@),
{
    s.bright_white().to_string()
}

/// `OwoColorize::bold`, written out as the crate writes it.
#[verifier::external_body]
fn boldened(s: &str) -> (r: String)
    ensures
        r@ == bold(s@),
{
    s.bold().to_string()
}

/// `OwoColorize::dimmed`, written out as the crate writes it.
#[verifier::external_body]
fn dim(s: &str) -> (r: String)
    ensures
        r@ == dimmed(s@),
{
    s.dimmed().to_string()
}

/// The verdict badge.
pub open spec fn badge(rec: Seq<char>) -> Seq<char> {
    if rec == "IGNORE"@ {
        bold(fg("32"@, "[ IGNORE ]"@))
    } else if rec == "INSPECT"@ {
        bold(fg("33"@, "[INSPECT]"@))
    } else {
        bold(fg("37"@, "[?????]"@))
    }
}

/// The severity dot: green up to 4, yellow up to 12, red above (and for 0).
pub open spec fn severity_dot(severity: int) -> Seq<char> {
    if 1 <= severity <= 4 {
        fg("32"@, "●"@)
    } else if 5 <= severity <= 12 {
        fg("33"@, "●"@)
    } else {
        fg("31"@, "●"@)
    }
}

/// The icon of a GuardDog finding, by its lower-cased severity.
pub open spec fn severity_icon(severity: Seq<char>) -> Seq<char> {
    let s = unicode_lowercase(severity);
    if s == "critical"@ {
        "🔴"@
    } else if s == "high"@ {
        "🟠"@
    } else if s == "medium"@ {
        "🟡"@
    } else {
        "⚠"@
    }
}

/// The heuristic lines.
pub open spec fn heuristic_lines(hs: Seq<HeuristicMatch>) -> Seq<char>
    decreases hs.len(),
{
    if hs.len() == 0 {
        Seq::empty()
    } else {
        heuristic_lines(hs.drop_last()) + heuristic_line(hs.last())
    }
}

/// The typosquat lines.
pub open spec fn typosquat_lines(ts: Seq<TyposquatFinding>) -> Seq<char>
    decreases ts.len(),
{
    if ts.len() == 0 {
        Seq::empty()
    } else {
        typosquat_lines(ts.drop_last()) + typosquat_line(ts.last())
    }
}

/// The GuardDog lines.
pub open spec fn guarddog_lines(fs: Seq<GuardDogFinding>) -> Seq<char>
    decreases fs.len(),
{
    if fs.len() == 0 {
        Seq::empty()
    } else {
        guarddog_lines(fs.drop_last()) + guarddog_line(fs.last())
    }
}

/// The coloured form of a report.
pub open spec fn coloured_report(r: AnalysisReport) -> Seq<char> {
    let count = r.heuristic_matches@.len() + r.typosquat_matches@.len() + (match r.guarddog_result {
        Some(g) => g.findings@.len() as int,
        None => 0,
    }) + if llm_flagged(r.llm_analysis) {
        1int
    } else {
        0int
    };
    "\n"@ + badge(r.recommendation@) + " "@ + bold(fg("96"@, r.package_name@)) + " "@ + severity_dot(
        r.severity as int,
    ) + " (severity: "@ + decimal(r.severity as nat) + ")\n"@ + heuristic_lines(
        r.heuristic_matches@,
    ) + typosquat_lines(r.typosquat_matches@) + (match r.guarddog_result {
        Some(g) => guarddog_lines(g.findings@),
        None => Seq::empty(),
    }) + llm_line(r.llm_analysis) + if count == 0 {
        "  "@ + fg("32"@, "No issues detected"@) + "\n"@
    } else {
        Seq::empty()
    }
}

fn push_str(out: &mut Vec<char>, s: &str)
    ensures
        final(out)@ == old(out)@ + s@,
{
    append_all(out, &chars_of(s));
}

fn icon_for(severity: &str) -> (r: &'static str)
    ensures
        r@ == severity_icon(severity@),
{
    let s = chars_of(severity.to_lowercase().as_str());
    if chars_eq(&s, &chars_of("critical")) {
        "🔴"
    } else if chars_eq(&s, &chars_of("high")) {
        "🟠"
    } else if chars_eq(&s, &chars_of("medium")) {
        "🟡"
    } else {
        "⚠"
    }
}

/// The line of one heuristic match.
pub open spec fn heuristic_line(h: HeuristicMatch) -> Seq<char> {
    "  "@ + fg("33"@, "⚠"@) + " "@ + fg("97"@, h.rule_name@) + " - "@ + dimmed(h.description@) + "\n"@
}

/// The line of one typosquat finding.
pub open spec fn typosquat_line(t: TyposquatFinding) -> Seq<char> {
    "  "@ + fg("33"@, "⚠"@) + " Typosquat of '"@ + fg("97"@, t.legit_package_name@) + "' ("@
        + dimmed(t.evidence@) + ")\n"@
}

/// The line of one GuardDog finding.
pub open spec fn guarddog_line(f: GuardDogFinding) -> Seq<char> {
    "  "@ + severity_icon(f.severity@) + " "@ + fg("97"@, f.rule_name@) + " - "@ + dimmed(
        f.description@,
    ) + "\n"@
}

fn push_heuristic(out: &mut Vec<char>, h: &HeuristicMatch)
    ensures
        final(out)@ == old(out)@ + heuristic_line(*h),
{
    let ghost start = out@;
    push_str(out, "  ");
    push_str(out, yellow("⚠").as_str());
    push_str(out, " ");
    push_str(out, bright_white(h.rule_name.as_str()).as_str());
    push_str(out, " - ");
    push_str(out, dim(h.description.as_str()).as_str());
    push_str(out, "\n");
    assert(out@ =~= start + heuristic_line(*h));
}

fn push_typosquat(out: &mut Vec<char>, t: &TyposquatFinding)
    ensures
        final(out)@ == old(out)@ + typosquat_line(*t),
{
    let ghost start = out@;
    push_str(out, "  ");
    push_str(out, yellow("⚠").as_str());
    push_str(out, " Typosquat of '");
    push_str(out, bright_white(t.legit_package_name.as_str()).as_str());
    push_str(out, "' (");
    push_str(out, dim(t.evidence.as_str()).as_str());
    push_str(out, ")\n");
    assert(out@ =~= start + typosquat_line(*t));
}

fn push_guarddog(out: &mut Vec<char>, f: &GuardDogFinding)
    ensures
        final(out)@ == old(out)@ + guarddog_line(*f),
{
    let ghost start = out@;
    push_str(out, "  ");
    push_str(out, icon_for(f.severity.as_str()));
    push_str(out, " ");
    push_str(out, bright_white(f.rule_name.as_str()).as_str());
    push_str(out, " - ");
    push_str(out, dim(f.description.as_str()).as_str());
    push_str(out, "\n");
    assert(out@ =~= start + guarddog_line(*f));
}

fn push_header(out: &mut Vec<char>, report: &AnalysisReport)
    ensures
        final(out)@ == old(out)@ + "\n"@ + badge(report.recommendation@) + " "@ + bold(
            fg("96"@, report.package_name@),
        ) + " "@ + severity_dot(report.severity as int) + " (severity: "@ + decimal(
            report.severity as nat,
        ) + ")\n"@,
{
    let ghost start = out@;
    let rec = chars_of(report.recommendation.as_str());
    let badge_text = if chars_eq(&rec, &chars_of("IGNORE")) {
        boldened(green("[ IGNORE ]").as_str())
    } else if chars_eq(&rec, &chars_of("INSPECT")) {
        boldened(yellow("[INSPECT]").as_str())
    } else {
        boldened(white("[?????]").as_str())
    };
    let sev = report.severity;
    let dot = if 1 <= sev && sev <= 4 {
        green("●")
    } else if 5 <= sev && sev <= 12 {
        yellow("●")
    } else {
        red("●")
    };
    push_str(out, "\n");
    push_str(out, badge_text.as_str());
    push_str(out, " ");
    push_str(out, boldened(bright_cyan(report.package_name.as_str()).as_str()).as_str());
    push_str(out, " ");
    push_str(out, dot.as_str());
    push_str(out, " (severity: ");
    append_all(out, &decimal_chars(sev as u64));
    push_str(out, ")\n");
    assert(out@ =~= start + "\n"@ + badge(report.recommendation@) + " "@ + bold(
        fg("96"@, report.package_name@),
    ) + " "@ + severity_dot(report.severity as int) + " (severity: "@ + decimal(
        report.severity as nat,
    ) + ")\n"@);
}

fn push_heuristic_block(out: &mut Vec<char>, hs: &Vec<HeuristicMatch>)
    ensures
        final(out)@ == old(out)@ + heuristic_lines(hs@),
{
    let ghost head = out@;
    let nh = hs.len();
    for i in 0..nh
        invariant
            nh == hs@.len(),
            out@ == head + heuristic_lines(hs@.take(i as int)),
    {
        assert(hs@.take(i + 1).drop_last() == hs@.take(i as int));
        push_heuristic(out, &hs[i]);
        assert(out@ =~= head + heuristic_lines(hs@.take(i + 1)));
    }
    assert(hs@.take(nh as int) == hs@);
}

fn push_typosquat_block(out: &mut Vec<char>, ts: &Vec<TyposquatFinding>)
    ensures
        final(out)@ == old(out)@ + typosquat_lines(ts@),
{
    let ghost head = out@;
    let nt = ts.len();
    for i in 0..nt
        invariant
            nt == ts@.len(),
            out@ == head + typosquat_lines(ts@.take(i as int)),
    {
        assert(ts@.take(i + 1).drop_last() == ts@.take(i as int));
        push_typosquat(out, &ts[i]);
        assert(out@ =~= head + typosquat_lines(ts@.take(i + 1)));
    }
    assert(ts@.take(nt as int) == ts@);
}

fn push_guarddog_block(out: &mut Vec<char>, fs: &Vec<GuardDogFinding>)
    ensures
        final(out)@ == old(out)@ + guarddog_lines(fs@),
{
    let ghost head = out@;
    let nf = fs.len();
    for i in 0..nf
        invariant
            nf == fs@.len(),
            out@ == head + guarddog_lines(fs@.take(i as int)),
    {
        assert(fs@.take(i + 1).drop_last() == fs@.take(i as int));
        push_guarddog(out, &fs[i]);
        assert(out@ =~= head + guarddog_lines(fs@.take(i + 1)));
    }
    assert(fs@.take(nf as int) == fs@);
}

/// The LLM line of a report, when the LLM flagged the package.
pub open spec fn llm_line(llm: Option<LlmAnalysisResult>) -> Seq<char> {
    match llm {
        Some(a) => if a.severity >= 6 {
            "  "@ + fg("33"@, "🤖"@) + " LLM flagged as malicious: "@ + dimmed(a.reasoning@) + "\n"@
        } else {
            Seq::empty()
        },
        None => Seq::empty(),
    }
}

fn push_llm_line(out: &mut Vec<char>, llm: &Option<LlmAnalysisResult>) -> (flagged: bool)
    ensures
        final(out)@ == old(out)@ + llm_line(*llm),
        flagged == llm_flagged(*llm),
{
    let ghost head = out@;
    if let Some(a) = llm {
        if a.is_malicious() {
            push_str(out, "  ");
            push_str(out, yellow("🤖").as_str());
            push_str(out, " LLM flagged as malicious: ");
            push_str(out, dim(a.reasoning.as_str()).as_str());
            push_str(out, "\n");
            assert(out@ =~= head + llm_line(*llm));
            return true;
        }
    }
    assert(out@ =~= head + llm_line(*llm));
    false
}

impl ColouredTextFormatter {
    /// Format a report as coloured terminal text: a one-line header with
    /// the verdict badge, name, severity dot and severity, then one compact
    /// line per finding, or a line saying nothing was found.
    pub fn format_report(&self, report: &AnalysisReport) -> (r: String)
        ensures
            r@ == coloured_report(*report),
    {
        let mut out: Vec<char> = Vec::new();
        push_header(&mut out, report);
        let ghost s1 = out@;
        push_heuristic_block(&mut out, &report.heuristic_matches);
        push_typosquat_block(&mut out, &report.typosquat_matches);
        let ghost s3 = out@;
        if let Some(g) = &report.guarddog_result {
            push_guarddog_block(&mut out, &g.findings);
        }
        let ghost s4 = out@;
        assert(s4 == s3 + match report.guarddog_result {
            Some(g) => guarddog_lines(g.findings@),
            None => Seq::empty(),
        });
        let flagged = push_llm_line(&mut out, &report.llm_analysis);
        let nh = report.heuristic_matches.len();
        let nt = report.typosquat_matches.len();
        let none_listed = nh == 0 && nt == 0 && !flagged && match &report.guarddog_result {
            Some(g) => g.findings.len() == 0,
            None => true,
        };
        let ghost s5 = out@;
        if none_listed {
            push_str(&mut out, "  ");
            push_str(&mut out, green("No issues detected").as_str());
            push_str(&mut out, "\n");
        }
        assert(out@ =~= coloured_report(*report));
        string_of(&out)
    }
}

impl Formatter for ColouredTextFormatter {
    fn format_report(&self, report: &AnalysisReport) -> (r: String)
        ensures
            r@ == coloured_report(*report),
    {
        ColouredTextFormatter::format_report(self, report)
    }
}

} // verus!
