//! Reports of an analysis and the ways they are written out: plain text,
//! coloured terminal text, and chat notifications.
pub mod formatters;

use vstd::prelude::*;
use crate::analysis::guarddog::GuardDogResult;
use crate::analysis::heuristics::HeuristicMatch;
use crate::analysis::llm::LlmAnalysisResult;
use crate::analysis::typosquat::TyposquatFinding;
use crate::feed::ecosystem::Ecosystem;
use crate::text::{append_all, chars_of, decimal, decimal_chars, string_of};

verus! {

/// One YARA rule that matched a file of a package.
#[derive(Debug, Clone)]
pub struct YaraMatch {
    pub rule_name: String,
    pub file: String,
    pub severity: String,
    pub description: String,
    pub risk_score: u8,
    pub strings_matched: Vec<String>,
}

/// The YARA verdict on a package.
#[derive(Debug, Clone)]
pub struct YaraScanResult {
    pub is_malicious: bool,
    pub risk_score: u8,
    pub findings: Vec<YaraMatch>,
}

/// Something that renders a report as text.
pub trait Formatter {
    fn format_report(&self, report: &AnalysisReport) -> String;
}

/// Everything the analysis found out about one package, and its verdict.
#[derive(Debug, Clone)]
pub struct AnalysisReport {
    pub package_name: String,
    pub package_version: Option<String>,
    pub timestamp: String,
    pub ecosystem: Ecosystem,
    pub sha256: String,
    pub heuristic_matches: Vec<HeuristicMatch>,
    pub typosquat_matches: Vec<TyposquatFinding>,
    pub guarddog_result: Option<GuardDogResult>,
    pub yara_result: Option<YaraScanResult>,
    pub llm_analysis: Option<LlmAnalysisResult>,
    pub severity: u8,
    pub is_malicious: bool,
    pub recommendation: String,
}

/// The band a severity (1-25) falls in.
pub open spec fn severity_band(severity: int) -> Seq<char> {
    if 1 <= severity <= 4 {
        "LOW"@
    } else if 5 <= severity <= 12 {
        "MEDIUM"@
    } else if 13 <= severity <= 19 {
        "HIGH"@
    } else {
        "CRITICAL"@
    }
}

/// The band a severity falls in, on the scale 1 = LOW, 5 = MEDIUM,
/// 13 = HIGH, 20 = CRITICAL (and CRITICAL for 0).
pub fn severity_label(severity: u8) -> (r: &'static str)
    ensures
        r@ == severity_band(severity as int),
{
    if 1 <= severity && severity <= 4 {
        "LOW"
    } else if 5 <= severity && severity <= 12 {
        "MEDIUM"
    } else if 13 <= severity && severity <= 19 {
        "HIGH"
    } else {
        "CRITICAL"
    }
}

/// The LLM flagged the package: its severity reaches the threshold.
pub open spec fn llm_flagged(llm: Option<LlmAnalysisResult>) -> bool {
    match llm {
        Some(a) => a.severity >= 6,
        None => false,
    }
}

/// The optional text, or `default` when absent.
pub open spec fn text_or(v: Option<String>, default: Seq<char>) -> Seq<char> {
    match v {
        Some(s) => s@,
        None => default,
    }
}

/// The lines of a chat notification, in order.
pub open spec fn notification_lines(r: AnalysisReport) -> Seq<Seq<char>> {
    let header = "[CLU] "@ + r.recommendation@ + " — "@ + r.package_name@ + " "@ + text_or(
        r.package_version,
        "unknown"@,
    ) + " (severity: "@ + severity_band(r.severity as int) + "/"@ + decimal(r.severity as nat)
        + ")"@;
    let hs = Seq::new(
        r.heuristic_matches@.len(),
        |i: int| "  heuristic: "@ + r.heuristic_matches@[i].rule_name@ + " — "@ + r.heuristic_matches@[i].description@,
    );
    let ts = Seq::new(
        r.typosquat_matches@.len(),
        |i: int| "  typosquat: "@ + r.typosquat_matches@[i].evidence@,
    );
    let ys = match r.yara_result {
        Some(y) => Seq::new(
            y.findings@.len(),
            |i: int| "  yara: "@ + y.findings@[i].rule_name@ + " ["@ + y.findings@[i].severity@ + "] — "@
                + y.findings@[i].description@,
        ),
        None => Seq::empty(),
    };
    let ls = match r.llm_analysis {
        Some(a) => if a.severity >= 6 {
            seq![
                "  llm: MALICIOUS"@ + (if a.conflicted {
                    " [CONFLICTED]"@
                } else {
                    Seq::empty()
                }) + " — "@ + a.reasoning@,
            ]
        } else {
            Seq::empty()
        },
        None => Seq::empty(),
    };
    seq![header] + hs + ts + ys + ls
}

/// Lines joined by newlines.
pub open spec fn join_lines(lines: Seq<Seq<char>>) -> Seq<char>
    decreases lines.len(),
{
    if lines.len() == 0 {
        Seq::empty()
    } else if lines.len() == 1 {
        lines[0]
    } else {
        join_lines(lines.drop_last()) + "\n"@ + lines.last()
    }
}

/// Lines gathered for a notification.
struct LineBuffer {
    text: Vec<char>,
    lines: Ghost<Seq<Seq<char>>>,
}

impl LineBuffer {
    spec fn valid(&self) -> bool {
        self.lines@.len() > 0 && self.text@ == join_lines(self.lines@)
    }

    fn add(&mut self, line: &[char])
        requires
            old(self).valid(),
        ensures
            final(self).valid(),
            final(self).lines@ == old(self).lines@.push(line@),
    {
        let ghost before = self.lines@;
        append_all(&mut self.text, &chars_of("\n"));
        append_all(&mut self.text, line);
        proof {
            self.lines@ = before.push(line@);
        }
        assert(self.lines@.drop_last() == before);
    }
}

/// The notification text for a report: a header line with the verdict and
/// severity, one line per finding, and a line for a malicious LLM verdict.
pub fn format_notification(report: &AnalysisReport) -> (r: String)
    ensures
        r@ == join_lines(notification_lines(*report)),
        forall|i: int| 0 <= i < report.typosquat_matches@.len() ==> holds_line(r@, "  typosquat: "@
            + #[trigger] report.typosquat_matches@[i].evidence@),
{
    let mut header = chars_of("[CLU] ");
    append_all(&mut header, &chars_of(report.recommendation.as_str()));
    append_all(&mut header, &chars_of(" — "));
    append_all(&mut header, &chars_of(report.package_name.as_str()));
    append_all(&mut header, &chars_of(" "));
    match &report.package_version {
        Some(v) => append_all(&mut header, &chars_of(v.as_str())),
        None => append_all(&mut header, &chars_of("unknown")),
    }
    append_all(&mut header, &chars_of(" (severity: "));
    append_all(&mut header, &chars_of(severity_label(report.severity)));
    append_all(&mut header, &chars_of("/"));
    append_all(&mut header, &decimal_chars(report.severity as u64));
    append_all(&mut header, &chars_of(")"));
    let ghost all = notification_lines(*report);
    assert(header@ == all[0]);
    let first: Ghost<Seq<Seq<char>>> = Ghost(Seq::empty().push(header@));
    let mut buf = LineBuffer { text: header, lines: first };
    assert(buf.text@ == join_lines(buf.lines@));
    assert(all.take(1) =~= seq![all[0]]);
    let nh = report.heuristic_matches.len();
    for i in 0..nh
        invariant
            nh == report.heuristic_matches@.len(),
            all == notification_lines(*report),
            buf.valid(),
            buf.lines@ == all.take(1 + i),
    {
        let h = &report.heuristic_matches[i];
        let mut l = chars_of("  heuristic: ");
        append_all(&mut l, &chars_of(h.rule_name.as_str()));
        append_all(&mut l, &chars_of(" — "));
        append_all(&mut l, &chars_of(h.description.as_str()));
        assert(l@ == all[1 + i]);
        buf.add(&l);
        assert(all.take(1 + i + 1) == all.take(1 + i).push(all[1 + i]));
    }
    let nt = report.typosquat_matches.len();
    for i in 0..nt
        invariant
            nt == report.typosquat_matches@.len(),
            nh == report.heuristic_matches@.len(),
            all == notification_lines(*report),
            buf.valid(),
            buf.lines@ == all.take(1 + nh + i),
    {
        let t = &report.typosquat_matches[i];
        let mut l = chars_of("  typosquat: ");
        append_all(&mut l, &chars_of(t.evidence.as_str()));
        assert(l@ == all[1 + nh + i]);
        buf.add(&l);
        assert(all.take(1 + nh + i + 1) == all.take(1 + nh + i).push(all[1 + nh + i]));
    }
    let ny: usize = match &report.yara_result {
        Some(y) => {
            let n = y.findings.len();
            for i in 0..n
                invariant
                    n == y.findings@.len(),
                    nt == report.typosquat_matches@.len(),
                    nh == report.heuristic_matches@.len(),
                    report.yara_result == Some(*y),
                    all == notification_lines(*report),
                    buf.valid(),
                    buf.lines@ == all.take(1 + nh + nt + i),
            {
                let f = &y.findings[i];
                let mut l = chars_of("  yara: ");
                append_all(&mut l, &chars_of(f.rule_name.as_str()));
                append_all(&mut l, &chars_of(" ["));
                append_all(&mut l, &chars_of(f.severity.as_str()));
                append_all(&mut l, &chars_of("] — "));
                append_all(&mut l, &chars_of(f.description.as_str()));
                assert(l@ == all[1 + nh + nt + i]);
                buf.add(&l);
                assert(all.take(1 + nh + nt + i + 1) == all.take(1 + nh + nt + i).push(
                    all[1 + nh + nt + i],
                ));
            }
            n
        },
        None => 0,
    };
    if let Some(a) = &report.llm_analysis {
        if a.is_malicious() {
            let mut l = chars_of("  llm: MALICIOUS");
            if a.conflicted {
                append_all(&mut l, &chars_of(" [CONFLICTED]"));
            }
            append_all(&mut l, &chars_of(" — "));
            append_all(&mut l, &chars_of(a.reasoning.as_str()));
            assert(l@ == all[1 + nh + nt + ny]);
            buf.add(&l);
        }
    }
    assert(buf.lines@ =~= all);
    proof {
        law_notification_lists_every_finding(*report);
    }
    string_of(&buf.text)
}


/// Whether a report goes out to a notification channel (or into
/// quarantine): the channel is enabled and the report's severity reaches
/// its minimum.
pub fn meets_threshold(enabled: bool, severity: u8, min_severity: u8) -> (r: bool)
    ensures
        r == (enabled && severity >= min_severity),
{
    enabled && severity >= min_severity
}


/// `line` stands in `text` right after a newline.
pub open spec fn holds_line(text: Seq<char>, line: Seq<char>) -> bool {
    exists|p: int|
        0 <= p && p + 1 + line.len() <= text.len() && #[trigger] text.subrange(p, p + 1 + line.len()) == "\n"@
            + line
}

/// Every line after the first of a joined text stands in it right after a
/// newline.
proof fn lemma_join_holds_line(lines: Seq<Seq<char>>, k: int)
    requires
        1 <= k < lines.len(),
    ensures
        holds_line(join_lines(lines), lines[k]),
    decreases lines.len(),
{
    reveal_strlit("\n");
    let init = lines.drop_last();
    let pre = join_lines(init);
    let t = join_lines(lines);
    assert(lines.len() >= 2);
    assert(t == pre + "\n"@ + lines.last());
    if k == lines.len() - 1 {
        let p = pre.len() as int;
        assert(t.subrange(p, p + 1 + lines[k].len()) =~= "\n"@ + lines[k]);
    } else {
        lemma_join_holds_line(init, k);
        assert(init[k] == lines[k]);
        let p = choose|p: int|
            0 <= p && p + 1 + init[k].len() <= pre.len() && #[trigger] pre.subrange(p, p + 1 + init[k].len())
                == "\n"@ + init[k];
        assert(t.subrange(p, p + 1 + lines[k].len()) =~= pre.subrange(p, p + 1 + lines[k].len()));
    }
}

/// A notification lists every finding of the report, one line each, in
/// order after the header: each heuristic match, then each typosquat match
/// as `  typosquat: <evidence>`, then each YARA match, then one line for a
/// malicious code-analysis verdict; and each typosquat line stands in the
/// notification text on a line of its own.
pub proof fn law_notification_lists_every_finding(r: AnalysisReport)
    ensures
        ({
            let ls = notification_lines(r);
            let nh = r.heuristic_matches@.len() as int;
            let nt = r.typosquat_matches@.len() as int;
            let ny = match r.yara_result {
                Some(y) => y.findings@.len() as int,
                None => 0,
            };
            let nl: int = match r.llm_analysis {
                Some(a) => if a.severity >= 6 { 1 } else { 0 },
                None => 0,
            };
            &&& ls.len() == 1 + nh + nt + ny + nl
            &&& forall|i: int| 0 <= i < nh ==> #[trigger] ls[1 + i] == "  heuristic: "@
                + r.heuristic_matches@[i].rule_name@ + " — "@ + r.heuristic_matches@[i].description@
            &&& forall|i: int| 0 <= i < nt ==> #[trigger] ls[1 + nh + i] == "  typosquat: "@
                + r.typosquat_matches@[i].evidence@
            &&& forall|i: int| 0 <= i < nt ==> holds_line(join_lines(ls), "  typosquat: "@
                + #[trigger] r.typosquat_matches@[i].evidence@)
            &&& (r.yara_result matches Some(y) ==> forall|i: int| 0 <= i < ny ==> #[trigger] ls[1 + nh + nt + i]
                == "  yara: "@ + y.findings@[i].rule_name@ + " ["@ + y.findings@[i].severity@ + "] — "@
                + y.findings@[i].description@)
        }),
{
    let ls = notification_lines(r);
    let nh = r.heuristic_matches@.len() as int;
    let nt = r.typosquat_matches@.len() as int;
    let hs = Seq::new(
        r.heuristic_matches@.len(),
        |i: int| "  heuristic: "@ + r.heuristic_matches@[i].rule_name@ + " — "@ + r.heuristic_matches@[i].description@,
    );
    let ts = Seq::new(
        r.typosquat_matches@.len(),
        |i: int| "  typosquat: "@ + r.typosquat_matches@[i].evidence@,
    );
    let ys = match r.yara_result {
        Some(y) => Seq::new(
            y.findings@.len(),
            |i: int| "  yara: "@ + y.findings@[i].rule_name@ + " ["@ + y.findings@[i].severity@ + "] — "@
                + y.findings@[i].description@,
        ),
        None => Seq::empty(),
    };
    let head = ls.take(1);
    let lq = ls.skip((1 + nh + nt + ys.len()) as int);
    assert(ls == head + hs + ts + ys + lq);
    assert forall|i: int| 0 <= i < nh implies #[trigger] ls[1 + i] == hs[i] by {
        assert((head + hs + ts + ys + lq)[1 + i] == hs[i]);
    }
    assert forall|i: int| 0 <= i < nt implies #[trigger] ls[1 + nh + i] == ts[i] by {
        assert((head + hs + ts + ys + lq)[1 + nh + i] == ts[i]);
    }
    assert forall|i: int| 0 <= i < ys.len() implies #[trigger] ls[1 + nh + nt + i] == ys[i] by {
        assert((head + hs + ts + ys + lq)[1 + nh + nt + i] == ys[i]);
    }
    assert forall|i: int| 0 <= i < nt implies holds_line(join_lines(ls), "  typosquat: "@
        + #[trigger] r.typosquat_matches@[i].evidence@) by {
        lemma_join_holds_line(ls, 1 + nh + i);
        assert(ls[1 + nh + i] == "  typosquat: "@ + r.typosquat_matches@[i].evidence@);
    }
}

} // verus!
