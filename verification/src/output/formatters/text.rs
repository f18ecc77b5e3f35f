//! Plain-text report formatting.
use vstd::prelude::*;
use crate::analysis::guarddog::GuardDogFinding;
use crate::analysis::heuristics::HeuristicMatch;
use crate::analysis::typosquat::TyposquatFinding;
use crate::output::{llm_flagged, severity_band, severity_label, text_or, AnalysisReport, Formatter};
use crate::text::{append_all, chars_of, decimal, decimal_chars, string_of};

verus! {

/// Writes a report as plain text.
pub struct TextFormatter {}

/// The heuristic lines of a report.
pub open spec fn heuristic_text(hs: Seq<HeuristicMatch>) -> Seq<char>
    decreases hs.len(),
{
    if hs.len() == 0 {
        Seq::empty()
    } else {
        heuristic_text(hs.drop_last()) + "  HEURISTIC: "@ + hs.last().rule_name@ + " - "@
            + hs.last().description@ + "\n"@
    }
}

/// The typosquat lines of a report.
pub open spec fn typosquat_text(ts: Seq<TyposquatFinding>) -> Seq<char>
    decreases ts.len(),
{
    if ts.len() == 0 {
        Seq::empty()
    } else {
        typosquat_text(ts.drop_last()) + "  TYPOSQUAT: "@ + ts.last().evidence@ + "\n"@
    }
}

/// The GuardDog lines of a report.
pub open spec fn guarddog_text(fs: Seq<GuardDogFinding>) -> Seq<char>
    decreases fs.len(),
{
    if fs.len() == 0 {
        Seq::empty()
    } else {
        guarddog_text(fs.drop_last()) + "  GUARDDOG: "@ + fs.last().rule_name@ + " ["@
            + fs.last().severity@ + "] - "@ + fs.last().description@ + "\n"@
    }
}

/// The findings a plain-text report lists.
pub open spec fn listed_findings(r: AnalysisReport) -> int {
    r.heuristic_matches@.len() + r.typosquat_matches@.len() + match r.guarddog_result {
        Some(g) => g.findings@.len() as int,
        None => 0,
    } + if llm_flagged(r.llm_analysis) {
        1int
    } else {
        0int
    }
}

/// The plain-text form of a report: a header with the verdict, name,
/// version and severity band, then one line per finding, or a line saying
/// that nothing was found.
pub open spec fn text_report(r: AnalysisReport) -> Seq<char> {
    "\n["@ + r.recommendation@ + "] "@ + r.package_name@ + " "@ + text_or(r.package_version, Seq::empty())
        + " (severity: "@ + severity_band(r.severity as int) + "/"@ + decimal(r.severity as nat)
        + "):\n"@ + heuristic_text(r.heuristic_matches@) + typosquat_text(r.typosquat_matches@)
        + (match r.guarddog_result {
        Some(g) => guarddog_text(g.findings@),
        None => Seq::empty(),
    }) + (match r.llm_analysis {
        Some(a) => if a.severity >= 6 {
            "  LLM: MALICIOUS - "@ + a.reasoning@ + "\n"@
        } else {
            Seq::empty()
        },
        None => Seq::empty(),
    }) + if listed_findings(r) == 0 {
        "  No issues detected\n"@
    } else {
        Seq::empty()
    }
}

impl TextFormatter {
    /// Format a report as plain text.
    pub fn format_report(&self, report: &AnalysisReport) -> (r: String)
        ensures
            r@ == text_report(*report),
    {
        let mut out = chars_of("\n[");
        append_all(&mut out, &chars_of(report.recommendation.as_str()));
        append_all(&mut out, &chars_of("] "));
        append_all(&mut out, &chars_of(report.package_name.as_str()));
        append_all(&mut out, &chars_of(" "));
        if let Some(v) = &report.package_version {
            append_all(&mut out, &chars_of(v.as_str()));
        }
        append_all(&mut out, &chars_of(" (severity: "));
        append_all(&mut out, &chars_of(severity_label(report.severity)));
        append_all(&mut out, &chars_of("/"));
        append_all(&mut out, &decimal_chars(report.severity as u64));
        append_all(&mut out, &chars_of("):\n"));
        let ghost head = out@;
        let hs = &report.heuristic_matches;
        let nh = hs.len();
        for i in 0..nh
            invariant
                nh == hs@.len(),
                out@ == head + heuristic_text(hs@.take(i as int)),
        {
            assert(hs@.take(i + 1).drop_last() == hs@.take(i as int));
            append_all(&mut out, &chars_of("  HEURISTIC: "));
            append_all(&mut out, &chars_of(hs[i].rule_name.as_str()));
            append_all(&mut out, &chars_of(" - "));
            append_all(&mut out, &chars_of(hs[i].description.as_str()));
            append_all(&mut out, &chars_of("\n"));
            assert(out@ =~= head + heuristic_text(hs@.take(i + 1)));
        }
        assert(hs@.take(nh as int) == hs@);
        let ghost h2 = out@;
        let ts = &report.typosquat_matches;
        let nt = ts.len();
        for i in 0..nt
            invariant
                nt == ts@.len(),
                out@ == h2 + typosquat_text(ts@.take(i as int)),
        {
            assert(ts@.take(i + 1).drop_last() == ts@.take(i as int));
            append_all(&mut out, &chars_of("  TYPOSQUAT: "));
            append_all(&mut out, &chars_of(ts[i].evidence.as_str()));
            append_all(&mut out, &chars_of("\n"));
            assert(out@ =~= h2 + typosquat_text(ts@.take(i + 1)));
        }
        assert(ts@.take(nt as int) == ts@);
        let ghost h3 = out@;
        if let Some(g) = &report.guarddog_result {
            let fs = &g.findings;
            let nf = fs.len();
            for i in 0..nf
                invariant
                    nf == fs@.len(),
                    out@ == h3 + guarddog_text(fs@.take(i as int)),
            {
                assert(fs@.take(i + 1).drop_last() == fs@.take(i as int));
                append_all(&mut out, &chars_of("  GUARDDOG: "));
                append_all(&mut out, &chars_of(fs[i].rule_name.as_str()));
                append_all(&mut out, &chars_of(" ["));
                append_all(&mut out, &chars_of(fs[i].severity.as_str()));
                append_all(&mut out, &chars_of("] - "));
                append_all(&mut out, &chars_of(fs[i].description.as_str()));
                append_all(&mut out, &chars_of("\n"));
                assert(out@ =~= h3 + guarddog_text(fs@.take(i + 1)));
            }
            assert(fs@.take(nf as int) == fs@);
        }
        let ghost h4 = out@;
        let mut flagged = false;
        if let Some(a) = &report.llm_analysis {
            if a.is_malicious() {
                flagged = true;
                append_all(&mut out, &chars_of("  LLM: MALICIOUS - "));
                append_all(&mut out, &chars_of(a.reasoning.as_str()));
                append_all(&mut out, &chars_of("\n"));
            }
        }
        let none_listed = nh == 0 && nt == 0 && !flagged && match &report.guarddog_result {
            Some(g) => g.findings.len() == 0,
            None => true,
        };
        if none_listed {
            append_all(&mut out, &chars_of("  No issues detected\n"));
        }
        assert(out@ =~= text_report(*report));
        string_of(&out)
    }
}

impl Formatter for TextFormatter {
    fn format_report(&self, report: &AnalysisReport) -> (r: String)
        ensures
            r@ == text_report(*report),
    {
        TextFormatter::format_report(self, report)
    }
}

} // verus!
