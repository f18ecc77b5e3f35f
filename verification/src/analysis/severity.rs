use vstd::prelude::*;

verus! {

/// Sum of three risk contributions, saturating at `u32::MAX`.
pub open spec fn saturated_risk_sum(a: u32, b: u32, c: u32) -> int {
    let ab: int = if a + b > u32::MAX { u32::MAX as int } else { a + b };
    if ab + c > u32::MAX { u32::MAX as int } else { ab + c }
}

/// Severity on the 1-25 scale for a combined static risk.
pub open spec fn static_severity_of(risk: int) -> int {
    if risk == 0 {
        1
    } else if risk / 10 < 1 {
        1
    } else if risk / 10 > 25 {
        25
    } else {
        risk / 10
    }
}

/// Compute a risk-score-weighted severity from static analysis findings.
///
/// The three risk contributions are added with saturation; the sum divided by
/// ten and clamped to 1..=25 is the severity, and the package counts as
/// malicious when the sum reaches 70.
pub fn compute_static_severity(heuristic_risk: u32, typosquat_risk: u32, yara_risk: u32) -> (res: (
    u8,
    bool,
    u32,
))
    ensures
        res.2 == saturated_risk_sum(heuristic_risk, typosquat_risk, yara_risk),
        res.0 == static_severity_of(res.2 as int),
        res.1 == (res.2 >= 70),
        1 <= res.0 <= 25,
{
    let static_risk = heuristic_risk.saturating_add(typosquat_risk).saturating_add(yara_risk);
    let severity: u8 = if static_risk == 0 {
        1u8
    } else {
        let tenth = static_risk / 10;
        if tenth < 1 {
            1u8
        } else if tenth > 25 {
            25u8
        } else {
            tenth as u8
        }
    };
    let is_malicious = static_risk >= 70;
    (severity, is_malicious, static_risk)
}

} // verus!
