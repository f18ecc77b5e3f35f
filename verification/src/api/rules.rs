//! YARA rule endpoint bodies.
use vstd::prelude::*;
use crate::analysis::yara::YaraRuleInfo;

verus! {

/// A rule as the API shows it.
#[derive(Debug)]
pub struct YaraRuleResponse {
    pub name: String,
    pub severity: String,
    pub description: String,
    pub ecosystem: String,
    pub risk_score: u8,
    pub enabled: bool,
    pub source: String,
}

impl YaraRuleResponse {
    /// The rule's public fields.
    pub fn from_info(info: YaraRuleInfo) -> (r: YaraRuleResponse)
        ensures
            r.name == info.name,
            r.severity == info.severity,
            r.description == info.description,
            r.ecosystem == info.ecosystem,
            r.risk_score == info.risk_score,
            r.enabled == info.enabled,
            r.source == info.source,
    {
        YaraRuleResponse {
            name: info.name,
            severity: info.severity,
            description: info.description,
            ecosystem: info.ecosystem,
            risk_score: info.risk_score,
            enabled: info.enabled,
            source: info.source,
        }
    }
}

/// All rules and their number.
#[derive(Debug)]
pub struct YaraRulesListResponse {
    pub rules: Vec<YaraRuleResponse>,
    pub total: usize,
}

/// The rules listing: every rule, with the count.
pub fn rules_list(infos: Vec<YaraRuleInfo>) -> (r: YaraRulesListResponse)
    ensures
        r.total == infos@.len(),
        r.rules@.len() == infos@.len(),
        forall|i: int| 0 <= i < infos@.len() ==> (#[trigger] r.rules@[i]).name == infos@[i].name,
{
    let n = infos.len();
    let mut rules: Vec<YaraRuleResponse> = Vec::new();
    let mut infos = infos;
    let ghost orig = infos@;
    let mut k: usize = 0;
    while k < n
        invariant
            n == orig.len(),
            infos@.len() == n - k,
            forall|j: int| 0 <= j < infos@.len() ==> infos@[j] == orig[k + j],
            rules@.len() == k,
            forall|i: int| 0 <= i < k ==> (#[trigger] rules@[i]).name == orig[i].name,
        decreases n - k,
    {
        let info = infos.remove(0);
        rules.push(YaraRuleResponse::from_info(info));
        k = k + 1;
    }
    YaraRulesListResponse { rules, total: n }
}

/// A custom rule to create.
#[derive(Debug)]
pub struct CreateRuleRequest {
    pub name: String,
    pub content: String,
}

/// Turn a rule on or off.
#[derive(Debug)]
pub struct SetEnabledRequest {
    pub enabled: bool,
}

/// A rule to try on sample data.
#[derive(Debug)]
pub struct TestRuleRequest {
    pub content: String,
    pub test_data: String,
}

/// The rules that matched the sample data.
#[derive(Debug)]
pub struct TestRuleResponse {
    pub matched_rules: Vec<String>,
}

} // verus!
