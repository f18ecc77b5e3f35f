//! The configuration file that `clu init` writes from the answers it
//! collected.
use vstd::prelude::*;
use crate::text::{append_all, chars_of, decimal, decimal_chars, lemma_decimal_digits, string_of, string_views};

verus! {

/// The answers collected for a new configuration file.
pub struct ConfigValues {
    pub feed_endpoint: String,
    pub popular_packages_endpoint: String,
    pub poll_interval: String,
    pub check_updates: bool,
    pub llm_endpoint: String,
    pub llm_model: String,
    pub llm_request_timeout: u64,
    pub pip_cache_dir: String,
    pub typosquat_threshold: usize,
    pub min_package_length: usize,
    pub webhook: Option<String>,
    pub log_level: String,
    pub enable_tui: bool,
    pub heuristics_enabled: bool,
    pub typosquat_enabled: bool,
    pub guarddog_enabled: bool,
    pub llm_enabled: bool,
    pub quarantine_enabled: bool,
    pub quarantine_dir: String,
    pub quarantine_min_severity: u8,
    pub quarantine_max_age_days: u64,
    pub quarantine_max_disk_mb: u64,
    pub quarantine_retain_metadata: bool,
    pub notifications_enabled: bool,
    pub discord_webhook: Option<String>,
    pub slack_webhook: Option<String>,
    pub generic_webhook: Option<String>,
    pub notifications_min_severity: u8,
    pub notifications_timeout_secs: u64,
}

/// `true` or `false`, as TOML writes a flag.
pub open spec fn bool_text(b: bool) -> Seq<char> {
    if b {
        "true"@
    } else {
        "false"@
    }
}

fn bool_str(b: bool) -> (r: String)
    ensures
        r@ == bool_text(b),
{
    if b {
        "true".to_owned()
    } else {
        "false".to_owned()
    }
}

/// The line of an optional URL setting: `key = "url"`, or the commented
/// example when no URL was given.
pub open spec fn url_line(key: Seq<char>, url: Option<String>, example: Seq<char>) -> Seq<char> {
    match url {
        Some(u) => key + " = \""@ + u@ + "\""@,
        None => example,
    }
}

fn url_line_of(key: &str, url: &Option<String>, example: &str) -> (r: String)
    ensures
        r@ == url_line(key@, *url, example@),
{
    match url {
        Some(u) => {
            let mut out = chars_of(key);
            append_all(&mut out, &chars_of(" = \""));
            append_all(&mut out, &chars_of(u.as_str()));
            append_all(&mut out, &chars_of("\""));
            string_of(&out)
        },
        None => example.to_owned(),
    }
}

/// The fixed text of the configuration file, around its values.
pub open spec fn toml_template() -> Seq<&'static str> {
    seq![
        "# CLU Configuration File\n# Generated by: clu init\n# Docs: https://github.com/akses/clu\n\n[feed]\n# PyPI RSS feed endpoint for monitoring new packages\nendpoint = \"",
        "\"\n\n# Endpoint for fetching popular packages list (used for typosquatting detection)\npopular_packages_endpoint = \"",
        "\"\n\n# How often to poll the feed (supports: s=seconds, m=minutes, h=hours)\npoll_interval = \"",
        "\"\n\n# Whether to also monitor package updates (not just new packages)\ncheck_updates = ",
        "\n\n[llm]\n# LLM endpoint for advanced code analysis (e.g., Ollama, OpenAI-compatible API)\nendpoint = \"",
        "\"\n\n# Model name to use for analysis\nmodel = \"",
        "\"\n\n# Request timeout in seconds for LLM requests (default: 30)\nrequest_timeout = ",
        "\n\n[cache]\n# Directory for caching pip packages (used by GuardDog and LLM)\n# Allows reusing packages across analysis stages to avoid redundant downloads\npip_cache_dir = \"",
        "\"\n\n[analysis]\n# Maximum Levenshtein distance for typosquatting detection\n# 1 = very strict, 2 = moderate (recommended), 3+ = lenient\ntyposquat_distance_threshold = ",
        "\n\n# Minimum package name length to check for typosquatting\n# Shorter names tend to have more false positives\nmin_package_length = ",
        "\n\n[output]\n# Webhook URL for sending alerts (optional)\n",
        "\n\n# Log level: debug, info, warn, error\nlog_level = \"",
        "\"\n\n# Enable terminal UI for live monitoring\nenable_tui = ",
        "\n\n[pipeline]\n# Enable heuristic-based metadata analysis (fast, low false positives)\nheuristics = ",
        "\n\n# Enable typosquat detection based on Levenshtein distance\ntyposquat = ",
        "\n\n# Enable GuardDog pattern-based code analysis (requires download)\nguarddog = ",
        "\n\n# Enable LLM semantic code analysis (requires download, slower)\nllm = ",
        "\n\n[quarantine]\n# Enable package quarantine for suspicious packages\nenabled = ",
        "\n\n# Directory where quarantined packages are saved\ndirectory = \"",
        "\"\n\n# Minimum severity to quarantine a package (1=LOW, 5=MEDIUM, 13=HIGH, 20=CRITICAL)\nmin_severity = ",
        "\n\n# Maximum age in days before auto-deleting quarantined packages\nmax_age_days = ",
        "\n\n# Maximum disk usage in MB (evicts oldest when exceeded)\nmax_disk_mb = ",
        "\n\n# Save analysis report (report.json) alongside quarantined archive\nretain_metadata = ",
        "\n\n[notifications]\n# Enable notification webhooks (Discord, Slack, generic)\nenabled = ",
        "\n\n# Discord webhook URL for alerts\n",
        "\n\n# Slack webhook URL for alerts\n",
        "\n\n# Generic webhook URL for alerts\n",
        "\n\n# Minimum severity to trigger notifications (1=LOW, 5=MEDIUM, 13=HIGH, 20=CRITICAL)\nmin_severity = ",
        "\n\n# Request timeout in seconds for webhook calls\ntimeout_secs = ",
        "\n",
    ]
}

/// The values written into the template, in order.
pub open spec fn toml_values(c: ConfigValues) -> Seq<Seq<char>> {
    seq![
        c.feed_endpoint@,
        c.popular_packages_endpoint@,
        c.poll_interval@,
        bool_text(c.check_updates),
        c.llm_endpoint@,
        c.llm_model@,
        decimal(c.llm_request_timeout as nat),
        c.pip_cache_dir@,
        decimal(c.typosquat_threshold as nat),
        decimal(c.min_package_length as nat),
        url_line("webhook"@, c.webhook, "# webhook = \"https://your-webhook-url.com\""@),
        c.log_level@,
        bool_text(c.enable_tui),
        bool_text(c.heuristics_enabled),
        bool_text(c.typosquat_enabled),
        bool_text(c.guarddog_enabled),
        bool_text(c.llm_enabled),
        bool_text(c.quarantine_enabled),
        c.quarantine_dir@,
        decimal(c.quarantine_min_severity as nat),
        decimal(c.quarantine_max_age_days as nat),
        decimal(c.quarantine_max_disk_mb as nat),
        bool_text(c.quarantine_retain_metadata),
        bool_text(c.notifications_enabled),
        url_line("discord_webhook"@, c.discord_webhook, "# discord_webhook = \"https://discord.com/api/webhooks/...\""@),
        url_line("slack_webhook"@, c.slack_webhook, "# slack_webhook = \"https://hooks.slack.com/services/...\""@),
        url_line("generic_webhook"@, c.generic_webhook, "# generic_webhook = \"https://example.com/webhook\""@),
        decimal(c.notifications_min_severity as nat),
        decimal(c.notifications_timeout_secs as nat),
    ]
}

/// The template's pieces with the values between them.
pub open spec fn fill(pieces: Seq<&'static str>, values: Seq<Seq<char>>) -> Seq<char>
    decreases values.len(),
{
    if values.len() == 0 {
        if pieces.len() > 0 {
            pieces[0]@
        } else {
            Seq::empty()
        }
    } else {
        fill(pieces.drop_last(), values.drop_last()) + values.last() + pieces.last()@
    }
}

/// The values of the collected answers, as written into the template.
#[verifier::rlimit(100)]
fn toml_value_list(c: &ConfigValues) -> (r: Vec<String>)
    ensures
        string_views(r@) == toml_values(*c),
{
    let mut values: Vec<String> = Vec::new();
    values.push(c.feed_endpoint.clone());
    values.push(c.popular_packages_endpoint.clone());
    values.push(c.poll_interval.clone());
    values.push(bool_str(c.check_updates));
    values.push(c.llm_endpoint.clone());
    values.push(c.llm_model.clone());
    values.push(string_of(&decimal_chars(c.llm_request_timeout as u64)));
    values.push(c.pip_cache_dir.clone());
    values.push(string_of(&decimal_chars(c.typosquat_threshold as u64)));
    values.push(string_of(&decimal_chars(c.min_package_length as u64)));
    values.push(url_line_of("webhook", &c.webhook, "# webhook = \"https://your-webhook-url.com\""));
    values.push(c.log_level.clone());
    values.push(bool_str(c.enable_tui));
    values.push(bool_str(c.heuristics_enabled));
    values.push(bool_str(c.typosquat_enabled));
    values.push(bool_str(c.guarddog_enabled));
    values.push(bool_str(c.llm_enabled));
    values.push(bool_str(c.quarantine_enabled));
    values.push(c.quarantine_dir.clone());
    values.push(string_of(&decimal_chars(c.quarantine_min_severity as u64)));
    values.push(string_of(&decimal_chars(c.quarantine_max_age_days as u64)));
    values.push(string_of(&decimal_chars(c.quarantine_max_disk_mb as u64)));
    values.push(bool_str(c.quarantine_retain_metadata));
    values.push(bool_str(c.notifications_enabled));
    values.push(url_line_of("discord_webhook", &c.discord_webhook, "# discord_webhook = \"https://discord.com/api/webhooks/...\""));
    values.push(url_line_of("slack_webhook", &c.slack_webhook, "# slack_webhook = \"https://hooks.slack.com/services/...\""));
    values.push(url_line_of("generic_webhook", &c.generic_webhook, "# generic_webhook = \"https://example.com/webhook\""));
    values.push(string_of(&decimal_chars(c.notifications_min_severity as u64)));
    values.push(string_of(&decimal_chars(c.notifications_timeout_secs as u64)));
    assert(string_views(values@) =~= toml_values(*c));
    values
}

/// The configuration file for the collected answers.
pub fn generate_toml(c: &ConfigValues) -> (r: String)
    ensures
        r@ == fill(toml_template(), toml_values(*c)),
{
    let template: [&'static str; 30] = [
        "# CLU Configuration File\n# Generated by: clu init\n# Docs: https://github.com/akses/clu\n\n[feed]\n# PyPI RSS feed endpoint for monitoring new packages\nendpoint = \"",
        "\"\n\n# Endpoint for fetching popular packages list (used for typosquatting detection)\npopular_packages_endpoint = \"",
        "\"\n\n# How often to poll the feed (supports: s=seconds, m=minutes, h=hours)\npoll_interval = \"",
        "\"\n\n# Whether to also monitor package updates (not just new packages)\ncheck_updates = ",
        "\n\n[llm]\n# LLM endpoint for advanced code analysis (e.g., Ollama, OpenAI-compatible API)\nendpoint = \"",
        "\"\n\n# Model name to use for analysis\nmodel = \"",
        "\"\n\n# Request timeout in seconds for LLM requests (default: 30)\nrequest_timeout = ",
        "\n\n[cache]\n# Directory for caching pip packages (used by GuardDog and LLM)\n# Allows reusing packages across analysis stages to avoid redundant downloads\npip_cache_dir = \"",
        "\"\n\n[analysis]\n# Maximum Levenshtein distance for typosquatting detection\n# 1 = very strict, 2 = moderate (recommended), 3+ = lenient\ntyposquat_distance_threshold = ",
        "\n\n# Minimum package name length to check for typosquatting\n# Shorter names tend to have more false positives\nmin_package_length = ",
        "\n\n[output]\n# Webhook URL for sending alerts (optional)\n",
        "\n\n# Log level: debug, info, warn, error\nlog_level = \"",
        "\"\n\n# Enable terminal UI for live monitoring\nenable_tui = ",
        "\n\n[pipeline]\n# Enable heuristic-based metadata analysis (fast, low false positives)\nheuristics = ",
        "\n\n# Enable typosquat detection based on Levenshtein distance\ntyposquat = ",
        "\n\n# Enable GuardDog pattern-based code analysis (requires download)\nguarddog = ",
        "\n\n# Enable LLM semantic code analysis (requires download, slower)\nllm = ",
        "\n\n[quarantine]\n# Enable package quarantine for suspicious packages\nenabled = ",
        "\n\n# Directory where quarantined packages are saved\ndirectory = \"",
        "\"\n\n# Minimum severity to quarantine a package (1=LOW, 5=MEDIUM, 13=HIGH, 20=CRITICAL)\nmin_severity = ",
        "\n\n# Maximum age in days before auto-deleting quarantined packages\nmax_age_days = ",
        "\n\n# Maximum disk usage in MB (evicts oldest when exceeded)\nmax_disk_mb = ",
        "\n\n# Save analysis report (report.json) alongside quarantined archive\nretain_metadata = ",
        "\n\n[notifications]\n# Enable notification webhooks (Discord, Slack, generic)\nenabled = ",
        "\n\n# Discord webhook URL for alerts\n",
        "\n\n# Slack webhook URL for alerts\n",
        "\n\n# Generic webhook URL for alerts\n",
        "\n\n# Minimum severity to trigger notifications (1=LOW, 5=MEDIUM, 13=HIGH, 20=CRITICAL)\nmin_severity = ",
        "\n\n# Request timeout in seconds for webhook calls\ntimeout_secs = ",
        "\n",
    ];
    assert(template@ =~= toml_template());
    let values = toml_value_list(c);
    assert(string_views(values@).len() == values@.len());
    assert(toml_values(*c).len() == 29);
    let ghost vs = string_views(values@);
    let mut out = chars_of(template[0]);
    let ghost ps = toml_template();
    assert(ps.take(1).drop_last().len() == 0);
    for i in 0..29
        invariant
            values@.len() == 29,
            vs == string_views(values@),
            ps == toml_template(),
            template@ == ps,
            out@ == fill(ps.take(i + 1), vs.take(i as int)),
    {
        append_all(&mut out, &chars_of(values[i].as_str()));
        append_all(&mut out, &chars_of(template[i + 1]));
        assert(ps.take(i + 2).drop_last() == ps.take(i + 1));
        assert(vs.take(i + 1).drop_last() == vs.take(i as int));
        assert(out@ =~= fill(ps.take(i + 2), vs.take(i + 1)));
    }
    assert(ps.take(30) == ps);
    assert(vs.take(29) == vs);
    string_of(&out)
}

/// `line` stands on a line of its own somewhere in `text`.
pub open spec fn has_line(text: Seq<char>, line: Seq<char>) -> bool {
    exists|i: int|
        0 <= i && i + line.len() + 2 <= text.len() && #[trigger] text.subrange(i, i + line.len() + 2)
            == seq!['\n'] + line + seq!['\n']
}

/// Filling the first `k + 1` values puts the filled first `k` before the
/// `k`-th value and the piece after it, and is the start of the whole.
proof fn lemma_fill_prefix(p: Seq<&'static str>, v: Seq<Seq<char>>, k: int)
    requires
        0 <= k < v.len(),
        p.len() == v.len() + 1,
    ensures
        fill(p.take(k + 2), v.take(k + 1)) == fill(p.take(k + 1), v.take(k)) + v[k] + p[k + 1]@,
        fill(p, v).take(fill(p.take(k + 2), v.take(k + 1)).len() as int) == fill(p.take(k + 2), v.take(k + 1)),
        fill(p.take(k + 2), v.take(k + 1)).len() <= fill(p, v).len(),
    decreases v.len(),
{
    assert(p.take(k + 2).drop_last() =~= p.take(k + 1));
    assert(v.take(k + 1).drop_last() =~= v.take(k));
    let a = fill(p.take(k + 2), v.take(k + 1));
    if k + 1 == v.len() {
        assert(p.take(k + 2) =~= p);
        assert(v.take(k + 1) =~= v);
        assert(fill(p, v).take(a.len() as int) =~= a);
    } else {
        lemma_fill_prefix(p.drop_last(), v.drop_last(), k);
        assert(p.drop_last().take(k + 2) =~= p.take(k + 2));
        assert(v.drop_last().take(k + 1) =~= v.take(k + 1));
        let b = fill(p.drop_last(), v.drop_last());
        assert(fill(p, v) == b + v.last() + p.last()@);
        assert(fill(p, v).take(a.len() as int) =~= b.take(a.len() as int));
    }
}

/// The filled first `k` values end with the piece before the `k`-th value.
proof fn lemma_fill_ends(p: Seq<&'static str>, v: Seq<Seq<char>>, k: int)
    requires
        0 <= k < v.len(),
        p.len() == v.len() + 1,
        p[k]@.len() > 0,
    ensures
        fill(p.take(k + 1), v.take(k)).len() > 0,
        fill(p.take(k + 1), v.take(k)).last() == p[k]@.last(),
{
    if k > 0 {
        assert(p.take(k + 1).drop_last() =~= p.take(k));
        assert(v.take(k).drop_last() =~= v.take(k - 1));
        assert(p.take(k + 1).last() == p[k]);
    } else {
        assert(p.take(1)[0] == p[0]);
    }
}

/// A value written between a piece that ends a line and one that starts
/// a line stands on a line of its own.
proof fn lemma_value_line(p: Seq<&'static str>, v: Seq<Seq<char>>, k: int)
    requires
        0 <= k < v.len(),
        p.len() == v.len() + 1,
        p[k]@.len() > 0,
        p[k]@.last() == '\n',
        p[k + 1]@.len() > 0,
        p[k + 1]@[0] == '\n',
    ensures
        has_line(fill(p, v), v[k]),
{
    lemma_fill_prefix(p, v, k);
    lemma_fill_ends(p, v, k);
    let pre = fill(p.take(k + 1), v.take(k));
    let a = fill(p.take(k + 2), v.take(k + 1));
    let t = fill(p, v);
    let i = pre.len() - 1;
    let line = v[k];
    assert(a == pre + line + p[k + 1]@);
    assert(t.subrange(i, i + line.len() + 2) =~= seq!['\n'] + line + seq!['\n']) by {
        assert forall|j: int| 0 <= j < line.len() + 2 implies t.subrange(i, i + line.len() + 2)[j]
            == (seq!['\n'] + line + seq!['\n'])[j] by {
            assert(t[i + j] == t.take(a.len() as int)[i + j]);
            assert(a[i + j] == (pre + line + p[k + 1]@)[i + j]);
        }
    }
}

/// The file sets each webhook that was given as a setting of its own,
/// `key = "url"` on a line by itself, and leaves each one that was not
/// given as a commented example line, which TOML ignores.
pub proof fn law_webhook_lines(c: ConfigValues)
    ensures
        has_line(fill(toml_template(), toml_values(c)), url_line("webhook"@, c.webhook, "# webhook = \"https://your-webhook-url.com\""@)),
        has_line(fill(toml_template(), toml_values(c)), url_line("discord_webhook"@, c.discord_webhook, "# discord_webhook = \"https://discord.com/api/webhooks/...\""@)),
        has_line(fill(toml_template(), toml_values(c)), url_line("slack_webhook"@, c.slack_webhook, "# slack_webhook = \"https://hooks.slack.com/services/...\""@)),
        has_line(fill(toml_template(), toml_values(c)), url_line("generic_webhook"@, c.generic_webhook, "# generic_webhook = \"https://example.com/webhook\""@)),
        c.webhook matches Some(u) ==> url_line("webhook"@, c.webhook, "# webhook = \"https://your-webhook-url.com\""@) == "webhook = \""@ + u@ + "\""@,
        c.webhook is None ==> url_line("webhook"@, c.webhook, "# webhook = \"https://your-webhook-url.com\""@)[0] == '#',
        c.discord_webhook is None ==> url_line("discord_webhook"@, c.discord_webhook, "# discord_webhook = \"https://discord.com/api/webhooks/...\""@)[0] == '#',
        c.slack_webhook is None ==> url_line("slack_webhook"@, c.slack_webhook, "# slack_webhook = \"https://hooks.slack.com/services/...\""@)[0] == '#',
        c.generic_webhook is None ==> url_line("generic_webhook"@, c.generic_webhook, "# generic_webhook = \"https://example.com/webhook\""@)[0] == '#',
{
    let p = toml_template();
    let v = toml_values(c);
    reveal_strlit("\n\n[output]\n# Webhook URL for sending alerts (optional)\n");
    reveal_strlit("\n\n# Log level: debug, info, warn, error\nlog_level = \"");
    reveal_strlit("\n\n# Discord webhook URL for alerts\n");
    reveal_strlit("\n\n# Slack webhook URL for alerts\n");
    reveal_strlit("\n\n# Generic webhook URL for alerts\n");
    reveal_strlit("\n\n# Minimum severity to trigger notifications (1=LOW, 5=MEDIUM, 13=HIGH, 20=CRITICAL)\nmin_severity = ");
    reveal_strlit("# webhook = \"https://your-webhook-url.com\"");
    reveal_strlit("# discord_webhook = \"https://discord.com/api/webhooks/...\"");
    reveal_strlit("# slack_webhook = \"https://hooks.slack.com/services/...\"");
    reveal_strlit("# generic_webhook = \"https://example.com/webhook\"");
    if let Some(u) = c.webhook {
        reveal_strlit("webhook");
        reveal_strlit(" = \"");
        reveal_strlit("webhook = \"");
        assert("webhook"@ + " = \""@ + u@ + "\""@ =~= "webhook = \""@ + u@ + "\""@);
    }
    lemma_value_line(p, v, 10);
    lemma_value_line(p, v, 24);
    lemma_value_line(p, v, 25);
    lemma_value_line(p, v, 26);
}

/// No line of `s` after its first begins with `c`.
pub open spec fn no_line_starts_with(s: Seq<char>, c: char) -> bool {
    forall|j: int| 0 <= j < s.len() - 1 && #[trigger] s[j] == '\n' ==> s[j + 1] != c
}

/// A template piece: not empty, and neither it nor any of its lines
/// begins with `w`.
spec fn piece_ok(s: Seq<char>) -> bool {
    &&& s.len() > 0
    &&& s[0] != 'w'
    &&& no_line_starts_with(s, 'w')
}

/// A text with no line break.
pub open spec fn one_line(s: Seq<char>) -> bool {
    forall|j: int| 0 <= j < s.len() ==> #[trigger] s[j] != '\n'
}

proof fn lemma_no_line_concat(a: Seq<char>, b: Seq<char>, c: char)
    requires
        no_line_starts_with(a, c),
        no_line_starts_with(b, c),
        a.len() > 0 && a.last() == '\n' && b.len() > 0 ==> b[0] != c,
    ensures
        no_line_starts_with(a + b, c),
{
    let t = a + b;
    assert forall|j: int| 0 <= j < t.len() - 1 && #[trigger] t[j] == '\n' implies t[j + 1] != c by {
        if j + 1 < a.len() {
            assert(t[j] == a[j] && t[j + 1] == a[j + 1]);
        } else if j + 1 == a.len() {
            assert(t[j] == a.last() && t[j + 1] == b[0]);
        } else {
            assert(t[j] == b[j - a.len()] && t[j + 1] == b[j + 1 - a.len()]);
        }
    }
}

proof fn lemma_piece(i: int)
    requires
        0 <= i < 30,
    ensures
        piece_ok(toml_template()[i]@),
{
    let p = toml_template();
    if i == 0 {
        reveal_strlit("# CLU Configuration File\n# Generated by: clu init\n# Docs: https://github.com/akses/clu\n\n[feed]\n# PyPI RSS feed endpoint for monitoring new packages\nendpoint = \"");
        assert(piece_ok(p[0]@));
    } else if i == 1 {
        reveal_strlit("\"\n\n# Endpoint for fetching popular packages list (used for typosquatting detection)\npopular_packages_endpoint = \"");
        assert(piece_ok(p[1]@));
    } else if i == 2 {
        reveal_strlit("\"\n\n# How often to poll the feed (supports: s=seconds, m=minutes, h=hours)\npoll_interval = \"");
        assert(piece_ok(p[2]@));
    } else if i == 3 {
        reveal_strlit("\"\n\n# Whether to also monitor package updates (not just new packages)\ncheck_updates = ");
        assert(piece_ok(p[3]@));
    } else if i == 4 {
        reveal_strlit("\n\n[llm]\n# LLM endpoint for advanced code analysis (e.g., Ollama, OpenAI-compatible API)\nendpoint = \"");
        assert(piece_ok(p[4]@));
    } else if i == 5 {
        reveal_strlit("\"\n\n# Model name to use for analysis\nmodel = \"");
        assert(piece_ok(p[5]@));
    } else if i == 6 {
        reveal_strlit("\"\n\n# Request timeout in seconds for LLM requests (default: 30)\nrequest_timeout = ");
        assert(piece_ok(p[6]@));
    } else if i == 7 {
        reveal_strlit("\n\n[cache]\n# Directory for caching pip packages (used by GuardDog and LLM)\n# Allows reusing packages across analysis stages to avoid redundant downloads\npip_cache_dir = \"");
        assert(piece_ok(p[7]@));
    } else if i == 8 {
        reveal_strlit("\"\n\n[analysis]\n# Maximum Levenshtein distance for typosquatting detection\n# 1 = very strict, 2 = moderate (recommended), 3+ = lenient\ntyposquat_distance_threshold = ");
        assert(piece_ok(p[8]@));
    } else if i == 9 {
        reveal_strlit("\n\n# Minimum package name length to check for typosquatting\n# Shorter names tend to have more false positives\nmin_package_length = ");
        assert(piece_ok(p[9]@));
    } else if i == 10 {
        reveal_strlit("\n\n[output]\n# Webhook URL for sending alerts (optional)\n");
        assert(piece_ok(p[10]@));
    } else if i == 11 {
        reveal_strlit("\n\n# Log level: debug, info, warn, error\nlog_level = \"");
        assert(piece_ok(p[11]@));
    } else if i == 12 {
        reveal_strlit("\"\n\n# Enable terminal UI for live monitoring\nenable_tui = ");
        assert(piece_ok(p[12]@));
    } else if i == 13 {
        reveal_strlit("\n\n[pipeline]\n# Enable heuristic-based metadata analysis (fast, low false positives)\nheuristics = ");
        assert(piece_ok(p[13]@));
    } else if i == 14 {
        reveal_strlit("\n\n# Enable typosquat detection based on Levenshtein distance\ntyposquat = ");
        assert(piece_ok(p[14]@));
    } else if i == 15 {
        reveal_strlit("\n\n# Enable GuardDog pattern-based code analysis (requires download)\nguarddog = ");
        assert(piece_ok(p[15]@));
    } else if i == 16 {
        reveal_strlit("\n\n# Enable LLM semantic code analysis (requires download, slower)\nllm = ");
        assert(piece_ok(p[16]@));
    } else if i == 17 {
        reveal_strlit("\n\n[quarantine]\n# Enable package quarantine for suspicious packages\nenabled = ");
        assert(piece_ok(p[17]@));
    } else if i == 18 {
        reveal_strlit("\n\n# Directory where quarantined packages are saved\ndirectory = \"");
        assert(piece_ok(p[18]@));
    } else if i == 19 {
        reveal_strlit("\"\n\n# Minimum severity to quarantine a package (1=LOW, 5=MEDIUM, 13=HIGH, 20=CRITICAL)\nmin_severity = ");
        assert(piece_ok(p[19]@));
    } else if i == 20 {
        reveal_strlit("\n\n# Maximum age in days before auto-deleting quarantined packages\nmax_age_days = ");
        assert(piece_ok(p[20]@));
    } else if i == 21 {
        reveal_strlit("\n\n# Maximum disk usage in MB (evicts oldest when exceeded)\nmax_disk_mb = ");
        assert(piece_ok(p[21]@));
    } else if i == 22 {
        reveal_strlit("\n\n# Save analysis report (report.json) alongside quarantined archive\nretain_metadata = ");
        assert(piece_ok(p[22]@));
    } else if i == 23 {
        reveal_strlit("\n\n[notifications]\n# Enable notification webhooks (Discord, Slack, generic)\nenabled = ");
        assert(piece_ok(p[23]@));
    } else if i == 24 {
        reveal_strlit("\n\n# Discord webhook URL for alerts\n");
        assert(piece_ok(p[24]@));
    } else if i == 25 {
        reveal_strlit("\n\n# Slack webhook URL for alerts\n");
        assert(piece_ok(p[25]@));
    } else if i == 26 {
        reveal_strlit("\n\n# Generic webhook URL for alerts\n");
        assert(piece_ok(p[26]@));
    } else if i == 27 {
        reveal_strlit("\n\n# Minimum severity to trigger notifications (1=LOW, 5=MEDIUM, 13=HIGH, 20=CRITICAL)\nmin_severity = ");
        assert(piece_ok(p[27]@));
    } else if i == 28 {
        reveal_strlit("\n\n# Request timeout in seconds for webhook calls\ntimeout_secs = ");
        assert(piece_ok(p[28]@));
    } else if i == 29 {
        reveal_strlit("\n");
        assert(piece_ok(p[29]@));
    }
}

/// A value is one line, and where it starts a line it does not begin
/// with `w`.
spec fn value_ok(piece: Seq<char>, value: Seq<char>) -> bool {
    &&& one_line(value)
    &&& (piece.len() > 0 && piece.last() == '\n' && value.len() > 0 ==> value[0] != 'w')
}

proof fn lemma_one_line_decimal(n: nat)
    ensures
        one_line(decimal(n)),
{
    lemma_decimal_digits(n);
    assert forall|j: int| 0 <= j < decimal(n).len() implies #[trigger] decimal(n)[j] != '\n' by {
        assert('0' <= decimal(n)[j] <= '9');
    }
}

proof fn lemma_one_line_url(key: Seq<char>, url: Option<String>)
    requires
        one_line(key),
        url matches Some(u) ==> one_line(u@),
    ensures
        url is Some ==> one_line(url_line(key, url, Seq::empty())),
{
    if let Some(u) = url {
        reveal_strlit(" = \"");
        reveal_strlit("\"");
        let t = key + " = \""@ + u@ + "\""@;
        assert forall|j: int| 0 <= j < t.len() implies #[trigger] t[j] != '\n' by {
            let a = key + " = \""@;
            let b = a + u@;
            if j < key.len() {
                assert(t[j] == key[j]);
            } else if j < a.len() {
                assert(t[j] == " = \""@[j - key.len()]);
            } else if j < b.len() {
                assert(t[j] == u@[j - a.len()]);
            } else {
                assert(t[j] == "\""@[j - b.len()]);
            }
        }
    }
}

proof fn lemma_value(c: ConfigValues, i: int)
    requires
        0 <= i < 29,
        c.webhook is None,
        one_line(c.feed_endpoint@),
        one_line(c.popular_packages_endpoint@),
        one_line(c.poll_interval@),
        one_line(c.llm_endpoint@),
        one_line(c.llm_model@),
        one_line(c.pip_cache_dir@),
        one_line(c.log_level@),
        one_line(c.quarantine_dir@),
        c.discord_webhook matches Some(u) ==> one_line(u@),
        c.slack_webhook matches Some(u) ==> one_line(u@),
        c.generic_webhook matches Some(u) ==> one_line(u@),
    ensures
        value_ok(toml_template()[i]@, toml_values(c)[i]),
{
    let p = toml_template();
    let v = toml_values(c);
    if i == 0 {
        reveal_strlit("# CLU Configuration File\n# Generated by: clu init\n# Docs: https://github.com/akses/clu\n\n[feed]\n# PyPI RSS feed endpoint for monitoring new packages\nendpoint = \"");
        assert(value_ok(p[0]@, v[0]));
    } else if i == 1 {
        reveal_strlit("\"\n\n# Endpoint for fetching popular packages list (used for typosquatting detection)\npopular_packages_endpoint = \"");
        assert(value_ok(p[1]@, v[1]));
    } else if i == 2 {
        reveal_strlit("\"\n\n# How often to poll the feed (supports: s=seconds, m=minutes, h=hours)\npoll_interval = \"");
        assert(value_ok(p[2]@, v[2]));
    } else if i == 3 {
        reveal_strlit("\"\n\n# Whether to also monitor package updates (not just new packages)\ncheck_updates = ");
        reveal_strlit("true");
        reveal_strlit("false");
        assert(value_ok(p[3]@, v[3]));
    } else if i == 4 {
        reveal_strlit("\n\n[llm]\n# LLM endpoint for advanced code analysis (e.g., Ollama, OpenAI-compatible API)\nendpoint = \"");
        assert(value_ok(p[4]@, v[4]));
    } else if i == 5 {
        reveal_strlit("\"\n\n# Model name to use for analysis\nmodel = \"");
        assert(value_ok(p[5]@, v[5]));
    } else if i == 6 {
        reveal_strlit("\"\n\n# Request timeout in seconds for LLM requests (default: 30)\nrequest_timeout = ");
        lemma_one_line_decimal(c.llm_request_timeout as nat);
        assert(value_ok(p[6]@, v[6]));
    } else if i == 7 {
        reveal_strlit("\n\n[cache]\n# Directory for caching pip packages (used by GuardDog and LLM)\n# Allows reusing packages across analysis stages to avoid redundant downloads\npip_cache_dir = \"");
        assert(value_ok(p[7]@, v[7]));
    } else if i == 8 {
        reveal_strlit("\"\n\n[analysis]\n# Maximum Levenshtein distance for typosquatting detection\n# 1 = very strict, 2 = moderate (recommended), 3+ = lenient\ntyposquat_distance_threshold = ");
        lemma_one_line_decimal(c.typosquat_threshold as nat);
        assert(value_ok(p[8]@, v[8]));
    } else if i == 9 {
        reveal_strlit("\n\n# Minimum package name length to check for typosquatting\n# Shorter names tend to have more false positives\nmin_package_length = ");
        lemma_one_line_decimal(c.min_package_length as nat);
        assert(value_ok(p[9]@, v[9]));
    } else if i == 10 {
        reveal_strlit("\n\n[output]\n# Webhook URL for sending alerts (optional)\n");
        reveal_strlit("# webhook = \"https://your-webhook-url.com\"");
        reveal_strlit("webhook");
        lemma_one_line_url("webhook"@, c.webhook);
        assert(value_ok(p[10]@, v[10]));
    } else if i == 11 {
        reveal_strlit("\n\n# Log level: debug, info, warn, error\nlog_level = \"");
        assert(value_ok(p[11]@, v[11]));
    } else if i == 12 {
        reveal_strlit("\"\n\n# Enable terminal UI for live monitoring\nenable_tui = ");
        reveal_strlit("true");
        reveal_strlit("false");
        assert(value_ok(p[12]@, v[12]));
    } else if i == 13 {
        reveal_strlit("\n\n[pipeline]\n# Enable heuristic-based metadata analysis (fast, low false positives)\nheuristics = ");
        reveal_strlit("true");
        reveal_strlit("false");
        assert(value_ok(p[13]@, v[13]));
    } else if i == 14 {
        reveal_strlit("\n\n# Enable typosquat detection based on Levenshtein distance\ntyposquat = ");
        reveal_strlit("true");
        reveal_strlit("false");
        assert(value_ok(p[14]@, v[14]));
    } else if i == 15 {
        reveal_strlit("\n\n# Enable GuardDog pattern-based code analysis (requires download)\nguarddog = ");
        reveal_strlit("true");
        reveal_strlit("false");
        assert(value_ok(p[15]@, v[15]));
    } else if i == 16 {
        reveal_strlit("\n\n# Enable LLM semantic code analysis (requires download, slower)\nllm = ");
        reveal_strlit("true");
        reveal_strlit("false");
        assert(value_ok(p[16]@, v[16]));
    } else if i == 17 {
        reveal_strlit("\n\n[quarantine]\n# Enable package quarantine for suspicious packages\nenabled = ");
        reveal_strlit("true");
        reveal_strlit("false");
        assert(value_ok(p[17]@, v[17]));
    } else if i == 18 {
        reveal_strlit("\n\n# Directory where quarantined packages are saved\ndirectory = \"");
        assert(value_ok(p[18]@, v[18]));
    } else if i == 19 {
        reveal_strlit("\"\n\n# Minimum severity to quarantine a package (1=LOW, 5=MEDIUM, 13=HIGH, 20=CRITICAL)\nmin_severity = ");
        lemma_one_line_decimal(c.quarantine_min_severity as nat);
        assert(value_ok(p[19]@, v[19]));
    } else if i == 20 {
        reveal_strlit("\n\n# Maximum age in days before auto-deleting quarantined packages\nmax_age_days = ");
        lemma_one_line_decimal(c.quarantine_max_age_days as nat);
        assert(value_ok(p[20]@, v[20]));
    } else if i == 21 {
        reveal_strlit("\n\n# Maximum disk usage in MB (evicts oldest when exceeded)\nmax_disk_mb = ");
        lemma_one_line_decimal(c.quarantine_max_disk_mb as nat);
        assert(value_ok(p[21]@, v[21]));
    } else if i == 22 {
        reveal_strlit("\n\n# Save analysis report (report.json) alongside quarantined archive\nretain_metadata = ");
        reveal_strlit("true");
        reveal_strlit("false");
        assert(value_ok(p[22]@, v[22]));
    } else if i == 23 {
        reveal_strlit("\n\n[notifications]\n# Enable notification webhooks (Discord, Slack, generic)\nenabled = ");
        reveal_strlit("true");
        reveal_strlit("false");
        assert(value_ok(p[23]@, v[23]));
    } else if i == 24 {
        reveal_strlit("\n\n# Discord webhook URL for alerts\n");
        reveal_strlit("# discord_webhook = \"https://discord.com/api/webhooks/...\"");
        reveal_strlit("discord_webhook");
        lemma_one_line_url("discord_webhook"@, c.discord_webhook);
        assert(value_ok(p[24]@, v[24]));
    } else if i == 25 {
        reveal_strlit("\n\n# Slack webhook URL for alerts\n");
        reveal_strlit("# slack_webhook = \"https://hooks.slack.com/services/...\"");
        reveal_strlit("slack_webhook");
        lemma_one_line_url("slack_webhook"@, c.slack_webhook);
        assert(value_ok(p[25]@, v[25]));
    } else if i == 26 {
        reveal_strlit("\n\n# Generic webhook URL for alerts\n");
        reveal_strlit("# generic_webhook = \"https://example.com/webhook\"");
        reveal_strlit("generic_webhook");
        lemma_one_line_url("generic_webhook"@, c.generic_webhook);
        assert(value_ok(p[26]@, v[26]));
    } else if i == 27 {
        reveal_strlit("\n\n# Minimum severity to trigger notifications (1=LOW, 5=MEDIUM, 13=HIGH, 20=CRITICAL)\nmin_severity = ");
        lemma_one_line_decimal(c.notifications_min_severity as nat);
        assert(value_ok(p[27]@, v[27]));
    } else if i == 28 {
        reveal_strlit("\n\n# Request timeout in seconds for webhook calls\ntimeout_secs = ");
        lemma_one_line_decimal(c.notifications_timeout_secs as nat);
        assert(value_ok(p[28]@, v[28]));
    }
}

/// Filling a template whose pieces are all `piece_ok` with one-line values,
/// where a value that follows a line break does not begin with `w`,
/// starts no line with `w`.
proof fn lemma_fill_no_w(p: Seq<&'static str>, v: Seq<Seq<char>>, k: int)
    requires
        p.len() == v.len() + 1,
        0 <= k <= v.len(),
        forall|i: int| 0 <= i < p.len() ==> piece_ok(#[trigger] p[i]@),
        forall|i: int| 0 <= i < v.len() ==> one_line(#[trigger] v[i]),
        forall|i: int|
            0 <= i < v.len() && p[i]@.last() == '\n' && #[trigger] v[i].len() > 0 ==> v[i][0] != 'w',
    ensures
        no_line_starts_with(fill(p.take(k + 1), v.take(k)), 'w'),
        fill(p.take(k + 1), v.take(k)).len() > 0,
        fill(p.take(k + 1), v.take(k))[0] != 'w',
    decreases k,
{
    if k == 0 {
        assert(p.take(1)[0] == p[0]);
        assert(fill(p.take(1), v.take(0)) == p[0]@);
        assert(piece_ok(p[0]@));
    } else {
        let j = k - 1;
        lemma_fill_no_w(p, v, j);
        lemma_fill_ends(p, v, j);
        let pre = fill(p.take(j + 1), v.take(j));
        assert(p.take(k + 1).drop_last() =~= p.take(k));
        assert(v.take(k).drop_last() =~= v.take(j));
        assert(p.take(k + 1).last() == p[k]);
        assert(v.take(k).last() == v[j]);
        let val = v[j];
        assert(one_line(val));
        assert(piece_ok(p[j]@));
        assert(piece_ok(p[k]@));
        assert(no_line_starts_with(val, 'w'));
        lemma_no_line_concat(pre, val, 'w');
        let mid = pre + val;
        assert(mid.len() > 0 && mid.last() == '\n' ==> val.len() == 0) by {
            if val.len() > 0 {
                assert(mid.last() == val.last());
            }
        }
        lemma_no_line_concat(mid, p[k]@, 'w');
        assert(fill(p.take(k + 1), v.take(k)) == mid + p[k]@);
        assert((mid + p[k]@)[0] == pre[0]);
    }
}

/// With no webhook given, the file holds no active `webhook` setting: no
/// line of it begins with `w`, so none reads `webhook = "..."` (the answers
/// are taken as one line each, as the prompts read them).
pub proof fn law_no_active_webhook_line_without_webhook(c: ConfigValues)
    requires
        c.webhook is None,
        one_line(c.feed_endpoint@),
        one_line(c.popular_packages_endpoint@),
        one_line(c.poll_interval@),
        one_line(c.llm_endpoint@),
        one_line(c.llm_model@),
        one_line(c.pip_cache_dir@),
        one_line(c.log_level@),
        one_line(c.quarantine_dir@),
        c.discord_webhook matches Some(u) ==> one_line(u@),
        c.slack_webhook matches Some(u) ==> one_line(u@),
        c.generic_webhook matches Some(u) ==> one_line(u@),
    ensures
        ({
            let t = fill(toml_template(), toml_values(c));
            &&& forall|i: int| 0 <= i < t.len() && (i == 0 || t[i - 1] == '\n') ==> #[trigger] t[i] != 'w'
            &&& forall|i: int|
                0 <= i && i + 11 <= t.len() && (i == 0 || t[i - 1] == '\n') ==> #[trigger] t.subrange(i, i + 11)
                    != "webhook = \""@
        }),
{
    let p = toml_template();
    let v = toml_values(c);
    reveal_strlit("webhook = \"");
    assert forall|i: int| 0 <= i < p.len() implies piece_ok(#[trigger] p[i]@) by {
        lemma_piece(i);
    }
    assert forall|i: int| 0 <= i < v.len() implies one_line(#[trigger] v[i]) by {
        lemma_value(c, i);
    }
    assert forall|i: int|
        0 <= i < v.len() && p[i]@.last() == '\n' && #[trigger] v[i].len() > 0 implies v[i][0] != 'w' by {
        lemma_value(c, i);
        lemma_piece(i);
    }
    lemma_fill_no_w(p, v, 29);
    assert(p.take(30) =~= p);
    assert(v.take(29) =~= v);
    let t = fill(p, v);
    assert forall|i: int| 0 <= i < t.len() && (i == 0 || t[i - 1] == '\n') implies #[trigger] t[i] != 'w' by {
        if i > 0 {
            assert(t[i - 1] == '\n');
        }
    }
    assert forall|i: int|
        0 <= i && i + 11 <= t.len() && (i == 0 || t[i - 1] == '\n') implies #[trigger] t.subrange(i, i + 11)
            != "webhook = \""@ by {
        assert(t.subrange(i, i + 11)[0] == t[i]);
        if i > 0 {
            assert(t[i - 1] == '\n');
        }
    }
}

} // verus!
