//! Configuration: the settings of each part of the scanner and their
//! defaults.
use vstd::prelude::*;

verus! {

/// The whole configuration file.
#[derive(Debug)]
pub struct Config {
    pub feed: FeedConfig,
    pub llm: LlmConfig,
    pub analysis: AnalysisConfig,
    pub output: OutputConfig,
    pub cache: CacheConfig,
    pub pipeline: PipelineConfig,
    pub database: DatabaseConfig,
    pub extraction: ExtractionConfig,
    pub yara: YaraConfig,
    pub quarantine: QuarantineConfig,
    pub notifications: NotificationsConfig,
    pub sidecar: SidecarConfig,
}

/// Limits on unpacking a package archive.
#[derive(Debug, Clone)]
pub struct ExtractionConfig {
    pub max_total_bytes: usize,
    pub max_file_bytes: usize,
    pub max_entries: usize,
}

/// At most 64 MiB unpacked in all.
pub fn default_max_total_bytes() -> (r: usize)
    ensures
        r == 67108864,
{
    67108864
}

/// At most 2 MiB per unpacked file.
pub fn default_max_file_bytes() -> (r: usize)
    ensures
        r == 2097152,
{
    2097152
}

/// At most 5000 archive entries.
pub fn default_max_entries() -> (r: usize)
    ensures
        r == 5000,
{
    5000
}

impl Default for ExtractionConfig {
    fn default() -> (r: Self)
        ensures
            r.max_total_bytes == 67108864,
            r.max_file_bytes == 2097152,
            r.max_entries == 5000,
    {
        ExtractionConfig {
            max_total_bytes: default_max_total_bytes(),
            max_file_bytes: default_max_file_bytes(),
            max_entries: default_max_entries(),
        }
    }
}

/// The package feed and how often it is read.
#[derive(Debug)]
pub struct FeedConfig {
    pub poll_interval: String,
    pub endpoint: String,
    pub popular_packages_endpoint: String,
    pub check_updates: bool,
}

/// The language model service.
#[derive(Debug)]
pub struct LlmConfig {
    pub endpoint: String,
    pub model: String,
    pub request_timeout: u64,
}

/// Requests to the model time out after 30 seconds.
pub fn default_request_timeout() -> (r: u64)
    ensures
        r == 30,
{
    30
}

/// Typosquat detection settings.
#[derive(Debug)]
pub struct AnalysisConfig {
    /// Largest edit distance reported as a typosquat.
    pub typosquat_distance_threshold: usize,
    /// Shortest package name checked.
    pub min_package_length: usize,
}

/// Names within an edit distance of 2 count as typosquats.
pub fn default_typosquat_threshold() -> (r: usize)
    ensures
        r == 2,
{
    2
}

/// Names shorter than 4 bytes are not checked.
pub fn default_min_package_length() -> (r: usize)
    ensures
        r == 4,
{
    4
}

/// Output settings.
#[derive(Debug)]
pub struct OutputConfig {
    pub webhook: Option<String>,
    pub log_level: String,
    pub enable_tui: bool,
}

/// Logging at `info` unless configured otherwise.
pub fn default_log_level() -> (r: String)
    ensures
        r@ == "info"@,
{
    "info".to_owned()
}

/// The terminal interface is on unless configured otherwise.
pub fn default_enable_tui() -> (r: bool)
    ensures
        r,
{
    true
}

/// The shared pip cache.
#[derive(Debug)]
pub struct CacheConfig {
    pub pip_cache_dir: String,
}

/// The pip cache lives in `/tmp/pip-cache` unless configured otherwise.
pub fn default_pip_cache_dir() -> (r: String)
    ensures
        r@ == "/tmp/pip-cache"@,
{
    "/tmp/pip-cache".to_owned()
}

impl Default for CacheConfig {
    fn default() -> (r: Self)
        ensures
            r.pip_cache_dir@ == "/tmp/pip-cache"@,
    {
        CacheConfig { pip_cache_dir: default_pip_cache_dir() }
    }
}

/// Which analysis stages run.
#[derive(Debug)]
pub struct PipelineConfig {
    pub heuristics: bool,
    pub typosquat: bool,
    pub guarddog: bool,
    pub yara: bool,
    pub llm: bool,
}

/// Heuristics run unless configured otherwise.
pub fn default_heuristics() -> (r: bool)
    ensures
        r,
{
    true
}

/// Typosquat detection runs unless configured otherwise.
pub fn default_typosquat() -> (r: bool)
    ensures
        r,
{
    true
}

/// GuardDog does not run unless configured.
pub fn default_guarddog() -> (r: bool)
    ensures
        !r,
{
    false
}

/// The YARA stage does not run unless configured.
pub fn default_yara() -> (r: bool)
    ensures
        !r,
{
    false
}

/// The LLM stage does not run unless configured.
pub fn default_llm() -> (r: bool)
    ensures
        !r,
{
    false
}

impl Default for PipelineConfig {
    fn default() -> (r: Self)
        ensures
            r.heuristics,
            r.typosquat,
            !r.guarddog,
            !r.yara,
            !r.llm,
    {
        PipelineConfig { heuristics: true, typosquat: true, guarddog: false, yara: false, llm: false }
    }
}

impl PipelineConfig {
    /// The stages with the retired GuardDog switch carried over: a
    /// configuration that turns `guarddog` on runs the YARA stage, which
    /// replaced it.
    pub fn with_guarddog_compat(self) -> (r: PipelineConfig)
        ensures
            r.yara == (self.yara || self.guarddog),
            r.heuristics == self.heuristics && r.typosquat == self.typosquat,
            r.guarddog == self.guarddog && r.llm == self.llm,
    {
        let yara = self.yara || self.guarddog;
        PipelineConfig { yara, ..self }
    }
}

/// Where the YARA rules live and how files are scanned.
#[derive(Debug, Clone)]
pub struct YaraConfig {
    pub rules_dir: String,
    pub max_file_size: Option<usize>,
    pub timeout_secs: Option<u64>,
}

/// The rules live in `config/yara_rules` unless configured otherwise.
pub fn default_rules_dir() -> (r: String)
    ensures
        r@ == "config/yara_rules"@,
{
    "config/yara_rules".to_owned()
}

impl Default for YaraConfig {
    fn default() -> (r: Self)
        ensures
            r.rules_dir@ == "config/yara_rules"@,
            r.max_file_size is None,
            r.timeout_secs is None,
    {
        YaraConfig { rules_dir: default_rules_dir(), max_file_size: None, timeout_secs: None }
    }
}

/// Report storage.
#[derive(Debug)]
pub struct DatabaseConfig {
    pub url: String,
    pub enable: bool,
}

/// Reports are stored in `sqlite://config/data/clu.db` unless configured
/// otherwise.
pub fn default_database_url() -> (r: String)
    ensures
        r@ == "sqlite://config/data/clu.db"@,
{
    "sqlite://config/data/clu.db".to_owned()
}

/// Storage is on unless configured otherwise.
pub fn default_enable_database() -> (r: bool)
    ensures
        r,
{
    true
}

impl Default for DatabaseConfig {
    fn default() -> (r: Self)
        ensures
            r.url@ == "sqlite://config/data/clu.db"@,
            r.enable,
    {
        DatabaseConfig { url: default_database_url(), enable: default_enable_database() }
    }
}

/// Keeping copies of suspicious packages on disk.
#[derive(Debug, Clone)]
pub struct QuarantineConfig {
    pub enabled: bool,
    pub directory: String,
    /// Packages at or above this severity are kept.
    pub min_severity: u8,
    /// Entries older than this are evicted (0 keeps them).
    pub max_age_days: u64,
    /// The space the quarantine may take (0 for no limit).
    pub max_disk_mb: u64,
    /// Whether the report is kept beside the archive.
    pub retain_metadata: bool,
}

impl Default for QuarantineConfig {
    /// Off; when turned on, packages of severity 13 (high) and above are
    /// kept in `config/quarantine` for 30 days, in at most 1024 MiB, with
    /// their reports.
    fn default() -> (r: Self)
        ensures
            !r.enabled && r.directory@ == "config/quarantine"@ && r.min_severity == 13,
            r.max_age_days == 30 && r.max_disk_mb == 1024 && r.retain_metadata,
    {
        QuarantineConfig {
            enabled: false,
            directory: "config/quarantine".to_owned(),
            min_severity: 13,
            max_age_days: 30,
            max_disk_mb: 1024,
            retain_metadata: true,
        }
    }
}

/// Chat and webhook notifications.
#[derive(Debug, Clone)]
pub struct NotificationsConfig {
    pub enabled: bool,
    pub slack_webhook: Option<String>,
    pub discord_webhook: Option<String>,
    pub generic_webhook: Option<String>,
    /// Reports at or above this severity are sent.
    pub min_severity: u8,
    pub timeout_secs: u64,
}

impl Default for NotificationsConfig {
    /// Off, with no channel; when turned on, reports of severity 13 (high)
    /// and above are sent, each request given 10 seconds.
    fn default() -> (r: Self)
        ensures
            !r.enabled && r.slack_webhook is None && r.discord_webhook is None && r.generic_webhook is None,
            r.min_severity == 13 && r.timeout_secs == 10,
    {
        NotificationsConfig {
            enabled: false,
            slack_webhook: None,
            discord_webhook: None,
            generic_webhook: None,
            min_severity: 13,
            timeout_secs: 10,
        }
    }
}

/// The sidecar API: where the scanner posts findings, and where the API
/// listens.
#[derive(Debug, Clone)]
pub struct SidecarConfig {
    pub endpoint: Option<String>,
    pub token: Option<String>,
    pub timeout_secs: u64,
    pub listen_addr: String,
}

impl Default for SidecarConfig {
    /// No endpoint and no token; posts time out after 5 seconds; the API
    /// listens on `127.0.0.1:8080`, loopback only.
    fn default() -> (r: Self)
        ensures
            r.endpoint is None && r.token is None && r.timeout_secs == 5,
            r.listen_addr@ == "127.0.0.1:8080"@,
    {
        SidecarConfig {
            endpoint: None,
            token: None,
            timeout_secs: 5,
            listen_addr: "127.0.0.1:8080".to_owned(),
        }
    }
}

} // verus!
