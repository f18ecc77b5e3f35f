pub mod guarddog;
pub mod heuristics;
pub mod llm;
pub mod ollama_utils;
pub mod package;
pub mod rules_file;
pub mod rules_laws;
pub mod sanitize_laws;
pub mod severity;
pub mod typosquat;
pub mod yara;
pub mod yara_engine;
pub use severity::compute_static_severity;
