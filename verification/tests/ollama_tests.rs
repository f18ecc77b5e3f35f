use clu::analysis::ollama_utils::{model_available, ollama_api_url, ollama_url, sidecar_findings_url};

#[test]
fn ollama_url_adds_scheme_when_missing() {
    assert_eq!(ollama_url("localhost:11434"), "http://localhost:11434");
    assert_eq!(ollama_url("http://ollama:11434"), "http://ollama:11434");
    assert_eq!(ollama_url("https://ollama.example"), "https://ollama.example");
}

#[test]
fn ollama_api_url_joins_with_one_slash() {
    assert_eq!(ollama_api_url("http://h:1", "tags"), "http://h:1/api/tags");
    assert_eq!(ollama_api_url("http://h:1/", "pull"), "http://h:1/api/pull");
}

#[test]
fn model_available_matches_by_containment() {
    let names = vec![None, Some("llama3:latest".to_string()), Some("qwen2".to_string())];
    assert!(model_available(&names, "llama3"));
    assert!(model_available(&names, "qwen2"));
    assert!(!model_available(&names, "mistral"));
    assert!(!model_available(&[], "llama3"));
}

#[test]
fn sidecar_url_strips_trailing_slashes() {
    assert_eq!(sidecar_findings_url("http://side:8080"), "http://side:8080/findings");
    assert_eq!(sidecar_findings_url("http://side:8080///"), "http://side:8080/findings");
    assert_eq!(sidecar_findings_url(""), "/findings");
}
