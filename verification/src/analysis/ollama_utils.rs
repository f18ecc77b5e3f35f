//! Talking to the Ollama service: where its endpoints are, and whether a
//! model it lists is the one wanted.
use vstd::prelude::*;
use crate::text::{append_all, chars_of, contains, contains_seq, has_prefix, has_suffix, starts_with, ends_with, string_of, string_views};

verus! {

/// Seconds before a request to Ollama times out.
pub const OLLAMA_TIMEOUT_SECS: u64 = 30;

/// The service's base URL: the configured endpoint, with `http://` put in
/// front when it names no scheme.
pub open spec fn service_url(endpoint: Seq<char>) -> Seq<char> {
    if has_prefix(endpoint, "http://"@) || has_prefix(endpoint, "https://"@) {
        endpoint
    } else {
        "http://"@ + endpoint
    }
}

/// The base URL of the Ollama service for a configured endpoint.
pub fn ollama_url(endpoint: &str) -> (r: String)
    ensures
        r@ == service_url(endpoint@),
{
    let e = chars_of(endpoint);
    if starts_with(&e, &chars_of("http://")) || starts_with(&e, &chars_of("https://")) {
        endpoint.to_owned()
    } else {
        let mut out = chars_of("http://");
        append_all(&mut out, &e);
        string_of(&out)
    }
}

/// An API path under the base URL, with exactly one `/` between.
pub open spec fn api_url(base: Seq<char>, path: Seq<char>) -> Seq<char> {
    if has_suffix(base, "/"@) {
        base + "api/"@ + path
    } else {
        base + "/api/"@ + path
    }
}

/// The URL of an Ollama API endpoint (`tags`, `pull`).
pub fn ollama_api_url(base: &str, path: &str) -> (r: String)
    ensures
        r@ == api_url(base@, path@),
{
    let b = chars_of(base);
    let mut out = b.clone();
    if ends_with(&b, &chars_of("/")) {
        append_all(&mut out, &chars_of("api/"));
    } else {
        append_all(&mut out, &chars_of("/api/"));
    }
    append_all(&mut out, &chars_of(path));
    string_of(&out)
}

/// A listed entry names the model: it has a name, and that name contains
/// the model's name.
pub open spec fn names_model(entry: Option<String>, model: Seq<char>) -> bool {
    entry matches Some(n) && contains_seq(n@, model)
}

/// The service lists the model: some listed name contains the model's name.
pub open spec fn model_listed(names: Seq<Option<String>>, model: Seq<char>) -> bool {
    exists|i: int| 0 <= i < names.len() && #[trigger] names_model(names[i], model)
}

/// Whether the models the service lists include the wanted one (a listed
/// name containing the model's name counts).
pub fn model_available(names: &[Option<String>], model: &str) -> (r: bool)
    ensures
        r == model_listed(names@, model@),
{
    let m = chars_of(model);
    let n = names.len();
    for i in 0..n
        invariant
            n == names@.len(),
            m@ == model@,
            forall|j: int| 0 <= j < i ==> !#[trigger] names_model(names@[j], model@),
    {
        if let Some(x) = &names[i] {
            if contains(&chars_of(x.as_str()), &m) {
                assert(names_model(names@[i as int], model@));
                return true;
            }
        }
    }
    false
}

/// The sidecar endpoint that receives findings: the configured endpoint
/// without trailing slashes, then `/findings`.
pub open spec fn findings_endpoint(endpoint: Seq<char>) -> Seq<char>
    decreases endpoint.len(),
{
    if endpoint.len() > 0 && endpoint.last() == '/' {
        findings_endpoint(endpoint.drop_last())
    } else {
        endpoint + "/findings"@
    }
}

/// The URL the scanner posts findings to.
pub fn sidecar_findings_url(endpoint: &str) -> (r: String)
    ensures
        r@ == findings_endpoint(endpoint@),
{
    let e = chars_of(endpoint);
    let mut k: usize = e.len();
    assert(e@.take(k as int) == e@);
    while k > 0 && e[k - 1] == '/'
        invariant
            k <= e@.len(),
            findings_endpoint(e@) == findings_endpoint(e@.take(k as int)),
        decreases k,
    {
        assert(e@.take(k as int).drop_last() == e@.take(k - 1));
        k = k - 1;
    }
    let mut out = crate::text::slice_chars(&e, 0, k);
    append_all(&mut out, &chars_of("/findings"));
    string_of(&out)
}

} // verus!
