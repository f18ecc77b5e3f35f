//! Sidecar REST API: the error responses, the authentication rule, and the
//! request and response bodies of the findings, reports, quarantine, rules,
//! statistics and audit endpoints.
pub mod audit;
pub mod findings;
pub mod health;
pub mod osm;
pub mod quarantine;
pub mod reports;
pub mod rules;
pub mod stats;

use vstd::prelude::*;
use subtle::ConstantTimeEq;
use crate::text::{append_all, chars_eq, chars_of, has_prefix, slice_chars, starts_with, string_of, trim, trim_ws};

verus! {

/// Why a request failed.
#[derive(Debug)]
pub enum AppError {
    NotFound(String),
    BadRequest(String),
    Unauthorized,
    Internal(String),
}

/// The message of an error, as it is displayed.
pub open spec fn error_message(e: AppError) -> Seq<char> {
    match e {
        AppError::NotFound(m) => "not found: "@ + m@,
        AppError::BadRequest(m) => "bad request: "@ + m@,
        AppError::Unauthorized => "unauthorized"@,
        AppError::Internal(m) => "internal error: "@ + m@,
    }
}

/// The HTTP status and body an error is answered with; internal errors are
/// not described to the client.
pub open spec fn error_response(e: AppError) -> (u16, Seq<char>) {
    match e {
        AppError::NotFound(_) => (404, error_message(e)),
        AppError::BadRequest(_) => (400, error_message(e)),
        AppError::Unauthorized => (401, "unauthorized"@),
        AppError::Internal(_) => (500, "internal server error"@),
    }
}

impl AppError {
    /// The error's message.
    pub fn message(&self) -> (r: String)
        ensures
            r@ == error_message(*self),
    {
        match self {
            AppError::NotFound(m) => {
                let mut v = chars_of("not found: ");
                append_all(&mut v, &chars_of(m.as_str()));
                string_of(&v)
            },
            AppError::BadRequest(m) => {
                let mut v = chars_of("bad request: ");
                append_all(&mut v, &chars_of(m.as_str()));
                string_of(&v)
            },
            AppError::Unauthorized => "unauthorized".to_owned(),
            AppError::Internal(m) => {
                let mut v = chars_of("internal error: ");
                append_all(&mut v, &chars_of(m.as_str()));
                string_of(&v)
            },
        }
    }

    /// The HTTP status and body to answer with.
    pub fn response(&self) -> (r: (u16, String))
        ensures
            r.0 == error_response(*self).0,
            r.1@ == error_response(*self).1,
    {
        match self {
            AppError::NotFound(_) => (404, self.message()),
            AppError::BadRequest(_) => (400, self.message()),
            AppError::Unauthorized => (401, "unauthorized".to_owned()),
            AppError::Internal(_) => (500, "internal server error".to_owned()),
        }
    }
}

/// Position of the last `c` in `s`, or -1.
pub open spec fn last_index_of(s: Seq<char>, c: char) -> int
    decreases s.len(),
{
    if s.len() == 0 {
        -1
    } else if s.last() == c {
        s.len() - 1
    } else {
        last_index_of(s.drop_last(), c)
    }
}

/// The text before the last `:` of a `host:port` listen address, or the
/// whole address when it has none.
pub open spec fn before_port(addr: Seq<char>) -> Seq<char> {
    let k = last_index_of(addr, ':');
    if k < 0 {
        addr
    } else {
        addr.take(k)
    }
}

/// The host part of a listen address: the text before the port, without
/// the brackets of an IPv6 address (`[::1]:8080` has the host `::1`).
pub open spec fn host_part(addr: Seq<char>) -> Seq<char> {
    let h = before_port(addr);
    if h.len() >= 2 && h[0] == '[' && h.last() == ']' {
        h.subrange(1, h.len() - 1)
    } else {
        h
    }
}

/// The host part of a listen address.
pub fn listen_host(listen_addr: &str) -> (r: String)
    ensures
        r@ == host_part(listen_addr@),
{
    let s = chars_of(listen_addr);
    let mut k: usize = s.len();
    assert(s@.take(k as int) == s@);
    while k > 0 && s[k - 1] != ':'
        invariant
            k <= s@.len(),
            last_index_of(s@, ':') == last_index_of(s@.take(k as int), ':'),
        decreases k,
    {
        assert(s@.take(k as int).drop_last() == s@.take(k - 1));
        k = k - 1;
    }
    let h = if k == 0 {
        s
    } else {
        assert(s@.take(k as int).last() == ':');
        slice_chars(&s, 0, k - 1)
    };
    assert(h@ == before_port(listen_addr@));
    let n = h.len();
    if n >= 2 && h[0] == '[' && h[n - 1] == ']' {
        let inner = slice_chars(&h, 1, n - 1);
        string_of(&inner)
    } else {
        string_of(&h)
    }
}

/// A host is loopback when it is `localhost`, or an IP address that is a
/// loopback address (`ip_is_loopback` is what parsing the host as an IP
/// address gave: `None` when it is no IP address).
pub open spec fn loopback_host(host: Seq<char>, ip_is_loopback: Option<bool>) -> bool {
    host == "localhost"@ || ip_is_loopback == Some(true)
}

/// Whether the host a server listens on is a loopback interface.
pub fn is_loopback_host(host: &str, ip_is_loopback: Option<bool>) -> (r: bool)
    ensures
        r == loopback_host(host@, ip_is_loopback),
{
    if chars_eq(&chars_of(host), &chars_of("localhost")) {
        return true;
    }
    match ip_is_loopback {
        Some(b) => b,
        None => false,
    }
}

/// The token of an `Authorization: Bearer <token>` header, trimmed.
pub open spec fn bearer_token(header: Seq<char>) -> Option<Seq<char>> {
    if has_prefix(header, "Bearer "@) {
        Some(trim_ws(header.skip(7)))
    } else {
        None
    }
}

/// The fail-closed rule: with a token configured, the request must carry
/// it as a bearer token; without one, only a server on a loopback address
/// answers.
pub open spec fn auth_allowed(header: Option<Seq<char>>, expected: Option<Seq<char>>, loopback: bool) -> bool {
    match expected {
        Some(secret) => match header {
            Some(h) => bearer_token(h) == Some(secret),
            None => false,
        },
        None => loopback,
    }
}

/// `subtle::ConstantTimeEq::ct_eq` on byte slices: equal lengths and equal
/// bytes, compared in time independent of the contents.
#[verifier::external_body]
fn bytes_equal_ct(a: &[u8], b: &[u8]) -> (r: bool)
    ensures
        r == (a@ == b@),
{
    a.ct_eq(b).into()
}

/// Fail-closed authentication check: a configured token must match the
/// bearer token (compared in constant time); with no token configured,
/// only a loopback listener accepts requests.
pub fn require_auth(auth_header: Option<&str>, expected: &Option<String>, listen_is_loopback: bool) -> (r:
    Result<(), AppError>)
    ensures
        r is Ok <==> auth_allowed(
            match auth_header {
                Some(h) => Some(h@),
                None => None,
            },
            match *expected {
                Some(s) => Some(s@),
                None => None,
            },
            listen_is_loopback,
        ),
        r matches Err(e) ==> e is Unauthorized,
{
    match expected {
        Some(secret) => {
            let h = match auth_header {
                Some(h) => chars_of(h),
                None => return Err(AppError::Unauthorized),
            };
            let prefix = chars_of("Bearer ");
            proof {
                reveal_strlit("Bearer ");
            }
            if !starts_with(&h, &prefix) {
                return Err(AppError::Unauthorized);
            }
            let rest = slice_chars(&h, 7, h.len());
            assert(rest@ == h@.skip(7));
            let tok = string_of(&trim(&rest));
            let a = secret.as_str().as_bytes();
            let b = tok.as_str().as_bytes();
            let same = bytes_equal_ct(a, b);
            proof {
                vstd::utf8::encode_utf8_decode_utf8(secret@);
                vstd::utf8::encode_utf8_decode_utf8(tok@);
            }
            if same {
                Ok(())
            } else {
                Err(AppError::Unauthorized)
            }
        },
        None => {
            if listen_is_loopback {
                Ok(())
            } else {
                Err(AppError::Unauthorized)
            }
        },
    }
}

} // verus!
