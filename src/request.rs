//! Plain request options.
use vstd::prelude::*;

use std::time::Duration;
use vstd::string::StrSliceExecFns;

use crate::emulation::is_label;
use crate::error::LabelError;

verus! {

/// Credentials for basic authentication.
#[derive(Clone, Debug)]
pub struct BasicAuth {
    pub username: String,
    pub password: Option<String>,
}

/// A proxy and the credentials to use with it.
#[derive(Clone, Debug)]
pub struct ProxyConfig {
    pub uri: String,
    pub username: Option<String>,
    pub password: Option<String>,
}

/// The pair that a request carries for basic authentication.
pub fn basic_auth_pair(basic: BasicAuth) -> (r: (String, Option<String>))
    ensures
        r == (basic.username, basic.password),
{
    (basic.username, basic.password)
}

/// The credentials to send to a proxy: none without a user name, and an empty
/// password where a user name comes without one.
pub fn proxy_credentials(config: &ProxyConfig) -> (r: Option<(String, String)>)
    ensures
        match config.username {
            None => r is None,
            Some(user) => r matches Some(pair) && pair.0@ == user@ && match config.password {
                Some(pass) => pair.1@ == pass@,
                None => pair.1@.len() == 0,
            },
        },
{
    match &config.username {
        None => None,
        Some(user) => {
            let pass = match &config.password {
                Some(p) => p.clone(),
                None => String::new(),
            };
            Some((user.clone(), pass))
        },
    }
}

/// Relies on `Duration::from_millis`: the result depends on the count alone.
pub uninterp spec fn millis_duration(ms: u64) -> Duration;

/// Relies on `Duration::from_millis`: a span of `ms` milliseconds.
#[verifier::external_body]
fn duration_of_millis(ms: u64) -> (r: Duration)
    ensures
        r == millis_duration(ms),
{
    Duration::from_millis(ms)
}

/// A timeout given in milliseconds.
pub fn duration_from_millis(value: u32) -> (r: Duration)
    ensures
        r == millis_duration(value as u64),
{
    duration_of_millis(value as u64)
}

/// HTTP protocol versions.
#[derive(Clone, Copy, Debug, PartialEq, Eq, Structural)]
pub enum HttpVersion {
    Http09,
    Http10,
    Http11,
    Http2,
    Http3,
}

pub open spec fn ascii_upper(c: char) -> char {
    if 'a' <= c && c <= 'z' {
        ((c as u8) - 32) as char
    } else {
        c
    }
}

/// The version that an upper-cased label names.
pub open spec fn version_named(u: Seq<char>) -> Option<HttpVersion> {
    if u == "HTTP/0.9"@ || u == "0.9"@ {
        Some(HttpVersion::Http09)
    } else if u == "HTTP/1.0"@ || u == "1.0"@ {
        Some(HttpVersion::Http10)
    } else if u == "HTTP/1.1"@ || u == "1.1"@ {
        Some(HttpVersion::Http11)
    } else if u == "HTTP/2"@ || u == "2"@ || u == "HTTP/2.0"@ || u == "2.0"@ {
        Some(HttpVersion::Http2)
    } else if u == "HTTP/3"@ || u == "3"@ || u == "HTTP/3.0"@ || u == "3.0"@ {
        Some(HttpVersion::Http3)
    } else {
        None
    }
}

/// The canonical label of a version.
pub open spec fn version_label(v: HttpVersion) -> Seq<char> {
    match v {
        HttpVersion::Http09 => "HTTP/0.9"@,
        HttpVersion::Http10 => "HTTP/1.0"@,
        HttpVersion::Http11 => "HTTP/1.1"@,
        HttpVersion::Http2 => "HTTP/2"@,
        HttpVersion::Http3 => "HTTP/3"@,
    }
}

fn upper_chars(value: &str) -> (r: Vec<char>)
    ensures
        r@ == value@.map_values(|c: char| ascii_upper(c)),
{
    let n = value.unicode_len();
    let mut out: Vec<char> = Vec::new();
    let mut i: usize = 0;
    while i < n
        invariant
            n == value@.len(),
            i <= n,
            out@ =~= value@.subrange(0, i as int).map_values(|c: char| ascii_upper(c)),
        decreases n - i,
    {
        let c = value.get_char(i);
        let u = if 'a' <= c && c <= 'z' {
            ((c as u8) - 32) as char
        } else {
            c
        };
        out.push(u);
        i = i + 1;
    }
    assert(value@.subrange(0, n as int) =~= value@);
    out
}

/// Parses a version label, ignoring ASCII case: `HTTP/1.1` or `1.1`, and for
/// the versions 2 and 3 also `HTTP/2.0` or `2.0` and the like.
pub fn parse_version(version: &str) -> (r: Result<HttpVersion, LabelError>)
    ensures
        r == match version_named(version@.map_values(|c: char| ascii_upper(c))) {
            Some(v) => Ok(v),
            None => Err(LabelError::Unsupported),
        },
{
    let u = upper_chars(version);
    if is_label(&u, "HTTP/0.9") || is_label(&u, "0.9") {
        Ok(HttpVersion::Http09)
    } else if is_label(&u, "HTTP/1.0") || is_label(&u, "1.0") {
        Ok(HttpVersion::Http10)
    } else if is_label(&u, "HTTP/1.1") || is_label(&u, "1.1") {
        Ok(HttpVersion::Http11)
    } else if is_label(&u, "HTTP/2") || is_label(&u, "2") || is_label(&u, "HTTP/2.0") || is_label(
        &u,
        "2.0",
    ) {
        Ok(HttpVersion::Http2)
    } else if is_label(&u, "HTTP/3") || is_label(&u, "3") || is_label(&u, "HTTP/3.0") || is_label(
        &u,
        "3.0",
    ) {
        Ok(HttpVersion::Http3)
    } else {
        Err(LabelError::Unsupported)
    }
}

/// The canonical label of a version, such as `HTTP/1.1`.
pub fn format_version(version: HttpVersion) -> (r: String)
    ensures
        r@ == version_label(version),
{
    match version {
        HttpVersion::Http09 => "HTTP/0.9".to_owned(),
        HttpVersion::Http10 => "HTTP/1.0".to_owned(),
        HttpVersion::Http11 => "HTTP/1.1".to_owned(),
        HttpVersion::Http2 => "HTTP/2".to_owned(),
        HttpVersion::Http3 => "HTTP/3".to_owned(),
    }
}

/// TLS protocol versions.
#[derive(Clone, Copy, Debug, PartialEq, Eq, Structural)]
pub enum TlsVersion {
    Tls10,
    Tls11,
    Tls12,
    Tls13,
}

/// The TLS version that an upper-cased label names.
pub open spec fn tls_version_named(u: Seq<char>) -> Option<TlsVersion> {
    if u == "TLS1.0"@ || u == "TLS1"@ || u == "1.0"@ {
        Some(TlsVersion::Tls10)
    } else if u == "TLS1.1"@ || u == "1.1"@ {
        Some(TlsVersion::Tls11)
    } else if u == "TLS1.2"@ || u == "1.2"@ {
        Some(TlsVersion::Tls12)
    } else if u == "TLS1.3"@ || u == "1.3"@ {
        Some(TlsVersion::Tls13)
    } else {
        None
    }
}

/// Parses a TLS version label, ignoring ASCII case: `TLS1.2` or `1.2`, and
/// `TLS1` for version 1.0.
pub fn parse_tls_version(value: &str) -> (r: Result<TlsVersion, LabelError>)
    ensures
        r == match tls_version_named(value@.map_values(|c: char| ascii_upper(c))) {
            Some(v) => Ok(v),
            None => Err(LabelError::Unsupported),
        },
{
    let u = upper_chars(value);
    if is_label(&u, "TLS1.0") || is_label(&u, "TLS1") || is_label(&u, "1.0") {
        Ok(TlsVersion::Tls10)
    } else if is_label(&u, "TLS1.1") || is_label(&u, "1.1") {
        Ok(TlsVersion::Tls11)
    } else if is_label(&u, "TLS1.2") || is_label(&u, "1.2") {
        Ok(TlsVersion::Tls12)
    } else if is_label(&u, "TLS1.3") || is_label(&u, "1.3") {
        Ok(TlsVersion::Tls13)
    } else {
        Err(LabelError::Unsupported)
    }
}

/// How redirects are followed.
#[derive(Clone, Copy, Debug, PartialEq, Eq, Structural)]
pub enum RedirectPolicy {
    /// Redirects are not followed.
    Off,
    /// At most this many redirects are followed.
    Limited(usize),
    /// The transport's default policy.
    Default,
}

/// The redirect policy that the options ask for, or `None` to leave the
/// transport's setting alone: redirects off when disallowed; when allowed, at
/// most `max_redirects` of them, or the default when no limit is given. A
/// limit without `allow_redirects` is ignored.
pub fn redirect_policy(allow_redirects: Option<bool>, max_redirects: Option<usize>) -> (r: Option<
    RedirectPolicy,
>)
    ensures
        r == match allow_redirects {
            None => None,
            Some(false) => Some(RedirectPolicy::Off),
            Some(true) => Some(
                match max_redirects {
                    Some(n) => RedirectPolicy::Limited(n),
                    None => RedirectPolicy::Default,
                },
            ),
        },
{
    match allow_redirects {
        None => None,
        Some(false) => Some(RedirectPolicy::Off),
        Some(true) => match max_redirects {
            Some(n) => Some(RedirectPolicy::Limited(n)),
            None => Some(RedirectPolicy::Default),
        },
    }
}

} // verus!
