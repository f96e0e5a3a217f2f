//! The worker's endpoint URL: normalising the configured one, turning it into
//! a host and port to probe, and checking URLs handed to the system browser.
use vstd::prelude::*;
use crate::text::{str_eq, trim, trimmed};
use vstd::string::*;

verus! {

/// The endpoint used when none, or no valid one, is configured.
pub const DEFAULT_BACKEND_URL: &'static str = "http://127.0.0.1:6185/";

/// The parts of a parsed URL that this library reads.
pub struct UrlParts {
    /// The URL as written back out.
    pub serialization: String,
    /// The scheme, lower-cased.
    pub scheme: String,
    pub host: Option<String>,
    /// The explicit port, else the scheme's well-known one.
    pub port: Option<u16>,
    pub path: String,
    /// The URL written back out after its path was set to `/`.
    pub rooted_serialization: String,
}

/// Whether `s` parses as an absolute URL.
pub uninterp spec fn url_parses(s: Seq<char>) -> bool;

/// The serialization of the URL that `s` parses to.
pub uninterp spec fn url_serialization(s: Seq<char>) -> Seq<char>;

/// The scheme of the URL that `s` parses to.
pub uninterp spec fn url_scheme(s: Seq<char>) -> Seq<char>;

/// The host of the URL that `s` parses to, if it has one.
pub uninterp spec fn url_host(s: Seq<char>) -> Option<Seq<char>>;

/// The port of the URL that `s` parses to, or its scheme's default.
pub uninterp spec fn url_port(s: Seq<char>) -> Option<u16>;

/// The path of the URL that `s` parses to.
pub uninterp spec fn url_path(s: Seq<char>) -> Seq<char>;

/// The serialization of the URL that `s` parses to, after its path is set to `/`.
pub uninterp spec fn url_rooted_serialization(s: Seq<char>) -> Seq<char>;

/// Relies on `url::Url::parse` for whether the input is a URL, and on the
/// accessors `as_str`, `scheme`, `host_str`, `port_or_known_default`, `path`
/// and `set_path` for its parts; the error is the parser's message.
#[verifier::external_body]
fn parse_url(input: &str) -> (r: Result<UrlParts, String>)
    ensures
        r is Ok <==> url_parses(input@),
        r matches Ok(p) ==> p.serialization@ == url_serialization(input@) && p.scheme@ == url_scheme(
            input@,
        ) && match p.host {
            Some(h) => url_host(input@) == Some(h@),
            None => url_host(input@).is_none(),
        } && p.port == url_port(input@) && p.path@ == url_path(input@)
            && p.rooted_serialization@ == url_rooted_serialization(input@),
{
    let u = url::Url::parse(input).map_err(|e| e.to_string())?;
    let mut rooted = u.clone();
    rooted.set_path("/");
    Ok(UrlParts {
        serialization: u.as_str().to_string(),
        scheme: u.scheme().to_string(),
        host: u.host_str().map(str::to_string),
        port: u.port_or_known_default(),
        path: u.path().to_string(),
        rooted_serialization: rooted.as_str().to_string(),
    })
}

/// The endpoint that a configured value stands for: blank or unparsable
/// values give the default; a URL with an empty path gets the path `/`.
pub open spec fn normalized_backend_url(raw: Seq<char>) -> Seq<char> {
    let t = trimmed(raw);
    if t.len() == 0 || !url_parses(t) {
        DEFAULT_BACKEND_URL@
    } else if url_path(t).len() == 0 {
        url_rooted_serialization(t)
    } else {
        url_serialization(t)
    }
}

/// Normalises a configured endpoint URL.
pub fn normalize_backend_url(raw: &str) -> (r: String)
    ensures
        r@ == normalized_backend_url(raw@),
{
    let t = trim(raw);
    if t.unicode_len() == 0 {
        return DEFAULT_BACKEND_URL.to_owned();
    }
    match parse_url(t) {
        Err(_) => DEFAULT_BACKEND_URL.to_owned(),
        Ok(p) => if p.path.as_str().unicode_len() == 0 {
            p.rooted_serialization
        } else {
            p.serialization
        },
    }
}

/// Where a readiness probe connects.
#[derive(Debug)]
pub struct ProbeTarget {
    pub host: String,
    pub port: u16,
}

/// Turns the endpoint URL into a host and port to connect to. A value that is
/// not a URL, or has no host, gives `None`: the endpoint counts as unreachable.
/// Without a known port, 80 is used.
pub fn probe_target(url: &str) -> (r: Option<ProbeTarget>)
    ensures
        !url_parses(url@) ==> r.is_none(),
        url_parses(url@) ==> match url_host(url@) {
            None => r.is_none(),
            Some(h) => r matches Some(t) && t.host@ == h && t.port == match url_port(url@) {
                Some(p) => p,
                None => 80u16,
            },
        },
{
    match parse_url(url) {
        Err(_) => None,
        Ok(p) => match p.host {
            None => None,
            Some(host) => {
                let port = match p.port {
                    Some(port) => port,
                    None => 80,
                };
                Some(ProbeTarget { host, port })
            },
        },
    }
}

/// The connect timeout of one probe: the requested one, at least 50 ms.
pub fn probe_timeout_ms(requested_ms: u64) -> (r: u64)
    ensures
        r == if requested_ms < 50 {
            50
        } else {
            requested_ms
        },
{
    if requested_ms < 50 {
        50
    } else {
        requested_ms
    }
}

/// Why a URL may not be handed to the system browser.
#[derive(Debug)]
pub enum OpenUrlError {
    /// The URL is blank.
    Missing,
    /// It does not parse; the parser's message.
    Invalid(String),
    /// Its scheme is neither `http` nor `https`.
    UnsupportedScheme(String),
}

/// The text of an error about a URL to open.
pub open spec fn open_url_error_text(e: OpenUrlError) -> Seq<char> {
    match e {
        OpenUrlError::Missing => "Missing external URL."@,
        OpenUrlError::Invalid(m) => "Invalid URL: "@ + m@,
        OpenUrlError::UnsupportedScheme(s) => "Unsupported URL scheme '"@ + s@
            + "', only http/https are allowed."@,
    }
}

impl OpenUrlError {
    /// The message reported to the caller.
    pub fn message(&self) -> (r: String)
        ensures
            r@ == open_url_error_text(*self),
    {
        match self {
            OpenUrlError::Missing => "Missing external URL.".to_owned(),
            OpenUrlError::Invalid(m) => {
                let mut s = "Invalid URL: ".to_owned();
                s.append(m.as_str());
                s
            },
            OpenUrlError::UnsupportedScheme(scheme) => {
                let mut s = "Unsupported URL scheme '".to_owned();
                s.append(scheme.as_str());
                s.append("', only http/https are allowed.");
                s
            },
        }
    }
}

/// Checks a URL before it is opened externally: it must parse and use
/// `http` or `https`. Returns the URL as the parser writes it.
pub fn parse_openable_url(raw_url: &str) -> (r: Result<String, OpenUrlError>)
    ensures
        trimmed(raw_url@).len() == 0 ==> r matches Err(OpenUrlError::Missing),
        trimmed(raw_url@).len() > 0 && !url_parses(trimmed(raw_url@)) ==> r matches Err(
            OpenUrlError::Invalid(_),
        ),
        trimmed(raw_url@).len() > 0 && url_parses(trimmed(raw_url@)) ==> {
            let scheme = url_scheme(trimmed(raw_url@));
            if scheme == "http"@ || scheme == "https"@ {
                r matches Ok(u) && u@ == url_serialization(trimmed(raw_url@))
            } else {
                r matches Err(OpenUrlError::UnsupportedScheme(s)) && s@ == scheme
            }
        },
{
    let t = trim(raw_url);
    if t.unicode_len() == 0 {
        return Err(OpenUrlError::Missing);
    }
    match parse_url(t) {
        Err(e) => Err(OpenUrlError::Invalid(e)),
        Ok(p) => if str_eq(p.scheme.as_str(), "http") || str_eq(p.scheme.as_str(), "https") {
            Ok(p.serialization)
        } else {
            Err(OpenUrlError::UnsupportedScheme(p.scheme))
        },
    }
}

} // verus!
