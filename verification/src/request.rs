//! Building the `CONNECT` request text.
//!
//! The request is a fixed template over host, port and optional credentials:
//! request line, `Host` header, `Proxy-Connection` header, an optional
//! `Proxy-Authorization` header, then the blank line ending the header block.

use crate::HttpError;
use vstd::prelude::*;
use vstd::string::StringExecFns;

verus! {

/// The decimal digit character for `d`, which must be below ten.
pub open spec fn digit_char(d: nat) -> char {
    if d == 0 {
        '0'
    } else if d == 1 {
        '1'
    } else if d == 2 {
        '2'
    } else if d == 3 {
        '3'
    } else if d == 4 {
        '4'
    } else if d == 5 {
        '5'
    } else if d == 6 {
        '6'
    } else if d == 7 {
        '7'
    } else if d == 8 {
        '8'
    } else {
        '9'
    }
}

/// The decimal rendering of `n`, without leading zeroes (a single `'0'` for
/// zero itself).
pub open spec fn dec_digits(n: nat) -> Seq<char>
    decreases n,
{
    if n < 10 {
        seq![digit_char(n)]
    } else {
        dec_digits(n / 10).push(digit_char(n % 10))
    }
}

/// Appends the decimal rendering of `v` to `out`.
fn push_decimal(out: &mut String, v: u16)
    ensures
        final(out)@ == old(out)@ + dec_digits(v as nat),
    decreases v,
{
    if v >= 10 {
        push_decimal(out, v / 10);
    }
    let d = v % 10;
    let digit: &str = if d == 0 {
        "0"
    } else if d == 1 {
        "1"
    } else if d == 2 {
        "2"
    } else if d == 3 {
        "3"
    } else if d == 4 {
        "4"
    } else if d == 5 {
        "5"
    } else if d == 6 {
        "6"
    } else if d == 7 {
        "7"
    } else if d == 8 {
        "8"
    } else {
        "9"
    };
    proof {
        reveal_strlit("0");
        reveal_strlit("1");
        reveal_strlit("2");
        reveal_strlit("3");
        reveal_strlit("4");
        reveal_strlit("5");
        reveal_strlit("6");
        reveal_strlit("7");
        reveal_strlit("8");
        reveal_strlit("9");
        assert(digit@ =~= seq![digit_char(d as nat)]);
    }
    out.append(digit);
    proof {
        assert(out@ =~= old(out)@ + dec_digits(v as nat));
    }
}

/// The request line and the two fixed headers, for `host` and `port`.
pub open spec fn request_head_spec(host: Seq<char>, port: u16) -> Seq<char> {
    "CONNECT "@ + host + ":"@ + dec_digits(port as nat) + " HTTP/1.1\r\nHost: "@ + host + ":"@
        + dec_digits(port as nat) + "\r\nProxy-Connection: Keep-Alive\r\n"@
}

/// The full request without a `Proxy-Authorization` header.
pub open spec fn request_without_auth_spec(host: Seq<char>, port: u16) -> Seq<char> {
    request_head_spec(host, port) + "\r\n"@
}

/// Builds the request line and the fixed headers, still missing the blank
/// line that ends the header block.
pub fn make_request(host: &str, port: u16) -> (r: String)
    ensures
        r@ == request_head_spec(host@, port),
{
    let mut r = String::new();
    r.append("CONNECT ");
    r.append(host);
    r.append(":");
    push_decimal(&mut r, port);
    r.append(" HTTP/1.1\r\nHost: ");
    r.append(host);
    r.append(":");
    push_decimal(&mut r, port);
    r.append("\r\nProxy-Connection: Keep-Alive\r\n");
    proof {
        assert(r@ =~= request_head_spec(host@, port));
    }
    r
}

/// Builds the complete request without credentials: the fixed template and
/// the terminating blank line, with no `Proxy-Authorization` header.
pub fn make_request_without_basic_auth(host: &str, port: u16) -> (r: String)
    ensures
        r@ == request_without_auth_spec(host@, port),
{
    let mut request = make_request(host, port);
    request.append("\r\n");
    request
}

/// The base64 text that the standard padded alphabet assigns to `bytes`.
pub uninterp spec fn base64_std_of(bytes: Seq<u8>) -> Seq<char>;

/// Relies on base64's `Engine::encode` with the padded `STANDARD` engine: it
/// encodes the input bytes with the standard alphabet, padded, without line
/// wrapping, as a pure function of the input bytes.
#[verifier::external_body]
fn base64_encode(bytes: &[u8]) -> (r: String)
    ensures
        r@ == base64_std_of(bytes@),
{
    base64::Engine::encode(&base64::engine::general_purpose::STANDARD, bytes)
}

/// The UTF-8 bytes of `username:password`.
pub open spec fn userinfo_bytes(username: Seq<char>, password: Seq<char>) -> Seq<u8> {
    vstd::utf8::encode_utf8(username + ":"@ + password)
}

/// The base64 value carried after `Basic ` in the authorization header.
pub open spec fn auth_value_spec(username: Seq<char>, password: Seq<char>) -> Seq<char> {
    base64_std_of(userinfo_bytes(username, password))
}

/// The whole `Proxy-Authorization` header line, terminator included.
pub open spec fn auth_line_spec(username: Seq<char>, password: Seq<char>) -> Seq<char> {
    "Proxy-Authorization: Basic "@ + auth_value_spec(username, password) + "\r\n"@
}

/// The full request with a `Proxy-Authorization` header.
pub open spec fn request_with_auth_spec(
    host: Seq<char>,
    port: u16,
    username: Seq<char>,
    password: Seq<char>,
) -> Seq<char> {
    request_head_spec(host, port) + auth_line_spec(username, password) + "\r\n"@
}

/// Builds the `Proxy-Authorization` header line: `Basic ` followed by the
/// base64 encoding of exactly `username:password`.
pub fn get_proxy_authorization(username: &str, password: &str) -> (r: String)
    ensures
        r@ == auth_line_spec(username@, password@),
{
    let mut joined = String::new();
    joined.append(username);
    joined.append(":");
    joined.append(password);
    proof {
        assert(joined@ =~= username@ + ":"@ + password@);
    }
    let encoded = base64_encode(joined.as_str().as_bytes());
    let mut r = String::new();
    r.append("Proxy-Authorization: Basic ");
    r.append(encoded.as_str());
    r.append("\r\n");
    proof {
        assert(r@ =~= auth_line_spec(username@, password@));
    }
    r
}

/// Builds the complete request with credentials: the fixed template, the
/// `Proxy-Authorization` header, and the terminating blank line.
pub fn make_request_with_basic_auth(
    host: &str,
    port: u16,
    username: &str,
    password: &str,
) -> (r: String)
    ensures
        r@ == request_with_auth_spec(host@, port, username@, password@),
{
    let mut request = make_request(host, port);
    let proxy_authorization = get_proxy_authorization(username, password);
    request.append(proxy_authorization.as_str());
    request.append("\r\n");
    proof {
        assert(request@ =~= request_with_auth_spec(host@, port, username@, password@));
    }
    request
}

/// Basic authorization credentials for the proxy.
pub struct Credentials {
    pub username: String,
    pub password: String,
}

/// The components the request builder reads from an already-parsed URL:
/// scheme, authority host, explicit port, and the userinfo credentials. The
/// username is always present (possibly empty); the password may be absent.
pub struct UrlParts {
    pub scheme: String,
    pub host: Option<String>,
    pub port: Option<u16>,
    pub username: String,
    pub password: Option<String>,
}

/// A resolved destination for the `CONNECT` request: a non-empty host, a
/// port, and optional credentials.
pub struct ConnectTarget {
    pub host: String,
    pub port: u16,
    pub credentials: Option<Credentials>,
}

/// The well-known default port of `scheme`, if it has one.
pub open spec fn default_port_spec(scheme: Seq<char>) -> Option<u16> {
    if scheme == "http"@ {
        Some(80u16)
    } else if scheme == "https"@ {
        Some(443u16)
    } else {
        None
    }
}

/// Returns the well-known default port of `scheme`, if it has one.
pub fn default_port(scheme: &String) -> (r: Option<u16>)
    ensures
        r == default_port_spec(scheme@),
{
    let http = String::from_str("http");
    let https = String::from_str("https");
    if *scheme == http {
        Some(80)
    } else if *scheme == https {
        Some(443)
    } else {
        None
    }
}

/// The port a URL resolves to: its explicit port, or else its scheme's
/// well-known default port.
pub open spec fn resolved_port_spec(url: UrlParts) -> Option<u16> {
    match url.port {
        Some(p) => Some(p),
        None => default_port_spec(url.scheme@),
    }
}

/// The request text a URL determines, if its host and port resolve: with an
/// authorization header exactly when the URL carries a password.
pub open spec fn url_request_spec(url: UrlParts) -> Option<Seq<char>> {
    match url.host {
        None => None,
        Some(h) => match resolved_port_spec(url) {
            None => None,
            Some(p) => Some(
                match url.password {
                    Some(pw) => request_with_auth_spec(h@, p, url.username@, pw@),
                    None => request_without_auth_spec(h@, p),
                },
            ),
        },
    }
}

/// Resolves a URL to a connect target. Fails with `NoHost` when the URL has
/// no host, and with `NoPort` when it has neither an explicit port nor a
/// scheme with a known default port. Credentials are taken only when the URL
/// carries a password.
pub fn target_from_url(url: &UrlParts) -> (r: Result<ConnectTarget, HttpError>)
    ensures
        match url.host {
            None => r matches Err(HttpError::NoHost),
            Some(h) => match resolved_port_spec(*url) {
                None => r matches Err(HttpError::NoPort),
                Some(p) => r matches Ok(t) && t.host == h && t.port == p && (match url.password {
                    Some(pw) => t.credentials matches Some(c) && c.username == url.username
                        && c.password == pw,
                    None => t.credentials is None,
                }),
            },
        },
{
    let host = match &url.host {
        Some(h) => h.clone(),
        None => {
            return Err(HttpError::NoHost);
        },
    };
    let port = match url.port {
        Some(p) => p,
        None => {
            match default_port(&url.scheme) {
                Some(p) => p,
                None => {
                    return Err(HttpError::NoPort);
                },
            }
        },
    };
    let credentials = match &url.password {
        Some(pw) => Some(
            Credentials { username: url.username.clone(), password: pw.clone() },
        ),
        None => None,
    };
    Ok(ConnectTarget { host, port, credentials })
}

/// The request text a connect target determines.
pub open spec fn request_of_target_spec(t: ConnectTarget) -> Seq<char> {
    match t.credentials {
        None => request_without_auth_spec(t.host@, t.port),
        Some(c) => request_with_auth_spec(t.host@, t.port, c.username@, c.password@),
    }
}

/// Builds the complete request for a resolved target.
pub fn build_request(target: &ConnectTarget) -> (r: String)
    ensures
        r@ == request_of_target_spec(*target),
{
    match &target.credentials {
        None => make_request_without_basic_auth(target.host.as_str(), target.port),
        Some(c) => make_request_with_basic_auth(
            target.host.as_str(),
            target.port,
            c.username.as_str(),
            c.password.as_str(),
        ),
    }
}

/// Builds the complete request from a URL, resolving host, port and
/// credentials first.
pub fn make_request_from_url(url: &UrlParts) -> (r: Result<String, HttpError>)
    ensures
        match url_request_spec(*url) {
            Some(text) => r matches Ok(s) && s@ == text,
            None => (if url.host is None {
                r matches Err(HttpError::NoHost)
            } else {
                r matches Err(HttpError::NoPort)
            }),
        },
{
    let target = match target_from_url(url) {
        Ok(t) => t,
        Err(e) => {
            return Err(e);
        },
    };
    Ok(build_request(&target))
}

/// Law: a URL whose authority names a host and a resolvable port, and whose
/// userinfo carries no password, determines exactly the request that the
/// explicit host/port builder produces for the same host and port.
pub proof fn lemma_url_request_matches_explicit(url: UrlParts, host: String, port: u16)
    requires
        url.host == Some(host),
        url.password is None,
        resolved_port_spec(url) == Some(port),
    ensures
        url_request_spec(url) == Some(request_without_auth_spec(host@, port)),
{
}

/// Law: a URL whose authority names a host and a resolvable port, and whose
/// userinfo carries a password, determines exactly the request that the
/// explicit builder with credentials produces for the same host, port,
/// username and password.
pub proof fn lemma_url_request_matches_explicit_with_auth(
    url: UrlParts,
    host: String,
    port: u16,
    password: String,
)
    requires
        url.host == Some(host),
        url.password == Some(password),
        resolved_port_spec(url) == Some(port),
    ensures
        url_request_spec(url) == Some(
            request_with_auth_spec(host@, port, url.username@, password@),
        ),
{
}

} // verus!
