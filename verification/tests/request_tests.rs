use async_http_proxy::request::build_request;
use async_http_proxy::request::default_port;
use async_http_proxy::request::get_proxy_authorization;
use async_http_proxy::request::make_request;
use async_http_proxy::request::make_request_from_url;
use async_http_proxy::request::make_request_with_basic_auth;
use async_http_proxy::request::make_request_without_basic_auth;
use async_http_proxy::request::target_from_url;
use async_http_proxy::request::Credentials;
use async_http_proxy::request::UrlParts;
use async_http_proxy::request::ConnectTarget;
use async_http_proxy::HttpError;
use base64::Engine;

#[test]
fn request_head_has_fixed_shape() {
    let head = make_request("example.org", 443);
    assert_eq!(
        head,
        "CONNECT example.org:443 HTTP/1.1\r\nHost: example.org:443\r\nProxy-Connection: Keep-Alive\r\n"
    );
}

#[test]
fn request_without_auth_matches_template() {
    let request = make_request_without_basic_auth("example.org", 443);
    assert_eq!(
        request,
        "CONNECT example.org:443 HTTP/1.1\r\nHost: example.org:443\r\nProxy-Connection: Keep-Alive\r\n\r\n"
    );
    assert!(!request.contains("Proxy-Authorization"));
}

#[test]
fn request_renders_edge_ports() {
    let low = make_request_without_basic_auth("h", 0);
    assert_eq!(low, "CONNECT h:0 HTTP/1.1\r\nHost: h:0\r\nProxy-Connection: Keep-Alive\r\n\r\n");
    let high = make_request_without_basic_auth("h", 65535);
    assert_eq!(
        high,
        "CONNECT h:65535 HTTP/1.1\r\nHost: h:65535\r\nProxy-Connection: Keep-Alive\r\n\r\n"
    );
}

#[test]
fn proxy_authorization_line_is_basic_base64() {
    let line = get_proxy_authorization("user", "pass");
    assert_eq!(line, "Proxy-Authorization: Basic dXNlcjpwYXNz\r\n");
}

#[test]
fn proxy_authorization_value_decodes_to_credentials() {
    let line = get_proxy_authorization("username", "password");
    let value = line
        .strip_prefix("Proxy-Authorization: Basic ")
        .unwrap()
        .strip_suffix("\r\n")
        .unwrap();
    let decoded = base64::engine::general_purpose::STANDARD
        .decode(value)
        .unwrap();
    assert_eq!(decoded, b"username:password");
}

#[test]
fn proxy_authorization_with_empty_credentials() {
    let line = get_proxy_authorization("", "");
    let value = line
        .strip_prefix("Proxy-Authorization: Basic ")
        .unwrap()
        .strip_suffix("\r\n")
        .unwrap();
    let decoded = base64::engine::general_purpose::STANDARD
        .decode(value)
        .unwrap();
    assert_eq!(decoded, b":");
}

#[test]
fn request_with_auth_matches_template() {
    let request = make_request_with_basic_auth("example.org", 443, "user", "pass");
    assert_eq!(
        request,
        "CONNECT example.org:443 HTTP/1.1\r\nHost: example.org:443\r\nProxy-Connection: Keep-Alive\r\nProxy-Authorization: Basic dXNlcjpwYXNz\r\n\r\n"
    );
}

#[test]
fn default_ports_of_known_schemes() {
    assert_eq!(default_port(&String::from("http")), Some(80));
    assert_eq!(default_port(&String::from("https")), Some(443));
    assert_eq!(default_port(&String::from("ftp")), None);
    assert_eq!(default_port(&String::from("")), None);
}

fn url(
    scheme: &str,
    host: Option<&str>,
    port: Option<u16>,
    username: &str,
    password: Option<&str>,
) -> UrlParts {
    UrlParts {
        scheme: scheme.to_string(),
        host: host.map(|h| h.to_string()),
        port,
        username: username.to_string(),
        password: password.map(|p| p.to_string()),
    }
}

#[test]
fn url_without_host_fails_with_no_host() {
    let u = url("http", None, Some(8080), "", None);
    assert!(matches!(target_from_url(&u), Err(HttpError::NoHost)));
    assert!(matches!(make_request_from_url(&u), Err(HttpError::NoHost)));
}

#[test]
fn url_without_resolvable_port_fails_with_no_port() {
    let u = url("gopher", Some("example.org"), None, "", None);
    assert!(matches!(target_from_url(&u), Err(HttpError::NoPort)));
    assert!(matches!(make_request_from_url(&u), Err(HttpError::NoPort)));
}

#[test]
fn url_explicit_port_wins_over_default() {
    let u = url("https", Some("example.org"), Some(8443), "", None);
    let target = target_from_url(&u).unwrap();
    assert_eq!(target.host, "example.org");
    assert_eq!(target.port, 8443);
    assert!(target.credentials.is_none());
}

#[test]
fn url_scheme_default_port_is_used() {
    let u = url("https", Some("example.org"), None, "", None);
    let target = target_from_url(&u).unwrap();
    assert_eq!(target.port, 443);
}

#[test]
fn url_username_without_password_emits_no_authorization() {
    let u = url("http", Some("example.org"), Some(8080), "user", None);
    let target = target_from_url(&u).unwrap();
    assert!(target.credentials.is_none());
    let request = make_request_from_url(&u).unwrap();
    assert!(!request.contains("Proxy-Authorization"));
}

#[test]
fn url_password_yields_credentials() {
    let u = url("http", Some("example.org"), Some(8080), "user", Some("pass"));
    let target = target_from_url(&u).unwrap();
    let credentials = target.credentials.unwrap();
    assert_eq!(credentials.username, "user");
    assert_eq!(credentials.password, "pass");
}

#[test]
fn url_request_round_trips_with_explicit_builder() {
    let u = url("https", Some("example.org"), Some(443), "", None);
    let from_url = make_request_from_url(&u).unwrap();
    let explicit = make_request_without_basic_auth("example.org", 443);
    assert_eq!(from_url, explicit);

    let with_default_port = url("https", Some("example.org"), None, "", None);
    assert_eq!(make_request_from_url(&with_default_port).unwrap(), explicit);
}

#[test]
fn url_request_round_trips_with_auth_builder() {
    let u = url("http", Some("example.org"), Some(80), "user", Some("pass"));
    let from_url = make_request_from_url(&u).unwrap();
    let explicit = make_request_with_basic_auth("example.org", 80, "user", "pass");
    assert_eq!(from_url, explicit);
}

#[test]
fn build_request_dispatches_on_credentials() {
    let plain = ConnectTarget { host: "h".to_string(), port: 1, credentials: None };
    assert_eq!(build_request(&plain), make_request_without_basic_auth("h", 1));
    let with_auth = ConnectTarget {
        host: "h".to_string(),
        port: 1,
        credentials: Some(Credentials {
            username: "u".to_string(),
            password: "p".to_string(),
        }),
    };
    assert_eq!(build_request(&with_auth), make_request_with_basic_auth("h", 1, "u", "p"));
}
