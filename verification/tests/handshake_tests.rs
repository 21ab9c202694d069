use async_http_proxy::request::make_request_without_basic_auth;
use async_http_proxy::response::check_response_lines;
use async_http_proxy::response::FeedOutcome;
use async_http_proxy::response::ResponseAccumulator;

// The whole handshake against a mock proxy: the client sends the fixed
// request for `example.org:443`, the proxy grants the tunnel, and the call
// succeeds without touching any byte after the header terminator.
#[test]
fn handshake_against_granting_proxy_succeeds() {
    let request = make_request_without_basic_auth("example.org", 443);
    assert_eq!(
        request,
        "CONNECT example.org:443 HTTP/1.1\r\nHost: example.org:443\r\nProxy-Connection: Keep-Alive\r\n\r\n"
    );

    // What the mock proxy sends back, split at the line reads the client
    // performs; everything after the blank line already belongs to the
    // tunnel and must stay unread.
    let mut acc = ResponseAccumulator::new();
    assert_eq!(
        acc.feed_line("HTTP/1.1 200 Connection Established\r\n"),
        FeedOutcome::Continue
    );
    assert_eq!(acc.feed_line("\r\n"), FeedOutcome::Complete);
    assert_eq!(acc.into_response(), "HTTP/1.1 200 Connection Established\r\n\r\n");

    let reply: Vec<String> = vec![
        "HTTP/1.1 200 Connection Established\r\n".to_string(),
        "\r\n".to_string(),
    ];
    assert!(check_response_lines(&reply).is_ok());
}
