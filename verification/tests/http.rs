use shelly::http::{http_200_response, http_404_response, parse_request_path, resolve_name};

#[test]
fn parses_the_path_of_a_request_line() {
    assert_eq!(parse_request_path("GET /index HTTP/1.1\r\nHost: x\r\n\r\n"), "/index");
}

#[test]
fn a_request_without_a_path_asks_for_the_root() {
    assert_eq!(parse_request_path("GET"), "/");
    assert_eq!(parse_request_path(""), "/");
    assert_eq!(parse_request_path("GET\r\nHost: example\r\n"), "/");
}

#[test]
fn not_found_response_announces_the_body_length() {
    assert_eq!(
        http_404_response("404 Not Found."),
        "HTTP/1.1 404 NOT FOUND\r\nContent-Length: 14\r\n\r\n404 Not Found."
    );
}

#[test]
fn success_response_carries_the_bytes() {
    assert_eq!(
        http_200_response(b"hello"),
        b"HTTP/1.1 200 OK\r\nContent-Length: 5\r\n\r\nhello".to_vec()
    );
}

#[test]
fn root_resolves_to_index() {
    assert_eq!(resolve_name("/"), "index");
    assert_eq!(resolve_name(""), "index");
    assert_eq!(resolve_name("/logo.png"), "logo.png");
    assert_eq!(resolve_name("//logo.png"), "/logo.png");
}

#[test]
fn the_path_is_the_second_word_of_the_first_line() {
    assert_eq!(parse_request_path("  GET   /a/b?c=d   HTTP/1.1  "), "/a/b?c=d");
    assert_eq!(parse_request_path("GET\t/tab\tHTTP/1.1"), "/tab");
    assert_eq!(parse_request_path("GET /x"), "/x");
    assert_eq!(parse_request_path("GET /x\nPOST /y"), "/x");
    assert_eq!(parse_request_path("\nGET /x"), "/");
    assert_eq!(parse_request_path("GET \u{a0}/nbsp"), "/nbsp");
    assert_eq!(parse_request_path("GET /caf\u{e9} HTTP/1.1"), "/caf\u{e9}");
    assert_eq!(parse_request_path("   "), "/");
}

#[test]
fn the_announced_length_counts_bytes() {
    assert_eq!(
        http_404_response("caf\u{e9}"),
        "HTTP/1.1 404 NOT FOUND\r\nContent-Length: 5\r\n\r\ncaf\u{e9}"
    );
    assert_eq!(http_404_response(""), "HTTP/1.1 404 NOT FOUND\r\nContent-Length: 0\r\n\r\n");
    let body = vec![0u8; 1234];
    let response = http_200_response(&body);
    assert!(response.starts_with(b"HTTP/1.1 200 OK\r\nContent-Length: 1234\r\n\r\n"));
    assert_eq!(response.len(), 41 + 1234);
}

#[test]
fn the_path_of_a_request_is_one_word() {
    for request in ["GET /a b", "GET\t/x\ty", "", " ", "GET  /\u{3000}z", "a b\nc d", "x\u{85}y z"] {
        let path = parse_request_path(request);
        assert!(!path.is_empty());
        assert!(!path.chars().any(|c| c.is_whitespace()));
    }
    assert_eq!(parse_request_path("x\u{85}y z"), "y");
}
