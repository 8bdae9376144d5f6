use led_control::actuator::ActuatorState;
use led_control::http::{find_crlf, find_double_crlf, parse_request_line, render_response, respond_to_line};
use led_control::routing::{ContentType, Method, Response, RouteTable};

#[test]
fn request_line_get_root() {
    let r = parse_request_line(b"GET / HTTP/1.1").expect("well-formed line");
    assert_eq!(r.method, Method::Get);
    assert_eq!(r.path, b"/".to_vec());
}

#[test]
fn request_line_get_toggle() {
    let r = parse_request_line(b"GET /toggle_led/1 HTTP/1.1").expect("well-formed line");
    assert_eq!(r.method, Method::Get);
    assert_eq!(r.path, b"/toggle_led/1".to_vec());
}

#[test]
fn request_line_other_method() {
    let r = parse_request_line(b"POST /index.css HTTP/1.1").expect("well-formed line");
    assert_eq!(r.method, Method::Other);
    assert_eq!(r.path, b"/index.css".to_vec());
}

#[test]
fn request_line_malformed() {
    assert!(parse_request_line(b"").is_none());
    assert!(parse_request_line(b"GET").is_none());
    assert!(parse_request_line(b"GET /").is_none());
    assert!(parse_request_line(b"GET / ").is_none());
    assert!(parse_request_line(b" GET / HTTP/1.1").is_none());
    assert!(parse_request_line(b"GET  / HTTP/1.1").is_none());
    assert!(parse_request_line(b"GET / HTTP/1.1 extra").is_none());
}

#[test]
fn crlf_search() {
    assert_eq!(find_crlf(b"GET / HTTP/1.1\r\nHost: x\r\n\r\n"), Some(14));
    assert_eq!(find_crlf(b"\r\n"), Some(0));
    assert_eq!(find_crlf(b"no line end"), None);
    assert_eq!(find_crlf(b""), None);
    assert_eq!(find_crlf(b"\r"), None);
    assert_eq!(find_crlf(b"a\rb\nc"), None);
}

#[test]
fn render_ok_html() {
    let resp = Response {
        status: 200,
        content_type: ContentType::Html,
        body: b"Hi".to_vec(),
    };
    let bytes = render_response(&resp);
    let expected: &[u8] =
        b"HTTP/1.1 200 OK\r\nContent-Type: text/html\r\nContent-Length: 2\r\n\r\nHi";
    assert_eq!(bytes, expected.to_vec());
}

#[test]
fn render_not_found() {
    let resp = Response {
        status: 404,
        content_type: ContentType::Plain,
        body: b"Not Found".to_vec(),
    };
    let bytes = render_response(&resp);
    let expected: &[u8] =
        b"HTTP/1.1 404 Not Found\r\nContent-Type: text/plain\r\nContent-Length: 9\r\n\r\nNot Found";
    assert_eq!(bytes, expected.to_vec());
}

#[test]
fn render_bad_request() {
    let resp = Response {
        status: 400,
        content_type: ContentType::Plain,
        body: b"Bad Request".to_vec(),
    };
    let bytes = render_response(&resp);
    let expected: &[u8] = b"HTTP/1.1 400 Bad Request\r\nContent-Type: text/plain\r\nContent-Length: 11\r\n\r\nBad Request";
    assert_eq!(bytes, expected.to_vec());
}

#[test]
fn double_crlf_search() {
    assert_eq!(find_double_crlf(b"GET / HTTP/1.1\r\nHost: x\r\n\r\n"), Some(23));
    assert_eq!(find_double_crlf(b"\r\n\r\n"), Some(0));
    assert_eq!(find_double_crlf(b"GET / HTTP/1.1\r\n"), None);
    assert_eq!(find_double_crlf(b""), None);
}

#[test]
fn respond_serves_a_whole_request_line() {
    let table = RouteTable::standard(b"<p>hi</p>".to_vec(), Vec::new(), Vec::new());
    let mut state = ActuatorState::new(true);
    let out = respond_to_line(&table, b"GET /toggle_led/1 HTTP/1.1", &mut state);
    let expected: &[u8] =
        b"HTTP/1.1 200 OK\r\nContent-Type: text/plain\r\nContent-Length: 3\r\n\r\nOFF";
    assert_eq!(out, expected.to_vec());
    assert!(!state.get());
    let out = respond_to_line(&table, b"GET / HTTP/1.1", &mut state);
    let expected: &[u8] =
        b"HTTP/1.1 200 OK\r\nContent-Type: text/html\r\nContent-Length: 9\r\n\r\n<p>hi</p>";
    assert_eq!(out, expected.to_vec());
}

#[test]
fn respond_rejects_a_malformed_line() {
    let table = RouteTable::standard(Vec::new(), Vec::new(), Vec::new());
    let mut state = ActuatorState::new(true);
    let out = respond_to_line(&table, b"nonsense", &mut state);
    let expected: &[u8] = b"HTTP/1.1 400 Bad Request\r\nContent-Type: text/plain\r\nContent-Length: 11\r\n\r\nBad Request";
    assert_eq!(out, expected.to_vec());
    // a framing error never reaches the actuator
    assert!(state.get());
}

#[test]
fn render_empty_body() {
    let resp = Response {
        status: 200,
        content_type: ContentType::Javascript,
        body: Vec::new(),
    };
    let bytes = render_response(&resp);
    let expected: &[u8] =
        b"HTTP/1.1 200 OK\r\nContent-Type: application/javascript\r\nContent-Length: 0\r\n\r\n";
    assert_eq!(bytes, expected.to_vec());
}
