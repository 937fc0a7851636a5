//! Tests of the connection-dispatch core: request-line parsing, exact-match
//! routing, response formatting, and the worker's dispatch decision.

use web_server::dispatch::dispatch;
use web_server::request::parse_request;
use web_server::request::HttpRequestTypes;
use web_server::request::RequestError;
use web_server::response::http_response;
use web_server::routing::RoutingTable;

#[test]
fn parse_get_root() {
    let req = parse_request(b"GET / HTTP/1.1\r\n\r\n").unwrap();
    assert!(matches!(req.method, HttpRequestTypes::GET));
    assert_eq!(req.path, b"/".to_vec());
}

#[test]
fn parse_post_route() {
    let req = parse_request(b"POST /submit HTTP/1.1\r\n\r\n").unwrap();
    assert!(matches!(req.method, HttpRequestTypes::POST));
    assert_eq!(req.path, b"/submit".to_vec());
}

#[test]
fn parse_unknown_method_is_none() {
    let req = parse_request(b"PATCH /x HTTP/1.1").unwrap();
    assert!(matches!(req.method, HttpRequestTypes::NONE));
    assert_eq!(req.path, b"/x".to_vec());
}

#[test]
fn parse_lowercase_method_is_none() {
    let req = parse_request(b"get / HTTP/1.1").unwrap();
    assert!(matches!(req.method, HttpRequestTypes::NONE));
}

#[test]
fn parse_single_token_is_malformed() {
    let r = parse_request(b"GARBAGE");
    assert!(matches!(r, Err(RequestError::MalformedRequest)));
}

#[test]
fn parse_all_zero_buffer_is_malformed() {
    let buffer = vec![0u8; 1024];
    let r = parse_request(&buffer);
    assert!(matches!(r, Err(RequestError::MalformedRequest)));
}

#[test]
fn parse_double_space_gives_empty_path() {
    let req = parse_request(b"GET  HTTP/1.1").unwrap();
    assert!(matches!(req.method, HttpRequestTypes::GET));
    assert_eq!(req.path, Vec::<u8>::new());
}

#[test]
fn parse_line_without_third_token() {
    let req = parse_request(b"GET /").unwrap();
    assert!(matches!(req.method, HttpRequestTypes::GET));
    assert_eq!(req.path, b"/".to_vec());
}

#[test]
fn response_hello_world_exact_bytes() {
    let r = http_response(b"Hello World");
    assert_eq!(r, b"HTTP/1.1 200 OK\r\nContent-Length: 11\r\n\r\nHello World".to_vec());
}

#[test]
fn response_content_length_counts_bytes_not_chars() {
    let body = "h\u{e9}llo";
    assert_eq!(body.chars().count(), 5);
    assert_eq!(body.len(), 6);
    let r = http_response(body.as_bytes());
    let expected = format!("HTTP/1.1 200 OK\r\nContent-Length: 6\r\n\r\n{}", body);
    assert_eq!(r, expected.as_bytes().to_vec());
}

#[test]
fn response_empty_body() {
    let r = http_response(b"");
    assert_eq!(r, b"HTTP/1.1 200 OK\r\nContent-Length: 0\r\n\r\n".to_vec());
}

#[test]
fn response_multi_digit_length() {
    let body = vec![120u8; 1234];
    let r = http_response(&body);
    let mut expected = b"HTTP/1.1 200 OK\r\nContent-Length: 1234\r\n\r\n".to_vec();
    expected.extend(body);
    assert_eq!(r, expected);
}

#[test]
fn register_then_lookup_finds_handler() {
    let mut table: RoutingTable<u32> = RoutingTable::new();
    table.register(HttpRequestTypes::GET, b"/", 7);
    assert_eq!(table.lookup(HttpRequestTypes::GET, b"/"), Some(7));
}

#[test]
fn lookup_unregistered_path_finds_nothing() {
    let mut table: RoutingTable<u32> = RoutingTable::new();
    table.register(HttpRequestTypes::GET, b"/", 7);
    assert_eq!(table.lookup(HttpRequestTypes::GET, b"/missing"), None);
}

#[test]
fn lookup_does_not_mix_methods() {
    let mut table: RoutingTable<u32> = RoutingTable::new();
    table.register(HttpRequestTypes::GET, b"/", 1);
    assert_eq!(table.lookup(HttpRequestTypes::POST, b"/"), None);
}

#[test]
fn reregistering_replaces_the_handler() {
    let mut table: RoutingTable<u32> = RoutingTable::new();
    table.register(HttpRequestTypes::GET, b"/", 1);
    table.register(HttpRequestTypes::GET, b"/", 2);
    assert_eq!(table.lookup(HttpRequestTypes::GET, b"/"), Some(2));
}

#[test]
fn none_method_never_matches() {
    let mut table: RoutingTable<u32> = RoutingTable::new();
    table.register(HttpRequestTypes::GET, b"/", 1);
    table.register(HttpRequestTypes::POST, b"/", 2);
    assert_eq!(table.lookup(HttpRequestTypes::NONE, b"/"), None);
}

#[test]
fn dispatch_reaches_registered_route() {
    let mut table: RoutingTable<u32> = RoutingTable::new();
    table.register(HttpRequestTypes::GET, b"/", 7);
    assert_eq!(dispatch(&table, b"GET / HTTP/1.1\r\n\r\n"), Some(7));
}

#[test]
fn dispatch_missing_route_runs_nothing() {
    let mut table: RoutingTable<u32> = RoutingTable::new();
    table.register(HttpRequestTypes::GET, b"/", 7);
    assert_eq!(dispatch(&table, b"GET /missing HTTP/1.1\r\n\r\n"), None);
}

#[test]
fn dispatch_garbage_line_runs_nothing() {
    let mut table: RoutingTable<u32> = RoutingTable::new();
    table.register(HttpRequestTypes::GET, b"/", 7);
    assert_eq!(dispatch(&table, b"GARBAGE"), None);
}

#[test]
fn dispatch_unrecognized_method_runs_nothing() {
    let mut table: RoutingTable<u32> = RoutingTable::new();
    table.register(HttpRequestTypes::GET, b"/", 7);
    assert_eq!(dispatch(&table, b"PATCH / HTTP/1.1\r\n\r\n"), None);
}

#[test]
fn dispatch_zero_padded_read_buffer() {
    let mut table: RoutingTable<u32> = RoutingTable::new();
    table.register(HttpRequestTypes::GET, b"/", 7);
    let mut buffer = vec![0u8; 1024];
    let request = b"GET / HTTP/1.1\r\n\r\n";
    buffer[..request.len()].copy_from_slice(request);
    assert_eq!(dispatch(&table, &buffer), Some(7));
}

#[test]
fn dispatch_distinct_routes_no_cross_talk() {
    let mut table: RoutingTable<u32> = RoutingTable::new();
    table.register(HttpRequestTypes::GET, b"/a", 1);
    table.register(HttpRequestTypes::GET, b"/b", 2);
    table.register(HttpRequestTypes::POST, b"/a", 3);
    assert_eq!(dispatch(&table, b"GET /a HTTP/1.1\r\n\r\n"), Some(1));
    assert_eq!(dispatch(&table, b"GET /b HTTP/1.1\r\n\r\n"), Some(2));
    assert_eq!(dispatch(&table, b"POST /a HTTP/1.1\r\n\r\n"), Some(3));
}
