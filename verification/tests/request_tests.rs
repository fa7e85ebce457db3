use http_serv::http_structs::{HttpData, HttpHeaders, HttpMethod, HttpRequest};
use http_serv::server::{dispatch_plan, RouteTable};

fn lines(ls: &[&str]) -> Vec<String> {
    ls.iter().map(|l| l.to_string()).collect()
}

#[test]
fn parse_get_request_with_query() {
    let ls = lines(&["GET /a/b?x=1 HTTP/1.1", "Host: h"]);
    let (req, body_len) = HttpRequest::from_lines("127.0.0.1:9999".to_string(), &ls).unwrap();
    assert_eq!(req.http_headers.method, HttpMethod::GET);
    assert_eq!(req.http_headers.path, "/a/b?x=1");
    assert_eq!(req.http_headers.protocol, "HTTP/1.1");
    assert_eq!(req.extra_headers, vec![("Host".to_string(), "h".to_string())]);
    assert!(body_len.is_none());
    assert!(req.data.is_none());
    assert!(req.route_params.is_none());
    assert!(req.query_params.is_none());

    let routes = RouteTable::new();
    let plan = dispatch_plan(&routes, &req.http_headers.method, req.http_headers.path.as_str());
    assert_eq!(plan.route_path, "/a/b");
    assert_eq!(plan.query_params, Some(vec![("x".to_string(), "1".to_string())]));
    assert!(plan.matched.is_empty());
}

#[test]
fn request_line_parses_each_method() {
    let cases = [
        ("GET / HTTP/1.1", HttpMethod::GET),
        ("PUT /p HTTP/1.1", HttpMethod::PUT),
        ("POST /p HTTP/1.0", HttpMethod::POST),
        ("DELETE /p/q HTTP/2", HttpMethod::DELETE),
    ];
    for (line, method) in cases {
        let headers = HttpHeaders::from_line(line.to_string()).unwrap();
        assert_eq!(headers.method, method);
    }
    let headers = HttpHeaders::from_line("GET /a/b HTTP/1.1".to_string()).unwrap();
    assert_eq!(headers.path, "/a/b");
    assert_eq!(headers.protocol, "HTTP/1.1");
}

#[test]
fn request_line_errors() {
    assert_eq!(
        HttpHeaders::from_line("".to_string()).unwrap_err(),
        "Could not fetch path from headers"
    );
    assert_eq!(
        HttpHeaders::from_line("GET".to_string()).unwrap_err(),
        "Could not fetch path from headers"
    );
    assert_eq!(
        HttpHeaders::from_line("GET /".to_string()).unwrap_err(),
        "Failed to fetch method, got no method"
    );
    assert_eq!(
        HttpHeaders::from_line("FETCH / HTTP/1.1".to_string()).unwrap_err(),
        "Failed to fetch method, got: FETCH"
    );
}

#[test]
fn malformed_header_line_skipped() {
    let ls = lines(&["GET / HTTP/1.1", "garbage-without-colon", "Host: h", "Accept: */*"]);
    let (req, body_len) = HttpRequest::from_lines("c".to_string(), &ls).unwrap();
    assert_eq!(
        req.extra_headers,
        vec![("Host".to_string(), "h".to_string()), ("Accept".to_string(), "*/*".to_string())]
    );
    assert!(body_len.is_none());
}

#[test]
fn header_whitespace_trimmed() {
    let ls = lines(&["GET / HTTP/1.1", "  Host :   some value  "]);
    let (req, _) = HttpRequest::from_lines("c".to_string(), &ls).unwrap();
    assert_eq!(req.extra_headers, vec![("Host".to_string(), "some value".to_string())]);
}

#[test]
fn empty_line_ends_header_section() {
    let ls = lines(&["GET / HTTP/1.1", "A: 1", "", "B: 2"]);
    let (req, _) = HttpRequest::from_lines("c".to_string(), &ls).unwrap();
    assert_eq!(req.extra_headers, vec![("A".to_string(), "1".to_string())]);
}

#[test]
fn content_length_announces_body() {
    let ls = lines(&["POST /x HTTP/1.1", "Content-Length: 4"]);
    let (req, body_len) = HttpRequest::from_lines("c".to_string(), &ls).unwrap();
    assert_eq!(body_len, Some(4));
    assert_eq!(req.get_extra_header("Content-Length".to_string()), Some("4".to_string()));
    assert!(req.data.is_none());
}

#[test]
fn unparseable_content_length_skips_body() {
    let ls = lines(&["POST /x HTTP/1.1", "Content-Length: abc"]);
    let (req, body_len) = HttpRequest::from_lines("c".to_string(), &ls).unwrap();
    assert_eq!(body_len, None);
    assert_eq!(req.get_extra_header("Content-Length".to_string()), Some("abc".to_string()));
    let huge = lines(&["POST /x HTTP/1.1", "Content-Length: 99999999999999999999999999999"]);
    let (_, body_len) = HttpRequest::from_lines("c".to_string(), &huge).unwrap();
    assert_eq!(body_len, None);
}

#[test]
fn bad_request_line_fails_from_lines() {
    let ls = lines(&["FETCH / HTTP/1.1", "Host: h"]);
    let err = HttpRequest::from_lines("c".to_string(), &ls).unwrap_err();
    assert_eq!(err, "Failed to fetch method, got: FETCH");
    let none: Vec<String> = Vec::new();
    assert!(HttpRequest::from_lines("c".to_string(), &none).is_err());
}

#[test]
fn query_params_split_on_first_equals() {
    let headers = HttpHeaders::new(HttpMethod::GET, "/".to_string(), "HTTP/1.1".to_string());
    let mut req = HttpRequest::new("c".to_string(), headers, Vec::new(), None, None, None);
    let params = req.query_params_from_string("a=1&a=2&junk&b=&c=x=y".to_string());
    assert_eq!(
        params,
        vec![
            ("a".to_string(), "1".to_string()),
            ("a".to_string(), "2".to_string()),
            ("b".to_string(), "".to_string()),
            ("c".to_string(), "x=y".to_string()),
        ]
    );
}

#[test]
fn param_getters_use_first_match() {
    let headers = HttpHeaders::new(HttpMethod::GET, "/t/v".to_string(), "HTTP/1.1".to_string());
    let req = HttpRequest::new(
        "c".to_string(),
        headers,
        vec![("Content-Length".to_string(), "5".to_string())],
        Some(HttpData::new(vec![1, 2, 3, 4, 5])),
        Some(vec![(":var".to_string(), "value".to_string())]),
        Some(vec![("q".to_string(), "1".to_string()), ("q".to_string(), "2".to_string())]),
    );
    assert_eq!(req.get_extra_header("Content-Length".to_string()), Some("5".to_string()));
    assert_eq!(req.get_extra_header("Missing".to_string()), None);
    assert_eq!(req.get_route_param(":var".to_string()), Some("value".to_string()));
    assert_eq!(req.get_route_param(":other".to_string()), None);
    assert_eq!(req.get_query_param("q".to_string()), Some("1".to_string()));
    assert_eq!(req.get_query_param("missing".to_string()), None);

    let bare = HttpRequest::new(
        "c".to_string(),
        HttpHeaders::new(HttpMethod::GET, "/".to_string(), "HTTP/1.1".to_string()),
        Vec::new(),
        None,
        None,
        None,
    );
    assert_eq!(bare.get_route_param(":var".to_string()), None);
    assert_eq!(bare.get_query_param("q".to_string()), None);
}
