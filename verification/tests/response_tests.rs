use http_serv::http_structs::{HttpData, HttpResponse};
use http_serv::status::HttpStatus;

#[test]
pub fn response_headers() {
    let response = HttpResponse::new("2".to_string(), HttpStatus::Okay, None, None);
    assert_eq!(response.to_headers().join("\r\n"), String::from("HTTP/2 200 OK\r\n\r\n"))
}

#[test]
pub fn response_headers_with_payload() {
    let data = HttpData::new(vec![b't', b'e', b's', b't']);
    let response = HttpResponse::new("2".to_string(), HttpStatus::IMATeapot, None, Some(data));
    assert_eq!(
        response.to_headers().join("\r\n"),
        String::from("HTTP/2 418 I'm a teapot\r\nContent-Length: 4\r\n\r\n")
    );
}

#[test]
fn response_headers_with_extra_headers() {
    let response = HttpResponse::new(
        "1.1".to_string(),
        HttpStatus::MovedPermanently,
        Some(vec![("Location".to_string(), "/new".to_string())]),
        None,
    );
    assert_eq!(
        response.to_headers().join("\r\n"),
        "HTTP/1.1 301 Moved Permanently\r\nLocation: /new\r\n\r\n"
    );
}

#[test]
fn response_content_length_precedes_extra_headers() {
    let response = HttpResponse::new(
        "1.1".to_string(),
        HttpStatus::Okay,
        Some(vec![("X-One".to_string(), "1".to_string()), ("X-Two".to_string(), "2".to_string())]),
        Some(HttpData::new(vec![1, 2, 3])),
    );
    assert_eq!(
        response.to_headers(),
        vec![
            "HTTP/1.1 200 OK".to_string(),
            "Content-Length: 3".to_string(),
            "X-One: 1".to_string(),
            "X-Two: 2".to_string(),
            "\r\n".to_string(),
        ]
    );
}

#[test]
fn response_default_is_empty_ok() {
    let response = HttpResponse::default();
    assert_eq!(response.http_ver, "1.1");
    assert_eq!(response.status.code(), 200);
    assert!(response.extra_headers.is_none());
    assert!(response.data.is_none());
}

#[test]
fn response_get_extra_header_first_match() {
    let response = HttpResponse::new(
        "1.1".to_string(),
        HttpStatus::Okay,
        Some(vec![
            ("A".to_string(), "1".to_string()),
            ("A".to_string(), "2".to_string()),
            ("B".to_string(), "3".to_string()),
        ]),
        None,
    );
    assert_eq!(response.get_extra_header("A".to_string()), Some("1".to_string()));
    assert_eq!(response.get_extra_header("B".to_string()), Some("3".to_string()));
    assert_eq!(response.get_extra_header("C".to_string()), None);
    let bare = HttpResponse::new("1.1".to_string(), HttpStatus::Okay, None, None);
    assert_eq!(bare.get_extra_header("A".to_string()), None);
}

#[test]
fn data_to_header_gives_byte_length() {
    assert_eq!(HttpData::new(Vec::new()).to_header(), "Content-Length: 0");
    assert_eq!(HttpData::new(vec![7u8; 1234]).to_header(), "Content-Length: 1234");
}

#[test]
fn status_codes_round_trip() {
    let samples = [
        (HttpStatus::Continue, 100),
        (HttpStatus::Okay, 200),
        (HttpStatus::IMUsed, 226),
        (HttpStatus::Unused, 306),
        (HttpStatus::NotFound, 404),
        (HttpStatus::IMATeapot, 418),
        (HttpStatus::UnavailableForLegalReasons, 451),
        (HttpStatus::NotImplemented, 501),
        (HttpStatus::NotExtended, 510),
        (HttpStatus::NetworkAuthenticationRequired, 511),
    ];
    for (status, code) in samples {
        assert_eq!(status.code(), code);
        assert_eq!(HttpStatus::from_code(code as u64), Some(status));
    }
}

#[test]
fn status_from_code_rejects_unknown_codes() {
    assert_eq!(HttpStatus::from_code(0), None);
    assert_eq!(HttpStatus::from_code(99), None);
    assert_eq!(HttpStatus::from_code(209), None);
    assert_eq!(HttpStatus::from_code(420), None);
    assert_eq!(HttpStatus::from_code(509), None);
    assert_eq!(HttpStatus::from_code(512), None);
}

#[test]
fn status_enumeration_is_a_bijection_with_codes() {
    let mut count = 0;
    let mut seen_headers: Vec<String> = Vec::new();
    for code in 0u64..600 {
        if let Some(status) = HttpStatus::from_code(code) {
            assert_eq!(status.code() as u64, code);
            let header =
                HttpResponse::new("1.1".to_string(), status, None, None).status_to_header();
            assert!(header.starts_with(&code.to_string()));
            assert!(!seen_headers.contains(&header));
            seen_headers.push(header);
            count += 1;
        }
    }
    assert_eq!(count, 63);
}

#[test]
fn status_reason_strings_are_fixed() {
    let ok = HttpResponse::new("1.1".to_string(), HttpStatus::Okay, None, None);
    assert_eq!(ok.status_to_header(), "200 OK");
    let teapot = HttpResponse::new("1.1".to_string(), HttpStatus::IMATeapot, None, None);
    assert_eq!(teapot.status_to_header(), "418 I'm a teapot");
    let netauth =
        HttpResponse::new("1.1".to_string(), HttpStatus::NetworkAuthenticationRequired, None, None);
    assert_eq!(netauth.status_to_header(), "511 Network Authentication Required");
    let notfound = HttpResponse::new("1.1".to_string(), HttpStatus::NotFound, None, None);
    assert_eq!(notfound.status_to_header(), "404 Not Found");
}
