use dirty::http::body::Body;
use dirty::http::header::{ContentType, Header, HeaderMap};
use dirty::http::res::{decimal, Parsed, Response};
use dirty::http::status::Status;
use dirty::http::HttpError;

#[test]
fn response_is_read_from_a_message() {
    let raw = b"HTTP/1.1 200 OK\r\nContent-Length: 5\r\nContent-Type: text/plain\r\n\r\nhello";
    let res = Response::from_raw(raw).expect("response");
    assert_eq!(res.status(), Status::Success);
    assert_eq!(res.body().as_bytes(), b"hello");
    assert_eq!(res.headers().len(), 0);
}

#[test]
fn response_without_a_body_is_read() {
    let res = Response::from_raw(b"HTTP/1.1 404 Not Found\r\n\r\n").expect("response");
    assert_eq!(res.status(), Status::NotFound);
    assert_eq!(res.body().len(), 0);
}

#[test]
fn message_that_ends_early_is_incomplete() {
    assert!(matches!(Response::from_raw(b"HTTP/1.1 200 OK\r\nContent-"), Err(HttpError::Incomplete)));
    assert!(matches!(Response::from_raw(b"HTTP/1.1 200 OK\r\n"), Err(HttpError::Incomplete)));
    assert!(matches!(Response::from_raw(b""), Err(HttpError::Incomplete)));
}

#[test]
fn message_that_is_no_response_is_malformed() {
    assert!(matches!(
        Response::from_raw(b"GET / HTTP/1.1\r\n\r\n"),
        Err(HttpError::Malformed(httparse::Error::Version))
    ));
    assert!(matches!(
        Response::from_raw(b"HTTP/1.1 2x0 OK\r\n\r\n"),
        Err(HttpError::Malformed(httparse::Error::Status))
    ));
}

#[test]
fn response_with_an_unknown_status_is_refused() {
    assert!(matches!(
        Response::from_raw(b"HTTP/1.1 299 Odd\r\n\r\n"),
        Err(HttpError::UnknownStatus(299))
    ));
}

#[test]
fn parsed_head_decides_what_is_read() {
    let raw = b"0123456789";
    let res = Response::from_parsed(raw, Parsed::Complete { len: 4, code: Some(201) }).expect("ok");
    assert_eq!(res.status(), Status::Created);
    assert_eq!(res.body().as_bytes(), b"456789");
    let res = Response::from_parsed(raw, Parsed::Complete { len: 10, code: Some(204) }).expect("ok");
    assert_eq!(res.body().len(), 0);
    assert!(matches!(
        Response::from_parsed(raw, Parsed::Complete { len: 4, code: None }),
        Err(HttpError::NoStatusCode)
    ));
    assert!(matches!(
        Response::from_parsed(raw, Parsed::Complete { len: 4, code: Some(999) }),
        Err(HttpError::UnknownStatus(999))
    ));
    assert!(matches!(Response::from_parsed(raw, Parsed::Partial), Err(HttpError::Incomplete)));
    assert!(matches!(
        Response::from_parsed(raw, Parsed::Invalid(httparse::Error::Token)),
        Err(HttpError::Malformed(httparse::Error::Token))
    ));
}

#[test]
fn new_response_states_length_and_type() {
    let res = Response::new(Status::Success, ContentType::HTML, b"<p>hi</p>");
    assert_eq!(res.status(), Status::Success);
    assert_eq!(res.body().as_bytes(), b"<p>hi</p>");
    assert_eq!(res.headers().len(), 2);
    assert_eq!(res.headers().get(Header::ContentLength), Some(&b"9"[..]));
    assert_eq!(res.headers().get(Header::ContentType), Some(&b"text/html; charset=utf-8"[..]));
    assert_eq!(res.headers().get(Header::Location), None);
}

#[test]
fn redirect_points_to_the_url() {
    let res = Response::redirect("/next");
    assert_eq!(res.status(), Status::SeeOther);
    assert_eq!(res.body().len(), 0);
    assert_eq!(res.headers().len(), 1);
    assert_eq!(res.headers().get(Header::Location), Some(&b"/next"[..]));
}

#[test]
fn set_body_updates_the_length() {
    let mut res = Response::new(Status::Success, ContentType::Text, b"one");
    res.set_body(Body::from_raw(b"a longer body"));
    assert_eq!(res.body().as_bytes(), b"a longer body");
    assert_eq!(res.headers().get(Header::ContentLength), Some(&b"13"[..]));
    assert_eq!(res.headers().len(), 2);
    res.set_body(Body::empty());
    assert_eq!(res.headers().get(Header::ContentLength), Some(&b"0"[..]));
}

#[test]
fn set_header_replaces_in_place() {
    let mut res = Response::new(Status::Success, ContentType::Text, b"x");
    res.set_header(Header::Server, "dirty");
    res.set_header(Header::ContentType, "text/x-own");
    assert_eq!(res.headers().len(), 3);
    assert_eq!(res.headers().get(Header::ContentType), Some(&b"text/x-own"[..]));
    assert_eq!(
        res.headers().to_bytes(),
        b"Content-Length: 1\r\nContent-Type: text/x-own\r\nServer: dirty\r\n".to_vec()
    );
}

#[test]
fn message_is_the_response_on_the_wire() {
    let res = Response::new(Status::NotFound, ContentType::Text, b"gone");
    assert_eq!(
        res.message(),
        b"HTTP/1.1 404 Not Found\r\nContent-Length: 4\r\nContent-Type: text/plain; charset=utf-8\r\n\r\ngone"
            .to_vec()
    );
    let res = Response::redirect("/a");
    assert_eq!(res.message(), b"HTTP/1.1 303 See Other\r\nLocation: /a\r\n\r\n".to_vec());
}

#[test]
fn written_message_reads_back() {
    let res = Response::new(Status::Created, ContentType::JSON, b"{\"a\":1}");
    let back = Response::from_raw(&res.message()).expect("response");
    assert_eq!(back.status(), Status::Created);
    assert_eq!(back.body().as_bytes(), b"{\"a\":1}");
}

#[test]
fn header_map_keeps_first_set_order() {
    let mut m = HeaderMap::new();
    assert_eq!(m.len(), 0);
    assert_eq!(m.to_bytes(), Vec::<u8>::new());
    m.set(Header::Host, "a");
    m.set(Header::Connection, "close");
    m.set(Header::Host, "b");
    m.set_bytes(Header::Server, &[0xff, 0x00]);
    assert_eq!(m.len(), 3);
    assert_eq!(m.get(Header::Host), Some(&b"b"[..]));
    assert_eq!(m.get(Header::Server), Some(&[0xffu8, 0x00][..]));
    assert_eq!(m.get(Header::Location), None);
    assert_eq!(m.to_bytes(), b"Host: b\r\nConnection: close\r\nServer: \xff\x00\r\n".to_vec());
}

#[test]
fn header_and_content_type_names() {
    assert_eq!(Header::ContentType.as_str(), "Content-Type");
    assert_eq!(Header::ContentLength.as_str(), "Content-Length");
    assert_eq!(Header::Location.as_str(), "Location");
    assert_eq!(ContentType::JSON.as_str(), "application/json; charset=utf-8");
    assert_eq!(ContentType::PNG.as_str(), "image/png");
    assert_eq!(ContentType::Binary.as_str(), "application/octet-stream");
}

#[test]
fn status_codes_round_trip() {
    let all = [
        (Status::Continue, 100, "Continue"),
        (Status::SwitchingProtocols, 101, "Switching Protocols"),
        (Status::Success, 200, "OK"),
        (Status::Created, 201, "Created"),
        (Status::Accepted, 202, "Accepted"),
        (Status::NoContent, 204, "No Content"),
        (Status::PartialContent, 206, "Partial Content"),
        (Status::MovedPermanently, 301, "Moved Permanently"),
        (Status::Found, 302, "Found"),
        (Status::SeeOther, 303, "See Other"),
        (Status::NotModified, 304, "Not Modified"),
        (Status::TemporaryRedirect, 307, "Temporary Redirect"),
        (Status::PermanentRedirect, 308, "Permanent Redirect"),
        (Status::BadRequest, 400, "Bad Request"),
        (Status::Unauthorized, 401, "Unauthorized"),
        (Status::Forbidden, 403, "Forbidden"),
        (Status::NotFound, 404, "Not Found"),
        (Status::MethodNotAllowed, 405, "Method Not Allowed"),
        (Status::RequestTimeout, 408, "Request Timeout"),
        (Status::Gone, 410, "Gone"),
        (Status::PayloadTooLarge, 413, "Payload Too Large"),
        (Status::TooManyRequests, 429, "Too Many Requests"),
        (Status::InternalServerError, 500, "Internal Server Error"),
        (Status::NotImplemented, 501, "Not Implemented"),
        (Status::BadGateway, 502, "Bad Gateway"),
        (Status::ServiceUnavailable, 503, "Service Unavailable"),
        (Status::GatewayTimeout, 504, "Gateway Timeout"),
    ];
    for (status, code, reason) in all {
        assert_eq!(status.code(), code);
        assert_eq!(status.reason(), reason);
        assert_eq!(Status::from_code(code).ok(), Some(status));
    }
    let known: Vec<u16> = all.iter().map(|e| e.1).collect();
    for code in 0..1000u16 {
        if !known.contains(&code) {
            assert!(matches!(Status::from_code(code), Err(HttpError::UnknownStatus(c)) if c == code));
        }
    }
}

#[test]
fn numbers_are_written_in_decimal() {
    assert_eq!(decimal(0), b"0".to_vec());
    assert_eq!(decimal(7), b"7".to_vec());
    assert_eq!(decimal(10), b"10".to_vec());
    assert_eq!(decimal(1234567890), b"1234567890".to_vec());
    assert_eq!(decimal(usize::MAX), usize::MAX.to_string().into_bytes());
}

#[test]
fn body_holds_its_bytes() {
    let b = Body::from_raw(b"abc");
    assert_eq!(b.len(), 3);
    assert_eq!(b.as_bytes(), b"abc");
    assert_eq!(Body::empty().len(), 0);
}
