use protocols::http::headers::{Method, Status};
use protocols::http::v1::{read_need, read_step, Http1Error, Http1Event, Http1Header, Http1Read, Need, Reader, State};

fn line(s: &str) -> Http1Event {
    Http1Event::Line(s.as_bytes().to_vec())
}

fn reader(state: State) -> Reader {
    Reader { state, stream: 0, headers: Vec::new() }
}

#[test]
fn http1_request_is_read() {
    let mut r = reader(State::Ready);
    assert_eq!(read_need(r.state), Some(Need::Input));
    assert_eq!(read_step(&mut r, Http1Event::Input { empty: false }), Ok(Some(Http1Read::Opened)));
    assert_eq!(r.stream, 1);
    assert_eq!(read_need(r.state), Some(Need::Line));
    assert_eq!(read_step(&mut r, line("GET /index.html HTTP/1.1\r\n")), Ok(None));
    assert_eq!(r.state, State::ReadRequestHeaders { pseudo: true, len: Some(0) });
    assert_eq!(read_step(&mut r, line("Host: example.com\r\n")), Ok(None));
    assert_eq!(
        read_step(&mut r, line("\r\n")),
        Ok(Some(Http1Read::Headers(vec![
            Http1Header::Method(Method::Get),
            Http1Header::Path("/index.html".to_string()),
            Http1Header::Other("Host".to_string(), " example.com".to_string()),
        ])))
    );
    assert_eq!(r.state, State::ReadRequestBody(0));
    assert!(r.headers.is_empty());
    assert_eq!(read_need(r.state), Some(Need::Nothing));
    assert_eq!(read_step(&mut r, Http1Event::Nothing), Ok(Some(Http1Read::Closed)));
    assert_eq!(r.state, State::WriteResponseHeaders { len: None });
    assert_eq!(read_need(r.state), None);
}

#[test]
fn http1_request_body_length() {
    let mut r = reader(State::ReadRequestHeaders { pseudo: false, len: None });
    assert_eq!(read_step(&mut r, line("PUT /x HTTP/1.0\n")), Ok(None));
    assert_eq!(read_step(&mut r, line("Content-Length:5\n")), Ok(None));
    assert_eq!(r.state, State::ReadRequestHeaders { pseudo: true, len: Some(5) });
    assert!(matches!(read_step(&mut r, line("\n")), Ok(Some(Http1Read::Headers(_)))));
    assert_eq!(read_need(r.state), Some(Need::Body(5)));
    assert_eq!(read_step(&mut r, Http1Event::Body { read: 3 }), Ok(Some(Http1Read::Body(3))));
    assert_eq!(r.state, State::ReadRequestBody(2));
    // a space after the colon keeps the length from being read
    let mut s = reader(State::ReadRequestHeaders { pseudo: false, len: None });
    assert_eq!(read_step(&mut s, line("PUT /x HTTP/1.1")), Ok(None));
    assert_eq!(read_step(&mut s, line("Content-Length: 5")), Ok(None));
    assert_eq!(read_step(&mut s, line("")), Err(Http1Error::NoContentLength));
    assert!(s.headers.is_empty());
}

#[test]
fn http1_request_errors() {
    let mut r = reader(State::ReadRequestHeaders { pseudo: false, len: None });
    assert_eq!(read_step(&mut r, line("\r\n")), Err(Http1Error::StreamEmpty));
    assert_eq!(read_step(&mut r, line("GET")), Err(Http1Error::InvalidHeader));
    assert_eq!(read_step(&mut r, line("GET /")), Err(Http1Error::InvalidHeader));
    assert_eq!(r.state, State::ReadRequestHeaders { pseudo: false, len: Some(0) });
    assert_eq!(read_step(&mut r, line("GET / HTTP/2")), Err(Http1Error::InvalidProtocol));
    assert_eq!(read_step(&mut r, Http1Event::Line(vec![0xff, b'\n'])), Err(Http1Error::InvalidUtf8));
    let mut s = reader(State::ReadRequestHeaders { pseudo: true, len: None });
    assert_eq!(read_step(&mut s, line("no colon")), Err(Http1Error::InvalidHeader));
}

#[test]
fn http1_response_is_read() {
    let mut r = reader(State::ReadResponseHeaders { pseudo: false, len: None });
    // the status line's rest must hold a space and read whole as a code
    assert_eq!(read_step(&mut r, line("HTTP/1.1 200 OK\r\n")), Err(Http1Error::InvalidHeader));
    assert_eq!(read_step(&mut r, line("HTTP/1.1 200\r\n")), Err(Http1Error::InvalidHeader));
    assert_eq!(read_step(&mut r, line("SPDY/3 200\r\n")), Err(Http1Error::InvalidProtocol));
    assert_eq!(read_step(&mut r, line("HTTP/1.1  200\r\n")), Ok(None));
    assert_eq!(read_step(&mut r, line("content-length:2\r\n")), Ok(None));
    assert_eq!(
        read_step(&mut r, line("\r\n")),
        Ok(Some(Http1Read::Headers(vec![Http1Header::Status(Status::OK), Http1Header::ContentLength(2)])))
    );
    assert_eq!(r.state, State::ReadResponseBody(2));
    assert_eq!(read_step(&mut r, Http1Event::Body { read: 2 }), Ok(Some(Http1Read::Body(2))));
    assert_eq!(read_step(&mut r, Http1Event::Nothing), Ok(Some(Http1Read::Closed)));
    assert_eq!(r.state, State::Ready);
    assert_eq!(read_step(&mut r, Http1Event::Input { empty: true }), Ok(Some(Http1Read::End)));
}
