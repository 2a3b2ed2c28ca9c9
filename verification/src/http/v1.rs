//! The reading side of an HTTP/1.1 connection (RFC 2616) as a state machine. Reading the
//! connection is left to the caller: it asks what the state needs next (whether input is
//! available, a line, or body octets), performs that read, and hands the outcome to
//! `read_step`, which decides the next state and what was read.
use vstd::prelude::*;
use vstd::utf8::{valid_utf8, decode_utf8};
use crate::text::{lemma_index_of_from, utf8_str, lemma_utf8_chars, trim, trimmed, split_once, index_of_from, parse_usize, usize_text, str_eq};
use crate::http::headers::{Method, method_parse, method_text, Status, status_of, HeaderId, header_id_parse};

verus! {

/// The state of a connection.
#[derive(Copy, Clone, Debug, PartialEq, Eq)]
pub enum State {
    Ready,
    ReadRequestHeaders { pseudo: bool, len: Option<usize> },
    ReadRequestBody(usize),
    WriteRequestHeaders { len: Option<usize> },
    WriteRequestBody(usize),
    ReadResponseHeaders { pseudo: bool, len: Option<usize> },
    ReadResponseBody(usize),
    WriteResponseHeaders { len: Option<usize> },
    WriteResponseBody(usize),
    Closed,
}

/// A header read from a message: the request method and path, the response status, the body's
/// length, or any other header by name and value as they stand after the `:`.
#[derive(Clone, Debug, PartialEq, Eq)]
pub enum Http1Header {
    Method(Method),
    Path(String),
    Status(Status),
    ContentLength(usize),
    Other(String, String),
}

/// A header as text and values.
pub enum HeaderView {
    Method(Seq<char>),
    Path(Seq<char>),
    Status(Status),
    ContentLength(usize),
    Other(Seq<char>, Seq<char>),
}

/// The text and values of a header.
pub open spec fn header_view(h: Http1Header) -> HeaderView {
    match h {
        Http1Header::Method(m) => HeaderView::Method(method_text(m)),
        Http1Header::Path(p) => HeaderView::Path(p@),
        Http1Header::Status(s) => HeaderView::Status(s),
        Http1Header::ContentLength(n) => HeaderView::ContentLength(n),
        Http1Header::Other(k, v) => HeaderView::Other(k@, v@),
    }
}

/// The texts and values of headers.
pub open spec fn headers_view(hs: Seq<Http1Header>) -> Seq<HeaderView> {
    hs.map_values(|h: Http1Header| header_view(h))
}

/// Whether a header holds a method as reading makes it: a method kept as other text only where
/// the text names none.
pub open spec fn header_canonical(h: Http1Header) -> bool {
    h matches Http1Header::Method(Method::Other(v)) ==> method_parse(v@) is None
}

/// Why reading failed.
#[derive(Copy, Clone, Debug, PartialEq, Eq)]
pub enum Http1Error {
    /// A line is not valid UTF-8.
    InvalidUtf8,
    /// A line does not read as a request line, a status line or a header.
    InvalidHeader,
    /// The request or status line names a protocol other than HTTP/0.9, HTTP/1.0 or HTTP/1.1.
    InvalidProtocol,
    /// The message ends before its request or status line.
    StreamEmpty,
    /// A request's headers end without giving the body's length.
    NoContentLength,
}

/// What the caller found or read for the state.
#[derive(Clone, Debug, PartialEq, Eq)]
pub enum Http1Event {
    /// Whether the input holds no more octets.
    Input { empty: bool },
    /// A line, with its line feed.
    Line(Vec<u8>),
    /// How many body octets were read.
    Body { read: usize },
    /// Nothing needed reading.
    Nothing,
}

/// What reading gave.
#[derive(Clone, Debug, PartialEq, Eq)]
pub enum Http1Read {
    /// The input ended.
    End,
    /// A request was opened.
    Opened,
    /// The headers of a message.
    Headers(Vec<Http1Header>),
    /// How many body octets were read.
    Body(usize),
    /// The message was read to its end.
    Closed,
}

/// What the state needs to be read next.
#[derive(Copy, Clone, Debug, PartialEq, Eq)]
pub enum Need {
    /// Whether input is available.
    Input,
    /// A line.
    Line,
    /// Up to this many body octets.
    Body(usize),
    /// Nothing.
    Nothing,
}

/// What the state `st` needs to be read next; nothing where reading is not possible in it.
pub open spec fn need_of(st: State) -> Option<Need> {
    match st {
        State::Ready => Some(Need::Input),
        State::ReadRequestHeaders { .. } => Some(Need::Line),
        State::ReadResponseHeaders { .. } => Some(Need::Line),
        State::ReadRequestBody(n) => if n == 0 { Some(Need::Nothing) } else { Some(Need::Body(n)) },
        State::ReadResponseBody(n) => if n == 0 { Some(Need::Nothing) } else { Some(Need::Body(n)) },
        _ => None,
    }
}

/// What the state needs to be read next; nothing where reading is not possible in it.
pub fn read_need(st: State) -> (r: Option<Need>)
    ensures
        r == need_of(st),
{
    match st {
        State::Ready => Some(Need::Input),
        State::ReadRequestHeaders { .. } => Some(Need::Line),
        State::ReadResponseHeaders { .. } => Some(Need::Line),
        State::ReadRequestBody(n) => if n == 0 { Some(Need::Nothing) } else { Some(Need::Body(n)) },
        State::ReadResponseBody(n) => if n == 0 { Some(Need::Nothing) } else { Some(Need::Body(n)) },
        _ => None,
    }
}

/// Whether the event fits what the state needs: a body read takes no more than was asked.
pub open spec fn event_fits(st: State, ev: Http1Event) -> bool {
    match (need_of(st), ev) {
        (Some(Need::Input), Http1Event::Input { .. }) => true,
        (Some(Need::Line), Http1Event::Line(_)) => true,
        (Some(Need::Nothing), Http1Event::Nothing) => true,
        (Some(Need::Body(n)), Http1Event::Body { read }) => read <= n,
        _ => false,
    }
}

/// What a line does to the headers being read.
pub enum LineOutcome {
    /// These headers were read; more lines follow.
    Push(Seq<HeaderView>),
    /// The headers ended.
    Finish,
    /// Reading failed.
    Fail(Http1Error),
}

/// Whether `p` names a protocol that is read: HTTP/0.9, HTTP/1.0 or HTTP/1.1.
pub open spec fn allowed_protocol(p: Seq<char>) -> bool {
    p == "HTTP/0.9"@ || p == "HTTP/1.0"@ || p == "HTTP/1.1"@
}

/// The header that a name and a value give: the body's length where the name is
/// `Content-Length` (either spelling) and the value, as it stands after the `:`, reads as a
/// number; any other header by name and value.
pub open spec fn field_header(key: Seq<char>, val: Seq<char>) -> HeaderView {
    if header_id_parse(key) == Some(HeaderId::ContentLength) && usize_text(val) is Some {
        HeaderView::ContentLength(usize_text(val).unwrap())
    } else {
        HeaderView::Other(key, val)
    }
}

/// A header line in the state `st` (past the request or status line): cut at its first `:`;
/// the body's length, where the line gives it, is kept in the state.
pub open spec fn field_step(st: State, s: Seq<char>) -> (State, LineOutcome) {
    let k = index_of_from(s, ':', 0);
    if k < 0 {
        (st, LineOutcome::Fail(Http1Error::InvalidHeader))
    } else {
        let h = field_header(s.take(k), s.skip(k + 1));
        let st2 = match (st, h) {
            (State::ReadRequestHeaders { pseudo, len }, HeaderView::ContentLength(n)) => State::ReadRequestHeaders { pseudo, len: Some(n) },
            (State::ReadResponseHeaders { pseudo, len }, HeaderView::ContentLength(n)) => State::ReadResponseHeaders { pseudo, len: Some(n) },
            _ => st,
        };
        (st2, LineOutcome::Push(seq![h]))
    }
}

/// What the trimmed line `s` does in the header-reading state `st`. An empty line ends the
/// headers: an error before the request or status line, and for a request without a length;
/// otherwise the body of that length is read next. The request line is the method, a space,
/// the path, a space and the protocol; `GET` and `POST` set the length to 0 (before the rest of
/// the line is checked). The status line is the protocol, a space, and a rest that must hold a
/// space and, trimmed, reads whole as a known status code.
pub open spec fn line_step(st: State, s: Seq<char>) -> (State, LineOutcome) {
    match st {
        State::ReadRequestHeaders { pseudo, len } => if s.len() == 0 {
            if !pseudo {
                (st, LineOutcome::Fail(Http1Error::StreamEmpty))
            } else {
                match len {
                    None => (st, LineOutcome::Fail(Http1Error::NoContentLength)),
                    Some(n) => (State::ReadRequestBody(n), LineOutcome::Finish),
                }
            }
        } else if !pseudo {
            let i = index_of_from(s, ' ', 0);
            if i < 0 {
                (st, LineOutcome::Fail(Http1Error::InvalidHeader))
            } else {
                let m = s.take(i);
                let len2 = if method_parse(m) == Some(Method::Get) || method_parse(m) == Some(Method::Post) {
                    Some(0usize)
                } else {
                    len
                };
                let st2 = State::ReadRequestHeaders { pseudo: false, len: len2 };
                let rest = s.skip(i + 1);
                let j = index_of_from(rest, ' ', 0);
                if j < 0 {
                    (st2, LineOutcome::Fail(Http1Error::InvalidHeader))
                } else if !allowed_protocol(rest.skip(j + 1)) {
                    (st2, LineOutcome::Fail(Http1Error::InvalidProtocol))
                } else {
                    (State::ReadRequestHeaders { pseudo: true, len: len2 },
                        LineOutcome::Push(seq![HeaderView::Method(m), HeaderView::Path(rest.take(j))]))
                }
            }
        } else {
            field_step(st, s)
        },
        State::ReadResponseHeaders { pseudo, len } => if s.len() == 0 {
            if !pseudo {
                (st, LineOutcome::Fail(Http1Error::StreamEmpty))
            } else {
                match len {
                    None => (st, LineOutcome::Fail(Http1Error::NoContentLength)),
                    Some(n) => (State::ReadResponseBody(n), LineOutcome::Finish),
                }
            }
        } else if !pseudo {
            let i = index_of_from(s, ' ', 0);
            if i < 0 {
                (st, LineOutcome::Fail(Http1Error::InvalidHeader))
            } else if !allowed_protocol(s.take(i)) {
                (st, LineOutcome::Fail(Http1Error::InvalidProtocol))
            } else {
                let rest = s.skip(i + 1);
                if index_of_from(rest, ' ', 0) < 0 {
                    (st, LineOutcome::Fail(Http1Error::InvalidHeader))
                } else {
                    match usize_text(trimmed(rest)) {
                        None => (st, LineOutcome::Fail(Http1Error::InvalidHeader)),
                        Some(n) => match status_of(n) {
                            None => (st, LineOutcome::Fail(Http1Error::InvalidHeader)),
                            Some(code) => (State::ReadResponseHeaders { pseudo: true, len },
                                LineOutcome::Push(seq![HeaderView::Status(code)])),
                        },
                    }
                }
            }
        } else {
            field_step(st, s)
        },
        _ => (st, LineOutcome::Fail(Http1Error::InvalidHeader)),
    }
}

/// The reading side of a connection: its state, the number of the current stream, and the
/// headers of the message read so far.
#[derive(Clone, Debug)]
pub struct Reader {
    pub state: State,
    pub stream: usize,
    pub headers: Vec<Http1Header>,
}

/// Whether a reader is as reading leaves it: headers are held only while a message's headers
/// are read, and each holds its method as reading makes it.
pub open spec fn reader_valid(r: Reader) -> bool {
    &&& forall|i: int| 0 <= i < r.headers@.len() ==> header_canonical(#[trigger] r.headers@[i])
    &&& (r.headers@.len() > 0 ==> r.state is ReadRequestHeaders || r.state is ReadResponseHeaders)
}

/// What one step of reading does: from the reader `a` and the event `ev` to the reader `b`
/// and the outcome `out`. Where input is available in the ready state the next stream opens;
/// a line of the headers is decoded, trimmed and read (see `line_step`), and its headers are
/// kept until the headers end, when they are handed out; a body read counts down what is left
/// of the body, and an empty rest closes the message (after a request, the response is written
/// next; after a response, the connection is ready).
pub open spec fn read_steps(a: Reader, ev: Http1Event, b: Reader, out: Result<Option<Http1Read>, Http1Error>) -> bool {
    match (a.state, ev) {
        (State::Ready, Http1Event::Input { empty }) => {
            &&& b.headers@.len() == 0
            &&& if empty {
                b.state == a.state && b.stream == a.stream && out == Ok::<Option<Http1Read>, Http1Error>(Some(Http1Read::End))
            } else {
                &&& b.state == (State::ReadRequestHeaders { pseudo: false, len: None })
                &&& b.stream == a.stream + 1
                &&& out == Ok::<Option<Http1Read>, Http1Error>(Some(Http1Read::Opened))
            }
        },
        (State::ReadRequestBody(n), Http1Event::Nothing) => {
            &&& b.state == (State::WriteResponseHeaders { len: None }) && b.stream == a.stream && b.headers@.len() == 0
            &&& out == Ok::<Option<Http1Read>, Http1Error>(Some(Http1Read::Closed))
        },
        (State::ReadResponseBody(n), Http1Event::Nothing) => {
            &&& b.state == State::Ready && b.stream == a.stream && b.headers@.len() == 0
            &&& out == Ok::<Option<Http1Read>, Http1Error>(Some(Http1Read::Closed))
        },
        (State::ReadRequestBody(n), Http1Event::Body { read }) => {
            &&& b.state == State::ReadRequestBody((n - read) as usize) && b.stream == a.stream && b.headers@.len() == 0
            &&& out == Ok::<Option<Http1Read>, Http1Error>(Some(Http1Read::Body(read)))
        },
        (State::ReadResponseBody(n), Http1Event::Body { read }) => {
            &&& b.state == State::ReadResponseBody((n - read) as usize) && b.stream == a.stream && b.headers@.len() == 0
            &&& out == Ok::<Option<Http1Read>, Http1Error>(Some(Http1Read::Body(read)))
        },
        (_, Http1Event::Line(bytes)) => {
            &&& b.stream == a.stream
            &&& if !valid_utf8(bytes@) {
                b.state == a.state && b.headers@.len() == 0 && out == Err::<Option<Http1Read>, Http1Error>(Http1Error::InvalidUtf8)
            } else {
                let (st, o) = line_step(a.state, trimmed(decode_utf8(bytes@)));
                &&& b.state == st
                &&& match o {
                    LineOutcome::Push(vs) => out == Ok::<Option<Http1Read>, Http1Error>(None)
                        && headers_view(b.headers@) == headers_view(a.headers@) + vs,
                    LineOutcome::Finish => b.headers@.len() == 0
                        && (out matches Ok(Some(Http1Read::Headers(h))) && headers_view(h@) == headers_view(a.headers@)),
                    LineOutcome::Fail(e) => b.headers@.len() == 0 && out == Err::<Option<Http1Read>, Http1Error>(e),
                }
            }
        },
        _ => false,
    }
}

/// What a line does, as values.
enum LineResult {
    Push(Vec<Http1Header>),
    Finish,
    Fail(Http1Error),
}

spec fn line_result_is(r: LineResult, o: LineOutcome) -> bool {
    match (r, o) {
        (LineResult::Push(v), LineOutcome::Push(vs)) => headers_view(v@) == vs
            && forall|i: int| 0 <= i < v@.len() ==> header_canonical(#[trigger] v@[i]),
        (LineResult::Finish, LineOutcome::Finish) => true,
        (LineResult::Fail(e), LineOutcome::Fail(f)) => e == f,
        _ => false,
    }
}

fn is_allowed_protocol(p: &str) -> (r: bool)
    ensures
        r == allowed_protocol(p@),
{
    str_eq(p, "HTTP/0.9") || str_eq(p, "HTTP/1.0") || str_eq(p, "HTTP/1.1")
}

fn read_field(st: State, s: &str) -> (r: (State, LineResult))
    ensures
        (r.0, true) == (field_step(st, s@).0, line_result_is(r.1, field_step(st, s@).1)),
{
    let (key, val) = match split_once(s, ':') {
        Some(p) => p,
        None => return (st, LineResult::Fail(Http1Error::InvalidHeader)),
    };
    let content_length = match HeaderId::from_str(key) {
        Ok(HeaderId::ContentLength) => parse_usize(val),
        _ => None,
    };
    match content_length {
        Some(n) => {
            let st2 = match st {
                State::ReadRequestHeaders { pseudo, len } => State::ReadRequestHeaders { pseudo, len: Some(n) },
                State::ReadResponseHeaders { pseudo, len } => State::ReadResponseHeaders { pseudo, len: Some(n) },
                _ => st,
            };
            let v = vec![Http1Header::ContentLength(n)];
            proof {
                assert(headers_view(v@) =~= seq![HeaderView::ContentLength(n)]);
            }
            (st2, LineResult::Push(v))
        },
        None => {
            let v = vec![Http1Header::Other(String::from_str(key), String::from_str(val))];
            proof {
                assert(headers_view(v@) =~= seq![HeaderView::Other(key@, val@)]);
            }
            (st, LineResult::Push(v))
        },
    }
}

fn read_request_line(len: Option<usize>, s: &str) -> (r: (State, LineResult))
    requires
        s@.len() > 0,
    ensures
        (r.0, true) == (line_step(State::ReadRequestHeaders { pseudo: false, len }, s@).0,
            line_result_is(r.1, line_step(State::ReadRequestHeaders { pseudo: false, len }, s@).1)),
{
    let st = State::ReadRequestHeaders { pseudo: false, len };
    let (m, rest) = match split_once(s, ' ') {
        Some(p) => p,
        None => return (st, LineResult::Fail(Http1Error::InvalidHeader)),
    };
    let method = match Method::from_str(m) {
        Ok(x) => x,
        Err(e) => return (st, LineResult::Fail(Http1Error::InvalidHeader)),
    };
    let is_get_or_post = match method {
        Method::Get => true,
        Method::Post => true,
        _ => false,
    };
    let len2 = if is_get_or_post { Some(0usize) } else { len };
    proof {
        assert(is_get_or_post == (method_parse(m@) == Some(Method::Get) || method_parse(m@) == Some(Method::Post)));
    }
    let st2 = State::ReadRequestHeaders { pseudo: false, len: len2 };
    let (path, proto) = match split_once(rest, ' ') {
        Some(p) => p,
        None => return (st2, LineResult::Fail(Http1Error::InvalidHeader)),
    };
    if !is_allowed_protocol(proto) {
        return (st2, LineResult::Fail(Http1Error::InvalidProtocol));
    }
    let ghost mv = method;
    let v = vec![Http1Header::Method(method), Http1Header::Path(String::from_str(path))];
    proof {
        assert(method_text(mv) == m@) by {
            reveal_strlit("OPTIONS");
            reveal_strlit("GET");
            reveal_strlit("HEAD");
            reveal_strlit("POST");
            reveal_strlit("PUT");
            reveal_strlit("DELETE");
            reveal_strlit("TRACE");
            reveal_strlit("CONNECT");
            reveal_strlit("PATCH");
        }
        assert(headers_view(v@) =~= seq![HeaderView::Method(m@), HeaderView::Path(path@)]);
    }
    (State::ReadRequestHeaders { pseudo: true, len: len2 }, LineResult::Push(v))
}

fn read_status_line(len: Option<usize>, s: &str) -> (r: (State, LineResult))
    requires
        s@.len() > 0,
    ensures
        (r.0, true) == (line_step(State::ReadResponseHeaders { pseudo: false, len }, s@).0,
            line_result_is(r.1, line_step(State::ReadResponseHeaders { pseudo: false, len }, s@).1)),
{
    let st = State::ReadResponseHeaders { pseudo: false, len };
    let (proto, rest) = match split_once(s, ' ') {
        Some(p) => p,
        None => return (st, LineResult::Fail(Http1Error::InvalidHeader)),
    };
    if !is_allowed_protocol(proto) {
        return (st, LineResult::Fail(Http1Error::InvalidProtocol));
    }
    match split_once(rest, ' ') {
        Some(_) => {},
        None => return (st, LineResult::Fail(Http1Error::InvalidHeader)),
    }
    let n = match parse_usize(trim(rest)) {
        Some(n) => n,
        None => return (st, LineResult::Fail(Http1Error::InvalidHeader)),
    };
    let code = match Status::try_from(n) {
        Ok(c) => c,
        Err(_) => return (st, LineResult::Fail(Http1Error::InvalidHeader)),
    };
    let v = vec![Http1Header::Status(code)];
    proof {
        assert(headers_view(v@) =~= seq![HeaderView::Status(code)]);
    }
    (State::ReadResponseHeaders { pseudo: true, len }, LineResult::Push(v))
}

fn read_line(st: State, s: &str) -> (r: (State, LineResult))
    requires
        st is ReadRequestHeaders || st is ReadResponseHeaders,
    ensures
        (r.0, true) == (line_step(st, s@).0, line_result_is(r.1, line_step(st, s@).1)),
{
    let empty = s.unicode_len() == 0;
    match st {
        State::ReadRequestHeaders { pseudo, len } => {
            if empty {
                if !pseudo {
                    (st, LineResult::Fail(Http1Error::StreamEmpty))
                } else {
                    match len {
                        None => (st, LineResult::Fail(Http1Error::NoContentLength)),
                        Some(n) => (State::ReadRequestBody(n), LineResult::Finish),
                    }
                }
            } else if !pseudo {
                read_request_line(len, s)
            } else {
                read_field(st, s)
            }
        },
        State::ReadResponseHeaders { pseudo, len } => {
            if empty {
                if !pseudo {
                    (st, LineResult::Fail(Http1Error::StreamEmpty))
                } else {
                    match len {
                        None => (st, LineResult::Fail(Http1Error::NoContentLength)),
                        Some(n) => (State::ReadResponseBody(n), LineResult::Finish),
                    }
                }
            } else if !pseudo {
                read_status_line(len, s)
            } else {
                read_field(st, s)
            }
        },
        _ => (st, LineResult::Fail(Http1Error::InvalidHeader)),
    }
}

/// One step of reading (see `read_steps`): the event must be what the state needs, and the
/// stream number must have room to count the next stream.
pub fn read_step(r: &mut Reader, ev: Http1Event) -> (out: Result<Option<Http1Read>, Http1Error>)
    requires
        reader_valid(*old(r)),
        event_fits(old(r).state, ev),
        old(r).stream < usize::MAX,
    ensures
        reader_valid(*final(r)),
        read_steps(*old(r), ev, *final(r), out),
{
    match ev {
        Http1Event::Input { empty } => {
            if empty {
                Ok(Some(Http1Read::End))
            } else {
                r.stream = r.stream + 1;
                r.state = State::ReadRequestHeaders { pseudo: false, len: None };
                Ok(Some(Http1Read::Opened))
            }
        },
        Http1Event::Nothing => {
            match r.state {
                State::ReadRequestBody(_) => {
                    r.state = State::WriteResponseHeaders { len: None };
                },
                _ => {
                    r.state = State::Ready;
                },
            }
            Ok(Some(Http1Read::Closed))
        },
        Http1Event::Body { read } => {
            match r.state {
                State::ReadRequestBody(n) => {
                    r.state = State::ReadRequestBody(n - read);
                },
                State::ReadResponseBody(n) => {
                    r.state = State::ReadResponseBody(n - read);
                },
                _ => {},
            }
            Ok(Some(Http1Read::Body(read)))
        },
        Http1Event::Line(bytes) => {
            let text = match utf8_str(bytes.as_slice()) {
                Some(t) => t,
                None => {
                    r.headers = Vec::new();
                    return Err(Http1Error::InvalidUtf8);
                },
            };
            proof {
                lemma_utf8_chars(text, bytes@);
            }
            let s = trim(text);
            let (st, res) = read_line(r.state, s);
            r.state = st;
            match res {
                LineResult::Push(mut v) => {
                    let ghost before = r.headers@;
                    let ghost pushed = v@;
                    r.headers.append(&mut v);
                    proof {
                        assert(r.headers@ =~= before + pushed);
                        assert(headers_view(r.headers@) =~= headers_view(before) + headers_view(pushed));
                        assert forall|i: int| 0 <= i < r.headers@.len() implies header_canonical(#[trigger] r.headers@[i]) by {
                            if i >= before.len() {
                                assert(r.headers@[i] == pushed[i - before.len()]);
                            }
                        }
                    }
                    Ok(None)
                },
                LineResult::Finish => {
                    let mut h = Vec::new();
                    std::mem::swap(&mut h, &mut r.headers);
                    Ok(Some(Http1Read::Headers(h)))
                },
                LineResult::Fail(e) => {
                    r.headers = Vec::new();
                    Err(e)
                },
            }
        },
    }
}

/// A request line of the method `m`, a path without spaces and an allowed protocol, separated
/// by single spaces, is read as the method and the path; a `GET` or `POST` request then expects
/// a body of length 0 (so that the empty line after it ends the headers and the request has no
/// body), while any other method keeps the length the state held.
pub proof fn lemma_request_line(len: Option<usize>, m: Seq<char>, path: Seq<char>, proto: Seq<char>)
    requires
        m.len() > 0,
        forall|k: int| 0 <= k < m.len() ==> #[trigger] m[k] != ' ',
        forall|k: int| 0 <= k < path.len() ==> #[trigger] path[k] != ' ',
        allowed_protocol(proto),
    ensures
        line_step(State::ReadRequestHeaders { pseudo: false, len }, m + seq![' '] + path + seq![' '] + proto) == (
            State::ReadRequestHeaders {
                pseudo: true,
                len: if m == "GET"@ || m == "POST"@ { Some(0usize) } else { len },
            },
            LineOutcome::Push(seq![HeaderView::Method(m), HeaderView::Path(path)]),
        ),
        m == "GET"@ || m == "POST"@ ==> line_step(State::ReadRequestHeaders { pseudo: true, len: Some(0usize) }, Seq::empty())
            == (State::ReadRequestBody(0), LineOutcome::Finish),
{
    reveal_strlit("OPTIONS");
    reveal_strlit("GET");
    reveal_strlit("HEAD");
    reveal_strlit("POST");
    reveal_strlit("PUT");
    reveal_strlit("DELETE");
    reveal_strlit("TRACE");
    reveal_strlit("CONNECT");
    reveal_strlit("PATCH");
    let s = m + seq![' '] + path + seq![' '] + proto;
    let n = m.len() as int;
    assert forall|k: int| 0 <= k < n implies s[k] != ' ' by {
        assert(s[k] == m[k]);
    }
    lemma_index_of_from(s, ' ', 0, n);
    assert(s[n] == ' ');
    assert(s.take(n) =~= m);
    let rest = s.skip(n + 1);
    assert(rest =~= path + seq![' '] + proto);
    assert forall|k: int| 0 <= k < path.len() implies rest[k] != ' ' by {
        assert(rest[k] == path[k]);
    }
    lemma_index_of_from(rest, ' ', 0, path.len() as int);
    assert(rest[path.len() as int] == ' ');
    assert(rest.take(path.len() as int) =~= path);
    assert(rest.skip(path.len() as int + 1) =~= proto);
    assert((method_parse(m) == Some(Method::Get) || method_parse(m) == Some(Method::Post)) == (m == "GET"@ || m == "POST"@));
}

} // verus!
