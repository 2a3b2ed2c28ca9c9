use protocols::http::headers::{
    AcceptRanges, Authorization, AuthorizationType, CacheControl, Charset, ClearSiteDataDirective,
    Connection, ContentRange, ETag, HeaderId, KeepAlive, Method, Range, Ranges, Scheme, Status, Unit,
};
use protocols::imf::HeaderId as ImfHeaderId;
use protocols::rtsp::{
    ConTransCon, HeaderId as RtspHeaderId, MediaTime, Method as RtspMethod, Status as RtspStatus,
    TransportProtocol,
};

#[test]
fn http_header_names() {
    assert_eq!(HeaderId::ContentLength.name_v1(), "Content-Length");
    assert_eq!(HeaderId::ContentLength.name_v2(), "content-length");
    assert_eq!(HeaderId::from_str("content-length"), Ok(HeaderId::ContentLength));
    assert_eq!(HeaderId::from_str("Content-Length"), Ok(HeaderId::ContentLength));
    assert_eq!(HeaderId::from_str("CONTENT-LENGTH"), Err(()));
    assert_eq!(HeaderId::from_str(":authority"), Ok(HeaderId::Authority));
    assert_eq!(HeaderId::Authority.name_v1(), ":Authority");
    assert_eq!(HeaderId::from_str(HeaderId::Authority.name_v1()), Err(()));
    assert_eq!(HeaderId::from_str("Access-Control-Allow-Method"), Ok(HeaderId::AccessControlAllowRequestMethod));
    assert_eq!(HeaderId::from_str(HeaderId::WwwAuthenticate.name_v2()), Ok(HeaderId::WwwAuthenticate));
}

#[test]
fn http_methods_and_schemes() {
    assert_eq!(Method::from_str("GET"), Ok(Method::Get));
    assert_eq!(Method::from_str("get"), Ok(Method::Other("get".to_string())));
    assert_eq!(Method::Patch.to_string(), "PATCH");
    assert_eq!(Method::Other("BREW".to_string()).to_string(), "BREW");
    assert_eq!(Scheme::from_str("https"), Ok(Scheme::Https));
    assert_eq!(Connection::from_str("Upgrade"), Ok(Connection::Upgrade));
    assert_eq!(Connection::KeepAlive.to_string(), "keep-alive");
    assert_eq!(AcceptRanges::from_str("none"), Ok(AcceptRanges::NONE));
    assert_eq!(Unit::from_str("bytes"), Ok(Unit::Bytes));
    assert_eq!(Unit::from_str("items"), Ok(Unit::Other("items".to_string())));
    assert_eq!(AuthorizationType::from_str("SCRAM-SHA-256"), Ok(AuthorizationType::ScramSha256));
    assert_eq!(AuthorizationType::Hoba.to_string(), "HOBA");
    assert_eq!(ClearSiteDataDirective::from_str("*"), Ok(ClearSiteDataDirective::All));
    assert_eq!(ClearSiteDataDirective::from_str("all"), Err(()));
}

#[test]
fn http_status() {
    assert_eq!(Status::try_from(404), Ok(Status::NotFound));
    assert_eq!(Status::try_from(299), Err(()));
    assert_eq!(Status::from_str("200"), Ok(Status::OK));
    assert_eq!(Status::from_str("+200"), Ok(Status::OK));
    assert_eq!(Status::from_str("2x0"), Err(()));
    assert_eq!(Status::from_str(""), Err(()));
    assert_eq!(Status::from_str("99999999999999999999999"), Err(()));
    assert_eq!(Status::ImUsed.code(), 226);
    assert_eq!(Status::UnavailableForLegalReasons.to_string(), "UNAVAILABLE FOR LEGAL REASONS");
}

#[test]
fn http_charsets() {
    assert_eq!(Charset::from_str("utf-8"), Ok(Charset::Utf8));
    assert_eq!(Charset::from_str("UTF-8"), Ok(Charset::Utf8));
    assert_eq!(Charset::from_str("KOI8-R"), Ok(Charset::Other("koi8-r".to_string())));
    assert_eq!(Charset::Windows1252.to_string(), "windows-1252");
}

#[test]
fn http_cache_control() {
    assert_eq!(CacheControl::from_str("max-age=60"), Ok(CacheControl::MaxAge(60)));
    assert_eq!(CacheControl::from_str("max-age"), Err(()));
    assert_eq!(CacheControl::from_str("max-age=x"), Err(()));
    assert_eq!(CacheControl::from_str("no-cache=foo"), Ok(CacheControl::NoCache));
    assert_eq!(CacheControl::from_str("max-age=4294967296"), Err(()));
    assert_eq!(CacheControl::StaleIfError(7).to_string(), "stale-if-error=7");
    assert_eq!(CacheControl::Immutable.to_string(), "nimmutable");
    assert_eq!(CacheControl::StaleWhileRevalidate(3).to_string(), "stale-while-revalidate");
    let c = CacheControl::SMaxage(4294967295);
    assert_eq!(CacheControl::from_str(&c.to_string()), Ok(c));
}

#[test]
fn http_etag() {
    let e = ETag::from_str("W/\"abc\"").unwrap();
    assert!(e.weak_validator);
    assert_eq!(e.value, "abc");
    assert_eq!(e.to_string(), "W/\"abc\"");
    let e = ETag::from_str("\"a\"b\"").unwrap();
    assert!(!e.weak_validator);
    assert_eq!(e.value, "a\"b");
    assert_eq!(ETag::from_str("abc"), Err(()));
    let e = ETag { weak_validator: false, value: "xyz".to_string() };
    assert_eq!(ETag::from_str(&e.to_string()), Ok(e));
}

#[test]
fn http_value_texts() {
    assert_eq!(KeepAlive { timeout: 5, max: 100 }.to_string(), "timeout=5, max=100");
    let a = Authorization { auth_type: AuthorizationType::Bearer, credentials: "tok".to_string() };
    assert_eq!(a.to_string(), "Bearer tok");
    let c = ContentRange { unit: Unit::Bytes, range: Some((0, 99)), size: None };
    assert_eq!(c.to_string(), "bytes 0-99/*");
    let c = ContentRange { unit: Unit::Bytes, range: None, size: Some(1000) };
    assert_eq!(c.to_string(), "bytes */1000");
    let r = Ranges {
        unit: Unit::Bytes,
        ranges: vec![
            Range { start: Some(0), end: Some(9) },
            Range { start: None, end: Some(5) },
            Range { start: Some(7), end: None },
            Range { start: None, end: None },
        ],
    };
    assert_eq!(r.to_string(), "bytes=0-9, -5, 7-, ");
}

#[test]
fn imf_header_names() {
    assert_eq!(ImfHeaderId::ResentMessageId.name(), "Resent-Message-Id");
    assert_eq!(ImfHeaderId::from_str("In-Reply-To"), Ok(ImfHeaderId::InReplyTo));
    assert_eq!(ImfHeaderId::from_str("in-reply-to"), Err(()));
}

#[test]
fn rtsp_texts() {
    assert_eq!(RtspHeaderId::CSeq.name(), "CSeq");
    assert_eq!(RtspHeaderId::from_str("RTP-Info"), Ok(RtspHeaderId::RtpInfo));
    assert_eq!(RtspMethod::from_str("PLAY_NOTIFY"), Ok(RtspMethod::PlayNotify));
    assert_eq!(RtspMethod::TearDown.to_string(), "TEARDOWN");
    assert_eq!(RtspStatus::from_str("454"), Ok(RtspStatus::SessionNotFound));
    assert_eq!(RtspStatus::OK.to_string(), "OK");
    assert_eq!(TransportProtocol::from_str("QUIC"), Ok(TransportProtocol::Quic));
    assert_eq!(ConTransCon::from_str("old"), Err(()));
    assert_eq!(MediaTime::from_str("npt=0-").unwrap().to_string(), "npt=0-");
}

#[test]
fn http_authorization_reads_words() {
    let a = Authorization::from_str("Bearer  abc.def  extra").unwrap();
    assert_eq!(a.auth_type, AuthorizationType::Bearer);
    assert_eq!(a.credentials, "abc.def");
    let b = Authorization::from_str("Custom xyz").unwrap();
    assert_eq!(b.auth_type, AuthorizationType::Other("Custom".to_string()));
    assert_eq!(b.credentials, "xyz");
    assert_eq!(Authorization::from_str("Basic"), Err(()));
    assert_eq!(Authorization::from_str("   "), Err(()));
    let c = Authorization { auth_type: AuthorizationType::ScramSha256, credentials: "c2VjcmV0".to_string() };
    assert_eq!(Authorization::from_str(&c.to_string()), Ok(c));
}

#[test]
fn http_content_range_reads_back() {
    let c = ContentRange::from_str("bytes 200-1000/67589").unwrap();
    assert_eq!(c, ContentRange { unit: Unit::Bytes, range: Some((200, 1000)), size: Some(67589) });
    let d = ContentRange::from_str("bytes */67589").unwrap();
    assert_eq!(d, ContentRange { unit: Unit::Bytes, range: None, size: Some(67589) });
    let e = ContentRange::from_str("items 0-4-9/*").unwrap();
    assert_eq!(e, ContentRange { unit: Unit::Other("items".to_string()), range: Some((0, 4)), size: None });
    assert_eq!(ContentRange::from_str("bytes 0-499"), Err(()));
    assert_eq!(ContentRange::from_str("bytes 0/10"), Err(()));
    assert_eq!(ContentRange::from_str("bytes 0-x/10"), Err(()));
    let f = ContentRange { unit: Unit::Bytes, range: Some((0, 499)), size: None };
    assert_eq!(ContentRange::from_str(&f.to_string()), Ok(f));
}

#[test]
fn http_ranges_read() {
    let r = Ranges::from_str("bytes=0-499, -500,9500- ").unwrap();
    assert_eq!(r.unit, Unit::Bytes);
    assert_eq!(
        r.ranges,
        vec![
            Range { start: Some(0), end: Some(499) },
            Range { start: None, end: Some(500) },
            Range { start: Some(9500), end: None },
        ]
    );
    let s = Ranges::from_str("bytes=-").unwrap();
    assert_eq!(s.ranges, vec![Range { start: None, end: None }]);
    assert_eq!(Ranges::from_str("bytes 0-1"), Err(()));
    assert_eq!(Ranges::from_str("bytes=0-1,2"), Err(()));
    assert_eq!(Ranges::from_str("bytes=a-1"), Err(()));
    // the text written for ranges ends with a separator, which does not read as a range
    let t = Ranges { unit: Unit::Bytes, ranges: vec![Range { start: Some(0), end: Some(1) }] };
    assert_eq!(t.to_string(), "bytes=0-1, ");
    assert_eq!(Ranges::from_str(&t.to_string()), Err(()));
}

#[test]
fn http_header_names_lowercase_and_read_back() {
    for id in [
        HeaderId::AcceptCharset,
        HeaderId::AccessControlAllowRequestMethod,
        HeaderId::Authority,
        HeaderId::ContentLength,
        HeaderId::SecWebSocketKey,
        HeaderId::WwwAuthenticate,
    ] {
        assert_eq!(id.name_v2(), id.name_v1().to_ascii_lowercase());
        assert_eq!(HeaderId::from_str(id.name_v2()), Ok(id));
    }
}
