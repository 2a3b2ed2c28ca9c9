//! RTSP 2.0 (RFC 7826): header names and the values of several headers.
pub mod values;

use vstd::prelude::*;
use vstd::string::StringExecFns;
use crate::text::{str_eq, parse_usize, usize_text};

verus! {

/// The RTSP headers that are known by name.
#[derive(Copy, Clone, Debug, Eq, PartialEq)]
pub enum HeaderId {
    Method,
    Status,
    Accept,
    AcceptCredentials,
    AcceptEncoding,
    AcceptLanguage,
    AcceptRanges,
    Allow,
    AuthenticationInfo,
    Authorization,
    Bandwidth,
    BlockSize,
    CacheControl,
    Connection,
    ConnectionCredentials,
    ContentBase,
    ContentEncoding,
    ContentLanguage,
    ContentLength,
    ContentLocation,
    ContentType,
    CSeq,
    Date,
    Expires,
    From,
    IfMatch,
    IfModifiedSince,
    IfNoneMatch,
    LastModified,
    Location,
    MediaProperties,
    MediaRange,
    MTag,
    NotifyReason,
    PipelineRequests,
    ProxyAuthentication,
    ProxyAuthenticationInfo,
    ProxyAuthorization,
    ProxyRequire,
    ProxySupported,
    Public,
    Range,
    Referrer,
    RequestStatus,
    Require,
    RetryAfter,
    RtpInfo,
    Scale,
    SeekStyle,
    Server,
    Session,
    Speed,
    Supported,
    TerminateReason,
    Timestamp,
    Transport,
    Unsupported,
    UserAgent,
    Via,
    WwwAuthenticate,
}

/// The name of a header.
pub open spec fn header_name(id: HeaderId) -> Seq<char> {
    match id {
        HeaderId::Method => "Method"@,
        HeaderId::Status => "Status"@,
        HeaderId::Accept => "Accept"@,
        HeaderId::AcceptCredentials => "Accept-Credentials"@,
        HeaderId::AcceptEncoding => "Accept-Encoding"@,
        HeaderId::AcceptLanguage => "Accept-Language"@,
        HeaderId::AcceptRanges => "Accept-Ranges"@,
        HeaderId::Allow => "Allow"@,
        HeaderId::AuthenticationInfo => "Authentication-Info"@,
        HeaderId::Authorization => "Authorization"@,
        HeaderId::Bandwidth => "Bandwidth"@,
        HeaderId::BlockSize => "Block-Size"@,
        HeaderId::CacheControl => "Cache-Control"@,
        HeaderId::Connection => "Connection"@,
        HeaderId::ConnectionCredentials => "Connection-Credentials"@,
        HeaderId::ContentBase => "Content-Base"@,
        HeaderId::ContentEncoding => "Content-Encoding"@,
        HeaderId::ContentLanguage => "Content-Language"@,
        HeaderId::ContentLength => "Content-Length"@,
        HeaderId::ContentLocation => "Content-Location"@,
        HeaderId::ContentType => "Content-Type"@,
        HeaderId::CSeq => "CSeq"@,
        HeaderId::Date => "Date"@,
        HeaderId::Expires => "Expires"@,
        HeaderId::From => "From"@,
        HeaderId::IfMatch => "If-Match"@,
        HeaderId::IfModifiedSince => "If-Modified-Since"@,
        HeaderId::IfNoneMatch => "If-None-Match"@,
        HeaderId::LastModified => "Last-Modified"@,
        HeaderId::Location => "Location"@,
        HeaderId::MediaProperties => "Media-Properties"@,
        HeaderId::MediaRange => "Media-Range"@,
        HeaderId::MTag => "MTag"@,
        HeaderId::NotifyReason => "Notify-Reason"@,
        HeaderId::PipelineRequests => "Pipeline-Requests"@,
        HeaderId::ProxyAuthentication => "Proxy-Authentication"@,
        HeaderId::ProxyAuthenticationInfo => "Proxy-AuthenticationInfo"@,
        HeaderId::ProxyAuthorization => "Proxy-Authorization"@,
        HeaderId::ProxyRequire => "Proxy-Require"@,
        HeaderId::ProxySupported => "Proxy-Supported"@,
        HeaderId::Public => "Public"@,
        HeaderId::Range => "Range"@,
        HeaderId::Referrer => "Referrer"@,
        HeaderId::RequestStatus => "Request-Status"@,
        HeaderId::Require => "Require"@,
        HeaderId::RetryAfter => "Retry-After"@,
        HeaderId::RtpInfo => "RTP-Info"@,
        HeaderId::Scale => "Scale"@,
        HeaderId::SeekStyle => "Seek-Style"@,
        HeaderId::Server => "Server"@,
        HeaderId::Session => "Session"@,
        HeaderId::Speed => "Speed"@,
        HeaderId::Supported => "Supported"@,
        HeaderId::TerminateReason => "Terminate-Reason"@,
        HeaderId::Timestamp => "Timestamp"@,
        HeaderId::Transport => "Transport"@,
        HeaderId::Unsupported => "Unsupported"@,
        HeaderId::UserAgent => "User-Agent"@,
        HeaderId::Via => "Via"@,
        HeaderId::WwwAuthenticate => "WWW-Authenticate"@,
    }
}

/// The header that the name `s` stands for, if any.
pub open spec fn header_id_parse(s: Seq<char>) -> Option<HeaderId> {
    if s == "Method"@ { Some(HeaderId::Method) }
    else if s == "Status"@ { Some(HeaderId::Status) }
    else if s == "Accept"@ { Some(HeaderId::Accept) }
    else if s == "Accept-Credentials"@ { Some(HeaderId::AcceptCredentials) }
    else if s == "Accept-Encoding"@ { Some(HeaderId::AcceptEncoding) }
    else if s == "Accept-Language"@ { Some(HeaderId::AcceptLanguage) }
    else if s == "Accept-Ranges"@ { Some(HeaderId::AcceptRanges) }
    else if s == "Allow"@ { Some(HeaderId::Allow) }
    else if s == "Authentication-Info"@ { Some(HeaderId::AuthenticationInfo) }
    else if s == "Authorization"@ { Some(HeaderId::Authorization) }
    else if s == "Bandwidth"@ { Some(HeaderId::Bandwidth) }
    else if s == "Block-Size"@ { Some(HeaderId::BlockSize) }
    else if s == "Cache-Control"@ { Some(HeaderId::CacheControl) }
    else if s == "Connection"@ { Some(HeaderId::Connection) }
    else if s == "Connection-Credentials"@ { Some(HeaderId::ConnectionCredentials) }
    else if s == "Content-Base"@ { Some(HeaderId::ContentBase) }
    else if s == "Content-Encoding"@ { Some(HeaderId::ContentEncoding) }
    else if s == "Content-Language"@ { Some(HeaderId::ContentLanguage) }
    else if s == "Content-Length"@ { Some(HeaderId::ContentLength) }
    else if s == "Content-Location"@ { Some(HeaderId::ContentLocation) }
    else if s == "Content-Type"@ { Some(HeaderId::ContentType) }
    else if s == "CSeq"@ { Some(HeaderId::CSeq) }
    else if s == "Date"@ { Some(HeaderId::Date) }
    else if s == "Expires"@ { Some(HeaderId::Expires) }
    else if s == "From"@ { Some(HeaderId::From) }
    else if s == "If-Match"@ { Some(HeaderId::IfMatch) }
    else if s == "If-Modified-Since"@ { Some(HeaderId::IfModifiedSince) }
    else if s == "If-None-Match"@ { Some(HeaderId::IfNoneMatch) }
    else if s == "Last-Modified"@ { Some(HeaderId::LastModified) }
    else if s == "Location"@ { Some(HeaderId::Location) }
    else if s == "Media-Properties"@ { Some(HeaderId::MediaProperties) }
    else if s == "Media-Range"@ { Some(HeaderId::MediaRange) }
    else if s == "MTag"@ { Some(HeaderId::MTag) }
    else if s == "Notify-Reason"@ { Some(HeaderId::NotifyReason) }
    else if s == "Pipeline-Requests"@ { Some(HeaderId::PipelineRequests) }
    else if s == "Proxy-Authentication"@ { Some(HeaderId::ProxyAuthentication) }
    else if s == "Proxy-AuthenticationInfo"@ { Some(HeaderId::ProxyAuthenticationInfo) }
    else if s == "Proxy-Authorization"@ { Some(HeaderId::ProxyAuthorization) }
    else if s == "Proxy-Require"@ { Some(HeaderId::ProxyRequire) }
    else if s == "Proxy-Supported"@ { Some(HeaderId::ProxySupported) }
    else if s == "Public"@ { Some(HeaderId::Public) }
    else if s == "Range"@ { Some(HeaderId::Range) }
    else if s == "Referrer"@ { Some(HeaderId::Referrer) }
    else if s == "Request-Status"@ { Some(HeaderId::RequestStatus) }
    else if s == "Require"@ { Some(HeaderId::Require) }
    else if s == "Retry-After"@ { Some(HeaderId::RetryAfter) }
    else if s == "RTP-Info"@ { Some(HeaderId::RtpInfo) }
    else if s == "Scale"@ { Some(HeaderId::Scale) }
    else if s == "Seek-Style"@ { Some(HeaderId::SeekStyle) }
    else if s == "Server"@ { Some(HeaderId::Server) }
    else if s == "Session"@ { Some(HeaderId::Session) }
    else if s == "Speed"@ { Some(HeaderId::Speed) }
    else if s == "Supported"@ { Some(HeaderId::Supported) }
    else if s == "Terminate-Reason"@ { Some(HeaderId::TerminateReason) }
    else if s == "Timestamp"@ { Some(HeaderId::Timestamp) }
    else if s == "Transport"@ { Some(HeaderId::Transport) }
    else if s == "Unsupported"@ { Some(HeaderId::Unsupported) }
    else if s == "User-Agent"@ { Some(HeaderId::UserAgent) }
    else if s == "Via"@ { Some(HeaderId::Via) }
    else if s == "WWW-Authenticate"@ { Some(HeaderId::WwwAuthenticate) }
    else { None }
}

impl HeaderId {
    /// The name of the header.
    pub fn name(self) -> (r: &'static str)
        ensures
            r@ == header_name(self),
    {
        match self {
            HeaderId::Method => "Method",
            HeaderId::Status => "Status",
            HeaderId::Accept => "Accept",
            HeaderId::AcceptCredentials => "Accept-Credentials",
            HeaderId::AcceptEncoding => "Accept-Encoding",
            HeaderId::AcceptLanguage => "Accept-Language",
            HeaderId::AcceptRanges => "Accept-Ranges",
            HeaderId::Allow => "Allow",
            HeaderId::AuthenticationInfo => "Authentication-Info",
            HeaderId::Authorization => "Authorization",
            HeaderId::Bandwidth => "Bandwidth",
            HeaderId::BlockSize => "Block-Size",
            HeaderId::CacheControl => "Cache-Control",
            HeaderId::Connection => "Connection",
            HeaderId::ConnectionCredentials => "Connection-Credentials",
            HeaderId::ContentBase => "Content-Base",
            HeaderId::ContentEncoding => "Content-Encoding",
            HeaderId::ContentLanguage => "Content-Language",
            HeaderId::ContentLength => "Content-Length",
            HeaderId::ContentLocation => "Content-Location",
            HeaderId::ContentType => "Content-Type",
            HeaderId::CSeq => "CSeq",
            HeaderId::Date => "Date",
            HeaderId::Expires => "Expires",
            HeaderId::From => "From",
            HeaderId::IfMatch => "If-Match",
            HeaderId::IfModifiedSince => "If-Modified-Since",
            HeaderId::IfNoneMatch => "If-None-Match",
            HeaderId::LastModified => "Last-Modified",
            HeaderId::Location => "Location",
            HeaderId::MediaProperties => "Media-Properties",
            HeaderId::MediaRange => "Media-Range",
            HeaderId::MTag => "MTag",
            HeaderId::NotifyReason => "Notify-Reason",
            HeaderId::PipelineRequests => "Pipeline-Requests",
            HeaderId::ProxyAuthentication => "Proxy-Authentication",
            HeaderId::ProxyAuthenticationInfo => "Proxy-AuthenticationInfo",
            HeaderId::ProxyAuthorization => "Proxy-Authorization",
            HeaderId::ProxyRequire => "Proxy-Require",
            HeaderId::ProxySupported => "Proxy-Supported",
            HeaderId::Public => "Public",
            HeaderId::Range => "Range",
            HeaderId::Referrer => "Referrer",
            HeaderId::RequestStatus => "Request-Status",
            HeaderId::Require => "Require",
            HeaderId::RetryAfter => "Retry-After",
            HeaderId::RtpInfo => "RTP-Info",
            HeaderId::Scale => "Scale",
            HeaderId::SeekStyle => "Seek-Style",
            HeaderId::Server => "Server",
            HeaderId::Session => "Session",
            HeaderId::Speed => "Speed",
            HeaderId::Supported => "Supported",
            HeaderId::TerminateReason => "Terminate-Reason",
            HeaderId::Timestamp => "Timestamp",
            HeaderId::Transport => "Transport",
            HeaderId::Unsupported => "Unsupported",
            HeaderId::UserAgent => "User-Agent",
            HeaderId::Via => "Via",
            HeaderId::WwwAuthenticate => "WWW-Authenticate",
        }
    }

    /// Reads a header name.
    pub fn from_str(s: &str) -> (r: Result<HeaderId, ()>)
        ensures
            match header_id_parse(s@) {
                Some(id) => r == Ok::<HeaderId, ()>(id),
                None => r == Err::<HeaderId, ()>(()),
            },
    {
        if str_eq(s, "Method") {
            return Ok(HeaderId::Method);
        }
        if str_eq(s, "Status") {
            return Ok(HeaderId::Status);
        }
        if str_eq(s, "Accept") {
            return Ok(HeaderId::Accept);
        }
        if str_eq(s, "Accept-Credentials") {
            return Ok(HeaderId::AcceptCredentials);
        }
        if str_eq(s, "Accept-Encoding") {
            return Ok(HeaderId::AcceptEncoding);
        }
        if str_eq(s, "Accept-Language") {
            return Ok(HeaderId::AcceptLanguage);
        }
        if str_eq(s, "Accept-Ranges") {
            return Ok(HeaderId::AcceptRanges);
        }
        if str_eq(s, "Allow") {
            return Ok(HeaderId::Allow);
        }
        if str_eq(s, "Authentication-Info") {
            return Ok(HeaderId::AuthenticationInfo);
        }
        if str_eq(s, "Authorization") {
            return Ok(HeaderId::Authorization);
        }
        if str_eq(s, "Bandwidth") {
            return Ok(HeaderId::Bandwidth);
        }
        if str_eq(s, "Block-Size") {
            return Ok(HeaderId::BlockSize);
        }
        if str_eq(s, "Cache-Control") {
            return Ok(HeaderId::CacheControl);
        }
        if str_eq(s, "Connection") {
            return Ok(HeaderId::Connection);
        }
        if str_eq(s, "Connection-Credentials") {
            return Ok(HeaderId::ConnectionCredentials);
        }
        if str_eq(s, "Content-Base") {
            return Ok(HeaderId::ContentBase);
        }
        if str_eq(s, "Content-Encoding") {
            return Ok(HeaderId::ContentEncoding);
        }
        if str_eq(s, "Content-Language") {
            return Ok(HeaderId::ContentLanguage);
        }
        if str_eq(s, "Content-Length") {
            return Ok(HeaderId::ContentLength);
        }
        if str_eq(s, "Content-Location") {
            return Ok(HeaderId::ContentLocation);
        }
        if str_eq(s, "Content-Type") {
            return Ok(HeaderId::ContentType);
        }
        if str_eq(s, "CSeq") {
            return Ok(HeaderId::CSeq);
        }
        if str_eq(s, "Date") {
            return Ok(HeaderId::Date);
        }
        if str_eq(s, "Expires") {
            return Ok(HeaderId::Expires);
        }
        if str_eq(s, "From") {
            return Ok(HeaderId::From);
        }
        if str_eq(s, "If-Match") {
            return Ok(HeaderId::IfMatch);
        }
        if str_eq(s, "If-Modified-Since") {
            return Ok(HeaderId::IfModifiedSince);
        }
        if str_eq(s, "If-None-Match") {
            return Ok(HeaderId::IfNoneMatch);
        }
        if str_eq(s, "Last-Modified") {
            return Ok(HeaderId::LastModified);
        }
        if str_eq(s, "Location") {
            return Ok(HeaderId::Location);
        }
        if str_eq(s, "Media-Properties") {
            return Ok(HeaderId::MediaProperties);
        }
        if str_eq(s, "Media-Range") {
            return Ok(HeaderId::MediaRange);
        }
        if str_eq(s, "MTag") {
            return Ok(HeaderId::MTag);
        }
        if str_eq(s, "Notify-Reason") {
            return Ok(HeaderId::NotifyReason);
        }
        if str_eq(s, "Pipeline-Requests") {
            return Ok(HeaderId::PipelineRequests);
        }
        if str_eq(s, "Proxy-Authentication") {
            return Ok(HeaderId::ProxyAuthentication);
        }
        if str_eq(s, "Proxy-AuthenticationInfo") {
            return Ok(HeaderId::ProxyAuthenticationInfo);
        }
        if str_eq(s, "Proxy-Authorization") {
            return Ok(HeaderId::ProxyAuthorization);
        }
        if str_eq(s, "Proxy-Require") {
            return Ok(HeaderId::ProxyRequire);
        }
        if str_eq(s, "Proxy-Supported") {
            return Ok(HeaderId::ProxySupported);
        }
        if str_eq(s, "Public") {
            return Ok(HeaderId::Public);
        }
        if str_eq(s, "Range") {
            return Ok(HeaderId::Range);
        }
        if str_eq(s, "Referrer") {
            return Ok(HeaderId::Referrer);
        }
        if str_eq(s, "Request-Status") {
            return Ok(HeaderId::RequestStatus);
        }
        if str_eq(s, "Require") {
            return Ok(HeaderId::Require);
        }
        if str_eq(s, "Retry-After") {
            return Ok(HeaderId::RetryAfter);
        }
        if str_eq(s, "RTP-Info") {
            return Ok(HeaderId::RtpInfo);
        }
        if str_eq(s, "Scale") {
            return Ok(HeaderId::Scale);
        }
        if str_eq(s, "Seek-Style") {
            return Ok(HeaderId::SeekStyle);
        }
        if str_eq(s, "Server") {
            return Ok(HeaderId::Server);
        }
        if str_eq(s, "Session") {
            return Ok(HeaderId::Session);
        }
        if str_eq(s, "Speed") {
            return Ok(HeaderId::Speed);
        }
        if str_eq(s, "Supported") {
            return Ok(HeaderId::Supported);
        }
        if str_eq(s, "Terminate-Reason") {
            return Ok(HeaderId::TerminateReason);
        }
        if str_eq(s, "Timestamp") {
            return Ok(HeaderId::Timestamp);
        }
        if str_eq(s, "Transport") {
            return Ok(HeaderId::Transport);
        }
        if str_eq(s, "Unsupported") {
            return Ok(HeaderId::Unsupported);
        }
        if str_eq(s, "User-Agent") {
            return Ok(HeaderId::UserAgent);
        }
        if str_eq(s, "Via") {
            return Ok(HeaderId::Via);
        }
        if str_eq(s, "WWW-Authenticate") {
            return Ok(HeaderId::WwwAuthenticate);
        }
        Err(())
    }
}

/// Reading the name of a header gives the header.
pub proof fn lemma_header_name_roundtrip(id: HeaderId)
    ensures
        header_id_parse(header_name(id)) == Some(id),
{
    reveal_strlit("Accept");
    assert("Accept"@.len() == 6 && "Accept"@[0] == 'A' && "Accept"@[1] == 'c' && "Accept"@[2] == 'c' && "Accept"@[3] == 'e' && "Accept"@[4] == 'p' && "Accept"@[5] == 't');
    reveal_strlit("Accept-Credentials");
    assert("Accept-Credentials"@.len() == 18 && "Accept-Credentials"@[0] == 'A' && "Accept-Credentials"@[1] == 'c' && "Accept-Credentials"@[2] == 'c' && "Accept-Credentials"@[3] == 'e' && "Accept-Credentials"@[4] == 'p' && "Accept-Credentials"@[5] == 't' && "Accept-Credentials"@[6] == '-' && "Accept-Credentials"@[7] == 'C' && "Accept-Credentials"@[8] == 'r' && "Accept-Credentials"@[9] == 'e' && "Accept-Credentials"@[10] == 'd' && "Accept-Credentials"@[11] == 'e' && "Accept-Credentials"@[12] == 'n' && "Accept-Credentials"@[13] == 't' && "Accept-Credentials"@[14] == 'i' && "Accept-Credentials"@[15] == 'a' && "Accept-Credentials"@[16] == 'l' && "Accept-Credentials"@[17] == 's');
    reveal_strlit("Accept-Encoding");
    assert("Accept-Encoding"@.len() == 15 && "Accept-Encoding"@[0] == 'A' && "Accept-Encoding"@[1] == 'c' && "Accept-Encoding"@[2] == 'c' && "Accept-Encoding"@[3] == 'e' && "Accept-Encoding"@[4] == 'p' && "Accept-Encoding"@[5] == 't' && "Accept-Encoding"@[6] == '-' && "Accept-Encoding"@[7] == 'E' && "Accept-Encoding"@[8] == 'n' && "Accept-Encoding"@[9] == 'c' && "Accept-Encoding"@[10] == 'o' && "Accept-Encoding"@[11] == 'd' && "Accept-Encoding"@[12] == 'i' && "Accept-Encoding"@[13] == 'n' && "Accept-Encoding"@[14] == 'g');
    reveal_strlit("Accept-Language");
    assert("Accept-Language"@.len() == 15 && "Accept-Language"@[0] == 'A' && "Accept-Language"@[1] == 'c' && "Accept-Language"@[2] == 'c' && "Accept-Language"@[3] == 'e' && "Accept-Language"@[4] == 'p' && "Accept-Language"@[5] == 't' && "Accept-Language"@[6] == '-' && "Accept-Language"@[7] == 'L' && "Accept-Language"@[8] == 'a' && "Accept-Language"@[9] == 'n' && "Accept-Language"@[10] == 'g' && "Accept-Language"@[11] == 'u' && "Accept-Language"@[12] == 'a' && "Accept-Language"@[13] == 'g' && "Accept-Language"@[14] == 'e');
    reveal_strlit("Accept-Ranges");
    assert("Accept-Ranges"@.len() == 13 && "Accept-Ranges"@[0] == 'A' && "Accept-Ranges"@[1] == 'c' && "Accept-Ranges"@[2] == 'c' && "Accept-Ranges"@[3] == 'e' && "Accept-Ranges"@[4] == 'p' && "Accept-Ranges"@[5] == 't' && "Accept-Ranges"@[6] == '-' && "Accept-Ranges"@[7] == 'R' && "Accept-Ranges"@[8] == 'a' && "Accept-Ranges"@[9] == 'n' && "Accept-Ranges"@[10] == 'g' && "Accept-Ranges"@[11] == 'e' && "Accept-Ranges"@[12] == 's');
    reveal_strlit("Allow");
    assert("Allow"@.len() == 5 && "Allow"@[0] == 'A' && "Allow"@[1] == 'l' && "Allow"@[2] == 'l' && "Allow"@[3] == 'o' && "Allow"@[4] == 'w');
    reveal_strlit("Authentication-Info");
    assert("Authentication-Info"@.len() == 19 && "Authentication-Info"@[0] == 'A' && "Authentication-Info"@[1] == 'u' && "Authentication-Info"@[2] == 't' && "Authentication-Info"@[3] == 'h' && "Authentication-Info"@[4] == 'e' && "Authentication-Info"@[5] == 'n' && "Authentication-Info"@[6] == 't' && "Authentication-Info"@[7] == 'i' && "Authentication-Info"@[8] == 'c' && "Authentication-Info"@[9] == 'a' && "Authentication-Info"@[10] == 't' && "Authentication-Info"@[11] == 'i' && "Authentication-Info"@[12] == 'o' && "Authentication-Info"@[13] == 'n' && "Authentication-Info"@[14] == '-' && "Authentication-Info"@[15] == 'I' && "Authentication-Info"@[16] == 'n' && "Authentication-Info"@[17] == 'f' && "Authentication-Info"@[18] == 'o');
    reveal_strlit("Authorization");
    assert("Authorization"@.len() == 13 && "Authorization"@[0] == 'A' && "Authorization"@[1] == 'u' && "Authorization"@[2] == 't' && "Authorization"@[3] == 'h' && "Authorization"@[4] == 'o' && "Authorization"@[5] == 'r' && "Authorization"@[6] == 'i' && "Authorization"@[7] == 'z' && "Authorization"@[8] == 'a' && "Authorization"@[9] == 't' && "Authorization"@[10] == 'i' && "Authorization"@[11] == 'o' && "Authorization"@[12] == 'n');
    reveal_strlit("Bandwidth");
    assert("Bandwidth"@.len() == 9 && "Bandwidth"@[0] == 'B' && "Bandwidth"@[1] == 'a' && "Bandwidth"@[2] == 'n' && "Bandwidth"@[3] == 'd' && "Bandwidth"@[4] == 'w' && "Bandwidth"@[5] == 'i' && "Bandwidth"@[6] == 'd' && "Bandwidth"@[7] == 't' && "Bandwidth"@[8] == 'h');
    reveal_strlit("Block-Size");
    assert("Block-Size"@.len() == 10 && "Block-Size"@[0] == 'B' && "Block-Size"@[1] == 'l' && "Block-Size"@[2] == 'o' && "Block-Size"@[3] == 'c' && "Block-Size"@[4] == 'k' && "Block-Size"@[5] == '-' && "Block-Size"@[6] == 'S' && "Block-Size"@[7] == 'i' && "Block-Size"@[8] == 'z' && "Block-Size"@[9] == 'e');
    reveal_strlit("CSeq");
    assert("CSeq"@.len() == 4 && "CSeq"@[0] == 'C' && "CSeq"@[1] == 'S' && "CSeq"@[2] == 'e' && "CSeq"@[3] == 'q');
    reveal_strlit("Cache-Control");
    assert("Cache-Control"@.len() == 13 && "Cache-Control"@[0] == 'C' && "Cache-Control"@[1] == 'a' && "Cache-Control"@[2] == 'c' && "Cache-Control"@[3] == 'h' && "Cache-Control"@[4] == 'e' && "Cache-Control"@[5] == '-' && "Cache-Control"@[6] == 'C' && "Cache-Control"@[7] == 'o' && "Cache-Control"@[8] == 'n' && "Cache-Control"@[9] == 't' && "Cache-Control"@[10] == 'r' && "Cache-Control"@[11] == 'o' && "Cache-Control"@[12] == 'l');
    reveal_strlit("Connection");
    assert("Connection"@.len() == 10 && "Connection"@[0] == 'C' && "Connection"@[1] == 'o' && "Connection"@[2] == 'n' && "Connection"@[3] == 'n' && "Connection"@[4] == 'e' && "Connection"@[5] == 'c' && "Connection"@[6] == 't' && "Connection"@[7] == 'i' && "Connection"@[8] == 'o' && "Connection"@[9] == 'n');
    reveal_strlit("Connection-Credentials");
    assert("Connection-Credentials"@.len() == 22 && "Connection-Credentials"@[0] == 'C' && "Connection-Credentials"@[1] == 'o' && "Connection-Credentials"@[2] == 'n' && "Connection-Credentials"@[3] == 'n' && "Connection-Credentials"@[4] == 'e' && "Connection-Credentials"@[5] == 'c' && "Connection-Credentials"@[6] == 't' && "Connection-Credentials"@[7] == 'i' && "Connection-Credentials"@[8] == 'o' && "Connection-Credentials"@[9] == 'n' && "Connection-Credentials"@[10] == '-' && "Connection-Credentials"@[11] == 'C' && "Connection-Credentials"@[12] == 'r' && "Connection-Credentials"@[13] == 'e' && "Connection-Credentials"@[14] == 'd' && "Connection-Credentials"@[15] == 'e' && "Connection-Credentials"@[16] == 'n' && "Connection-Credentials"@[17] == 't' && "Connection-Credentials"@[18] == 'i' && "Connection-Credentials"@[19] == 'a' && "Connection-Credentials"@[20] == 'l' && "Connection-Credentials"@[21] == 's');
    reveal_strlit("Content-Base");
    assert("Content-Base"@.len() == 12 && "Content-Base"@[0] == 'C' && "Content-Base"@[1] == 'o' && "Content-Base"@[2] == 'n' && "Content-Base"@[3] == 't' && "Content-Base"@[4] == 'e' && "Content-Base"@[5] == 'n' && "Content-Base"@[6] == 't' && "Content-Base"@[7] == '-' && "Content-Base"@[8] == 'B' && "Content-Base"@[9] == 'a' && "Content-Base"@[10] == 's' && "Content-Base"@[11] == 'e');
    reveal_strlit("Content-Encoding");
    assert("Content-Encoding"@.len() == 16 && "Content-Encoding"@[0] == 'C' && "Content-Encoding"@[1] == 'o' && "Content-Encoding"@[2] == 'n' && "Content-Encoding"@[3] == 't' && "Content-Encoding"@[4] == 'e' && "Content-Encoding"@[5] == 'n' && "Content-Encoding"@[6] == 't' && "Content-Encoding"@[7] == '-' && "Content-Encoding"@[8] == 'E' && "Content-Encoding"@[9] == 'n' && "Content-Encoding"@[10] == 'c' && "Content-Encoding"@[11] == 'o' && "Content-Encoding"@[12] == 'd' && "Content-Encoding"@[13] == 'i' && "Content-Encoding"@[14] == 'n' && "Content-Encoding"@[15] == 'g');
    reveal_strlit("Content-Language");
    assert("Content-Language"@.len() == 16 && "Content-Language"@[0] == 'C' && "Content-Language"@[1] == 'o' && "Content-Language"@[2] == 'n' && "Content-Language"@[3] == 't' && "Content-Language"@[4] == 'e' && "Content-Language"@[5] == 'n' && "Content-Language"@[6] == 't' && "Content-Language"@[7] == '-' && "Content-Language"@[8] == 'L' && "Content-Language"@[9] == 'a' && "Content-Language"@[10] == 'n' && "Content-Language"@[11] == 'g' && "Content-Language"@[12] == 'u' && "Content-Language"@[13] == 'a' && "Content-Language"@[14] == 'g' && "Content-Language"@[15] == 'e');
    reveal_strlit("Content-Length");
    assert("Content-Length"@.len() == 14 && "Content-Length"@[0] == 'C' && "Content-Length"@[1] == 'o' && "Content-Length"@[2] == 'n' && "Content-Length"@[3] == 't' && "Content-Length"@[4] == 'e' && "Content-Length"@[5] == 'n' && "Content-Length"@[6] == 't' && "Content-Length"@[7] == '-' && "Content-Length"@[8] == 'L' && "Content-Length"@[9] == 'e' && "Content-Length"@[10] == 'n' && "Content-Length"@[11] == 'g' && "Content-Length"@[12] == 't' && "Content-Length"@[13] == 'h');
    reveal_strlit("Content-Location");
    assert("Content-Location"@.len() == 16 && "Content-Location"@[0] == 'C' && "Content-Location"@[1] == 'o' && "Content-Location"@[2] == 'n' && "Content-Location"@[3] == 't' && "Content-Location"@[4] == 'e' && "Content-Location"@[5] == 'n' && "Content-Location"@[6] == 't' && "Content-Location"@[7] == '-' && "Content-Location"@[8] == 'L' && "Content-Location"@[9] == 'o' && "Content-Location"@[10] == 'c' && "Content-Location"@[11] == 'a' && "Content-Location"@[12] == 't' && "Content-Location"@[13] == 'i' && "Content-Location"@[14] == 'o' && "Content-Location"@[15] == 'n');
    reveal_strlit("Content-Type");
    assert("Content-Type"@.len() == 12 && "Content-Type"@[0] == 'C' && "Content-Type"@[1] == 'o' && "Content-Type"@[2] == 'n' && "Content-Type"@[3] == 't' && "Content-Type"@[4] == 'e' && "Content-Type"@[5] == 'n' && "Content-Type"@[6] == 't' && "Content-Type"@[7] == '-' && "Content-Type"@[8] == 'T' && "Content-Type"@[9] == 'y' && "Content-Type"@[10] == 'p' && "Content-Type"@[11] == 'e');
    reveal_strlit("Date");
    assert("Date"@.len() == 4 && "Date"@[0] == 'D' && "Date"@[1] == 'a' && "Date"@[2] == 't' && "Date"@[3] == 'e');
    reveal_strlit("Expires");
    assert("Expires"@.len() == 7 && "Expires"@[0] == 'E' && "Expires"@[1] == 'x' && "Expires"@[2] == 'p' && "Expires"@[3] == 'i' && "Expires"@[4] == 'r' && "Expires"@[5] == 'e' && "Expires"@[6] == 's');
    reveal_strlit("From");
    assert("From"@.len() == 4 && "From"@[0] == 'F' && "From"@[1] == 'r' && "From"@[2] == 'o' && "From"@[3] == 'm');
    reveal_strlit("If-Match");
    assert("If-Match"@.len() == 8 && "If-Match"@[0] == 'I' && "If-Match"@[1] == 'f' && "If-Match"@[2] == '-' && "If-Match"@[3] == 'M' && "If-Match"@[4] == 'a' && "If-Match"@[5] == 't' && "If-Match"@[6] == 'c' && "If-Match"@[7] == 'h');
    reveal_strlit("If-Modified-Since");
    assert("If-Modified-Since"@.len() == 17 && "If-Modified-Since"@[0] == 'I' && "If-Modified-Since"@[1] == 'f' && "If-Modified-Since"@[2] == '-' && "If-Modified-Since"@[3] == 'M' && "If-Modified-Since"@[4] == 'o' && "If-Modified-Since"@[5] == 'd' && "If-Modified-Since"@[6] == 'i' && "If-Modified-Since"@[7] == 'f' && "If-Modified-Since"@[8] == 'i' && "If-Modified-Since"@[9] == 'e' && "If-Modified-Since"@[10] == 'd' && "If-Modified-Since"@[11] == '-' && "If-Modified-Since"@[12] == 'S' && "If-Modified-Since"@[13] == 'i' && "If-Modified-Since"@[14] == 'n' && "If-Modified-Since"@[15] == 'c' && "If-Modified-Since"@[16] == 'e');
    reveal_strlit("If-None-Match");
    assert("If-None-Match"@.len() == 13 && "If-None-Match"@[0] == 'I' && "If-None-Match"@[1] == 'f' && "If-None-Match"@[2] == '-' && "If-None-Match"@[3] == 'N' && "If-None-Match"@[4] == 'o' && "If-None-Match"@[5] == 'n' && "If-None-Match"@[6] == 'e' && "If-None-Match"@[7] == '-' && "If-None-Match"@[8] == 'M' && "If-None-Match"@[9] == 'a' && "If-None-Match"@[10] == 't' && "If-None-Match"@[11] == 'c' && "If-None-Match"@[12] == 'h');
    reveal_strlit("Last-Modified");
    assert("Last-Modified"@.len() == 13 && "Last-Modified"@[0] == 'L' && "Last-Modified"@[1] == 'a' && "Last-Modified"@[2] == 's' && "Last-Modified"@[3] == 't' && "Last-Modified"@[4] == '-' && "Last-Modified"@[5] == 'M' && "Last-Modified"@[6] == 'o' && "Last-Modified"@[7] == 'd' && "Last-Modified"@[8] == 'i' && "Last-Modified"@[9] == 'f' && "Last-Modified"@[10] == 'i' && "Last-Modified"@[11] == 'e' && "Last-Modified"@[12] == 'd');
    reveal_strlit("Location");
    assert("Location"@.len() == 8 && "Location"@[0] == 'L' && "Location"@[1] == 'o' && "Location"@[2] == 'c' && "Location"@[3] == 'a' && "Location"@[4] == 't' && "Location"@[5] == 'i' && "Location"@[6] == 'o' && "Location"@[7] == 'n');
    reveal_strlit("MTag");
    assert("MTag"@.len() == 4 && "MTag"@[0] == 'M' && "MTag"@[1] == 'T' && "MTag"@[2] == 'a' && "MTag"@[3] == 'g');
    reveal_strlit("Media-Properties");
    assert("Media-Properties"@.len() == 16 && "Media-Properties"@[0] == 'M' && "Media-Properties"@[1] == 'e' && "Media-Properties"@[2] == 'd' && "Media-Properties"@[3] == 'i' && "Media-Properties"@[4] == 'a' && "Media-Properties"@[5] == '-' && "Media-Properties"@[6] == 'P' && "Media-Properties"@[7] == 'r' && "Media-Properties"@[8] == 'o' && "Media-Properties"@[9] == 'p' && "Media-Properties"@[10] == 'e' && "Media-Properties"@[11] == 'r' && "Media-Properties"@[12] == 't' && "Media-Properties"@[13] == 'i' && "Media-Properties"@[14] == 'e' && "Media-Properties"@[15] == 's');
    reveal_strlit("Media-Range");
    assert("Media-Range"@.len() == 11 && "Media-Range"@[0] == 'M' && "Media-Range"@[1] == 'e' && "Media-Range"@[2] == 'd' && "Media-Range"@[3] == 'i' && "Media-Range"@[4] == 'a' && "Media-Range"@[5] == '-' && "Media-Range"@[6] == 'R' && "Media-Range"@[7] == 'a' && "Media-Range"@[8] == 'n' && "Media-Range"@[9] == 'g' && "Media-Range"@[10] == 'e');
    reveal_strlit("Method");
    assert("Method"@.len() == 6 && "Method"@[0] == 'M' && "Method"@[1] == 'e' && "Method"@[2] == 't' && "Method"@[3] == 'h' && "Method"@[4] == 'o' && "Method"@[5] == 'd');
    reveal_strlit("Notify-Reason");
    assert("Notify-Reason"@.len() == 13 && "Notify-Reason"@[0] == 'N' && "Notify-Reason"@[1] == 'o' && "Notify-Reason"@[2] == 't' && "Notify-Reason"@[3] == 'i' && "Notify-Reason"@[4] == 'f' && "Notify-Reason"@[5] == 'y' && "Notify-Reason"@[6] == '-' && "Notify-Reason"@[7] == 'R' && "Notify-Reason"@[8] == 'e' && "Notify-Reason"@[9] == 'a' && "Notify-Reason"@[10] == 's' && "Notify-Reason"@[11] == 'o' && "Notify-Reason"@[12] == 'n');
    reveal_strlit("Pipeline-Requests");
    assert("Pipeline-Requests"@.len() == 17 && "Pipeline-Requests"@[0] == 'P' && "Pipeline-Requests"@[1] == 'i' && "Pipeline-Requests"@[2] == 'p' && "Pipeline-Requests"@[3] == 'e' && "Pipeline-Requests"@[4] == 'l' && "Pipeline-Requests"@[5] == 'i' && "Pipeline-Requests"@[6] == 'n' && "Pipeline-Requests"@[7] == 'e' && "Pipeline-Requests"@[8] == '-' && "Pipeline-Requests"@[9] == 'R' && "Pipeline-Requests"@[10] == 'e' && "Pipeline-Requests"@[11] == 'q' && "Pipeline-Requests"@[12] == 'u' && "Pipeline-Requests"@[13] == 'e' && "Pipeline-Requests"@[14] == 's' && "Pipeline-Requests"@[15] == 't' && "Pipeline-Requests"@[16] == 's');
    reveal_strlit("Proxy-Authentication");
    assert("Proxy-Authentication"@.len() == 20 && "Proxy-Authentication"@[0] == 'P' && "Proxy-Authentication"@[1] == 'r' && "Proxy-Authentication"@[2] == 'o' && "Proxy-Authentication"@[3] == 'x' && "Proxy-Authentication"@[4] == 'y' && "Proxy-Authentication"@[5] == '-' && "Proxy-Authentication"@[6] == 'A' && "Proxy-Authentication"@[7] == 'u' && "Proxy-Authentication"@[8] == 't' && "Proxy-Authentication"@[9] == 'h' && "Proxy-Authentication"@[10] == 'e' && "Proxy-Authentication"@[11] == 'n' && "Proxy-Authentication"@[12] == 't' && "Proxy-Authentication"@[13] == 'i' && "Proxy-Authentication"@[14] == 'c' && "Proxy-Authentication"@[15] == 'a' && "Proxy-Authentication"@[16] == 't' && "Proxy-Authentication"@[17] == 'i' && "Proxy-Authentication"@[18] == 'o' && "Proxy-Authentication"@[19] == 'n');
    reveal_strlit("Proxy-AuthenticationInfo");
    assert("Proxy-AuthenticationInfo"@.len() == 24 && "Proxy-AuthenticationInfo"@[0] == 'P' && "Proxy-AuthenticationInfo"@[1] == 'r' && "Proxy-AuthenticationInfo"@[2] == 'o' && "Proxy-AuthenticationInfo"@[3] == 'x' && "Proxy-AuthenticationInfo"@[4] == 'y' && "Proxy-AuthenticationInfo"@[5] == '-' && "Proxy-AuthenticationInfo"@[6] == 'A' && "Proxy-AuthenticationInfo"@[7] == 'u' && "Proxy-AuthenticationInfo"@[8] == 't' && "Proxy-AuthenticationInfo"@[9] == 'h' && "Proxy-AuthenticationInfo"@[10] == 'e' && "Proxy-AuthenticationInfo"@[11] == 'n' && "Proxy-AuthenticationInfo"@[12] == 't' && "Proxy-AuthenticationInfo"@[13] == 'i' && "Proxy-AuthenticationInfo"@[14] == 'c' && "Proxy-AuthenticationInfo"@[15] == 'a' && "Proxy-AuthenticationInfo"@[16] == 't' && "Proxy-AuthenticationInfo"@[17] == 'i' && "Proxy-AuthenticationInfo"@[18] == 'o' && "Proxy-AuthenticationInfo"@[19] == 'n' && "Proxy-AuthenticationInfo"@[20] == 'I' && "Proxy-AuthenticationInfo"@[21] == 'n' && "Proxy-AuthenticationInfo"@[22] == 'f' && "Proxy-AuthenticationInfo"@[23] == 'o');
    reveal_strlit("Proxy-Authorization");
    assert("Proxy-Authorization"@.len() == 19 && "Proxy-Authorization"@[0] == 'P' && "Proxy-Authorization"@[1] == 'r' && "Proxy-Authorization"@[2] == 'o' && "Proxy-Authorization"@[3] == 'x' && "Proxy-Authorization"@[4] == 'y' && "Proxy-Authorization"@[5] == '-' && "Proxy-Authorization"@[6] == 'A' && "Proxy-Authorization"@[7] == 'u' && "Proxy-Authorization"@[8] == 't' && "Proxy-Authorization"@[9] == 'h' && "Proxy-Authorization"@[10] == 'o' && "Proxy-Authorization"@[11] == 'r' && "Proxy-Authorization"@[12] == 'i' && "Proxy-Authorization"@[13] == 'z' && "Proxy-Authorization"@[14] == 'a' && "Proxy-Authorization"@[15] == 't' && "Proxy-Authorization"@[16] == 'i' && "Proxy-Authorization"@[17] == 'o' && "Proxy-Authorization"@[18] == 'n');
    reveal_strlit("Proxy-Require");
    assert("Proxy-Require"@.len() == 13 && "Proxy-Require"@[0] == 'P' && "Proxy-Require"@[1] == 'r' && "Proxy-Require"@[2] == 'o' && "Proxy-Require"@[3] == 'x' && "Proxy-Require"@[4] == 'y' && "Proxy-Require"@[5] == '-' && "Proxy-Require"@[6] == 'R' && "Proxy-Require"@[7] == 'e' && "Proxy-Require"@[8] == 'q' && "Proxy-Require"@[9] == 'u' && "Proxy-Require"@[10] == 'i' && "Proxy-Require"@[11] == 'r' && "Proxy-Require"@[12] == 'e');
    reveal_strlit("Proxy-Supported");
    assert("Proxy-Supported"@.len() == 15 && "Proxy-Supported"@[0] == 'P' && "Proxy-Supported"@[1] == 'r' && "Proxy-Supported"@[2] == 'o' && "Proxy-Supported"@[3] == 'x' && "Proxy-Supported"@[4] == 'y' && "Proxy-Supported"@[5] == '-' && "Proxy-Supported"@[6] == 'S' && "Proxy-Supported"@[7] == 'u' && "Proxy-Supported"@[8] == 'p' && "Proxy-Supported"@[9] == 'p' && "Proxy-Supported"@[10] == 'o' && "Proxy-Supported"@[11] == 'r' && "Proxy-Supported"@[12] == 't' && "Proxy-Supported"@[13] == 'e' && "Proxy-Supported"@[14] == 'd');
    reveal_strlit("Public");
    assert("Public"@.len() == 6 && "Public"@[0] == 'P' && "Public"@[1] == 'u' && "Public"@[2] == 'b' && "Public"@[3] == 'l' && "Public"@[4] == 'i' && "Public"@[5] == 'c');
    reveal_strlit("RTP-Info");
    assert("RTP-Info"@.len() == 8 && "RTP-Info"@[0] == 'R' && "RTP-Info"@[1] == 'T' && "RTP-Info"@[2] == 'P' && "RTP-Info"@[3] == '-' && "RTP-Info"@[4] == 'I' && "RTP-Info"@[5] == 'n' && "RTP-Info"@[6] == 'f' && "RTP-Info"@[7] == 'o');
    reveal_strlit("Range");
    assert("Range"@.len() == 5 && "Range"@[0] == 'R' && "Range"@[1] == 'a' && "Range"@[2] == 'n' && "Range"@[3] == 'g' && "Range"@[4] == 'e');
    reveal_strlit("Referrer");
    assert("Referrer"@.len() == 8 && "Referrer"@[0] == 'R' && "Referrer"@[1] == 'e' && "Referrer"@[2] == 'f' && "Referrer"@[3] == 'e' && "Referrer"@[4] == 'r' && "Referrer"@[5] == 'r' && "Referrer"@[6] == 'e' && "Referrer"@[7] == 'r');
    reveal_strlit("Request-Status");
    assert("Request-Status"@.len() == 14 && "Request-Status"@[0] == 'R' && "Request-Status"@[1] == 'e' && "Request-Status"@[2] == 'q' && "Request-Status"@[3] == 'u' && "Request-Status"@[4] == 'e' && "Request-Status"@[5] == 's' && "Request-Status"@[6] == 't' && "Request-Status"@[7] == '-' && "Request-Status"@[8] == 'S' && "Request-Status"@[9] == 't' && "Request-Status"@[10] == 'a' && "Request-Status"@[11] == 't' && "Request-Status"@[12] == 'u' && "Request-Status"@[13] == 's');
    reveal_strlit("Require");
    assert("Require"@.len() == 7 && "Require"@[0] == 'R' && "Require"@[1] == 'e' && "Require"@[2] == 'q' && "Require"@[3] == 'u' && "Require"@[4] == 'i' && "Require"@[5] == 'r' && "Require"@[6] == 'e');
    reveal_strlit("Retry-After");
    assert("Retry-After"@.len() == 11 && "Retry-After"@[0] == 'R' && "Retry-After"@[1] == 'e' && "Retry-After"@[2] == 't' && "Retry-After"@[3] == 'r' && "Retry-After"@[4] == 'y' && "Retry-After"@[5] == '-' && "Retry-After"@[6] == 'A' && "Retry-After"@[7] == 'f' && "Retry-After"@[8] == 't' && "Retry-After"@[9] == 'e' && "Retry-After"@[10] == 'r');
    reveal_strlit("Scale");
    assert("Scale"@.len() == 5 && "Scale"@[0] == 'S' && "Scale"@[1] == 'c' && "Scale"@[2] == 'a' && "Scale"@[3] == 'l' && "Scale"@[4] == 'e');
    reveal_strlit("Seek-Style");
    assert("Seek-Style"@.len() == 10 && "Seek-Style"@[0] == 'S' && "Seek-Style"@[1] == 'e' && "Seek-Style"@[2] == 'e' && "Seek-Style"@[3] == 'k' && "Seek-Style"@[4] == '-' && "Seek-Style"@[5] == 'S' && "Seek-Style"@[6] == 't' && "Seek-Style"@[7] == 'y' && "Seek-Style"@[8] == 'l' && "Seek-Style"@[9] == 'e');
    reveal_strlit("Server");
    assert("Server"@.len() == 6 && "Server"@[0] == 'S' && "Server"@[1] == 'e' && "Server"@[2] == 'r' && "Server"@[3] == 'v' && "Server"@[4] == 'e' && "Server"@[5] == 'r');
    reveal_strlit("Session");
    assert("Session"@.len() == 7 && "Session"@[0] == 'S' && "Session"@[1] == 'e' && "Session"@[2] == 's' && "Session"@[3] == 's' && "Session"@[4] == 'i' && "Session"@[5] == 'o' && "Session"@[6] == 'n');
    reveal_strlit("Speed");
    assert("Speed"@.len() == 5 && "Speed"@[0] == 'S' && "Speed"@[1] == 'p' && "Speed"@[2] == 'e' && "Speed"@[3] == 'e' && "Speed"@[4] == 'd');
    reveal_strlit("Status");
    assert("Status"@.len() == 6 && "Status"@[0] == 'S' && "Status"@[1] == 't' && "Status"@[2] == 'a' && "Status"@[3] == 't' && "Status"@[4] == 'u' && "Status"@[5] == 's');
    reveal_strlit("Supported");
    assert("Supported"@.len() == 9 && "Supported"@[0] == 'S' && "Supported"@[1] == 'u' && "Supported"@[2] == 'p' && "Supported"@[3] == 'p' && "Supported"@[4] == 'o' && "Supported"@[5] == 'r' && "Supported"@[6] == 't' && "Supported"@[7] == 'e' && "Supported"@[8] == 'd');
    reveal_strlit("Terminate-Reason");
    assert("Terminate-Reason"@.len() == 16 && "Terminate-Reason"@[0] == 'T' && "Terminate-Reason"@[1] == 'e' && "Terminate-Reason"@[2] == 'r' && "Terminate-Reason"@[3] == 'm' && "Terminate-Reason"@[4] == 'i' && "Terminate-Reason"@[5] == 'n' && "Terminate-Reason"@[6] == 'a' && "Terminate-Reason"@[7] == 't' && "Terminate-Reason"@[8] == 'e' && "Terminate-Reason"@[9] == '-' && "Terminate-Reason"@[10] == 'R' && "Terminate-Reason"@[11] == 'e' && "Terminate-Reason"@[12] == 'a' && "Terminate-Reason"@[13] == 's' && "Terminate-Reason"@[14] == 'o' && "Terminate-Reason"@[15] == 'n');
    reveal_strlit("Timestamp");
    assert("Timestamp"@.len() == 9 && "Timestamp"@[0] == 'T' && "Timestamp"@[1] == 'i' && "Timestamp"@[2] == 'm' && "Timestamp"@[3] == 'e' && "Timestamp"@[4] == 's' && "Timestamp"@[5] == 't' && "Timestamp"@[6] == 'a' && "Timestamp"@[7] == 'm' && "Timestamp"@[8] == 'p');
    reveal_strlit("Transport");
    assert("Transport"@.len() == 9 && "Transport"@[0] == 'T' && "Transport"@[1] == 'r' && "Transport"@[2] == 'a' && "Transport"@[3] == 'n' && "Transport"@[4] == 's' && "Transport"@[5] == 'p' && "Transport"@[6] == 'o' && "Transport"@[7] == 'r' && "Transport"@[8] == 't');
    reveal_strlit("Unsupported");
    assert("Unsupported"@.len() == 11 && "Unsupported"@[0] == 'U' && "Unsupported"@[1] == 'n' && "Unsupported"@[2] == 's' && "Unsupported"@[3] == 'u' && "Unsupported"@[4] == 'p' && "Unsupported"@[5] == 'p' && "Unsupported"@[6] == 'o' && "Unsupported"@[7] == 'r' && "Unsupported"@[8] == 't' && "Unsupported"@[9] == 'e' && "Unsupported"@[10] == 'd');
    reveal_strlit("User-Agent");
    assert("User-Agent"@.len() == 10 && "User-Agent"@[0] == 'U' && "User-Agent"@[1] == 's' && "User-Agent"@[2] == 'e' && "User-Agent"@[3] == 'r' && "User-Agent"@[4] == '-' && "User-Agent"@[5] == 'A' && "User-Agent"@[6] == 'g' && "User-Agent"@[7] == 'e' && "User-Agent"@[8] == 'n' && "User-Agent"@[9] == 't');
    reveal_strlit("Via");
    assert("Via"@.len() == 3 && "Via"@[0] == 'V' && "Via"@[1] == 'i' && "Via"@[2] == 'a');
    reveal_strlit("WWW-Authenticate");
    assert("WWW-Authenticate"@.len() == 16 && "WWW-Authenticate"@[0] == 'W' && "WWW-Authenticate"@[1] == 'W' && "WWW-Authenticate"@[2] == 'W' && "WWW-Authenticate"@[3] == '-' && "WWW-Authenticate"@[4] == 'A' && "WWW-Authenticate"@[5] == 'u' && "WWW-Authenticate"@[6] == 't' && "WWW-Authenticate"@[7] == 'h' && "WWW-Authenticate"@[8] == 'e' && "WWW-Authenticate"@[9] == 'n' && "WWW-Authenticate"@[10] == 't' && "WWW-Authenticate"@[11] == 'i' && "WWW-Authenticate"@[12] == 'c' && "WWW-Authenticate"@[13] == 'a' && "WWW-Authenticate"@[14] == 't' && "WWW-Authenticate"@[15] == 'e');
}

/// A response status.
#[derive(Copy, Clone, Debug, Eq, PartialEq)]
pub enum Status {
    Continue,
    OK,
    MovedPermanently,
    Found,
    SeeOther,
    NotModified,
    UseProxy,
    BadRequest,
    Unauthorized,
    PaymentRequired,
    Forbidden,
    NotFound,
    MethodNotAllowed,
    NotAcceptable,
    ProxyAuthenticationRequired,
    RequestTimeout,
    Gone,
    PreconditionFailed,
    RequestBodyTooLarge,
    RequestUriTooLong,
    UnsupportedMediaType,
    ParameterNotUnderstood,
    IllegalConferenceIdentifier,
    NotEnoughBandwidth,
    SessionNotFound,
    MethodNotValidInThisState,
    HeaderFieldNotValidForResource,
    InvalidRange,
    ParameterIsReadOnly,
    AggregateOperationNotAllowed,
    OnlyAggregateOperationAllowed,
    UnsupportedTransport,
    DestinationUnreachable,
    DestinationProhibited,
    DataTransportNotReadyYet,
    NotificationReasonUnknown,
    KeyManagementError,
    ConnectionAuthorizationRequired,
    ConnectionCredentialsNotAccepted,
    FailureToEstablishSecureConnection,
    InternalServerError,
    NotImplemented,
    BadGateway,
    ServiceUnavailable,
    GatewayTimeout,
    RtspVersionNotSupported,
    OptionNotSupported,
    ProxyUnavailable,
}

/// The code of a status.
pub open spec fn status_code(s: Status) -> u16 {
    match s {
        Status::Continue => 100,
        Status::OK => 200,
        Status::MovedPermanently => 301,
        Status::Found => 302,
        Status::SeeOther => 303,
        Status::NotModified => 304,
        Status::UseProxy => 305,
        Status::BadRequest => 400,
        Status::Unauthorized => 401,
        Status::PaymentRequired => 402,
        Status::Forbidden => 403,
        Status::NotFound => 404,
        Status::MethodNotAllowed => 405,
        Status::NotAcceptable => 406,
        Status::ProxyAuthenticationRequired => 407,
        Status::RequestTimeout => 408,
        Status::Gone => 410,
        Status::PreconditionFailed => 412,
        Status::RequestBodyTooLarge => 413,
        Status::RequestUriTooLong => 414,
        Status::UnsupportedMediaType => 415,
        Status::ParameterNotUnderstood => 451,
        Status::IllegalConferenceIdentifier => 452,
        Status::NotEnoughBandwidth => 453,
        Status::SessionNotFound => 454,
        Status::MethodNotValidInThisState => 455,
        Status::HeaderFieldNotValidForResource => 456,
        Status::InvalidRange => 457,
        Status::ParameterIsReadOnly => 458,
        Status::AggregateOperationNotAllowed => 459,
        Status::OnlyAggregateOperationAllowed => 460,
        Status::UnsupportedTransport => 461,
        Status::DestinationUnreachable => 462,
        Status::DestinationProhibited => 463,
        Status::DataTransportNotReadyYet => 464,
        Status::NotificationReasonUnknown => 465,
        Status::KeyManagementError => 466,
        Status::ConnectionAuthorizationRequired => 470,
        Status::ConnectionCredentialsNotAccepted => 471,
        Status::FailureToEstablishSecureConnection => 472,
        Status::InternalServerError => 500,
        Status::NotImplemented => 501,
        Status::BadGateway => 502,
        Status::ServiceUnavailable => 503,
        Status::GatewayTimeout => 504,
        Status::RtspVersionNotSupported => 505,
        Status::OptionNotSupported => 551,
        Status::ProxyUnavailable => 553,
    }
}

/// The status with the code `v`, if there is one.
pub open spec fn status_of(v: usize) -> Option<Status> {
    if v == 100 { Some(Status::Continue) }
    else if v == 200 { Some(Status::OK) }
    else if v == 301 { Some(Status::MovedPermanently) }
    else if v == 302 { Some(Status::Found) }
    else if v == 303 { Some(Status::SeeOther) }
    else if v == 304 { Some(Status::NotModified) }
    else if v == 305 { Some(Status::UseProxy) }
    else if v == 400 { Some(Status::BadRequest) }
    else if v == 401 { Some(Status::Unauthorized) }
    else if v == 402 { Some(Status::PaymentRequired) }
    else if v == 403 { Some(Status::Forbidden) }
    else if v == 404 { Some(Status::NotFound) }
    else if v == 405 { Some(Status::MethodNotAllowed) }
    else if v == 406 { Some(Status::NotAcceptable) }
    else if v == 407 { Some(Status::ProxyAuthenticationRequired) }
    else if v == 408 { Some(Status::RequestTimeout) }
    else if v == 410 { Some(Status::Gone) }
    else if v == 412 { Some(Status::PreconditionFailed) }
    else if v == 413 { Some(Status::RequestBodyTooLarge) }
    else if v == 414 { Some(Status::RequestUriTooLong) }
    else if v == 415 { Some(Status::UnsupportedMediaType) }
    else if v == 451 { Some(Status::ParameterNotUnderstood) }
    else if v == 452 { Some(Status::IllegalConferenceIdentifier) }
    else if v == 453 { Some(Status::NotEnoughBandwidth) }
    else if v == 454 { Some(Status::SessionNotFound) }
    else if v == 455 { Some(Status::MethodNotValidInThisState) }
    else if v == 456 { Some(Status::HeaderFieldNotValidForResource) }
    else if v == 457 { Some(Status::InvalidRange) }
    else if v == 458 { Some(Status::ParameterIsReadOnly) }
    else if v == 459 { Some(Status::AggregateOperationNotAllowed) }
    else if v == 460 { Some(Status::OnlyAggregateOperationAllowed) }
    else if v == 461 { Some(Status::UnsupportedTransport) }
    else if v == 462 { Some(Status::DestinationUnreachable) }
    else if v == 463 { Some(Status::DestinationProhibited) }
    else if v == 464 { Some(Status::DataTransportNotReadyYet) }
    else if v == 465 { Some(Status::NotificationReasonUnknown) }
    else if v == 466 { Some(Status::KeyManagementError) }
    else if v == 470 { Some(Status::ConnectionAuthorizationRequired) }
    else if v == 471 { Some(Status::ConnectionCredentialsNotAccepted) }
    else if v == 472 { Some(Status::FailureToEstablishSecureConnection) }
    else if v == 500 { Some(Status::InternalServerError) }
    else if v == 501 { Some(Status::NotImplemented) }
    else if v == 502 { Some(Status::BadGateway) }
    else if v == 503 { Some(Status::ServiceUnavailable) }
    else if v == 504 { Some(Status::GatewayTimeout) }
    else if v == 505 { Some(Status::RtspVersionNotSupported) }
    else if v == 551 { Some(Status::OptionNotSupported) }
    else if v == 553 { Some(Status::ProxyUnavailable) }
    else { None }
}

/// The reason phrase of a status, in capitals.
pub open spec fn status_reason(s: Status) -> Seq<char> {
    match s {
        Status::Continue => "CONTINUE"@,
        Status::OK => "OK"@,
        Status::MovedPermanently => "MOVED PERMANENTLY"@,
        Status::Found => "FOUND"@,
        Status::SeeOther => "SEE OTHER"@,
        Status::NotModified => "NOT MODIFIED"@,
        Status::UseProxy => "USE PROXY"@,
        Status::BadRequest => "BAD REQUEST"@,
        Status::Unauthorized => "UNAUTHORIZED"@,
        Status::PaymentRequired => "PAYMENT REQUIRED"@,
        Status::Forbidden => "FORBIDDEN"@,
        Status::NotFound => "NOT FOUND"@,
        Status::MethodNotAllowed => "METHOD NOT ALLOWED"@,
        Status::NotAcceptable => "NOT ACCEPTABLE"@,
        Status::ProxyAuthenticationRequired => "PROXY AUTHENTICATION REQUIRED"@,
        Status::RequestTimeout => "REQUEST TIMEOUT"@,
        Status::Gone => "GONE"@,
        Status::PreconditionFailed => "PRECONDITION FAILED"@,
        Status::RequestBodyTooLarge => "REQUEST BODY TOO LARGE"@,
        Status::RequestUriTooLong => "REQUEST URI TOO LONG"@,
        Status::UnsupportedMediaType => "UNSUPPORTED MEDIA TYPE"@,
        Status::ParameterNotUnderstood => "PARAMETER NOT UNDERSTOOD"@,
        Status::IllegalConferenceIdentifier => "ILLEGAL CONFERENCE IDENTIFIER"@,
        Status::NotEnoughBandwidth => "NOT ENOUGH BANDWIDTH"@,
        Status::SessionNotFound => "SESSION NOT FOUND"@,
        Status::MethodNotValidInThisState => "METHOD NOT VALID IN THIS STATE"@,
        Status::HeaderFieldNotValidForResource => "HEADER FIELD NOT VALID FOR RESOURCE"@,
        Status::InvalidRange => "INVALID RANGE"@,
        Status::ParameterIsReadOnly => "PARAMETER IS READONLY"@,
        Status::AggregateOperationNotAllowed => "AGGREGATE OPERATION NOT ALLOWED"@,
        Status::OnlyAggregateOperationAllowed => "ONLY AGGREGATE OPERATION ALLOWED"@,
        Status::UnsupportedTransport => "UNSUPPORTED TRANSPORT"@,
        Status::DestinationUnreachable => "DESTINATION UNREACHABLE"@,
        Status::DestinationProhibited => "DESTINATION PROHIBITED"@,
        Status::DataTransportNotReadyYet => "DATA TRANSPORT NOT READY YET"@,
        Status::NotificationReasonUnknown => "NOTIFICATION REASON UNKNOWN"@,
        Status::KeyManagementError => "KEY MANAGEMENT ERROR"@,
        Status::ConnectionAuthorizationRequired => "CONNECTION AUTHORIZATION REQUIRED"@,
        Status::ConnectionCredentialsNotAccepted => "CONNECTION CREDENTIALS NOT ACCEPTED"@,
        Status::FailureToEstablishSecureConnection => "FAILURE TO ESTABLISH SECURE CONNECTION"@,
        Status::InternalServerError => "INTERNAL SERVER ERROR"@,
        Status::NotImplemented => "NOT IMPLEMENTED"@,
        Status::BadGateway => "BAD GATEWAY"@,
        Status::ServiceUnavailable => "SERVICE UNAVAILABLE"@,
        Status::GatewayTimeout => "GATEWAY TIMEOUT"@,
        Status::RtspVersionNotSupported => "RTSP VERSION NOT SUPPORTED"@,
        Status::OptionNotSupported => "OPTION NOT SUPPORTED"@,
        Status::ProxyUnavailable => "PROXY UNAVAILABLE"@,
    }
}

impl Status {
    /// The code of the status.
    pub fn code(self) -> (r: u16)
        ensures
            r == status_code(self),
    {
        match self {
            Status::Continue => 100,
            Status::OK => 200,
            Status::MovedPermanently => 301,
            Status::Found => 302,
            Status::SeeOther => 303,
            Status::NotModified => 304,
            Status::UseProxy => 305,
            Status::BadRequest => 400,
            Status::Unauthorized => 401,
            Status::PaymentRequired => 402,
            Status::Forbidden => 403,
            Status::NotFound => 404,
            Status::MethodNotAllowed => 405,
            Status::NotAcceptable => 406,
            Status::ProxyAuthenticationRequired => 407,
            Status::RequestTimeout => 408,
            Status::Gone => 410,
            Status::PreconditionFailed => 412,
            Status::RequestBodyTooLarge => 413,
            Status::RequestUriTooLong => 414,
            Status::UnsupportedMediaType => 415,
            Status::ParameterNotUnderstood => 451,
            Status::IllegalConferenceIdentifier => 452,
            Status::NotEnoughBandwidth => 453,
            Status::SessionNotFound => 454,
            Status::MethodNotValidInThisState => 455,
            Status::HeaderFieldNotValidForResource => 456,
            Status::InvalidRange => 457,
            Status::ParameterIsReadOnly => 458,
            Status::AggregateOperationNotAllowed => 459,
            Status::OnlyAggregateOperationAllowed => 460,
            Status::UnsupportedTransport => 461,
            Status::DestinationUnreachable => 462,
            Status::DestinationProhibited => 463,
            Status::DataTransportNotReadyYet => 464,
            Status::NotificationReasonUnknown => 465,
            Status::KeyManagementError => 466,
            Status::ConnectionAuthorizationRequired => 470,
            Status::ConnectionCredentialsNotAccepted => 471,
            Status::FailureToEstablishSecureConnection => 472,
            Status::InternalServerError => 500,
            Status::NotImplemented => 501,
            Status::BadGateway => 502,
            Status::ServiceUnavailable => 503,
            Status::GatewayTimeout => 504,
            Status::RtspVersionNotSupported => 505,
            Status::OptionNotSupported => 551,
            Status::ProxyUnavailable => 553,
        }
    }

    /// The status with the code `value`.
    pub fn try_from(value: usize) -> (r: Result<Status, ()>)
        ensures
            match status_of(value) {
                Some(s) => r == Ok::<Status, ()>(s),
                None => r == Err::<Status, ()>(()),
            },
    {
        match value {
            100 => Ok(Status::Continue),
            200 => Ok(Status::OK),
            301 => Ok(Status::MovedPermanently),
            302 => Ok(Status::Found),
            303 => Ok(Status::SeeOther),
            304 => Ok(Status::NotModified),
            305 => Ok(Status::UseProxy),
            400 => Ok(Status::BadRequest),
            401 => Ok(Status::Unauthorized),
            402 => Ok(Status::PaymentRequired),
            403 => Ok(Status::Forbidden),
            404 => Ok(Status::NotFound),
            405 => Ok(Status::MethodNotAllowed),
            406 => Ok(Status::NotAcceptable),
            407 => Ok(Status::ProxyAuthenticationRequired),
            408 => Ok(Status::RequestTimeout),
            410 => Ok(Status::Gone),
            412 => Ok(Status::PreconditionFailed),
            413 => Ok(Status::RequestBodyTooLarge),
            414 => Ok(Status::RequestUriTooLong),
            415 => Ok(Status::UnsupportedMediaType),
            451 => Ok(Status::ParameterNotUnderstood),
            452 => Ok(Status::IllegalConferenceIdentifier),
            453 => Ok(Status::NotEnoughBandwidth),
            454 => Ok(Status::SessionNotFound),
            455 => Ok(Status::MethodNotValidInThisState),
            456 => Ok(Status::HeaderFieldNotValidForResource),
            457 => Ok(Status::InvalidRange),
            458 => Ok(Status::ParameterIsReadOnly),
            459 => Ok(Status::AggregateOperationNotAllowed),
            460 => Ok(Status::OnlyAggregateOperationAllowed),
            461 => Ok(Status::UnsupportedTransport),
            462 => Ok(Status::DestinationUnreachable),
            463 => Ok(Status::DestinationProhibited),
            464 => Ok(Status::DataTransportNotReadyYet),
            465 => Ok(Status::NotificationReasonUnknown),
            466 => Ok(Status::KeyManagementError),
            470 => Ok(Status::ConnectionAuthorizationRequired),
            471 => Ok(Status::ConnectionCredentialsNotAccepted),
            472 => Ok(Status::FailureToEstablishSecureConnection),
            500 => Ok(Status::InternalServerError),
            501 => Ok(Status::NotImplemented),
            502 => Ok(Status::BadGateway),
            503 => Ok(Status::ServiceUnavailable),
            504 => Ok(Status::GatewayTimeout),
            505 => Ok(Status::RtspVersionNotSupported),
            551 => Ok(Status::OptionNotSupported),
            553 => Ok(Status::ProxyUnavailable),
            _ => Err(()),
        }
    }

    /// Reads a status from the decimal text of its code.
    pub fn from_str(s: &str) -> (r: Result<Status, ()>)
        ensures
            match usize_text(s@) {
                Some(v) => match status_of(v) {
                    Some(x) => r == Ok::<Status, ()>(x),
                    None => r == Err::<Status, ()>(()),
                },
                None => r == Err::<Status, ()>(()),
            },
    {
        match parse_usize(s) {
            Some(v) => Status::try_from(v),
            None => Err(()),
        }
    }

    /// The reason phrase of the status, in capitals.
    pub fn to_string(&self) -> (r: String)
        ensures
            r@ == status_reason(*self),
    {
        match self {
            Status::Continue => String::from_str("CONTINUE"),
            Status::OK => String::from_str("OK"),
            Status::MovedPermanently => String::from_str("MOVED PERMANENTLY"),
            Status::Found => String::from_str("FOUND"),
            Status::SeeOther => String::from_str("SEE OTHER"),
            Status::NotModified => String::from_str("NOT MODIFIED"),
            Status::UseProxy => String::from_str("USE PROXY"),
            Status::BadRequest => String::from_str("BAD REQUEST"),
            Status::Unauthorized => String::from_str("UNAUTHORIZED"),
            Status::PaymentRequired => String::from_str("PAYMENT REQUIRED"),
            Status::Forbidden => String::from_str("FORBIDDEN"),
            Status::NotFound => String::from_str("NOT FOUND"),
            Status::MethodNotAllowed => String::from_str("METHOD NOT ALLOWED"),
            Status::NotAcceptable => String::from_str("NOT ACCEPTABLE"),
            Status::ProxyAuthenticationRequired => String::from_str("PROXY AUTHENTICATION REQUIRED"),
            Status::RequestTimeout => String::from_str("REQUEST TIMEOUT"),
            Status::Gone => String::from_str("GONE"),
            Status::PreconditionFailed => String::from_str("PRECONDITION FAILED"),
            Status::RequestBodyTooLarge => String::from_str("REQUEST BODY TOO LARGE"),
            Status::RequestUriTooLong => String::from_str("REQUEST URI TOO LONG"),
            Status::UnsupportedMediaType => String::from_str("UNSUPPORTED MEDIA TYPE"),
            Status::ParameterNotUnderstood => String::from_str("PARAMETER NOT UNDERSTOOD"),
            Status::IllegalConferenceIdentifier => String::from_str("ILLEGAL CONFERENCE IDENTIFIER"),
            Status::NotEnoughBandwidth => String::from_str("NOT ENOUGH BANDWIDTH"),
            Status::SessionNotFound => String::from_str("SESSION NOT FOUND"),
            Status::MethodNotValidInThisState => String::from_str("METHOD NOT VALID IN THIS STATE"),
            Status::HeaderFieldNotValidForResource => String::from_str("HEADER FIELD NOT VALID FOR RESOURCE"),
            Status::InvalidRange => String::from_str("INVALID RANGE"),
            Status::ParameterIsReadOnly => String::from_str("PARAMETER IS READONLY"),
            Status::AggregateOperationNotAllowed => String::from_str("AGGREGATE OPERATION NOT ALLOWED"),
            Status::OnlyAggregateOperationAllowed => String::from_str("ONLY AGGREGATE OPERATION ALLOWED"),
            Status::UnsupportedTransport => String::from_str("UNSUPPORTED TRANSPORT"),
            Status::DestinationUnreachable => String::from_str("DESTINATION UNREACHABLE"),
            Status::DestinationProhibited => String::from_str("DESTINATION PROHIBITED"),
            Status::DataTransportNotReadyYet => String::from_str("DATA TRANSPORT NOT READY YET"),
            Status::NotificationReasonUnknown => String::from_str("NOTIFICATION REASON UNKNOWN"),
            Status::KeyManagementError => String::from_str("KEY MANAGEMENT ERROR"),
            Status::ConnectionAuthorizationRequired => String::from_str("CONNECTION AUTHORIZATION REQUIRED"),
            Status::ConnectionCredentialsNotAccepted => String::from_str("CONNECTION CREDENTIALS NOT ACCEPTED"),
            Status::FailureToEstablishSecureConnection => String::from_str("FAILURE TO ESTABLISH SECURE CONNECTION"),
            Status::InternalServerError => String::from_str("INTERNAL SERVER ERROR"),
            Status::NotImplemented => String::from_str("NOT IMPLEMENTED"),
            Status::BadGateway => String::from_str("BAD GATEWAY"),
            Status::ServiceUnavailable => String::from_str("SERVICE UNAVAILABLE"),
            Status::GatewayTimeout => String::from_str("GATEWAY TIMEOUT"),
            Status::RtspVersionNotSupported => String::from_str("RTSP VERSION NOT SUPPORTED"),
            Status::OptionNotSupported => String::from_str("OPTION NOT SUPPORTED"),
            Status::ProxyUnavailable => String::from_str("PROXY UNAVAILABLE"),
        }
    }
}

/// Reading a status back from its code gives the status.
pub proof fn lemma_status_code_roundtrip(s: Status)
    ensures
        status_of(status_code(s) as usize) == Some(s),
{
}

/// A request method.
#[derive(Clone, Debug, Eq, PartialEq)]
pub enum Method {
    Options,
    Describe,
    Setup,
    Play,
    PlayNotify,
    Pause,
    TearDown,
    GetParam,
    SetParam,
    Redirect,
    Other(String),
}

/// The text of a value.
pub open spec fn method_text(x: Method) -> Seq<char> {
    match x {
        Method::Options => "OPTIONS"@,
        Method::Describe => "DESCRIBE"@,
        Method::Setup => "SETUP"@,
        Method::Play => "PLAY"@,
        Method::PlayNotify => "PLAY_NOTIFY"@,
        Method::Pause => "PAUSE"@,
        Method::TearDown => "TEARDOWN"@,
        Method::GetParam => "GET_PARAM"@,
        Method::SetParam => "SET_PARAM"@,
        Method::Redirect => "REDIRECT"@,
        Method::Other(v) => v@,
    }
}

/// The named value that the text `s` stands for, if any.
pub open spec fn method_parse(s: Seq<char>) -> Option<Method> {
    if s == "OPTIONS"@ { Some(Method::Options) }
    else if s == "DESCRIBE"@ { Some(Method::Describe) }
    else if s == "SETUP"@ { Some(Method::Setup) }
    else if s == "PLAY"@ { Some(Method::Play) }
    else if s == "PLAY_NOTIFY"@ { Some(Method::PlayNotify) }
    else if s == "PAUSE"@ { Some(Method::Pause) }
    else if s == "TEARDOWN"@ { Some(Method::TearDown) }
    else if s == "GET_PARAM"@ { Some(Method::GetParam) }
    else if s == "SET_PARAM"@ { Some(Method::SetParam) }
    else if s == "REDIRECT"@ { Some(Method::Redirect) }
    else { None }
}

impl Method {
    /// Reads the value from its text; any other text is kept as it is.
    pub fn from_str(s: &str) -> (r: Result<Method, ()>)
        ensures
            match method_parse(s@) {
                Some(x) => r == Ok::<Method, ()>(x),
                None => r matches Ok(Method::Other(v)) && v@ == s@,
            },
    {
        if str_eq(s, "OPTIONS") {
            return Ok(Method::Options);
        }
        if str_eq(s, "DESCRIBE") {
            return Ok(Method::Describe);
        }
        if str_eq(s, "SETUP") {
            return Ok(Method::Setup);
        }
        if str_eq(s, "PLAY") {
            return Ok(Method::Play);
        }
        if str_eq(s, "PLAY_NOTIFY") {
            return Ok(Method::PlayNotify);
        }
        if str_eq(s, "PAUSE") {
            return Ok(Method::Pause);
        }
        if str_eq(s, "TEARDOWN") {
            return Ok(Method::TearDown);
        }
        if str_eq(s, "GET_PARAM") {
            return Ok(Method::GetParam);
        }
        if str_eq(s, "SET_PARAM") {
            return Ok(Method::SetParam);
        }
        if str_eq(s, "REDIRECT") {
            return Ok(Method::Redirect);
        }
        Ok(Method::Other(String::from_str(s)))
    }

    /// The text of the value.
    pub fn to_string(&self) -> (r: String)
        ensures
            r@ == method_text(*self),
    {
        match self {
            Method::Options => String::from_str("OPTIONS"),
            Method::Describe => String::from_str("DESCRIBE"),
            Method::Setup => String::from_str("SETUP"),
            Method::Play => String::from_str("PLAY"),
            Method::PlayNotify => String::from_str("PLAY_NOTIFY"),
            Method::Pause => String::from_str("PAUSE"),
            Method::TearDown => String::from_str("TEARDOWN"),
            Method::GetParam => String::from_str("GET_PARAM"),
            Method::SetParam => String::from_str("SET_PARAM"),
            Method::Redirect => String::from_str("REDIRECT"),
            Method::Other(v) => v.clone(),
        }
    }
}

/// Reading the text of a named value gives the value.
pub proof fn lemma_method_text_roundtrip(x: Method)
    requires
        !(x is Other),
    ensures
        method_parse(method_text(x)) == Some(x),
{
    reveal_strlit("DESCRIBE");
    assert("DESCRIBE"@.len() == 8 && "DESCRIBE"@[0] == 'D' && "DESCRIBE"@[1] == 'E' && "DESCRIBE"@[2] == 'S' && "DESCRIBE"@[3] == 'C' && "DESCRIBE"@[4] == 'R' && "DESCRIBE"@[5] == 'I' && "DESCRIBE"@[6] == 'B' && "DESCRIBE"@[7] == 'E');
    reveal_strlit("GET_PARAM");
    assert("GET_PARAM"@.len() == 9 && "GET_PARAM"@[0] == 'G' && "GET_PARAM"@[1] == 'E' && "GET_PARAM"@[2] == 'T' && "GET_PARAM"@[3] == '_' && "GET_PARAM"@[4] == 'P' && "GET_PARAM"@[5] == 'A' && "GET_PARAM"@[6] == 'R' && "GET_PARAM"@[7] == 'A' && "GET_PARAM"@[8] == 'M');
    reveal_strlit("OPTIONS");
    assert("OPTIONS"@.len() == 7 && "OPTIONS"@[0] == 'O' && "OPTIONS"@[1] == 'P' && "OPTIONS"@[2] == 'T' && "OPTIONS"@[3] == 'I' && "OPTIONS"@[4] == 'O' && "OPTIONS"@[5] == 'N' && "OPTIONS"@[6] == 'S');
    reveal_strlit("PAUSE");
    assert("PAUSE"@.len() == 5 && "PAUSE"@[0] == 'P' && "PAUSE"@[1] == 'A' && "PAUSE"@[2] == 'U' && "PAUSE"@[3] == 'S' && "PAUSE"@[4] == 'E');
    reveal_strlit("PLAY");
    assert("PLAY"@.len() == 4 && "PLAY"@[0] == 'P' && "PLAY"@[1] == 'L' && "PLAY"@[2] == 'A' && "PLAY"@[3] == 'Y');
    reveal_strlit("PLAY_NOTIFY");
    assert("PLAY_NOTIFY"@.len() == 11 && "PLAY_NOTIFY"@[0] == 'P' && "PLAY_NOTIFY"@[1] == 'L' && "PLAY_NOTIFY"@[2] == 'A' && "PLAY_NOTIFY"@[3] == 'Y' && "PLAY_NOTIFY"@[4] == '_' && "PLAY_NOTIFY"@[5] == 'N' && "PLAY_NOTIFY"@[6] == 'O' && "PLAY_NOTIFY"@[7] == 'T' && "PLAY_NOTIFY"@[8] == 'I' && "PLAY_NOTIFY"@[9] == 'F' && "PLAY_NOTIFY"@[10] == 'Y');
    reveal_strlit("REDIRECT");
    assert("REDIRECT"@.len() == 8 && "REDIRECT"@[0] == 'R' && "REDIRECT"@[1] == 'E' && "REDIRECT"@[2] == 'D' && "REDIRECT"@[3] == 'I' && "REDIRECT"@[4] == 'R' && "REDIRECT"@[5] == 'E' && "REDIRECT"@[6] == 'C' && "REDIRECT"@[7] == 'T');
    reveal_strlit("SETUP");
    assert("SETUP"@.len() == 5 && "SETUP"@[0] == 'S' && "SETUP"@[1] == 'E' && "SETUP"@[2] == 'T' && "SETUP"@[3] == 'U' && "SETUP"@[4] == 'P');
    reveal_strlit("SET_PARAM");
    assert("SET_PARAM"@.len() == 9 && "SET_PARAM"@[0] == 'S' && "SET_PARAM"@[1] == 'E' && "SET_PARAM"@[2] == 'T' && "SET_PARAM"@[3] == '_' && "SET_PARAM"@[4] == 'P' && "SET_PARAM"@[5] == 'A' && "SET_PARAM"@[6] == 'R' && "SET_PARAM"@[7] == 'A' && "SET_PARAM"@[8] == 'M');
    reveal_strlit("TEARDOWN");
    assert("TEARDOWN"@.len() == 8 && "TEARDOWN"@[0] == 'T' && "TEARDOWN"@[1] == 'E' && "TEARDOWN"@[2] == 'A' && "TEARDOWN"@[3] == 'R' && "TEARDOWN"@[4] == 'D' && "TEARDOWN"@[5] == 'O' && "TEARDOWN"@[6] == 'W' && "TEARDOWN"@[7] == 'N');
}

/// The hash algorithm of accepted credentials.
#[derive(Clone, Debug, Eq, PartialEq)]
pub enum AcceptCredentialsCredentialHashAlgorithm {
    Sha256,
    Other(String),
}

/// The text of a value.
pub open spec fn accept_credentials_credential_hash_algorithm_text(x: AcceptCredentialsCredentialHashAlgorithm) -> Seq<char> {
    match x {
        AcceptCredentialsCredentialHashAlgorithm::Sha256 => "sha-256"@,
        AcceptCredentialsCredentialHashAlgorithm::Other(v) => v@,
    }
}

/// The named value that the text `s` stands for, if any.
pub open spec fn accept_credentials_credential_hash_algorithm_parse(s: Seq<char>) -> Option<AcceptCredentialsCredentialHashAlgorithm> {
    if s == "sha-256"@ { Some(AcceptCredentialsCredentialHashAlgorithm::Sha256) }
    else { None }
}

impl AcceptCredentialsCredentialHashAlgorithm {
    /// Reads the value from its text; any other text is kept as it is.
    pub fn from_str(s: &str) -> (r: Result<AcceptCredentialsCredentialHashAlgorithm, ()>)
        ensures
            match accept_credentials_credential_hash_algorithm_parse(s@) {
                Some(x) => r == Ok::<AcceptCredentialsCredentialHashAlgorithm, ()>(x),
                None => r matches Ok(AcceptCredentialsCredentialHashAlgorithm::Other(v)) && v@ == s@,
            },
    {
        if str_eq(s, "sha-256") {
            return Ok(AcceptCredentialsCredentialHashAlgorithm::Sha256);
        }
        Ok(AcceptCredentialsCredentialHashAlgorithm::Other(String::from_str(s)))
    }

    /// The text of the value.
    pub fn to_string(&self) -> (r: String)
        ensures
            r@ == accept_credentials_credential_hash_algorithm_text(*self),
    {
        match self {
            AcceptCredentialsCredentialHashAlgorithm::Sha256 => String::from_str("sha-256"),
            AcceptCredentialsCredentialHashAlgorithm::Other(v) => v.clone(),
        }
    }
}

/// Reading the text of a named value gives the value.
pub proof fn lemma_accept_credentials_credential_hash_algorithm_text_roundtrip(x: AcceptCredentialsCredentialHashAlgorithm)
    requires
        !(x is Other),
    ensures
        accept_credentials_credential_hash_algorithm_parse(accept_credentials_credential_hash_algorithm_text(x)) == Some(x),
{
    reveal_strlit("sha-256");
    assert("sha-256"@.len() == 7 && "sha-256"@[0] == 's' && "sha-256"@[1] == 'h' && "sha-256"@[2] == 'a' && "sha-256"@[3] == '-' && "sha-256"@[4] == '2' && "sha-256"@[5] == '5' && "sha-256"@[6] == '6');
}

/// A kind of media range.
#[derive(Clone, Debug, Eq, PartialEq)]
pub enum MediaTypeRanges {
    Npt,
    Smpte,
    Smpte30Drop,
    Smpte25,
    Clock,
    Ext(String),
}

/// The text of a value.
pub open spec fn media_type_ranges_text(x: MediaTypeRanges) -> Seq<char> {
    match x {
        MediaTypeRanges::Npt => "npt"@,
        MediaTypeRanges::Smpte => "smpte"@,
        MediaTypeRanges::Smpte30Drop => "smpte-30-drop"@,
        MediaTypeRanges::Smpte25 => "smpte-25"@,
        MediaTypeRanges::Clock => "clock"@,
        MediaTypeRanges::Ext(v) => v@,
    }
}

/// The named value that the text `s` stands for, if any.
pub open spec fn media_type_ranges_parse(s: Seq<char>) -> Option<MediaTypeRanges> {
    if s == "npt"@ { Some(MediaTypeRanges::Npt) }
    else if s == "smpte"@ { Some(MediaTypeRanges::Smpte) }
    else if s == "smpte-30-drop"@ { Some(MediaTypeRanges::Smpte30Drop) }
    else if s == "smpte-25"@ { Some(MediaTypeRanges::Smpte25) }
    else if s == "clock"@ { Some(MediaTypeRanges::Clock) }
    else { None }
}

impl MediaTypeRanges {
    /// Reads the value from its text; any other text is kept as it is.
    pub fn from_str(s: &str) -> (r: Result<MediaTypeRanges, ()>)
        ensures
            match media_type_ranges_parse(s@) {
                Some(x) => r == Ok::<MediaTypeRanges, ()>(x),
                None => r matches Ok(MediaTypeRanges::Ext(v)) && v@ == s@,
            },
    {
        if str_eq(s, "npt") {
            return Ok(MediaTypeRanges::Npt);
        }
        if str_eq(s, "smpte") {
            return Ok(MediaTypeRanges::Smpte);
        }
        if str_eq(s, "smpte-30-drop") {
            return Ok(MediaTypeRanges::Smpte30Drop);
        }
        if str_eq(s, "smpte-25") {
            return Ok(MediaTypeRanges::Smpte25);
        }
        if str_eq(s, "clock") {
            return Ok(MediaTypeRanges::Clock);
        }
        Ok(MediaTypeRanges::Ext(String::from_str(s)))
    }

    /// The text of the value.
    pub fn to_string(&self) -> (r: String)
        ensures
            r@ == media_type_ranges_text(*self),
    {
        match self {
            MediaTypeRanges::Npt => String::from_str("npt"),
            MediaTypeRanges::Smpte => String::from_str("smpte"),
            MediaTypeRanges::Smpte30Drop => String::from_str("smpte-30-drop"),
            MediaTypeRanges::Smpte25 => String::from_str("smpte-25"),
            MediaTypeRanges::Clock => String::from_str("clock"),
            MediaTypeRanges::Ext(v) => v.clone(),
        }
    }
}

/// Reading the text of a named value gives the value.
pub proof fn lemma_media_type_ranges_text_roundtrip(x: MediaTypeRanges)
    requires
        !(x is Ext),
    ensures
        media_type_ranges_parse(media_type_ranges_text(x)) == Some(x),
{
    reveal_strlit("clock");
    assert("clock"@.len() == 5 && "clock"@[0] == 'c' && "clock"@[1] == 'l' && "clock"@[2] == 'o' && "clock"@[3] == 'c' && "clock"@[4] == 'k');
    reveal_strlit("npt");
    assert("npt"@.len() == 3 && "npt"@[0] == 'n' && "npt"@[1] == 'p' && "npt"@[2] == 't');
    reveal_strlit("smpte");
    assert("smpte"@.len() == 5 && "smpte"@[0] == 's' && "smpte"@[1] == 'm' && "smpte"@[2] == 'p' && "smpte"@[3] == 't' && "smpte"@[4] == 'e');
    reveal_strlit("smpte-25");
    assert("smpte-25"@.len() == 8 && "smpte-25"@[0] == 's' && "smpte-25"@[1] == 'm' && "smpte-25"@[2] == 'p' && "smpte-25"@[3] == 't' && "smpte-25"@[4] == 'e' && "smpte-25"@[5] == '-' && "smpte-25"@[6] == '2' && "smpte-25"@[7] == '5');
    reveal_strlit("smpte-30-drop");
    assert("smpte-30-drop"@.len() == 13 && "smpte-30-drop"@[0] == 's' && "smpte-30-drop"@[1] == 'm' && "smpte-30-drop"@[2] == 'p' && "smpte-30-drop"@[3] == 't' && "smpte-30-drop"@[4] == 'e' && "smpte-30-drop"@[5] == '-' && "smpte-30-drop"@[6] == '3' && "smpte-30-drop"@[7] == '0' && "smpte-30-drop"@[8] == '-' && "smpte-30-drop"@[9] == 'd' && "smpte-30-drop"@[10] == 'r' && "smpte-30-drop"@[11] == 'o' && "smpte-30-drop"@[12] == 'p');
}

/// Why the server notifies.
#[derive(Clone, Debug, Eq, PartialEq)]
pub enum NotifyReason {
    EndOfStream,
    MediaPropertiesUpdate,
    ScaleChange,
    Ext(String),
}

/// The text of a value.
pub open spec fn notify_reason_text(x: NotifyReason) -> Seq<char> {
    match x {
        NotifyReason::EndOfStream => "end-of-stream"@,
        NotifyReason::MediaPropertiesUpdate => "media-properties-update"@,
        NotifyReason::ScaleChange => "scale-change"@,
        NotifyReason::Ext(v) => v@,
    }
}

/// The named value that the text `s` stands for, if any.
pub open spec fn notify_reason_parse(s: Seq<char>) -> Option<NotifyReason> {
    if s == "end-of-stream"@ { Some(NotifyReason::EndOfStream) }
    else if s == "media-properties-update"@ { Some(NotifyReason::MediaPropertiesUpdate) }
    else if s == "scale-change"@ { Some(NotifyReason::ScaleChange) }
    else { None }
}

impl NotifyReason {
    /// Reads the value from its text; any other text is kept as it is.
    pub fn from_str(s: &str) -> (r: Result<NotifyReason, ()>)
        ensures
            match notify_reason_parse(s@) {
                Some(x) => r == Ok::<NotifyReason, ()>(x),
                None => r matches Ok(NotifyReason::Ext(v)) && v@ == s@,
            },
    {
        if str_eq(s, "end-of-stream") {
            return Ok(NotifyReason::EndOfStream);
        }
        if str_eq(s, "media-properties-update") {
            return Ok(NotifyReason::MediaPropertiesUpdate);
        }
        if str_eq(s, "scale-change") {
            return Ok(NotifyReason::ScaleChange);
        }
        Ok(NotifyReason::Ext(String::from_str(s)))
    }

    /// The text of the value.
    pub fn to_string(&self) -> (r: String)
        ensures
            r@ == notify_reason_text(*self),
    {
        match self {
            NotifyReason::EndOfStream => String::from_str("end-of-stream"),
            NotifyReason::MediaPropertiesUpdate => String::from_str("media-properties-update"),
            NotifyReason::ScaleChange => String::from_str("scale-change"),
            NotifyReason::Ext(v) => v.clone(),
        }
    }
}

/// Reading the text of a named value gives the value.
pub proof fn lemma_notify_reason_text_roundtrip(x: NotifyReason)
    requires
        !(x is Ext),
    ensures
        notify_reason_parse(notify_reason_text(x)) == Some(x),
{
    reveal_strlit("end-of-stream");
    assert("end-of-stream"@.len() == 13 && "end-of-stream"@[0] == 'e' && "end-of-stream"@[1] == 'n' && "end-of-stream"@[2] == 'd' && "end-of-stream"@[3] == '-' && "end-of-stream"@[4] == 'o' && "end-of-stream"@[5] == 'f' && "end-of-stream"@[6] == '-' && "end-of-stream"@[7] == 's' && "end-of-stream"@[8] == 't' && "end-of-stream"@[9] == 'r' && "end-of-stream"@[10] == 'e' && "end-of-stream"@[11] == 'a' && "end-of-stream"@[12] == 'm');
    reveal_strlit("media-properties-update");
    assert("media-properties-update"@.len() == 23 && "media-properties-update"@[0] == 'm' && "media-properties-update"@[1] == 'e' && "media-properties-update"@[2] == 'd' && "media-properties-update"@[3] == 'i' && "media-properties-update"@[4] == 'a' && "media-properties-update"@[5] == '-' && "media-properties-update"@[6] == 'p' && "media-properties-update"@[7] == 'r' && "media-properties-update"@[8] == 'o' && "media-properties-update"@[9] == 'p' && "media-properties-update"@[10] == 'e' && "media-properties-update"@[11] == 'r' && "media-properties-update"@[12] == 't' && "media-properties-update"@[13] == 'i' && "media-properties-update"@[14] == 'e' && "media-properties-update"@[15] == 's' && "media-properties-update"@[16] == '-' && "media-properties-update"@[17] == 'u' && "media-properties-update"@[18] == 'p' && "media-properties-update"@[19] == 'd' && "media-properties-update"@[20] == 'a' && "media-properties-update"@[21] == 't' && "media-properties-update"@[22] == 'e');
    reveal_strlit("scale-change");
    assert("scale-change"@.len() == 12 && "scale-change"@[0] == 's' && "scale-change"@[1] == 'c' && "scale-change"@[2] == 'a' && "scale-change"@[3] == 'l' && "scale-change"@[4] == 'e' && "scale-change"@[5] == '-' && "scale-change"@[6] == 'c' && "scale-change"@[7] == 'h' && "scale-change"@[8] == 'a' && "scale-change"@[9] == 'n' && "scale-change"@[10] == 'g' && "scale-change"@[11] == 'e');
}

/// How a seek is done.
#[derive(Clone, Debug, Eq, PartialEq)]
pub enum SeekStyle {
    Rap,
    CoRap,
    FirstPrior,
    Next,
    Ext(String),
}

/// The text of a value.
pub open spec fn seek_style_text(x: SeekStyle) -> Seq<char> {
    match x {
        SeekStyle::Rap => "RAP"@,
        SeekStyle::CoRap => "CoRAP"@,
        SeekStyle::FirstPrior => "First-Prior"@,
        SeekStyle::Next => "Next"@,
        SeekStyle::Ext(v) => v@,
    }
}

/// The named value that the text `s` stands for, if any.
pub open spec fn seek_style_parse(s: Seq<char>) -> Option<SeekStyle> {
    if s == "RAP"@ { Some(SeekStyle::Rap) }
    else if s == "CoRAP"@ { Some(SeekStyle::CoRap) }
    else if s == "First-Prior"@ { Some(SeekStyle::FirstPrior) }
    else if s == "Next"@ { Some(SeekStyle::Next) }
    else { None }
}

impl SeekStyle {
    /// Reads the value from its text; any other text is kept as it is.
    pub fn from_str(s: &str) -> (r: Result<SeekStyle, ()>)
        ensures
            match seek_style_parse(s@) {
                Some(x) => r == Ok::<SeekStyle, ()>(x),
                None => r matches Ok(SeekStyle::Ext(v)) && v@ == s@,
            },
    {
        if str_eq(s, "RAP") {
            return Ok(SeekStyle::Rap);
        }
        if str_eq(s, "CoRAP") {
            return Ok(SeekStyle::CoRap);
        }
        if str_eq(s, "First-Prior") {
            return Ok(SeekStyle::FirstPrior);
        }
        if str_eq(s, "Next") {
            return Ok(SeekStyle::Next);
        }
        Ok(SeekStyle::Ext(String::from_str(s)))
    }

    /// The text of the value.
    pub fn to_string(&self) -> (r: String)
        ensures
            r@ == seek_style_text(*self),
    {
        match self {
            SeekStyle::Rap => String::from_str("RAP"),
            SeekStyle::CoRap => String::from_str("CoRAP"),
            SeekStyle::FirstPrior => String::from_str("First-Prior"),
            SeekStyle::Next => String::from_str("Next"),
            SeekStyle::Ext(v) => v.clone(),
        }
    }
}

/// Reading the text of a named value gives the value.
pub proof fn lemma_seek_style_text_roundtrip(x: SeekStyle)
    requires
        !(x is Ext),
    ensures
        seek_style_parse(seek_style_text(x)) == Some(x),
{
    reveal_strlit("CoRAP");
    assert("CoRAP"@.len() == 5 && "CoRAP"@[0] == 'C' && "CoRAP"@[1] == 'o' && "CoRAP"@[2] == 'R' && "CoRAP"@[3] == 'A' && "CoRAP"@[4] == 'P');
    reveal_strlit("First-Prior");
    assert("First-Prior"@.len() == 11 && "First-Prior"@[0] == 'F' && "First-Prior"@[1] == 'i' && "First-Prior"@[2] == 'r' && "First-Prior"@[3] == 's' && "First-Prior"@[4] == 't' && "First-Prior"@[5] == '-' && "First-Prior"@[6] == 'P' && "First-Prior"@[7] == 'r' && "First-Prior"@[8] == 'i' && "First-Prior"@[9] == 'o' && "First-Prior"@[10] == 'r');
    reveal_strlit("Next");
    assert("Next"@.len() == 4 && "Next"@[0] == 'N' && "Next"@[1] == 'e' && "Next"@[2] == 'x' && "Next"@[3] == 't');
    reveal_strlit("RAP");
    assert("RAP"@.len() == 3 && "RAP"@[0] == 'R' && "RAP"@[1] == 'A' && "RAP"@[2] == 'P');
}

/// Why a session was terminated.
#[derive(Clone, Debug, Eq, PartialEq)]
pub enum TerminateReasonReason {
    ServerAdmin,
    SessionTimeout,
    InternalError,
    Ext(String),
}

/// The text of a value.
pub open spec fn terminate_reason_reason_text(x: TerminateReasonReason) -> Seq<char> {
    match x {
        TerminateReasonReason::ServerAdmin => "Server-Admin"@,
        TerminateReasonReason::SessionTimeout => "Session-Timeout"@,
        TerminateReasonReason::InternalError => "Internal-Error"@,
        TerminateReasonReason::Ext(v) => v@,
    }
}

/// The named value that the text `s` stands for, if any.
pub open spec fn terminate_reason_reason_parse(s: Seq<char>) -> Option<TerminateReasonReason> {
    if s == "Session-Timeout"@ { Some(TerminateReasonReason::SessionTimeout) }
    else if s == "Server-Admin"@ { Some(TerminateReasonReason::ServerAdmin) }
    else if s == "Internal-Error"@ { Some(TerminateReasonReason::InternalError) }
    else { None }
}

impl TerminateReasonReason {
    /// Reads the value from its text; any other text is kept as it is.
    pub fn from_str(s: &str) -> (r: Result<TerminateReasonReason, ()>)
        ensures
            match terminate_reason_reason_parse(s@) {
                Some(x) => r == Ok::<TerminateReasonReason, ()>(x),
                None => r matches Ok(TerminateReasonReason::Ext(v)) && v@ == s@,
            },
    {
        if str_eq(s, "Session-Timeout") {
            return Ok(TerminateReasonReason::SessionTimeout);
        }
        if str_eq(s, "Server-Admin") {
            return Ok(TerminateReasonReason::ServerAdmin);
        }
        if str_eq(s, "Internal-Error") {
            return Ok(TerminateReasonReason::InternalError);
        }
        Ok(TerminateReasonReason::Ext(String::from_str(s)))
    }

    /// The text of the value.
    pub fn to_string(&self) -> (r: String)
        ensures
            r@ == terminate_reason_reason_text(*self),
    {
        match self {
            TerminateReasonReason::ServerAdmin => String::from_str("Server-Admin"),
            TerminateReasonReason::SessionTimeout => String::from_str("Session-Timeout"),
            TerminateReasonReason::InternalError => String::from_str("Internal-Error"),
            TerminateReasonReason::Ext(v) => v.clone(),
        }
    }
}

/// Reading the text of a named value gives the value.
pub proof fn lemma_terminate_reason_reason_text_roundtrip(x: TerminateReasonReason)
    requires
        !(x is Ext),
    ensures
        terminate_reason_reason_parse(terminate_reason_reason_text(x)) == Some(x),
{
    reveal_strlit("Internal-Error");
    assert("Internal-Error"@.len() == 14 && "Internal-Error"@[0] == 'I' && "Internal-Error"@[1] == 'n' && "Internal-Error"@[2] == 't' && "Internal-Error"@[3] == 'e' && "Internal-Error"@[4] == 'r' && "Internal-Error"@[5] == 'n' && "Internal-Error"@[6] == 'a' && "Internal-Error"@[7] == 'l' && "Internal-Error"@[8] == '-' && "Internal-Error"@[9] == 'E' && "Internal-Error"@[10] == 'r' && "Internal-Error"@[11] == 'r' && "Internal-Error"@[12] == 'o' && "Internal-Error"@[13] == 'r');
    reveal_strlit("Server-Admin");
    assert("Server-Admin"@.len() == 12 && "Server-Admin"@[0] == 'S' && "Server-Admin"@[1] == 'e' && "Server-Admin"@[2] == 'r' && "Server-Admin"@[3] == 'v' && "Server-Admin"@[4] == 'e' && "Server-Admin"@[5] == 'r' && "Server-Admin"@[6] == '-' && "Server-Admin"@[7] == 'A' && "Server-Admin"@[8] == 'd' && "Server-Admin"@[9] == 'm' && "Server-Admin"@[10] == 'i' && "Server-Admin"@[11] == 'n');
    reveal_strlit("Session-Timeout");
    assert("Session-Timeout"@.len() == 15 && "Session-Timeout"@[0] == 'S' && "Session-Timeout"@[1] == 'e' && "Session-Timeout"@[2] == 's' && "Session-Timeout"@[3] == 's' && "Session-Timeout"@[4] == 'i' && "Session-Timeout"@[5] == 'o' && "Session-Timeout"@[6] == 'n' && "Session-Timeout"@[7] == '-' && "Session-Timeout"@[8] == 'T' && "Session-Timeout"@[9] == 'i' && "Session-Timeout"@[10] == 'm' && "Session-Timeout"@[11] == 'e' && "Session-Timeout"@[12] == 'o' && "Session-Timeout"@[13] == 'u' && "Session-Timeout"@[14] == 't');
}

/// Who sets up a connection-oriented transport.
#[derive(Clone, Debug, Eq, PartialEq)]
pub enum ConTransSetup {
    Active,
    Passive,
    ActPass,
}

/// The text of a value.
pub open spec fn con_trans_setup_text(x: ConTransSetup) -> Seq<char> {
    match x {
        ConTransSetup::Active => "active"@,
        ConTransSetup::Passive => "passive"@,
        ConTransSetup::ActPass => "actpass"@,
    }
}

/// The named value that the text `s` stands for, if any.
pub open spec fn con_trans_setup_parse(s: Seq<char>) -> Option<ConTransSetup> {
    if s == "active"@ { Some(ConTransSetup::Active) }
    else if s == "passive"@ { Some(ConTransSetup::Passive) }
    else if s == "actpass"@ { Some(ConTransSetup::ActPass) }
    else { None }
}

impl ConTransSetup {
    /// Reads the value from its text.
    pub fn from_str(s: &str) -> (r: Result<ConTransSetup, ()>)
        ensures
            match con_trans_setup_parse(s@) {
                Some(x) => r == Ok::<ConTransSetup, ()>(x),
                None => r == Err::<ConTransSetup, ()>(()),
            },
    {
        if str_eq(s, "active") {
            return Ok(ConTransSetup::Active);
        }
        if str_eq(s, "passive") {
            return Ok(ConTransSetup::Passive);
        }
        if str_eq(s, "actpass") {
            return Ok(ConTransSetup::ActPass);
        }
        Err(())
    }

    /// The text of the value.
    pub fn to_string(&self) -> (r: String)
        ensures
            r@ == con_trans_setup_text(*self),
    {
        match self {
            ConTransSetup::Active => String::from_str("active"),
            ConTransSetup::Passive => String::from_str("passive"),
            ConTransSetup::ActPass => String::from_str("actpass"),
        }
    }
}

/// Reading the text of a named value gives the value.
pub proof fn lemma_con_trans_setup_text_roundtrip(x: ConTransSetup)
    ensures
        con_trans_setup_parse(con_trans_setup_text(x)) == Some(x),
{
    reveal_strlit("active");
    assert("active"@.len() == 6 && "active"@[0] == 'a' && "active"@[1] == 'c' && "active"@[2] == 't' && "active"@[3] == 'i' && "active"@[4] == 'v' && "active"@[5] == 'e');
    reveal_strlit("actpass");
    assert("actpass"@.len() == 7 && "actpass"@[0] == 'a' && "actpass"@[1] == 'c' && "actpass"@[2] == 't' && "actpass"@[3] == 'p' && "actpass"@[4] == 'a' && "actpass"@[5] == 's' && "actpass"@[6] == 's');
    reveal_strlit("passive");
    assert("passive"@.len() == 7 && "passive"@[0] == 'p' && "passive"@[1] == 'a' && "passive"@[2] == 's' && "passive"@[3] == 's' && "passive"@[4] == 'i' && "passive"@[5] == 'v' && "passive"@[6] == 'e');
}

/// Whether a connection-oriented transport is new.
#[derive(Copy, Clone, Debug, Eq, PartialEq)]
pub enum ConTransCon {
    New,
    Existing,
}

/// The text of a value.
pub open spec fn con_trans_con_text(x: ConTransCon) -> Seq<char> {
    match x {
        ConTransCon::New => "new"@,
        ConTransCon::Existing => "existing"@,
    }
}

/// The named value that the text `s` stands for, if any.
pub open spec fn con_trans_con_parse(s: Seq<char>) -> Option<ConTransCon> {
    if s == "new"@ { Some(ConTransCon::New) }
    else if s == "existing"@ { Some(ConTransCon::Existing) }
    else { None }
}

impl ConTransCon {
    /// Reads the value from its text.
    pub fn from_str(s: &str) -> (r: Result<ConTransCon, ()>)
        ensures
            match con_trans_con_parse(s@) {
                Some(x) => r == Ok::<ConTransCon, ()>(x),
                None => r == Err::<ConTransCon, ()>(()),
            },
    {
        if str_eq(s, "new") {
            return Ok(ConTransCon::New);
        }
        if str_eq(s, "existing") {
            return Ok(ConTransCon::Existing);
        }
        Err(())
    }

    /// The text of the value.
    pub fn to_string(&self) -> (r: String)
        ensures
            r@ == con_trans_con_text(*self),
    {
        match self {
            ConTransCon::New => String::from_str("new"),
            ConTransCon::Existing => String::from_str("existing"),
        }
    }
}

/// Reading the text of a named value gives the value.
pub proof fn lemma_con_trans_con_text_roundtrip(x: ConTransCon)
    ensures
        con_trans_con_parse(con_trans_con_text(x)) == Some(x),
{
    reveal_strlit("existing");
    assert("existing"@.len() == 8 && "existing"@[0] == 'e' && "existing"@[1] == 'x' && "existing"@[2] == 'i' && "existing"@[3] == 's' && "existing"@[4] == 't' && "existing"@[5] == 'i' && "existing"@[6] == 'n' && "existing"@[7] == 'g');
    reveal_strlit("new");
    assert("new"@.len() == 3 && "new"@[0] == 'n' && "new"@[1] == 'e' && "new"@[2] == 'w');
}

/// The mode of a transport.
#[derive(Clone, Debug, Eq, PartialEq)]
pub enum Mode {
    Play,
    Ext(String),
}

/// The text of a value.
pub open spec fn mode_text(x: Mode) -> Seq<char> {
    match x {
        Mode::Play => "PLAY"@,
        Mode::Ext(v) => v@,
    }
}

/// The named value that the text `s` stands for, if any.
pub open spec fn mode_parse(s: Seq<char>) -> Option<Mode> {
    if s == "PLAY"@ { Some(Mode::Play) }
    else { None }
}

impl Mode {
    /// Reads the value from its text; any other text is kept as it is.
    pub fn from_str(s: &str) -> (r: Result<Mode, ()>)
        ensures
            match mode_parse(s@) {
                Some(x) => r == Ok::<Mode, ()>(x),
                None => r matches Ok(Mode::Ext(v)) && v@ == s@,
            },
    {
        if str_eq(s, "PLAY") {
            return Ok(Mode::Play);
        }
        Ok(Mode::Ext(String::from_str(s)))
    }

    /// The text of the value.
    pub fn to_string(&self) -> (r: String)
        ensures
            r@ == mode_text(*self),
    {
        match self {
            Mode::Play => String::from_str("PLAY"),
            Mode::Ext(v) => v.clone(),
        }
    }
}

/// Reading the text of a named value gives the value.
pub proof fn lemma_mode_text_roundtrip(x: Mode)
    requires
        !(x is Ext),
    ensures
        mode_parse(mode_text(x)) == Some(x),
{
    reveal_strlit("PLAY");
    assert("PLAY"@.len() == 4 && "PLAY"@[0] == 'P' && "PLAY"@[1] == 'L' && "PLAY"@[2] == 'A' && "PLAY"@[3] == 'Y');
}

/// The protocol of a transport.
#[derive(Clone, Debug, Eq, PartialEq)]
pub enum TransportProtocol {
    Udp,
    Tcp,
    Tls,
    Quic,
    Other(String),
}

/// The text of a value.
pub open spec fn transport_protocol_text(x: TransportProtocol) -> Seq<char> {
    match x {
        TransportProtocol::Udp => "UDP"@,
        TransportProtocol::Tcp => "TCP"@,
        TransportProtocol::Tls => "TLS"@,
        TransportProtocol::Quic => "QUIC"@,
        TransportProtocol::Other(v) => v@,
    }
}

/// The named value that the text `s` stands for, if any.
pub open spec fn transport_protocol_parse(s: Seq<char>) -> Option<TransportProtocol> {
    if s == "UDP"@ { Some(TransportProtocol::Udp) }
    else if s == "TCP"@ { Some(TransportProtocol::Tcp) }
    else if s == "TLS"@ { Some(TransportProtocol::Tls) }
    else if s == "QUIC"@ { Some(TransportProtocol::Quic) }
    else { None }
}

impl TransportProtocol {
    /// Reads the value from its text; any other text is kept as it is.
    pub fn from_str(s: &str) -> (r: Result<TransportProtocol, ()>)
        ensures
            match transport_protocol_parse(s@) {
                Some(x) => r == Ok::<TransportProtocol, ()>(x),
                None => r matches Ok(TransportProtocol::Other(v)) && v@ == s@,
            },
    {
        if str_eq(s, "UDP") {
            return Ok(TransportProtocol::Udp);
        }
        if str_eq(s, "TCP") {
            return Ok(TransportProtocol::Tcp);
        }
        if str_eq(s, "TLS") {
            return Ok(TransportProtocol::Tls);
        }
        if str_eq(s, "QUIC") {
            return Ok(TransportProtocol::Quic);
        }
        Ok(TransportProtocol::Other(String::from_str(s)))
    }

    /// The text of the value.
    pub fn to_string(&self) -> (r: String)
        ensures
            r@ == transport_protocol_text(*self),
    {
        match self {
            TransportProtocol::Udp => String::from_str("UDP"),
            TransportProtocol::Tcp => String::from_str("TCP"),
            TransportProtocol::Tls => String::from_str("TLS"),
            TransportProtocol::Quic => String::from_str("QUIC"),
            TransportProtocol::Other(v) => v.clone(),
        }
    }
}

/// Reading the text of a named value gives the value.
pub proof fn lemma_transport_protocol_text_roundtrip(x: TransportProtocol)
    requires
        !(x is Other),
    ensures
        transport_protocol_parse(transport_protocol_text(x)) == Some(x),
{
    reveal_strlit("QUIC");
    assert("QUIC"@.len() == 4 && "QUIC"@[0] == 'Q' && "QUIC"@[1] == 'U' && "QUIC"@[2] == 'I' && "QUIC"@[3] == 'C');
    reveal_strlit("TCP");
    assert("TCP"@.len() == 3 && "TCP"@[0] == 'T' && "TCP"@[1] == 'C' && "TCP"@[2] == 'P');
    reveal_strlit("TLS");
    assert("TLS"@.len() == 3 && "TLS"@[0] == 'T' && "TLS"@[1] == 'L' && "TLS"@[2] == 'S');
    reveal_strlit("UDP");
    assert("UDP"@.len() == 3 && "UDP"@[0] == 'U' && "UDP"@[1] == 'D' && "UDP"@[2] == 'P');
}

/// Credentials that are accepted.
#[derive(Clone, Debug, Eq, PartialEq)]
pub enum AcceptCredentials {
    User(Vec<AcceptCredentialsInfo>),
    Proxy,
    Any,
    Ext(String, Option<String>),
}

/// The URI and hash of accepted credentials.
#[derive(Clone, Debug, Eq, PartialEq)]
pub struct AcceptCredentialsInfo {
    pub uri: String,
    pub algo: AcceptCredentialsCredentialHashAlgorithm,
    pub hash: Vec<u8>,
}

/// A directive of `Cache-Control`.
#[derive(Clone, Debug, Eq, PartialEq)]
pub enum CacheControl {
    MaxStale(Option<usize>),
    MinFresh(usize),
    OnlyIfCached,
    Public,
    Private,
    NoCache,
    NoTransform,
    MustRevalidate,
    ProxyRevalidate,
    MaxAge(usize),
    Ext(String, Option<String>),
}

/// The credentials of a connection.
#[derive(Clone, Debug, Default, Eq, PartialEq)]
pub struct ConnectionCredentials {
    pub url: String,
    pub cred: Vec<u8>,
}

/// A message body tag.
#[derive(Clone, Eq, PartialEq, Debug)]
pub struct MTag {
    pub weak_validator: bool,
    pub value: String,
}

/// The status of a request.
#[derive(Clone, Debug, Eq, PartialEq)]
pub struct RequestStatus {
    pub cseq: usize,
    pub status: Status,
    pub reason: String,
}

/// RTP information of a stream.
#[derive(Clone, Debug, Eq, PartialEq)]
pub struct RtpInfo {
    pub url: String,
    pub ssrc: u32,
    pub params: Vec<String>,
}

/// A transport specification.
#[derive(Clone, Debug, Default, Eq, PartialEq)]
pub struct Transport {
    pub id: String,
    pub params: Vec<TransportParam>,
}

/// A parameter of a transport specification.
#[derive(Clone, Debug, Eq, PartialEq)]
pub enum TransportParam {
    Unicast,
    Multicast,
    Interleaved(u8, Option<u8>),
    Ttl(u8),
    Layers(usize),
    Ssrc(u32),
    Mode(Vec<Mode>),
    DstAddr(Vec<String>),
    SrcAddr(Vec<String>),
    Setup(ConTransSetup),
    Connection(ConTransCon),
    RtcpMux,
    MiKey(Vec<u8>),
    Ext(String, Option<String>),
}

/// A media time, kept as its text.
#[derive(Clone, Debug, Default, Eq, PartialEq)]
pub struct MediaTime(pub String);

impl MediaTime {
    /// Keeps the text as it is.
    pub fn from_str(s: &str) -> (r: Result<MediaTime, ()>)
        ensures
            r matches Ok(t) && t.0@ == s@,
    {
        Ok(MediaTime(String::from_str(s)))
    }

    /// The text of the media time.
    pub fn to_string(&self) -> (r: String)
        ensures
            r@ == self.0@,
    {
        self.0.clone()
    }
}

/// The codes of the RTSP response statuses, as RFC 7826 (section 17) assigns them: each status
/// has its code, and each code reads as its status.
#[verifier::rlimit(50)]
pub proof fn lemma_status_numbers()
    ensures
        status_code(Status::Continue) == 100,
        status_of(100) == Some(Status::Continue),
        status_code(Status::OK) == 200,
        status_of(200) == Some(Status::OK),
        status_code(Status::MovedPermanently) == 301,
        status_of(301) == Some(Status::MovedPermanently),
        status_code(Status::Found) == 302,
        status_of(302) == Some(Status::Found),
        status_code(Status::SeeOther) == 303,
        status_of(303) == Some(Status::SeeOther),
        status_code(Status::NotModified) == 304,
        status_of(304) == Some(Status::NotModified),
        status_code(Status::UseProxy) == 305,
        status_of(305) == Some(Status::UseProxy),
        status_code(Status::BadRequest) == 400,
        status_of(400) == Some(Status::BadRequest),
        status_code(Status::Unauthorized) == 401,
        status_of(401) == Some(Status::Unauthorized),
        status_code(Status::PaymentRequired) == 402,
        status_of(402) == Some(Status::PaymentRequired),
        status_code(Status::Forbidden) == 403,
        status_of(403) == Some(Status::Forbidden),
        status_code(Status::NotFound) == 404,
        status_of(404) == Some(Status::NotFound),
        status_code(Status::MethodNotAllowed) == 405,
        status_of(405) == Some(Status::MethodNotAllowed),
        status_code(Status::NotAcceptable) == 406,
        status_of(406) == Some(Status::NotAcceptable),
        status_code(Status::ProxyAuthenticationRequired) == 407,
        status_of(407) == Some(Status::ProxyAuthenticationRequired),
        status_code(Status::RequestTimeout) == 408,
        status_of(408) == Some(Status::RequestTimeout),
        status_code(Status::Gone) == 410,
        status_of(410) == Some(Status::Gone),
        status_code(Status::PreconditionFailed) == 412,
        status_of(412) == Some(Status::PreconditionFailed),
        status_code(Status::RequestBodyTooLarge) == 413,
        status_of(413) == Some(Status::RequestBodyTooLarge),
        status_code(Status::RequestUriTooLong) == 414,
        status_of(414) == Some(Status::RequestUriTooLong),
        status_code(Status::UnsupportedMediaType) == 415,
        status_of(415) == Some(Status::UnsupportedMediaType),
        status_code(Status::ParameterNotUnderstood) == 451,
        status_of(451) == Some(Status::ParameterNotUnderstood),
        status_code(Status::IllegalConferenceIdentifier) == 452,
        status_of(452) == Some(Status::IllegalConferenceIdentifier),
        status_code(Status::NotEnoughBandwidth) == 453,
        status_of(453) == Some(Status::NotEnoughBandwidth),
        status_code(Status::SessionNotFound) == 454,
        status_of(454) == Some(Status::SessionNotFound),
        status_code(Status::MethodNotValidInThisState) == 455,
        status_of(455) == Some(Status::MethodNotValidInThisState),
        status_code(Status::HeaderFieldNotValidForResource) == 456,
        status_of(456) == Some(Status::HeaderFieldNotValidForResource),
        status_code(Status::InvalidRange) == 457,
        status_of(457) == Some(Status::InvalidRange),
        status_code(Status::ParameterIsReadOnly) == 458,
        status_of(458) == Some(Status::ParameterIsReadOnly),
        status_code(Status::AggregateOperationNotAllowed) == 459,
        status_of(459) == Some(Status::AggregateOperationNotAllowed),
        status_code(Status::OnlyAggregateOperationAllowed) == 460,
        status_of(460) == Some(Status::OnlyAggregateOperationAllowed),
        status_code(Status::UnsupportedTransport) == 461,
        status_of(461) == Some(Status::UnsupportedTransport),
        status_code(Status::DestinationUnreachable) == 462,
        status_of(462) == Some(Status::DestinationUnreachable),
        status_code(Status::DestinationProhibited) == 463,
        status_of(463) == Some(Status::DestinationProhibited),
        status_code(Status::DataTransportNotReadyYet) == 464,
        status_of(464) == Some(Status::DataTransportNotReadyYet),
        status_code(Status::NotificationReasonUnknown) == 465,
        status_of(465) == Some(Status::NotificationReasonUnknown),
        status_code(Status::KeyManagementError) == 466,
        status_of(466) == Some(Status::KeyManagementError),
        status_code(Status::ConnectionAuthorizationRequired) == 470,
        status_of(470) == Some(Status::ConnectionAuthorizationRequired),
        status_code(Status::ConnectionCredentialsNotAccepted) == 471,
        status_of(471) == Some(Status::ConnectionCredentialsNotAccepted),
        status_code(Status::FailureToEstablishSecureConnection) == 472,
        status_of(472) == Some(Status::FailureToEstablishSecureConnection),
        status_code(Status::InternalServerError) == 500,
        status_of(500) == Some(Status::InternalServerError),
        status_code(Status::NotImplemented) == 501,
        status_of(501) == Some(Status::NotImplemented),
        status_code(Status::BadGateway) == 502,
        status_of(502) == Some(Status::BadGateway),
        status_code(Status::ServiceUnavailable) == 503,
        status_of(503) == Some(Status::ServiceUnavailable),
        status_code(Status::GatewayTimeout) == 504,
        status_of(504) == Some(Status::GatewayTimeout),
        status_code(Status::RtspVersionNotSupported) == 505,
        status_of(505) == Some(Status::RtspVersionNotSupported),
        status_code(Status::OptionNotSupported) == 551,
        status_of(551) == Some(Status::OptionNotSupported),
        status_code(Status::ProxyUnavailable) == 553,
        status_of(553) == Some(Status::ProxyUnavailable),
{
}

/// Every number that reads as a status is the number that status is written as.
pub proof fn lemma_status_of_inverse(v: usize)
    ensures
        status_of(v) matches Some(x) ==> status_code(x) == v,
{
}

/// The names of the RTSP methods, as RFC 7826 (section 13) gives them.
#[verifier::rlimit(50)]
pub proof fn lemma_method_names()
    ensures
        method_text(Method::Options) == "OPTIONS"@,
        method_text(Method::Describe) == "DESCRIBE"@,
        method_text(Method::Setup) == "SETUP"@,
        method_text(Method::Play) == "PLAY"@,
        method_text(Method::PlayNotify) == "PLAY_NOTIFY"@,
        method_text(Method::Pause) == "PAUSE"@,
        method_text(Method::TearDown) == "TEARDOWN"@,
        method_text(Method::GetParam) == "GET_PARAM"@,
        method_text(Method::SetParam) == "SET_PARAM"@,
        method_text(Method::Redirect) == "REDIRECT"@,
{
}

} // verus!
