//! HTTP header names and the values of several headers.
use vstd::prelude::*;
use vstd::string::StringExecFns;
use vstd::string::StrSliceExecFns;
use crate::text::{str_eq, parse_usize, usize_text, push_decimal, decimal, index_of_from, lemma_index_of_from, last_index_before, lemma_usize_text_decimal};
use crate::text::{split_ascii_whitespace, words, ascii_ws, lemma_two_words, split_char, pieces, split_once, trim, trimmed, push_char, lemma_pieces_cons, lemma_pieces_single, lemma_decimal_digits, all_digits};

verus! {

/// The headers that are known by name.
#[derive(Copy, Clone, Eq, PartialEq, Ord, PartialOrd, Debug)]
pub enum HeaderId {
    AcceptCharset,
    AcceptEncoding,
    AcceptLanguage,
    AcceptRanges,
    AcceptTypes,
    AccessControlAllowCredentials,
    AccessControlAllowHeaders,
    AccessControlAllowMethods,
    AccessControlAllowOrigin,
    AccessControlAllowExposeHeaders,
    AccessControlAllowMaxAge,
    AccessControlAllowRequestHeaders,
    AccessControlAllowRequestMethod,
    Allow,
    Authority,
    Authorization,
    CacheControl,
    ClearSiteData,
    Connection,
    ContentDisposition,
    ContentEncoding,
    ContentLanguage,
    ContentLength,
    ContentLocation,
    ContentRange,
    ContentType,
    Cookie,
    Dnt,
    Date,
    ETag,
    Expires,
    Host,
    IfMatch,
    IfModifiedSince,
    IfNoneMatch,
    IfRange,
    IfUnmodifiedSince,
    KeepAlive,
    LastModified,
    Location,
    Method,
    Path,
    ProxyAuthenticate,
    ProxyAuthorization,
    Range,
    Referer,
    RetryAfter,
    SaveData,
    Scheme,
    SecWebSocketProtocol,
    SecWebSocketExtensions,
    SecWebSocketVersion,
    SecWebSocketAccept,
    SecWebSocketKey,
    Server,
    SetCookie,
    Status,
    Upgrade,
    UpgradeInsecureRequests,
    UserAgent,
    Vary,
    WwwAuthenticate,
}

/// The name of a header as HTTP/1 writes it.
pub open spec fn header_name_v1(id: HeaderId) -> Seq<char> {
    match id {
        HeaderId::AcceptCharset => "Accept-Charset"@,
        HeaderId::AcceptEncoding => "Accept-Encoding"@,
        HeaderId::AcceptLanguage => "Accept-Language"@,
        HeaderId::AcceptRanges => "Accept-Ranges"@,
        HeaderId::AcceptTypes => "Accept"@,
        HeaderId::AccessControlAllowCredentials => "Access-Control-Allow-Credentials"@,
        HeaderId::AccessControlAllowHeaders => "Access-Control-Allow-Headers"@,
        HeaderId::AccessControlAllowMethods => "Access-Control-Allow-Methods"@,
        HeaderId::AccessControlAllowOrigin => "Access-Control-Allow-Origin"@,
        HeaderId::AccessControlAllowExposeHeaders => "Access-Control-Allow-Expose-Headers"@,
        HeaderId::AccessControlAllowMaxAge => "Access-Control-Allow-Max-Age"@,
        HeaderId::AccessControlAllowRequestHeaders => "Access-Control-Allow-Request-Headers"@,
        HeaderId::AccessControlAllowRequestMethod => "Access-Control-Allow-Method"@,
        HeaderId::Allow => "Allow"@,
        HeaderId::Authority => ":Authority"@,
        HeaderId::Authorization => "Authorization"@,
        HeaderId::CacheControl => "Cache-Control"@,
        HeaderId::ClearSiteData => "Clear-Site-Data"@,
        HeaderId::Connection => "Connection"@,
        HeaderId::ContentDisposition => "Content-Disposition"@,
        HeaderId::ContentEncoding => "Content-Encoding"@,
        HeaderId::ContentLanguage => "Content-Language"@,
        HeaderId::ContentLength => "Content-Length"@,
        HeaderId::ContentLocation => "Content-Location"@,
        HeaderId::ContentRange => "Content-Range"@,
        HeaderId::ContentType => "Content-Type"@,
        HeaderId::Cookie => "Cookie"@,
        HeaderId::Dnt => "DNT"@,
        HeaderId::Date => "Date"@,
        HeaderId::ETag => "ETag"@,
        HeaderId::Expires => "Expires"@,
        HeaderId::Host => "Host"@,
        HeaderId::IfMatch => "If-Match"@,
        HeaderId::IfModifiedSince => "If-Modified-Since"@,
        HeaderId::IfNoneMatch => "If-None-Match"@,
        HeaderId::IfRange => "If-Range"@,
        HeaderId::IfUnmodifiedSince => "If-Unmodified-Since"@,
        HeaderId::KeepAlive => "Keep-Alive"@,
        HeaderId::LastModified => "Last-Modified"@,
        HeaderId::Location => "Location"@,
        HeaderId::Method => ":Method"@,
        HeaderId::Path => ":Path"@,
        HeaderId::ProxyAuthenticate => "Proxy-Authenticate"@,
        HeaderId::ProxyAuthorization => "Proxy-Authorization"@,
        HeaderId::Range => "Range"@,
        HeaderId::Referer => "Referer"@,
        HeaderId::RetryAfter => "Retry-After"@,
        HeaderId::SaveData => "Save-Data"@,
        HeaderId::Scheme => ":Scheme"@,
        HeaderId::SecWebSocketProtocol => "Sec-Web-Socket-Protocol"@,
        HeaderId::SecWebSocketExtensions => "Sec-Web-Socket-Extensions"@,
        HeaderId::SecWebSocketVersion => "Sec-Web-Socket-Version"@,
        HeaderId::SecWebSocketAccept => "Sec-Web-Socket-Accept"@,
        HeaderId::SecWebSocketKey => "Sec-Web-Socket-Key"@,
        HeaderId::Server => "Server"@,
        HeaderId::SetCookie => "Set-Cookie"@,
        HeaderId::Status => "Status"@,
        HeaderId::Upgrade => "Upgrade"@,
        HeaderId::UpgradeInsecureRequests => "Upgrade-Insecure-Requests"@,
        HeaderId::UserAgent => "User-Agent"@,
        HeaderId::Vary => "Vary"@,
        HeaderId::WwwAuthenticate => "WWW-Authenticate"@,
    }
}

/// The name of a header as HTTP/2 writes it: in lowercase.
pub open spec fn header_name_v2(id: HeaderId) -> Seq<char> {
    match id {
        HeaderId::AcceptCharset => "accept-charset"@,
        HeaderId::AcceptEncoding => "accept-encoding"@,
        HeaderId::AcceptLanguage => "accept-language"@,
        HeaderId::AcceptRanges => "accept-ranges"@,
        HeaderId::AcceptTypes => "accept"@,
        HeaderId::AccessControlAllowCredentials => "access-control-allow-credentials"@,
        HeaderId::AccessControlAllowHeaders => "access-control-allow-headers"@,
        HeaderId::AccessControlAllowMethods => "access-control-allow-methods"@,
        HeaderId::AccessControlAllowOrigin => "access-control-allow-origin"@,
        HeaderId::AccessControlAllowExposeHeaders => "access-control-allow-expose-headers"@,
        HeaderId::AccessControlAllowMaxAge => "access-control-allow-max-age"@,
        HeaderId::AccessControlAllowRequestHeaders => "access-control-allow-request-headers"@,
        HeaderId::AccessControlAllowRequestMethod => "access-control-allow-method"@,
        HeaderId::Allow => "allow"@,
        HeaderId::Authority => ":authority"@,
        HeaderId::Authorization => "authorization"@,
        HeaderId::CacheControl => "cache-control"@,
        HeaderId::ClearSiteData => "clear-site-data"@,
        HeaderId::Connection => "connection"@,
        HeaderId::ContentDisposition => "content-disposition"@,
        HeaderId::ContentEncoding => "content-encoding"@,
        HeaderId::ContentLanguage => "content-language"@,
        HeaderId::ContentLength => "content-length"@,
        HeaderId::ContentLocation => "content-location"@,
        HeaderId::ContentRange => "content-range"@,
        HeaderId::ContentType => "content-type"@,
        HeaderId::Cookie => "cookie"@,
        HeaderId::Dnt => "dnt"@,
        HeaderId::Date => "date"@,
        HeaderId::ETag => "etag"@,
        HeaderId::Expires => "expires"@,
        HeaderId::Host => "host"@,
        HeaderId::IfMatch => "if-match"@,
        HeaderId::IfModifiedSince => "if-modified-since"@,
        HeaderId::IfNoneMatch => "if-none-match"@,
        HeaderId::IfRange => "if-range"@,
        HeaderId::IfUnmodifiedSince => "if-unmodified-since"@,
        HeaderId::KeepAlive => "keep-alive"@,
        HeaderId::LastModified => "last-modified"@,
        HeaderId::Location => "location"@,
        HeaderId::Method => ":method"@,
        HeaderId::Path => ":path"@,
        HeaderId::ProxyAuthenticate => "proxy-authenticate"@,
        HeaderId::ProxyAuthorization => "proxy-authorization"@,
        HeaderId::Range => "range"@,
        HeaderId::Referer => "referer"@,
        HeaderId::RetryAfter => "retry-after"@,
        HeaderId::SaveData => "save-data"@,
        HeaderId::Scheme => ":scheme"@,
        HeaderId::SecWebSocketProtocol => "sec-web-socket-protocol"@,
        HeaderId::SecWebSocketExtensions => "sec-web-socket-extensions"@,
        HeaderId::SecWebSocketVersion => "sec-web-socket-version"@,
        HeaderId::SecWebSocketAccept => "sec-web-socket-accept"@,
        HeaderId::SecWebSocketKey => "sec-web-socket-key"@,
        HeaderId::Server => "server"@,
        HeaderId::SetCookie => "set-cookie"@,
        HeaderId::Status => "status"@,
        HeaderId::Upgrade => "upgrade"@,
        HeaderId::UpgradeInsecureRequests => "upgrade-insecure-requests"@,
        HeaderId::UserAgent => "user-agent"@,
        HeaderId::Vary => "vary"@,
        HeaderId::WwwAuthenticate => "www-authenticate"@,
    }
}

/// The header that the name `s` stands for, if any: the HTTP/1 or the HTTP/2 name, but the
/// pseudo-headers only in lowercase.
pub open spec fn header_id_parse(s: Seq<char>) -> Option<HeaderId> {
    if s == "Accept-Charset"@ { Some(HeaderId::AcceptCharset) }
    else if s == "accept-charset"@ { Some(HeaderId::AcceptCharset) }
    else if s == "Accept-Encoding"@ { Some(HeaderId::AcceptEncoding) }
    else if s == "accept-encoding"@ { Some(HeaderId::AcceptEncoding) }
    else if s == "Accept-Language"@ { Some(HeaderId::AcceptLanguage) }
    else if s == "accept-language"@ { Some(HeaderId::AcceptLanguage) }
    else if s == "Accept-Ranges"@ { Some(HeaderId::AcceptRanges) }
    else if s == "accept-ranges"@ { Some(HeaderId::AcceptRanges) }
    else if s == "Accept"@ { Some(HeaderId::AcceptTypes) }
    else if s == "accept"@ { Some(HeaderId::AcceptTypes) }
    else if s == "Access-Control-Allow-Credentials"@ { Some(HeaderId::AccessControlAllowCredentials) }
    else if s == "access-control-allow-credentials"@ { Some(HeaderId::AccessControlAllowCredentials) }
    else if s == "Access-Control-Allow-Headers"@ { Some(HeaderId::AccessControlAllowHeaders) }
    else if s == "access-control-allow-headers"@ { Some(HeaderId::AccessControlAllowHeaders) }
    else if s == "Access-Control-Allow-Methods"@ { Some(HeaderId::AccessControlAllowMethods) }
    else if s == "access-control-allow-methods"@ { Some(HeaderId::AccessControlAllowMethods) }
    else if s == "Access-Control-Allow-Origin"@ { Some(HeaderId::AccessControlAllowOrigin) }
    else if s == "access-control-allow-origin"@ { Some(HeaderId::AccessControlAllowOrigin) }
    else if s == "Access-Control-Allow-Expose-Headers"@ { Some(HeaderId::AccessControlAllowExposeHeaders) }
    else if s == "access-control-allow-expose-headers"@ { Some(HeaderId::AccessControlAllowExposeHeaders) }
    else if s == "Access-Control-Allow-Max-Age"@ { Some(HeaderId::AccessControlAllowMaxAge) }
    else if s == "access-control-allow-max-age"@ { Some(HeaderId::AccessControlAllowMaxAge) }
    else if s == "Access-Control-Allow-Request-Headers"@ { Some(HeaderId::AccessControlAllowRequestHeaders) }
    else if s == "access-control-allow-request-headers"@ { Some(HeaderId::AccessControlAllowRequestHeaders) }
    else if s == "Access-Control-Allow-Method"@ { Some(HeaderId::AccessControlAllowRequestMethod) }
    else if s == "access-control-allow-method"@ { Some(HeaderId::AccessControlAllowRequestMethod) }
    else if s == "Allow"@ { Some(HeaderId::Allow) }
    else if s == "allow"@ { Some(HeaderId::Allow) }
    else if s == ":authority"@ { Some(HeaderId::Authority) }
    else if s == "Authorization"@ { Some(HeaderId::Authorization) }
    else if s == "authorization"@ { Some(HeaderId::Authorization) }
    else if s == "Cache-Control"@ { Some(HeaderId::CacheControl) }
    else if s == "cache-control"@ { Some(HeaderId::CacheControl) }
    else if s == "Clear-Site-Data"@ { Some(HeaderId::ClearSiteData) }
    else if s == "clear-site-data"@ { Some(HeaderId::ClearSiteData) }
    else if s == "Connection"@ { Some(HeaderId::Connection) }
    else if s == "connection"@ { Some(HeaderId::Connection) }
    else if s == "Content-Disposition"@ { Some(HeaderId::ContentDisposition) }
    else if s == "content-disposition"@ { Some(HeaderId::ContentDisposition) }
    else if s == "Content-Encoding"@ { Some(HeaderId::ContentEncoding) }
    else if s == "content-encoding"@ { Some(HeaderId::ContentEncoding) }
    else if s == "Content-Language"@ { Some(HeaderId::ContentLanguage) }
    else if s == "content-language"@ { Some(HeaderId::ContentLanguage) }
    else if s == "Content-Length"@ { Some(HeaderId::ContentLength) }
    else if s == "content-length"@ { Some(HeaderId::ContentLength) }
    else if s == "Content-Location"@ { Some(HeaderId::ContentLocation) }
    else if s == "content-location"@ { Some(HeaderId::ContentLocation) }
    else if s == "Content-Range"@ { Some(HeaderId::ContentRange) }
    else if s == "content-range"@ { Some(HeaderId::ContentRange) }
    else if s == "Content-Type"@ { Some(HeaderId::ContentType) }
    else if s == "content-type"@ { Some(HeaderId::ContentType) }
    else if s == "Cookie"@ { Some(HeaderId::Cookie) }
    else if s == "cookie"@ { Some(HeaderId::Cookie) }
    else if s == "DNT"@ { Some(HeaderId::Dnt) }
    else if s == "dnt"@ { Some(HeaderId::Dnt) }
    else if s == "Date"@ { Some(HeaderId::Date) }
    else if s == "date"@ { Some(HeaderId::Date) }
    else if s == "ETag"@ { Some(HeaderId::ETag) }
    else if s == "etag"@ { Some(HeaderId::ETag) }
    else if s == "Expires"@ { Some(HeaderId::Expires) }
    else if s == "expires"@ { Some(HeaderId::Expires) }
    else if s == "Host"@ { Some(HeaderId::Host) }
    else if s == "host"@ { Some(HeaderId::Host) }
    else if s == "If-Match"@ { Some(HeaderId::IfMatch) }
    else if s == "if-match"@ { Some(HeaderId::IfMatch) }
    else if s == "If-Modified-Since"@ { Some(HeaderId::IfModifiedSince) }
    else if s == "if-modified-since"@ { Some(HeaderId::IfModifiedSince) }
    else if s == "If-None-Match"@ { Some(HeaderId::IfNoneMatch) }
    else if s == "if-none-match"@ { Some(HeaderId::IfNoneMatch) }
    else if s == "If-Range"@ { Some(HeaderId::IfRange) }
    else if s == "if-range"@ { Some(HeaderId::IfRange) }
    else if s == "If-Unmodified-Since"@ { Some(HeaderId::IfUnmodifiedSince) }
    else if s == "if-unmodified-since"@ { Some(HeaderId::IfUnmodifiedSince) }
    else if s == "Keep-Alive"@ { Some(HeaderId::KeepAlive) }
    else if s == "keep-alive"@ { Some(HeaderId::KeepAlive) }
    else if s == "Last-Modified"@ { Some(HeaderId::LastModified) }
    else if s == "last-modified"@ { Some(HeaderId::LastModified) }
    else if s == "Location"@ { Some(HeaderId::Location) }
    else if s == "location"@ { Some(HeaderId::Location) }
    else if s == ":method"@ { Some(HeaderId::Method) }
    else if s == ":path"@ { Some(HeaderId::Path) }
    else if s == "Proxy-Authenticate"@ { Some(HeaderId::ProxyAuthenticate) }
    else if s == "proxy-authenticate"@ { Some(HeaderId::ProxyAuthenticate) }
    else if s == "Proxy-Authorization"@ { Some(HeaderId::ProxyAuthorization) }
    else if s == "proxy-authorization"@ { Some(HeaderId::ProxyAuthorization) }
    else if s == "Range"@ { Some(HeaderId::Range) }
    else if s == "range"@ { Some(HeaderId::Range) }
    else if s == "Referer"@ { Some(HeaderId::Referer) }
    else if s == "referer"@ { Some(HeaderId::Referer) }
    else if s == "Retry-After"@ { Some(HeaderId::RetryAfter) }
    else if s == "retry-after"@ { Some(HeaderId::RetryAfter) }
    else if s == "Save-Data"@ { Some(HeaderId::SaveData) }
    else if s == "save-data"@ { Some(HeaderId::SaveData) }
    else if s == ":scheme"@ { Some(HeaderId::Scheme) }
    else if s == "sec-web-socket-protocol"@ { Some(HeaderId::SecWebSocketProtocol) }
    else if s == "Sec-Web-Socket-Protocol"@ { Some(HeaderId::SecWebSocketProtocol) }
    else if s == "sec-web-socket-extensions"@ { Some(HeaderId::SecWebSocketExtensions) }
    else if s == "Sec-Web-Socket-Extensions"@ { Some(HeaderId::SecWebSocketExtensions) }
    else if s == "sec-web-socket-version"@ { Some(HeaderId::SecWebSocketVersion) }
    else if s == "Sec-Web-Socket-Version"@ { Some(HeaderId::SecWebSocketVersion) }
    else if s == "sec-web-socket-accept"@ { Some(HeaderId::SecWebSocketAccept) }
    else if s == "Sec-Web-Socket-Accept"@ { Some(HeaderId::SecWebSocketAccept) }
    else if s == "sec-web-socket-key"@ { Some(HeaderId::SecWebSocketKey) }
    else if s == "Sec-Web-Socket-Key"@ { Some(HeaderId::SecWebSocketKey) }
    else if s == "Server"@ { Some(HeaderId::Server) }
    else if s == "server"@ { Some(HeaderId::Server) }
    else if s == "Set-Cookie"@ { Some(HeaderId::SetCookie) }
    else if s == "set-cookie"@ { Some(HeaderId::SetCookie) }
    else if s == "Status"@ { Some(HeaderId::Status) }
    else if s == "status"@ { Some(HeaderId::Status) }
    else if s == "Upgrade"@ { Some(HeaderId::Upgrade) }
    else if s == "upgrade"@ { Some(HeaderId::Upgrade) }
    else if s == "Upgrade-Insecure-Requests"@ { Some(HeaderId::UpgradeInsecureRequests) }
    else if s == "upgrade-insecure-requests"@ { Some(HeaderId::UpgradeInsecureRequests) }
    else if s == "User-Agent"@ { Some(HeaderId::UserAgent) }
    else if s == "user-agent"@ { Some(HeaderId::UserAgent) }
    else if s == "Vary"@ { Some(HeaderId::Vary) }
    else if s == "vary"@ { Some(HeaderId::Vary) }
    else if s == "WWW-Authenticate"@ { Some(HeaderId::WwwAuthenticate) }
    else if s == "www-authenticate"@ { Some(HeaderId::WwwAuthenticate) }
    else { None }
}

impl HeaderId {
    /// The name of the header as HTTP/1 writes it.
    pub fn name_v1(self) -> (r: &'static str)
        ensures
            r@ == header_name_v1(self),
    {
        match self {
            HeaderId::AcceptCharset => "Accept-Charset",
            HeaderId::AcceptEncoding => "Accept-Encoding",
            HeaderId::AcceptLanguage => "Accept-Language",
            HeaderId::AcceptRanges => "Accept-Ranges",
            HeaderId::AcceptTypes => "Accept",
            HeaderId::AccessControlAllowCredentials => "Access-Control-Allow-Credentials",
            HeaderId::AccessControlAllowHeaders => "Access-Control-Allow-Headers",
            HeaderId::AccessControlAllowMethods => "Access-Control-Allow-Methods",
            HeaderId::AccessControlAllowOrigin => "Access-Control-Allow-Origin",
            HeaderId::AccessControlAllowExposeHeaders => "Access-Control-Allow-Expose-Headers",
            HeaderId::AccessControlAllowMaxAge => "Access-Control-Allow-Max-Age",
            HeaderId::AccessControlAllowRequestHeaders => "Access-Control-Allow-Request-Headers",
            HeaderId::AccessControlAllowRequestMethod => "Access-Control-Allow-Method",
            HeaderId::Allow => "Allow",
            HeaderId::Authority => ":Authority",
            HeaderId::Authorization => "Authorization",
            HeaderId::CacheControl => "Cache-Control",
            HeaderId::ClearSiteData => "Clear-Site-Data",
            HeaderId::Connection => "Connection",
            HeaderId::ContentDisposition => "Content-Disposition",
            HeaderId::ContentEncoding => "Content-Encoding",
            HeaderId::ContentLanguage => "Content-Language",
            HeaderId::ContentLength => "Content-Length",
            HeaderId::ContentLocation => "Content-Location",
            HeaderId::ContentRange => "Content-Range",
            HeaderId::ContentType => "Content-Type",
            HeaderId::Cookie => "Cookie",
            HeaderId::Dnt => "DNT",
            HeaderId::Date => "Date",
            HeaderId::ETag => "ETag",
            HeaderId::Expires => "Expires",
            HeaderId::Host => "Host",
            HeaderId::IfMatch => "If-Match",
            HeaderId::IfModifiedSince => "If-Modified-Since",
            HeaderId::IfNoneMatch => "If-None-Match",
            HeaderId::IfRange => "If-Range",
            HeaderId::IfUnmodifiedSince => "If-Unmodified-Since",
            HeaderId::KeepAlive => "Keep-Alive",
            HeaderId::LastModified => "Last-Modified",
            HeaderId::Location => "Location",
            HeaderId::Method => ":Method",
            HeaderId::Path => ":Path",
            HeaderId::ProxyAuthenticate => "Proxy-Authenticate",
            HeaderId::ProxyAuthorization => "Proxy-Authorization",
            HeaderId::Range => "Range",
            HeaderId::Referer => "Referer",
            HeaderId::RetryAfter => "Retry-After",
            HeaderId::SaveData => "Save-Data",
            HeaderId::Scheme => ":Scheme",
            HeaderId::SecWebSocketProtocol => "Sec-Web-Socket-Protocol",
            HeaderId::SecWebSocketExtensions => "Sec-Web-Socket-Extensions",
            HeaderId::SecWebSocketVersion => "Sec-Web-Socket-Version",
            HeaderId::SecWebSocketAccept => "Sec-Web-Socket-Accept",
            HeaderId::SecWebSocketKey => "Sec-Web-Socket-Key",
            HeaderId::Server => "Server",
            HeaderId::SetCookie => "Set-Cookie",
            HeaderId::Status => "Status",
            HeaderId::Upgrade => "Upgrade",
            HeaderId::UpgradeInsecureRequests => "Upgrade-Insecure-Requests",
            HeaderId::UserAgent => "User-Agent",
            HeaderId::Vary => "Vary",
            HeaderId::WwwAuthenticate => "WWW-Authenticate",
        }
    }

    /// The name of the header as HTTP/2 writes it: in lowercase.
    pub fn name_v2(self) -> (r: &'static str)
        ensures
            r@ == header_name_v2(self),
    {
        match self {
            HeaderId::AcceptCharset => "accept-charset",
            HeaderId::AcceptEncoding => "accept-encoding",
            HeaderId::AcceptLanguage => "accept-language",
            HeaderId::AcceptRanges => "accept-ranges",
            HeaderId::AcceptTypes => "accept",
            HeaderId::AccessControlAllowCredentials => "access-control-allow-credentials",
            HeaderId::AccessControlAllowHeaders => "access-control-allow-headers",
            HeaderId::AccessControlAllowMethods => "access-control-allow-methods",
            HeaderId::AccessControlAllowOrigin => "access-control-allow-origin",
            HeaderId::AccessControlAllowExposeHeaders => "access-control-allow-expose-headers",
            HeaderId::AccessControlAllowMaxAge => "access-control-allow-max-age",
            HeaderId::AccessControlAllowRequestHeaders => "access-control-allow-request-headers",
            HeaderId::AccessControlAllowRequestMethod => "access-control-allow-method",
            HeaderId::Allow => "allow",
            HeaderId::Authority => ":authority",
            HeaderId::Authorization => "authorization",
            HeaderId::CacheControl => "cache-control",
            HeaderId::ClearSiteData => "clear-site-data",
            HeaderId::Connection => "connection",
            HeaderId::ContentDisposition => "content-disposition",
            HeaderId::ContentEncoding => "content-encoding",
            HeaderId::ContentLanguage => "content-language",
            HeaderId::ContentLength => "content-length",
            HeaderId::ContentLocation => "content-location",
            HeaderId::ContentRange => "content-range",
            HeaderId::ContentType => "content-type",
            HeaderId::Cookie => "cookie",
            HeaderId::Dnt => "dnt",
            HeaderId::Date => "date",
            HeaderId::ETag => "etag",
            HeaderId::Expires => "expires",
            HeaderId::Host => "host",
            HeaderId::IfMatch => "if-match",
            HeaderId::IfModifiedSince => "if-modified-since",
            HeaderId::IfNoneMatch => "if-none-match",
            HeaderId::IfRange => "if-range",
            HeaderId::IfUnmodifiedSince => "if-unmodified-since",
            HeaderId::KeepAlive => "keep-alive",
            HeaderId::LastModified => "last-modified",
            HeaderId::Location => "location",
            HeaderId::Method => ":method",
            HeaderId::Path => ":path",
            HeaderId::ProxyAuthenticate => "proxy-authenticate",
            HeaderId::ProxyAuthorization => "proxy-authorization",
            HeaderId::Range => "range",
            HeaderId::Referer => "referer",
            HeaderId::RetryAfter => "retry-after",
            HeaderId::SaveData => "save-data",
            HeaderId::Scheme => ":scheme",
            HeaderId::SecWebSocketProtocol => "sec-web-socket-protocol",
            HeaderId::SecWebSocketExtensions => "sec-web-socket-extensions",
            HeaderId::SecWebSocketVersion => "sec-web-socket-version",
            HeaderId::SecWebSocketAccept => "sec-web-socket-accept",
            HeaderId::SecWebSocketKey => "sec-web-socket-key",
            HeaderId::Server => "server",
            HeaderId::SetCookie => "set-cookie",
            HeaderId::Status => "status",
            HeaderId::Upgrade => "upgrade",
            HeaderId::UpgradeInsecureRequests => "upgrade-insecure-requests",
            HeaderId::UserAgent => "user-agent",
            HeaderId::Vary => "vary",
            HeaderId::WwwAuthenticate => "www-authenticate",
        }
    }

    /// Reads a header name: the HTTP/1 or the HTTP/2 name of a known header.
    pub fn from_str(s: &str) -> (r: Result<HeaderId, ()>)
        ensures
            match header_id_parse(s@) {
                Some(id) => r == Ok::<HeaderId, ()>(id),
                None => r == Err::<HeaderId, ()>(()),
            },
    {
        if str_eq(s, "Accept-Charset") {
            return Ok(HeaderId::AcceptCharset);
        }
        if str_eq(s, "accept-charset") {
            return Ok(HeaderId::AcceptCharset);
        }
        if str_eq(s, "Accept-Encoding") {
            return Ok(HeaderId::AcceptEncoding);
        }
        if str_eq(s, "accept-encoding") {
            return Ok(HeaderId::AcceptEncoding);
        }
        if str_eq(s, "Accept-Language") {
            return Ok(HeaderId::AcceptLanguage);
        }
        if str_eq(s, "accept-language") {
            return Ok(HeaderId::AcceptLanguage);
        }
        if str_eq(s, "Accept-Ranges") {
            return Ok(HeaderId::AcceptRanges);
        }
        if str_eq(s, "accept-ranges") {
            return Ok(HeaderId::AcceptRanges);
        }
        if str_eq(s, "Accept") {
            return Ok(HeaderId::AcceptTypes);
        }
        if str_eq(s, "accept") {
            return Ok(HeaderId::AcceptTypes);
        }
        if str_eq(s, "Access-Control-Allow-Credentials") {
            return Ok(HeaderId::AccessControlAllowCredentials);
        }
        if str_eq(s, "access-control-allow-credentials") {
            return Ok(HeaderId::AccessControlAllowCredentials);
        }
        if str_eq(s, "Access-Control-Allow-Headers") {
            return Ok(HeaderId::AccessControlAllowHeaders);
        }
        if str_eq(s, "access-control-allow-headers") {
            return Ok(HeaderId::AccessControlAllowHeaders);
        }
        if str_eq(s, "Access-Control-Allow-Methods") {
            return Ok(HeaderId::AccessControlAllowMethods);
        }
        if str_eq(s, "access-control-allow-methods") {
            return Ok(HeaderId::AccessControlAllowMethods);
        }
        if str_eq(s, "Access-Control-Allow-Origin") {
            return Ok(HeaderId::AccessControlAllowOrigin);
        }
        if str_eq(s, "access-control-allow-origin") {
            return Ok(HeaderId::AccessControlAllowOrigin);
        }
        if str_eq(s, "Access-Control-Allow-Expose-Headers") {
            return Ok(HeaderId::AccessControlAllowExposeHeaders);
        }
        if str_eq(s, "access-control-allow-expose-headers") {
            return Ok(HeaderId::AccessControlAllowExposeHeaders);
        }
        if str_eq(s, "Access-Control-Allow-Max-Age") {
            return Ok(HeaderId::AccessControlAllowMaxAge);
        }
        if str_eq(s, "access-control-allow-max-age") {
            return Ok(HeaderId::AccessControlAllowMaxAge);
        }
        if str_eq(s, "Access-Control-Allow-Request-Headers") {
            return Ok(HeaderId::AccessControlAllowRequestHeaders);
        }
        if str_eq(s, "access-control-allow-request-headers") {
            return Ok(HeaderId::AccessControlAllowRequestHeaders);
        }
        if str_eq(s, "Access-Control-Allow-Method") {
            return Ok(HeaderId::AccessControlAllowRequestMethod);
        }
        if str_eq(s, "access-control-allow-method") {
            return Ok(HeaderId::AccessControlAllowRequestMethod);
        }
        if str_eq(s, "Allow") {
            return Ok(HeaderId::Allow);
        }
        if str_eq(s, "allow") {
            return Ok(HeaderId::Allow);
        }
        if str_eq(s, ":authority") {
            return Ok(HeaderId::Authority);
        }
        if str_eq(s, "Authorization") {
            return Ok(HeaderId::Authorization);
        }
        if str_eq(s, "authorization") {
            return Ok(HeaderId::Authorization);
        }
        if str_eq(s, "Cache-Control") {
            return Ok(HeaderId::CacheControl);
        }
        if str_eq(s, "cache-control") {
            return Ok(HeaderId::CacheControl);
        }
        if str_eq(s, "Clear-Site-Data") {
            return Ok(HeaderId::ClearSiteData);
        }
        if str_eq(s, "clear-site-data") {
            return Ok(HeaderId::ClearSiteData);
        }
        if str_eq(s, "Connection") {
            return Ok(HeaderId::Connection);
        }
        if str_eq(s, "connection") {
            return Ok(HeaderId::Connection);
        }
        if str_eq(s, "Content-Disposition") {
            return Ok(HeaderId::ContentDisposition);
        }
        if str_eq(s, "content-disposition") {
            return Ok(HeaderId::ContentDisposition);
        }
        if str_eq(s, "Content-Encoding") {
            return Ok(HeaderId::ContentEncoding);
        }
        if str_eq(s, "content-encoding") {
            return Ok(HeaderId::ContentEncoding);
        }
        if str_eq(s, "Content-Language") {
            return Ok(HeaderId::ContentLanguage);
        }
        if str_eq(s, "content-language") {
            return Ok(HeaderId::ContentLanguage);
        }
        if str_eq(s, "Content-Length") {
            return Ok(HeaderId::ContentLength);
        }
        if str_eq(s, "content-length") {
            return Ok(HeaderId::ContentLength);
        }
        if str_eq(s, "Content-Location") {
            return Ok(HeaderId::ContentLocation);
        }
        if str_eq(s, "content-location") {
            return Ok(HeaderId::ContentLocation);
        }
        if str_eq(s, "Content-Range") {
            return Ok(HeaderId::ContentRange);
        }
        if str_eq(s, "content-range") {
            return Ok(HeaderId::ContentRange);
        }
        if str_eq(s, "Content-Type") {
            return Ok(HeaderId::ContentType);
        }
        if str_eq(s, "content-type") {
            return Ok(HeaderId::ContentType);
        }
        if str_eq(s, "Cookie") {
            return Ok(HeaderId::Cookie);
        }
        if str_eq(s, "cookie") {
            return Ok(HeaderId::Cookie);
        }
        if str_eq(s, "DNT") {
            return Ok(HeaderId::Dnt);
        }
        if str_eq(s, "dnt") {
            return Ok(HeaderId::Dnt);
        }
        if str_eq(s, "Date") {
            return Ok(HeaderId::Date);
        }
        if str_eq(s, "date") {
            return Ok(HeaderId::Date);
        }
        if str_eq(s, "ETag") {
            return Ok(HeaderId::ETag);
        }
        if str_eq(s, "etag") {
            return Ok(HeaderId::ETag);
        }
        if str_eq(s, "Expires") {
            return Ok(HeaderId::Expires);
        }
        if str_eq(s, "expires") {
            return Ok(HeaderId::Expires);
        }
        if str_eq(s, "Host") {
            return Ok(HeaderId::Host);
        }
        if str_eq(s, "host") {
            return Ok(HeaderId::Host);
        }
        if str_eq(s, "If-Match") {
            return Ok(HeaderId::IfMatch);
        }
        if str_eq(s, "if-match") {
            return Ok(HeaderId::IfMatch);
        }
        if str_eq(s, "If-Modified-Since") {
            return Ok(HeaderId::IfModifiedSince);
        }
        if str_eq(s, "if-modified-since") {
            return Ok(HeaderId::IfModifiedSince);
        }
        if str_eq(s, "If-None-Match") {
            return Ok(HeaderId::IfNoneMatch);
        }
        if str_eq(s, "if-none-match") {
            return Ok(HeaderId::IfNoneMatch);
        }
        if str_eq(s, "If-Range") {
            return Ok(HeaderId::IfRange);
        }
        if str_eq(s, "if-range") {
            return Ok(HeaderId::IfRange);
        }
        if str_eq(s, "If-Unmodified-Since") {
            return Ok(HeaderId::IfUnmodifiedSince);
        }
        if str_eq(s, "if-unmodified-since") {
            return Ok(HeaderId::IfUnmodifiedSince);
        }
        if str_eq(s, "Keep-Alive") {
            return Ok(HeaderId::KeepAlive);
        }
        if str_eq(s, "keep-alive") {
            return Ok(HeaderId::KeepAlive);
        }
        if str_eq(s, "Last-Modified") {
            return Ok(HeaderId::LastModified);
        }
        if str_eq(s, "last-modified") {
            return Ok(HeaderId::LastModified);
        }
        if str_eq(s, "Location") {
            return Ok(HeaderId::Location);
        }
        if str_eq(s, "location") {
            return Ok(HeaderId::Location);
        }
        if str_eq(s, ":method") {
            return Ok(HeaderId::Method);
        }
        if str_eq(s, ":path") {
            return Ok(HeaderId::Path);
        }
        if str_eq(s, "Proxy-Authenticate") {
            return Ok(HeaderId::ProxyAuthenticate);
        }
        if str_eq(s, "proxy-authenticate") {
            return Ok(HeaderId::ProxyAuthenticate);
        }
        if str_eq(s, "Proxy-Authorization") {
            return Ok(HeaderId::ProxyAuthorization);
        }
        if str_eq(s, "proxy-authorization") {
            return Ok(HeaderId::ProxyAuthorization);
        }
        if str_eq(s, "Range") {
            return Ok(HeaderId::Range);
        }
        if str_eq(s, "range") {
            return Ok(HeaderId::Range);
        }
        if str_eq(s, "Referer") {
            return Ok(HeaderId::Referer);
        }
        if str_eq(s, "referer") {
            return Ok(HeaderId::Referer);
        }
        if str_eq(s, "Retry-After") {
            return Ok(HeaderId::RetryAfter);
        }
        if str_eq(s, "retry-after") {
            return Ok(HeaderId::RetryAfter);
        }
        if str_eq(s, "Save-Data") {
            return Ok(HeaderId::SaveData);
        }
        if str_eq(s, "save-data") {
            return Ok(HeaderId::SaveData);
        }
        if str_eq(s, ":scheme") {
            return Ok(HeaderId::Scheme);
        }
        if str_eq(s, "sec-web-socket-protocol") {
            return Ok(HeaderId::SecWebSocketProtocol);
        }
        if str_eq(s, "Sec-Web-Socket-Protocol") {
            return Ok(HeaderId::SecWebSocketProtocol);
        }
        if str_eq(s, "sec-web-socket-extensions") {
            return Ok(HeaderId::SecWebSocketExtensions);
        }
        if str_eq(s, "Sec-Web-Socket-Extensions") {
            return Ok(HeaderId::SecWebSocketExtensions);
        }
        if str_eq(s, "sec-web-socket-version") {
            return Ok(HeaderId::SecWebSocketVersion);
        }
        if str_eq(s, "Sec-Web-Socket-Version") {
            return Ok(HeaderId::SecWebSocketVersion);
        }
        if str_eq(s, "sec-web-socket-accept") {
            return Ok(HeaderId::SecWebSocketAccept);
        }
        if str_eq(s, "Sec-Web-Socket-Accept") {
            return Ok(HeaderId::SecWebSocketAccept);
        }
        if str_eq(s, "sec-web-socket-key") {
            return Ok(HeaderId::SecWebSocketKey);
        }
        if str_eq(s, "Sec-Web-Socket-Key") {
            return Ok(HeaderId::SecWebSocketKey);
        }
        if str_eq(s, "Server") {
            return Ok(HeaderId::Server);
        }
        if str_eq(s, "server") {
            return Ok(HeaderId::Server);
        }
        if str_eq(s, "Set-Cookie") {
            return Ok(HeaderId::SetCookie);
        }
        if str_eq(s, "set-cookie") {
            return Ok(HeaderId::SetCookie);
        }
        if str_eq(s, "Status") {
            return Ok(HeaderId::Status);
        }
        if str_eq(s, "status") {
            return Ok(HeaderId::Status);
        }
        if str_eq(s, "Upgrade") {
            return Ok(HeaderId::Upgrade);
        }
        if str_eq(s, "upgrade") {
            return Ok(HeaderId::Upgrade);
        }
        if str_eq(s, "Upgrade-Insecure-Requests") {
            return Ok(HeaderId::UpgradeInsecureRequests);
        }
        if str_eq(s, "upgrade-insecure-requests") {
            return Ok(HeaderId::UpgradeInsecureRequests);
        }
        if str_eq(s, "User-Agent") {
            return Ok(HeaderId::UserAgent);
        }
        if str_eq(s, "user-agent") {
            return Ok(HeaderId::UserAgent);
        }
        if str_eq(s, "Vary") {
            return Ok(HeaderId::Vary);
        }
        if str_eq(s, "vary") {
            return Ok(HeaderId::Vary);
        }
        if str_eq(s, "WWW-Authenticate") {
            return Ok(HeaderId::WwwAuthenticate);
        }
        if str_eq(s, "www-authenticate") {
            return Ok(HeaderId::WwwAuthenticate);
        }
        Err(())
    }
}

/// `s` with each ASCII capital letter replaced by its small letter.
pub open spec fn ascii_lowercase(s: Seq<char>) -> Seq<char> {
    s.map_values(|c: char| if 'A' <= c <= 'Z' { (c as int + 32) as char } else { c })
}

/// The HTTP/2 name of every header is its HTTP/1 name in ASCII lowercase.
#[verifier::spinoff_prover]
#[verifier::rlimit(50)]
pub proof fn lemma_header_name_v2_lowercase(id: HeaderId)
    ensures
        header_name_v2(id) == ascii_lowercase(header_name_v1(id)),
{
    match id {
        HeaderId::AcceptCharset => {
            reveal_strlit("Accept-Charset");
            reveal_strlit("accept-charset");
            assert("accept-charset"@ =~= ascii_lowercase("Accept-Charset"@));
        },
        HeaderId::AcceptEncoding => {
            reveal_strlit("Accept-Encoding");
            reveal_strlit("accept-encoding");
            assert("accept-encoding"@ =~= ascii_lowercase("Accept-Encoding"@));
        },
        HeaderId::AcceptLanguage => {
            reveal_strlit("Accept-Language");
            reveal_strlit("accept-language");
            assert("accept-language"@ =~= ascii_lowercase("Accept-Language"@));
        },
        HeaderId::AcceptRanges => {
            reveal_strlit("Accept-Ranges");
            reveal_strlit("accept-ranges");
            assert("accept-ranges"@ =~= ascii_lowercase("Accept-Ranges"@));
        },
        HeaderId::AcceptTypes => {
            reveal_strlit("Accept");
            reveal_strlit("accept");
            assert("accept"@ =~= ascii_lowercase("Accept"@));
        },
        HeaderId::AccessControlAllowCredentials => {
            reveal_strlit("Access-Control-Allow-Credentials");
            reveal_strlit("access-control-allow-credentials");
            assert("access-control-allow-credentials"@ =~= ascii_lowercase("Access-Control-Allow-Credentials"@));
        },
        HeaderId::AccessControlAllowHeaders => {
            reveal_strlit("Access-Control-Allow-Headers");
            reveal_strlit("access-control-allow-headers");
            assert("access-control-allow-headers"@ =~= ascii_lowercase("Access-Control-Allow-Headers"@));
        },
        HeaderId::AccessControlAllowMethods => {
            reveal_strlit("Access-Control-Allow-Methods");
            reveal_strlit("access-control-allow-methods");
            assert("access-control-allow-methods"@ =~= ascii_lowercase("Access-Control-Allow-Methods"@));
        },
        HeaderId::AccessControlAllowOrigin => {
            reveal_strlit("Access-Control-Allow-Origin");
            reveal_strlit("access-control-allow-origin");
            assert("access-control-allow-origin"@ =~= ascii_lowercase("Access-Control-Allow-Origin"@));
        },
        HeaderId::AccessControlAllowExposeHeaders => {
            reveal_strlit("Access-Control-Allow-Expose-Headers");
            reveal_strlit("access-control-allow-expose-headers");
            assert("access-control-allow-expose-headers"@ =~= ascii_lowercase("Access-Control-Allow-Expose-Headers"@));
        },
        HeaderId::AccessControlAllowMaxAge => {
            reveal_strlit("Access-Control-Allow-Max-Age");
            reveal_strlit("access-control-allow-max-age");
            assert("access-control-allow-max-age"@ =~= ascii_lowercase("Access-Control-Allow-Max-Age"@));
        },
        HeaderId::AccessControlAllowRequestHeaders => {
            reveal_strlit("Access-Control-Allow-Request-Headers");
            reveal_strlit("access-control-allow-request-headers");
            assert("access-control-allow-request-headers"@ =~= ascii_lowercase("Access-Control-Allow-Request-Headers"@));
        },
        HeaderId::AccessControlAllowRequestMethod => {
            reveal_strlit("Access-Control-Allow-Method");
            reveal_strlit("access-control-allow-method");
            assert("access-control-allow-method"@ =~= ascii_lowercase("Access-Control-Allow-Method"@));
        },
        HeaderId::Allow => {
            reveal_strlit("Allow");
            reveal_strlit("allow");
            assert("allow"@ =~= ascii_lowercase("Allow"@));
        },
        HeaderId::Authority => {
            reveal_strlit(":Authority");
            reveal_strlit(":authority");
            assert(":authority"@ =~= ascii_lowercase(":Authority"@));
        },
        HeaderId::Authorization => {
            reveal_strlit("Authorization");
            reveal_strlit("authorization");
            assert("authorization"@ =~= ascii_lowercase("Authorization"@));
        },
        HeaderId::CacheControl => {
            reveal_strlit("Cache-Control");
            reveal_strlit("cache-control");
            assert("cache-control"@ =~= ascii_lowercase("Cache-Control"@));
        },
        HeaderId::ClearSiteData => {
            reveal_strlit("Clear-Site-Data");
            reveal_strlit("clear-site-data");
            assert("clear-site-data"@ =~= ascii_lowercase("Clear-Site-Data"@));
        },
        HeaderId::Connection => {
            reveal_strlit("Connection");
            reveal_strlit("connection");
            assert("connection"@ =~= ascii_lowercase("Connection"@));
        },
        HeaderId::ContentDisposition => {
            reveal_strlit("Content-Disposition");
            reveal_strlit("content-disposition");
            assert("content-disposition"@ =~= ascii_lowercase("Content-Disposition"@));
        },
        HeaderId::ContentEncoding => {
            reveal_strlit("Content-Encoding");
            reveal_strlit("content-encoding");
            assert("content-encoding"@ =~= ascii_lowercase("Content-Encoding"@));
        },
        HeaderId::ContentLanguage => {
            reveal_strlit("Content-Language");
            reveal_strlit("content-language");
            assert("content-language"@ =~= ascii_lowercase("Content-Language"@));
        },
        HeaderId::ContentLength => {
            reveal_strlit("Content-Length");
            reveal_strlit("content-length");
            assert("content-length"@ =~= ascii_lowercase("Content-Length"@));
        },
        HeaderId::ContentLocation => {
            reveal_strlit("Content-Location");
            reveal_strlit("content-location");
            assert("content-location"@ =~= ascii_lowercase("Content-Location"@));
        },
        HeaderId::ContentRange => {
            reveal_strlit("Content-Range");
            reveal_strlit("content-range");
            assert("content-range"@ =~= ascii_lowercase("Content-Range"@));
        },
        HeaderId::ContentType => {
            reveal_strlit("Content-Type");
            reveal_strlit("content-type");
            assert("content-type"@ =~= ascii_lowercase("Content-Type"@));
        },
        HeaderId::Cookie => {
            reveal_strlit("Cookie");
            reveal_strlit("cookie");
            assert("cookie"@ =~= ascii_lowercase("Cookie"@));
        },
        HeaderId::Dnt => {
            reveal_strlit("DNT");
            reveal_strlit("dnt");
            assert("dnt"@ =~= ascii_lowercase("DNT"@));
        },
        HeaderId::Date => {
            reveal_strlit("Date");
            reveal_strlit("date");
            assert("date"@ =~= ascii_lowercase("Date"@));
        },
        HeaderId::ETag => {
            reveal_strlit("ETag");
            reveal_strlit("etag");
            assert("etag"@ =~= ascii_lowercase("ETag"@));
        },
        HeaderId::Expires => {
            reveal_strlit("Expires");
            reveal_strlit("expires");
            assert("expires"@ =~= ascii_lowercase("Expires"@));
        },
        HeaderId::Host => {
            reveal_strlit("Host");
            reveal_strlit("host");
            assert("host"@ =~= ascii_lowercase("Host"@));
        },
        HeaderId::IfMatch => {
            reveal_strlit("If-Match");
            reveal_strlit("if-match");
            assert("if-match"@ =~= ascii_lowercase("If-Match"@));
        },
        HeaderId::IfModifiedSince => {
            reveal_strlit("If-Modified-Since");
            reveal_strlit("if-modified-since");
            assert("if-modified-since"@ =~= ascii_lowercase("If-Modified-Since"@));
        },
        HeaderId::IfNoneMatch => {
            reveal_strlit("If-None-Match");
            reveal_strlit("if-none-match");
            assert("if-none-match"@ =~= ascii_lowercase("If-None-Match"@));
        },
        HeaderId::IfRange => {
            reveal_strlit("If-Range");
            reveal_strlit("if-range");
            assert("if-range"@ =~= ascii_lowercase("If-Range"@));
        },
        HeaderId::IfUnmodifiedSince => {
            reveal_strlit("If-Unmodified-Since");
            reveal_strlit("if-unmodified-since");
            assert("if-unmodified-since"@ =~= ascii_lowercase("If-Unmodified-Since"@));
        },
        HeaderId::KeepAlive => {
            reveal_strlit("Keep-Alive");
            reveal_strlit("keep-alive");
            assert("keep-alive"@ =~= ascii_lowercase("Keep-Alive"@));
        },
        HeaderId::LastModified => {
            reveal_strlit("Last-Modified");
            reveal_strlit("last-modified");
            assert("last-modified"@ =~= ascii_lowercase("Last-Modified"@));
        },
        HeaderId::Location => {
            reveal_strlit("Location");
            reveal_strlit("location");
            assert("location"@ =~= ascii_lowercase("Location"@));
        },
        HeaderId::Method => {
            reveal_strlit(":Method");
            reveal_strlit(":method");
            assert(":method"@ =~= ascii_lowercase(":Method"@));
        },
        HeaderId::Path => {
            reveal_strlit(":Path");
            reveal_strlit(":path");
            assert(":path"@ =~= ascii_lowercase(":Path"@));
        },
        HeaderId::ProxyAuthenticate => {
            reveal_strlit("Proxy-Authenticate");
            reveal_strlit("proxy-authenticate");
            assert("proxy-authenticate"@ =~= ascii_lowercase("Proxy-Authenticate"@));
        },
        HeaderId::ProxyAuthorization => {
            reveal_strlit("Proxy-Authorization");
            reveal_strlit("proxy-authorization");
            assert("proxy-authorization"@ =~= ascii_lowercase("Proxy-Authorization"@));
        },
        HeaderId::Range => {
            reveal_strlit("Range");
            reveal_strlit("range");
            assert("range"@ =~= ascii_lowercase("Range"@));
        },
        HeaderId::Referer => {
            reveal_strlit("Referer");
            reveal_strlit("referer");
            assert("referer"@ =~= ascii_lowercase("Referer"@));
        },
        HeaderId::RetryAfter => {
            reveal_strlit("Retry-After");
            reveal_strlit("retry-after");
            assert("retry-after"@ =~= ascii_lowercase("Retry-After"@));
        },
        HeaderId::SaveData => {
            reveal_strlit("Save-Data");
            reveal_strlit("save-data");
            assert("save-data"@ =~= ascii_lowercase("Save-Data"@));
        },
        HeaderId::Scheme => {
            reveal_strlit(":Scheme");
            reveal_strlit(":scheme");
            assert(":scheme"@ =~= ascii_lowercase(":Scheme"@));
        },
        HeaderId::SecWebSocketProtocol => {
            reveal_strlit("Sec-Web-Socket-Protocol");
            reveal_strlit("sec-web-socket-protocol");
            assert("sec-web-socket-protocol"@ =~= ascii_lowercase("Sec-Web-Socket-Protocol"@));
        },
        HeaderId::SecWebSocketExtensions => {
            reveal_strlit("Sec-Web-Socket-Extensions");
            reveal_strlit("sec-web-socket-extensions");
            assert("sec-web-socket-extensions"@ =~= ascii_lowercase("Sec-Web-Socket-Extensions"@));
        },
        HeaderId::SecWebSocketVersion => {
            reveal_strlit("Sec-Web-Socket-Version");
            reveal_strlit("sec-web-socket-version");
            assert("sec-web-socket-version"@ =~= ascii_lowercase("Sec-Web-Socket-Version"@));
        },
        HeaderId::SecWebSocketAccept => {
            reveal_strlit("Sec-Web-Socket-Accept");
            reveal_strlit("sec-web-socket-accept");
            assert("sec-web-socket-accept"@ =~= ascii_lowercase("Sec-Web-Socket-Accept"@));
        },
        HeaderId::SecWebSocketKey => {
            reveal_strlit("Sec-Web-Socket-Key");
            reveal_strlit("sec-web-socket-key");
            assert("sec-web-socket-key"@ =~= ascii_lowercase("Sec-Web-Socket-Key"@));
        },
        HeaderId::Server => {
            reveal_strlit("Server");
            reveal_strlit("server");
            assert("server"@ =~= ascii_lowercase("Server"@));
        },
        HeaderId::SetCookie => {
            reveal_strlit("Set-Cookie");
            reveal_strlit("set-cookie");
            assert("set-cookie"@ =~= ascii_lowercase("Set-Cookie"@));
        },
        HeaderId::Status => {
            reveal_strlit("Status");
            reveal_strlit("status");
            assert("status"@ =~= ascii_lowercase("Status"@));
        },
        HeaderId::Upgrade => {
            reveal_strlit("Upgrade");
            reveal_strlit("upgrade");
            assert("upgrade"@ =~= ascii_lowercase("Upgrade"@));
        },
        HeaderId::UpgradeInsecureRequests => {
            reveal_strlit("Upgrade-Insecure-Requests");
            reveal_strlit("upgrade-insecure-requests");
            assert("upgrade-insecure-requests"@ =~= ascii_lowercase("Upgrade-Insecure-Requests"@));
        },
        HeaderId::UserAgent => {
            reveal_strlit("User-Agent");
            reveal_strlit("user-agent");
            assert("user-agent"@ =~= ascii_lowercase("User-Agent"@));
        },
        HeaderId::Vary => {
            reveal_strlit("Vary");
            reveal_strlit("vary");
            assert("vary"@ =~= ascii_lowercase("Vary"@));
        },
        HeaderId::WwwAuthenticate => {
            reveal_strlit("WWW-Authenticate");
            reveal_strlit("www-authenticate");
            assert("www-authenticate"@ =~= ascii_lowercase("WWW-Authenticate"@));
        },
    }
}

/// Reading the HTTP/2 name of a header gives the header, and so does its HTTP/1 name but for
/// the pseudo-headers (`:Authority`, `:Method`, `:Path`, `:Scheme`), whose names are read in
/// lowercase only.
pub proof fn lemma_header_name_roundtrip(id: HeaderId)
    ensures
        header_id_parse(header_name_v2(id)) == Some(id),
        id != HeaderId::Authority && id != HeaderId::Method && id != HeaderId::Path && id != HeaderId::Scheme
            ==> header_id_parse(header_name_v1(id)) == Some(id),
{
    reveal_strlit(":Authority");
    assert(":Authority"@.len() == 10 && ":Authority"@[0] == ':' && ":Authority"@[1] == 'A' && ":Authority"@[2] == 'u' && ":Authority"@[3] == 't' && ":Authority"@[4] == 'h' && ":Authority"@[5] == 'o' && ":Authority"@[6] == 'r' && ":Authority"@[7] == 'i' && ":Authority"@[8] == 't' && ":Authority"@[9] == 'y');
    reveal_strlit(":Method");
    assert(":Method"@.len() == 7 && ":Method"@[0] == ':' && ":Method"@[1] == 'M' && ":Method"@[2] == 'e' && ":Method"@[3] == 't' && ":Method"@[4] == 'h' && ":Method"@[5] == 'o' && ":Method"@[6] == 'd');
    reveal_strlit(":Path");
    assert(":Path"@.len() == 5 && ":Path"@[0] == ':' && ":Path"@[1] == 'P' && ":Path"@[2] == 'a' && ":Path"@[3] == 't' && ":Path"@[4] == 'h');
    reveal_strlit(":Scheme");
    assert(":Scheme"@.len() == 7 && ":Scheme"@[0] == ':' && ":Scheme"@[1] == 'S' && ":Scheme"@[2] == 'c' && ":Scheme"@[3] == 'h' && ":Scheme"@[4] == 'e' && ":Scheme"@[5] == 'm' && ":Scheme"@[6] == 'e');
    reveal_strlit(":authority");
    assert(":authority"@.len() == 10 && ":authority"@[0] == ':' && ":authority"@[1] == 'a' && ":authority"@[2] == 'u' && ":authority"@[3] == 't' && ":authority"@[4] == 'h' && ":authority"@[5] == 'o' && ":authority"@[6] == 'r' && ":authority"@[7] == 'i' && ":authority"@[8] == 't' && ":authority"@[9] == 'y');
    reveal_strlit(":method");
    assert(":method"@.len() == 7 && ":method"@[0] == ':' && ":method"@[1] == 'm' && ":method"@[2] == 'e' && ":method"@[3] == 't' && ":method"@[4] == 'h' && ":method"@[5] == 'o' && ":method"@[6] == 'd');
    reveal_strlit(":path");
    assert(":path"@.len() == 5 && ":path"@[0] == ':' && ":path"@[1] == 'p' && ":path"@[2] == 'a' && ":path"@[3] == 't' && ":path"@[4] == 'h');
    reveal_strlit(":scheme");
    assert(":scheme"@.len() == 7 && ":scheme"@[0] == ':' && ":scheme"@[1] == 's' && ":scheme"@[2] == 'c' && ":scheme"@[3] == 'h' && ":scheme"@[4] == 'e' && ":scheme"@[5] == 'm' && ":scheme"@[6] == 'e');
    reveal_strlit("Accept");
    assert("Accept"@.len() == 6 && "Accept"@[0] == 'A' && "Accept"@[1] == 'c' && "Accept"@[2] == 'c' && "Accept"@[3] == 'e' && "Accept"@[4] == 'p' && "Accept"@[5] == 't');
    reveal_strlit("Accept-Charset");
    assert("Accept-Charset"@.len() == 14 && "Accept-Charset"@[0] == 'A' && "Accept-Charset"@[1] == 'c' && "Accept-Charset"@[2] == 'c' && "Accept-Charset"@[3] == 'e' && "Accept-Charset"@[4] == 'p' && "Accept-Charset"@[5] == 't' && "Accept-Charset"@[6] == '-' && "Accept-Charset"@[7] == 'C' && "Accept-Charset"@[8] == 'h' && "Accept-Charset"@[9] == 'a' && "Accept-Charset"@[10] == 'r' && "Accept-Charset"@[11] == 's' && "Accept-Charset"@[12] == 'e' && "Accept-Charset"@[13] == 't');
    reveal_strlit("Accept-Encoding");
    assert("Accept-Encoding"@.len() == 15 && "Accept-Encoding"@[0] == 'A' && "Accept-Encoding"@[1] == 'c' && "Accept-Encoding"@[2] == 'c' && "Accept-Encoding"@[3] == 'e' && "Accept-Encoding"@[4] == 'p' && "Accept-Encoding"@[5] == 't' && "Accept-Encoding"@[6] == '-' && "Accept-Encoding"@[7] == 'E' && "Accept-Encoding"@[8] == 'n' && "Accept-Encoding"@[9] == 'c' && "Accept-Encoding"@[10] == 'o' && "Accept-Encoding"@[11] == 'd' && "Accept-Encoding"@[12] == 'i' && "Accept-Encoding"@[13] == 'n' && "Accept-Encoding"@[14] == 'g');
    reveal_strlit("Accept-Language");
    assert("Accept-Language"@.len() == 15 && "Accept-Language"@[0] == 'A' && "Accept-Language"@[1] == 'c' && "Accept-Language"@[2] == 'c' && "Accept-Language"@[3] == 'e' && "Accept-Language"@[4] == 'p' && "Accept-Language"@[5] == 't' && "Accept-Language"@[6] == '-' && "Accept-Language"@[7] == 'L' && "Accept-Language"@[8] == 'a' && "Accept-Language"@[9] == 'n' && "Accept-Language"@[10] == 'g' && "Accept-Language"@[11] == 'u' && "Accept-Language"@[12] == 'a' && "Accept-Language"@[13] == 'g' && "Accept-Language"@[14] == 'e');
    reveal_strlit("Accept-Ranges");
    assert("Accept-Ranges"@.len() == 13 && "Accept-Ranges"@[0] == 'A' && "Accept-Ranges"@[1] == 'c' && "Accept-Ranges"@[2] == 'c' && "Accept-Ranges"@[3] == 'e' && "Accept-Ranges"@[4] == 'p' && "Accept-Ranges"@[5] == 't' && "Accept-Ranges"@[6] == '-' && "Accept-Ranges"@[7] == 'R' && "Accept-Ranges"@[8] == 'a' && "Accept-Ranges"@[9] == 'n' && "Accept-Ranges"@[10] == 'g' && "Accept-Ranges"@[11] == 'e' && "Accept-Ranges"@[12] == 's');
    reveal_strlit("Access-Control-Allow-Credentials");
    assert("Access-Control-Allow-Credentials"@.len() == 32 && "Access-Control-Allow-Credentials"@[0] == 'A' && "Access-Control-Allow-Credentials"@[1] == 'c' && "Access-Control-Allow-Credentials"@[2] == 'c' && "Access-Control-Allow-Credentials"@[3] == 'e' && "Access-Control-Allow-Credentials"@[4] == 's' && "Access-Control-Allow-Credentials"@[5] == 's' && "Access-Control-Allow-Credentials"@[6] == '-' && "Access-Control-Allow-Credentials"@[7] == 'C' && "Access-Control-Allow-Credentials"@[8] == 'o' && "Access-Control-Allow-Credentials"@[9] == 'n' && "Access-Control-Allow-Credentials"@[10] == 't' && "Access-Control-Allow-Credentials"@[11] == 'r' && "Access-Control-Allow-Credentials"@[12] == 'o' && "Access-Control-Allow-Credentials"@[13] == 'l' && "Access-Control-Allow-Credentials"@[14] == '-' && "Access-Control-Allow-Credentials"@[15] == 'A' && "Access-Control-Allow-Credentials"@[16] == 'l' && "Access-Control-Allow-Credentials"@[17] == 'l' && "Access-Control-Allow-Credentials"@[18] == 'o' && "Access-Control-Allow-Credentials"@[19] == 'w' && "Access-Control-Allow-Credentials"@[20] == '-' && "Access-Control-Allow-Credentials"@[21] == 'C' && "Access-Control-Allow-Credentials"@[22] == 'r' && "Access-Control-Allow-Credentials"@[23] == 'e' && "Access-Control-Allow-Credentials"@[24] == 'd' && "Access-Control-Allow-Credentials"@[25] == 'e' && "Access-Control-Allow-Credentials"@[26] == 'n' && "Access-Control-Allow-Credentials"@[27] == 't' && "Access-Control-Allow-Credentials"@[28] == 'i' && "Access-Control-Allow-Credentials"@[29] == 'a' && "Access-Control-Allow-Credentials"@[30] == 'l' && "Access-Control-Allow-Credentials"@[31] == 's');
    reveal_strlit("Access-Control-Allow-Expose-Headers");
    assert("Access-Control-Allow-Expose-Headers"@.len() == 35 && "Access-Control-Allow-Expose-Headers"@[0] == 'A' && "Access-Control-Allow-Expose-Headers"@[1] == 'c' && "Access-Control-Allow-Expose-Headers"@[2] == 'c' && "Access-Control-Allow-Expose-Headers"@[3] == 'e' && "Access-Control-Allow-Expose-Headers"@[4] == 's' && "Access-Control-Allow-Expose-Headers"@[5] == 's' && "Access-Control-Allow-Expose-Headers"@[6] == '-' && "Access-Control-Allow-Expose-Headers"@[7] == 'C' && "Access-Control-Allow-Expose-Headers"@[8] == 'o' && "Access-Control-Allow-Expose-Headers"@[9] == 'n' && "Access-Control-Allow-Expose-Headers"@[10] == 't' && "Access-Control-Allow-Expose-Headers"@[11] == 'r' && "Access-Control-Allow-Expose-Headers"@[12] == 'o' && "Access-Control-Allow-Expose-Headers"@[13] == 'l' && "Access-Control-Allow-Expose-Headers"@[14] == '-' && "Access-Control-Allow-Expose-Headers"@[15] == 'A' && "Access-Control-Allow-Expose-Headers"@[16] == 'l' && "Access-Control-Allow-Expose-Headers"@[17] == 'l' && "Access-Control-Allow-Expose-Headers"@[18] == 'o' && "Access-Control-Allow-Expose-Headers"@[19] == 'w' && "Access-Control-Allow-Expose-Headers"@[20] == '-' && "Access-Control-Allow-Expose-Headers"@[21] == 'E' && "Access-Control-Allow-Expose-Headers"@[22] == 'x' && "Access-Control-Allow-Expose-Headers"@[23] == 'p' && "Access-Control-Allow-Expose-Headers"@[24] == 'o' && "Access-Control-Allow-Expose-Headers"@[25] == 's' && "Access-Control-Allow-Expose-Headers"@[26] == 'e' && "Access-Control-Allow-Expose-Headers"@[27] == '-' && "Access-Control-Allow-Expose-Headers"@[28] == 'H' && "Access-Control-Allow-Expose-Headers"@[29] == 'e' && "Access-Control-Allow-Expose-Headers"@[30] == 'a' && "Access-Control-Allow-Expose-Headers"@[31] == 'd' && "Access-Control-Allow-Expose-Headers"@[32] == 'e' && "Access-Control-Allow-Expose-Headers"@[33] == 'r' && "Access-Control-Allow-Expose-Headers"@[34] == 's');
    reveal_strlit("Access-Control-Allow-Headers");
    assert("Access-Control-Allow-Headers"@.len() == 28 && "Access-Control-Allow-Headers"@[0] == 'A' && "Access-Control-Allow-Headers"@[1] == 'c' && "Access-Control-Allow-Headers"@[2] == 'c' && "Access-Control-Allow-Headers"@[3] == 'e' && "Access-Control-Allow-Headers"@[4] == 's' && "Access-Control-Allow-Headers"@[5] == 's' && "Access-Control-Allow-Headers"@[6] == '-' && "Access-Control-Allow-Headers"@[7] == 'C' && "Access-Control-Allow-Headers"@[8] == 'o' && "Access-Control-Allow-Headers"@[9] == 'n' && "Access-Control-Allow-Headers"@[10] == 't' && "Access-Control-Allow-Headers"@[11] == 'r' && "Access-Control-Allow-Headers"@[12] == 'o' && "Access-Control-Allow-Headers"@[13] == 'l' && "Access-Control-Allow-Headers"@[14] == '-' && "Access-Control-Allow-Headers"@[15] == 'A' && "Access-Control-Allow-Headers"@[16] == 'l' && "Access-Control-Allow-Headers"@[17] == 'l' && "Access-Control-Allow-Headers"@[18] == 'o' && "Access-Control-Allow-Headers"@[19] == 'w' && "Access-Control-Allow-Headers"@[20] == '-' && "Access-Control-Allow-Headers"@[21] == 'H' && "Access-Control-Allow-Headers"@[22] == 'e' && "Access-Control-Allow-Headers"@[23] == 'a' && "Access-Control-Allow-Headers"@[24] == 'd' && "Access-Control-Allow-Headers"@[25] == 'e' && "Access-Control-Allow-Headers"@[26] == 'r' && "Access-Control-Allow-Headers"@[27] == 's');
    reveal_strlit("Access-Control-Allow-Max-Age");
    assert("Access-Control-Allow-Max-Age"@.len() == 28 && "Access-Control-Allow-Max-Age"@[0] == 'A' && "Access-Control-Allow-Max-Age"@[1] == 'c' && "Access-Control-Allow-Max-Age"@[2] == 'c' && "Access-Control-Allow-Max-Age"@[3] == 'e' && "Access-Control-Allow-Max-Age"@[4] == 's' && "Access-Control-Allow-Max-Age"@[5] == 's' && "Access-Control-Allow-Max-Age"@[6] == '-' && "Access-Control-Allow-Max-Age"@[7] == 'C' && "Access-Control-Allow-Max-Age"@[8] == 'o' && "Access-Control-Allow-Max-Age"@[9] == 'n' && "Access-Control-Allow-Max-Age"@[10] == 't' && "Access-Control-Allow-Max-Age"@[11] == 'r' && "Access-Control-Allow-Max-Age"@[12] == 'o' && "Access-Control-Allow-Max-Age"@[13] == 'l' && "Access-Control-Allow-Max-Age"@[14] == '-' && "Access-Control-Allow-Max-Age"@[15] == 'A' && "Access-Control-Allow-Max-Age"@[16] == 'l' && "Access-Control-Allow-Max-Age"@[17] == 'l' && "Access-Control-Allow-Max-Age"@[18] == 'o' && "Access-Control-Allow-Max-Age"@[19] == 'w' && "Access-Control-Allow-Max-Age"@[20] == '-' && "Access-Control-Allow-Max-Age"@[21] == 'M' && "Access-Control-Allow-Max-Age"@[22] == 'a' && "Access-Control-Allow-Max-Age"@[23] == 'x' && "Access-Control-Allow-Max-Age"@[24] == '-' && "Access-Control-Allow-Max-Age"@[25] == 'A' && "Access-Control-Allow-Max-Age"@[26] == 'g' && "Access-Control-Allow-Max-Age"@[27] == 'e');
    reveal_strlit("Access-Control-Allow-Method");
    assert("Access-Control-Allow-Method"@.len() == 27 && "Access-Control-Allow-Method"@[0] == 'A' && "Access-Control-Allow-Method"@[1] == 'c' && "Access-Control-Allow-Method"@[2] == 'c' && "Access-Control-Allow-Method"@[3] == 'e' && "Access-Control-Allow-Method"@[4] == 's' && "Access-Control-Allow-Method"@[5] == 's' && "Access-Control-Allow-Method"@[6] == '-' && "Access-Control-Allow-Method"@[7] == 'C' && "Access-Control-Allow-Method"@[8] == 'o' && "Access-Control-Allow-Method"@[9] == 'n' && "Access-Control-Allow-Method"@[10] == 't' && "Access-Control-Allow-Method"@[11] == 'r' && "Access-Control-Allow-Method"@[12] == 'o' && "Access-Control-Allow-Method"@[13] == 'l' && "Access-Control-Allow-Method"@[14] == '-' && "Access-Control-Allow-Method"@[15] == 'A' && "Access-Control-Allow-Method"@[16] == 'l' && "Access-Control-Allow-Method"@[17] == 'l' && "Access-Control-Allow-Method"@[18] == 'o' && "Access-Control-Allow-Method"@[19] == 'w' && "Access-Control-Allow-Method"@[20] == '-' && "Access-Control-Allow-Method"@[21] == 'M' && "Access-Control-Allow-Method"@[22] == 'e' && "Access-Control-Allow-Method"@[23] == 't' && "Access-Control-Allow-Method"@[24] == 'h' && "Access-Control-Allow-Method"@[25] == 'o' && "Access-Control-Allow-Method"@[26] == 'd');
    reveal_strlit("Access-Control-Allow-Methods");
    assert("Access-Control-Allow-Methods"@.len() == 28 && "Access-Control-Allow-Methods"@[0] == 'A' && "Access-Control-Allow-Methods"@[1] == 'c' && "Access-Control-Allow-Methods"@[2] == 'c' && "Access-Control-Allow-Methods"@[3] == 'e' && "Access-Control-Allow-Methods"@[4] == 's' && "Access-Control-Allow-Methods"@[5] == 's' && "Access-Control-Allow-Methods"@[6] == '-' && "Access-Control-Allow-Methods"@[7] == 'C' && "Access-Control-Allow-Methods"@[8] == 'o' && "Access-Control-Allow-Methods"@[9] == 'n' && "Access-Control-Allow-Methods"@[10] == 't' && "Access-Control-Allow-Methods"@[11] == 'r' && "Access-Control-Allow-Methods"@[12] == 'o' && "Access-Control-Allow-Methods"@[13] == 'l' && "Access-Control-Allow-Methods"@[14] == '-' && "Access-Control-Allow-Methods"@[15] == 'A' && "Access-Control-Allow-Methods"@[16] == 'l' && "Access-Control-Allow-Methods"@[17] == 'l' && "Access-Control-Allow-Methods"@[18] == 'o' && "Access-Control-Allow-Methods"@[19] == 'w' && "Access-Control-Allow-Methods"@[20] == '-' && "Access-Control-Allow-Methods"@[21] == 'M' && "Access-Control-Allow-Methods"@[22] == 'e' && "Access-Control-Allow-Methods"@[23] == 't' && "Access-Control-Allow-Methods"@[24] == 'h' && "Access-Control-Allow-Methods"@[25] == 'o' && "Access-Control-Allow-Methods"@[26] == 'd' && "Access-Control-Allow-Methods"@[27] == 's');
    reveal_strlit("Access-Control-Allow-Origin");
    assert("Access-Control-Allow-Origin"@.len() == 27 && "Access-Control-Allow-Origin"@[0] == 'A' && "Access-Control-Allow-Origin"@[1] == 'c' && "Access-Control-Allow-Origin"@[2] == 'c' && "Access-Control-Allow-Origin"@[3] == 'e' && "Access-Control-Allow-Origin"@[4] == 's' && "Access-Control-Allow-Origin"@[5] == 's' && "Access-Control-Allow-Origin"@[6] == '-' && "Access-Control-Allow-Origin"@[7] == 'C' && "Access-Control-Allow-Origin"@[8] == 'o' && "Access-Control-Allow-Origin"@[9] == 'n' && "Access-Control-Allow-Origin"@[10] == 't' && "Access-Control-Allow-Origin"@[11] == 'r' && "Access-Control-Allow-Origin"@[12] == 'o' && "Access-Control-Allow-Origin"@[13] == 'l' && "Access-Control-Allow-Origin"@[14] == '-' && "Access-Control-Allow-Origin"@[15] == 'A' && "Access-Control-Allow-Origin"@[16] == 'l' && "Access-Control-Allow-Origin"@[17] == 'l' && "Access-Control-Allow-Origin"@[18] == 'o' && "Access-Control-Allow-Origin"@[19] == 'w' && "Access-Control-Allow-Origin"@[20] == '-' && "Access-Control-Allow-Origin"@[21] == 'O' && "Access-Control-Allow-Origin"@[22] == 'r' && "Access-Control-Allow-Origin"@[23] == 'i' && "Access-Control-Allow-Origin"@[24] == 'g' && "Access-Control-Allow-Origin"@[25] == 'i' && "Access-Control-Allow-Origin"@[26] == 'n');
    reveal_strlit("Access-Control-Allow-Request-Headers");
    assert("Access-Control-Allow-Request-Headers"@.len() == 36 && "Access-Control-Allow-Request-Headers"@[0] == 'A' && "Access-Control-Allow-Request-Headers"@[1] == 'c' && "Access-Control-Allow-Request-Headers"@[2] == 'c' && "Access-Control-Allow-Request-Headers"@[3] == 'e' && "Access-Control-Allow-Request-Headers"@[4] == 's' && "Access-Control-Allow-Request-Headers"@[5] == 's' && "Access-Control-Allow-Request-Headers"@[6] == '-' && "Access-Control-Allow-Request-Headers"@[7] == 'C' && "Access-Control-Allow-Request-Headers"@[8] == 'o' && "Access-Control-Allow-Request-Headers"@[9] == 'n' && "Access-Control-Allow-Request-Headers"@[10] == 't' && "Access-Control-Allow-Request-Headers"@[11] == 'r' && "Access-Control-Allow-Request-Headers"@[12] == 'o' && "Access-Control-Allow-Request-Headers"@[13] == 'l' && "Access-Control-Allow-Request-Headers"@[14] == '-' && "Access-Control-Allow-Request-Headers"@[15] == 'A' && "Access-Control-Allow-Request-Headers"@[16] == 'l' && "Access-Control-Allow-Request-Headers"@[17] == 'l' && "Access-Control-Allow-Request-Headers"@[18] == 'o' && "Access-Control-Allow-Request-Headers"@[19] == 'w' && "Access-Control-Allow-Request-Headers"@[20] == '-' && "Access-Control-Allow-Request-Headers"@[21] == 'R' && "Access-Control-Allow-Request-Headers"@[22] == 'e' && "Access-Control-Allow-Request-Headers"@[23] == 'q' && "Access-Control-Allow-Request-Headers"@[24] == 'u' && "Access-Control-Allow-Request-Headers"@[25] == 'e' && "Access-Control-Allow-Request-Headers"@[26] == 's' && "Access-Control-Allow-Request-Headers"@[27] == 't' && "Access-Control-Allow-Request-Headers"@[28] == '-' && "Access-Control-Allow-Request-Headers"@[29] == 'H' && "Access-Control-Allow-Request-Headers"@[30] == 'e' && "Access-Control-Allow-Request-Headers"@[31] == 'a' && "Access-Control-Allow-Request-Headers"@[32] == 'd' && "Access-Control-Allow-Request-Headers"@[33] == 'e' && "Access-Control-Allow-Request-Headers"@[34] == 'r' && "Access-Control-Allow-Request-Headers"@[35] == 's');
    reveal_strlit("Allow");
    assert("Allow"@.len() == 5 && "Allow"@[0] == 'A' && "Allow"@[1] == 'l' && "Allow"@[2] == 'l' && "Allow"@[3] == 'o' && "Allow"@[4] == 'w');
    reveal_strlit("Authorization");
    assert("Authorization"@.len() == 13 && "Authorization"@[0] == 'A' && "Authorization"@[1] == 'u' && "Authorization"@[2] == 't' && "Authorization"@[3] == 'h' && "Authorization"@[4] == 'o' && "Authorization"@[5] == 'r' && "Authorization"@[6] == 'i' && "Authorization"@[7] == 'z' && "Authorization"@[8] == 'a' && "Authorization"@[9] == 't' && "Authorization"@[10] == 'i' && "Authorization"@[11] == 'o' && "Authorization"@[12] == 'n');
    reveal_strlit("Cache-Control");
    assert("Cache-Control"@.len() == 13 && "Cache-Control"@[0] == 'C' && "Cache-Control"@[1] == 'a' && "Cache-Control"@[2] == 'c' && "Cache-Control"@[3] == 'h' && "Cache-Control"@[4] == 'e' && "Cache-Control"@[5] == '-' && "Cache-Control"@[6] == 'C' && "Cache-Control"@[7] == 'o' && "Cache-Control"@[8] == 'n' && "Cache-Control"@[9] == 't' && "Cache-Control"@[10] == 'r' && "Cache-Control"@[11] == 'o' && "Cache-Control"@[12] == 'l');
    reveal_strlit("Clear-Site-Data");
    assert("Clear-Site-Data"@.len() == 15 && "Clear-Site-Data"@[0] == 'C' && "Clear-Site-Data"@[1] == 'l' && "Clear-Site-Data"@[2] == 'e' && "Clear-Site-Data"@[3] == 'a' && "Clear-Site-Data"@[4] == 'r' && "Clear-Site-Data"@[5] == '-' && "Clear-Site-Data"@[6] == 'S' && "Clear-Site-Data"@[7] == 'i' && "Clear-Site-Data"@[8] == 't' && "Clear-Site-Data"@[9] == 'e' && "Clear-Site-Data"@[10] == '-' && "Clear-Site-Data"@[11] == 'D' && "Clear-Site-Data"@[12] == 'a' && "Clear-Site-Data"@[13] == 't' && "Clear-Site-Data"@[14] == 'a');
    reveal_strlit("Connection");
    assert("Connection"@.len() == 10 && "Connection"@[0] == 'C' && "Connection"@[1] == 'o' && "Connection"@[2] == 'n' && "Connection"@[3] == 'n' && "Connection"@[4] == 'e' && "Connection"@[5] == 'c' && "Connection"@[6] == 't' && "Connection"@[7] == 'i' && "Connection"@[8] == 'o' && "Connection"@[9] == 'n');
    reveal_strlit("Content-Disposition");
    assert("Content-Disposition"@.len() == 19 && "Content-Disposition"@[0] == 'C' && "Content-Disposition"@[1] == 'o' && "Content-Disposition"@[2] == 'n' && "Content-Disposition"@[3] == 't' && "Content-Disposition"@[4] == 'e' && "Content-Disposition"@[5] == 'n' && "Content-Disposition"@[6] == 't' && "Content-Disposition"@[7] == '-' && "Content-Disposition"@[8] == 'D' && "Content-Disposition"@[9] == 'i' && "Content-Disposition"@[10] == 's' && "Content-Disposition"@[11] == 'p' && "Content-Disposition"@[12] == 'o' && "Content-Disposition"@[13] == 's' && "Content-Disposition"@[14] == 'i' && "Content-Disposition"@[15] == 't' && "Content-Disposition"@[16] == 'i' && "Content-Disposition"@[17] == 'o' && "Content-Disposition"@[18] == 'n');
    reveal_strlit("Content-Encoding");
    assert("Content-Encoding"@.len() == 16 && "Content-Encoding"@[0] == 'C' && "Content-Encoding"@[1] == 'o' && "Content-Encoding"@[2] == 'n' && "Content-Encoding"@[3] == 't' && "Content-Encoding"@[4] == 'e' && "Content-Encoding"@[5] == 'n' && "Content-Encoding"@[6] == 't' && "Content-Encoding"@[7] == '-' && "Content-Encoding"@[8] == 'E' && "Content-Encoding"@[9] == 'n' && "Content-Encoding"@[10] == 'c' && "Content-Encoding"@[11] == 'o' && "Content-Encoding"@[12] == 'd' && "Content-Encoding"@[13] == 'i' && "Content-Encoding"@[14] == 'n' && "Content-Encoding"@[15] == 'g');
    reveal_strlit("Content-Language");
    assert("Content-Language"@.len() == 16 && "Content-Language"@[0] == 'C' && "Content-Language"@[1] == 'o' && "Content-Language"@[2] == 'n' && "Content-Language"@[3] == 't' && "Content-Language"@[4] == 'e' && "Content-Language"@[5] == 'n' && "Content-Language"@[6] == 't' && "Content-Language"@[7] == '-' && "Content-Language"@[8] == 'L' && "Content-Language"@[9] == 'a' && "Content-Language"@[10] == 'n' && "Content-Language"@[11] == 'g' && "Content-Language"@[12] == 'u' && "Content-Language"@[13] == 'a' && "Content-Language"@[14] == 'g' && "Content-Language"@[15] == 'e');
    reveal_strlit("Content-Length");
    assert("Content-Length"@.len() == 14 && "Content-Length"@[0] == 'C' && "Content-Length"@[1] == 'o' && "Content-Length"@[2] == 'n' && "Content-Length"@[3] == 't' && "Content-Length"@[4] == 'e' && "Content-Length"@[5] == 'n' && "Content-Length"@[6] == 't' && "Content-Length"@[7] == '-' && "Content-Length"@[8] == 'L' && "Content-Length"@[9] == 'e' && "Content-Length"@[10] == 'n' && "Content-Length"@[11] == 'g' && "Content-Length"@[12] == 't' && "Content-Length"@[13] == 'h');
    reveal_strlit("Content-Location");
    assert("Content-Location"@.len() == 16 && "Content-Location"@[0] == 'C' && "Content-Location"@[1] == 'o' && "Content-Location"@[2] == 'n' && "Content-Location"@[3] == 't' && "Content-Location"@[4] == 'e' && "Content-Location"@[5] == 'n' && "Content-Location"@[6] == 't' && "Content-Location"@[7] == '-' && "Content-Location"@[8] == 'L' && "Content-Location"@[9] == 'o' && "Content-Location"@[10] == 'c' && "Content-Location"@[11] == 'a' && "Content-Location"@[12] == 't' && "Content-Location"@[13] == 'i' && "Content-Location"@[14] == 'o' && "Content-Location"@[15] == 'n');
    reveal_strlit("Content-Range");
    assert("Content-Range"@.len() == 13 && "Content-Range"@[0] == 'C' && "Content-Range"@[1] == 'o' && "Content-Range"@[2] == 'n' && "Content-Range"@[3] == 't' && "Content-Range"@[4] == 'e' && "Content-Range"@[5] == 'n' && "Content-Range"@[6] == 't' && "Content-Range"@[7] == '-' && "Content-Range"@[8] == 'R' && "Content-Range"@[9] == 'a' && "Content-Range"@[10] == 'n' && "Content-Range"@[11] == 'g' && "Content-Range"@[12] == 'e');
    reveal_strlit("Content-Type");
    assert("Content-Type"@.len() == 12 && "Content-Type"@[0] == 'C' && "Content-Type"@[1] == 'o' && "Content-Type"@[2] == 'n' && "Content-Type"@[3] == 't' && "Content-Type"@[4] == 'e' && "Content-Type"@[5] == 'n' && "Content-Type"@[6] == 't' && "Content-Type"@[7] == '-' && "Content-Type"@[8] == 'T' && "Content-Type"@[9] == 'y' && "Content-Type"@[10] == 'p' && "Content-Type"@[11] == 'e');
    reveal_strlit("Cookie");
    assert("Cookie"@.len() == 6 && "Cookie"@[0] == 'C' && "Cookie"@[1] == 'o' && "Cookie"@[2] == 'o' && "Cookie"@[3] == 'k' && "Cookie"@[4] == 'i' && "Cookie"@[5] == 'e');
    reveal_strlit("DNT");
    assert("DNT"@.len() == 3 && "DNT"@[0] == 'D' && "DNT"@[1] == 'N' && "DNT"@[2] == 'T');
    reveal_strlit("Date");
    assert("Date"@.len() == 4 && "Date"@[0] == 'D' && "Date"@[1] == 'a' && "Date"@[2] == 't' && "Date"@[3] == 'e');
    reveal_strlit("ETag");
    assert("ETag"@.len() == 4 && "ETag"@[0] == 'E' && "ETag"@[1] == 'T' && "ETag"@[2] == 'a' && "ETag"@[3] == 'g');
    reveal_strlit("Expires");
    assert("Expires"@.len() == 7 && "Expires"@[0] == 'E' && "Expires"@[1] == 'x' && "Expires"@[2] == 'p' && "Expires"@[3] == 'i' && "Expires"@[4] == 'r' && "Expires"@[5] == 'e' && "Expires"@[6] == 's');
    reveal_strlit("Host");
    assert("Host"@.len() == 4 && "Host"@[0] == 'H' && "Host"@[1] == 'o' && "Host"@[2] == 's' && "Host"@[3] == 't');
    reveal_strlit("If-Match");
    assert("If-Match"@.len() == 8 && "If-Match"@[0] == 'I' && "If-Match"@[1] == 'f' && "If-Match"@[2] == '-' && "If-Match"@[3] == 'M' && "If-Match"@[4] == 'a' && "If-Match"@[5] == 't' && "If-Match"@[6] == 'c' && "If-Match"@[7] == 'h');
    reveal_strlit("If-Modified-Since");
    assert("If-Modified-Since"@.len() == 17 && "If-Modified-Since"@[0] == 'I' && "If-Modified-Since"@[1] == 'f' && "If-Modified-Since"@[2] == '-' && "If-Modified-Since"@[3] == 'M' && "If-Modified-Since"@[4] == 'o' && "If-Modified-Since"@[5] == 'd' && "If-Modified-Since"@[6] == 'i' && "If-Modified-Since"@[7] == 'f' && "If-Modified-Since"@[8] == 'i' && "If-Modified-Since"@[9] == 'e' && "If-Modified-Since"@[10] == 'd' && "If-Modified-Since"@[11] == '-' && "If-Modified-Since"@[12] == 'S' && "If-Modified-Since"@[13] == 'i' && "If-Modified-Since"@[14] == 'n' && "If-Modified-Since"@[15] == 'c' && "If-Modified-Since"@[16] == 'e');
    reveal_strlit("If-None-Match");
    assert("If-None-Match"@.len() == 13 && "If-None-Match"@[0] == 'I' && "If-None-Match"@[1] == 'f' && "If-None-Match"@[2] == '-' && "If-None-Match"@[3] == 'N' && "If-None-Match"@[4] == 'o' && "If-None-Match"@[5] == 'n' && "If-None-Match"@[6] == 'e' && "If-None-Match"@[7] == '-' && "If-None-Match"@[8] == 'M' && "If-None-Match"@[9] == 'a' && "If-None-Match"@[10] == 't' && "If-None-Match"@[11] == 'c' && "If-None-Match"@[12] == 'h');
    reveal_strlit("If-Range");
    assert("If-Range"@.len() == 8 && "If-Range"@[0] == 'I' && "If-Range"@[1] == 'f' && "If-Range"@[2] == '-' && "If-Range"@[3] == 'R' && "If-Range"@[4] == 'a' && "If-Range"@[5] == 'n' && "If-Range"@[6] == 'g' && "If-Range"@[7] == 'e');
    reveal_strlit("If-Unmodified-Since");
    assert("If-Unmodified-Since"@.len() == 19 && "If-Unmodified-Since"@[0] == 'I' && "If-Unmodified-Since"@[1] == 'f' && "If-Unmodified-Since"@[2] == '-' && "If-Unmodified-Since"@[3] == 'U' && "If-Unmodified-Since"@[4] == 'n' && "If-Unmodified-Since"@[5] == 'm' && "If-Unmodified-Since"@[6] == 'o' && "If-Unmodified-Since"@[7] == 'd' && "If-Unmodified-Since"@[8] == 'i' && "If-Unmodified-Since"@[9] == 'f' && "If-Unmodified-Since"@[10] == 'i' && "If-Unmodified-Since"@[11] == 'e' && "If-Unmodified-Since"@[12] == 'd' && "If-Unmodified-Since"@[13] == '-' && "If-Unmodified-Since"@[14] == 'S' && "If-Unmodified-Since"@[15] == 'i' && "If-Unmodified-Since"@[16] == 'n' && "If-Unmodified-Since"@[17] == 'c' && "If-Unmodified-Since"@[18] == 'e');
    reveal_strlit("Keep-Alive");
    assert("Keep-Alive"@.len() == 10 && "Keep-Alive"@[0] == 'K' && "Keep-Alive"@[1] == 'e' && "Keep-Alive"@[2] == 'e' && "Keep-Alive"@[3] == 'p' && "Keep-Alive"@[4] == '-' && "Keep-Alive"@[5] == 'A' && "Keep-Alive"@[6] == 'l' && "Keep-Alive"@[7] == 'i' && "Keep-Alive"@[8] == 'v' && "Keep-Alive"@[9] == 'e');
    reveal_strlit("Last-Modified");
    assert("Last-Modified"@.len() == 13 && "Last-Modified"@[0] == 'L' && "Last-Modified"@[1] == 'a' && "Last-Modified"@[2] == 's' && "Last-Modified"@[3] == 't' && "Last-Modified"@[4] == '-' && "Last-Modified"@[5] == 'M' && "Last-Modified"@[6] == 'o' && "Last-Modified"@[7] == 'd' && "Last-Modified"@[8] == 'i' && "Last-Modified"@[9] == 'f' && "Last-Modified"@[10] == 'i' && "Last-Modified"@[11] == 'e' && "Last-Modified"@[12] == 'd');
    reveal_strlit("Location");
    assert("Location"@.len() == 8 && "Location"@[0] == 'L' && "Location"@[1] == 'o' && "Location"@[2] == 'c' && "Location"@[3] == 'a' && "Location"@[4] == 't' && "Location"@[5] == 'i' && "Location"@[6] == 'o' && "Location"@[7] == 'n');
    reveal_strlit("Proxy-Authenticate");
    assert("Proxy-Authenticate"@.len() == 18 && "Proxy-Authenticate"@[0] == 'P' && "Proxy-Authenticate"@[1] == 'r' && "Proxy-Authenticate"@[2] == 'o' && "Proxy-Authenticate"@[3] == 'x' && "Proxy-Authenticate"@[4] == 'y' && "Proxy-Authenticate"@[5] == '-' && "Proxy-Authenticate"@[6] == 'A' && "Proxy-Authenticate"@[7] == 'u' && "Proxy-Authenticate"@[8] == 't' && "Proxy-Authenticate"@[9] == 'h' && "Proxy-Authenticate"@[10] == 'e' && "Proxy-Authenticate"@[11] == 'n' && "Proxy-Authenticate"@[12] == 't' && "Proxy-Authenticate"@[13] == 'i' && "Proxy-Authenticate"@[14] == 'c' && "Proxy-Authenticate"@[15] == 'a' && "Proxy-Authenticate"@[16] == 't' && "Proxy-Authenticate"@[17] == 'e');
    reveal_strlit("Proxy-Authorization");
    assert("Proxy-Authorization"@.len() == 19 && "Proxy-Authorization"@[0] == 'P' && "Proxy-Authorization"@[1] == 'r' && "Proxy-Authorization"@[2] == 'o' && "Proxy-Authorization"@[3] == 'x' && "Proxy-Authorization"@[4] == 'y' && "Proxy-Authorization"@[5] == '-' && "Proxy-Authorization"@[6] == 'A' && "Proxy-Authorization"@[7] == 'u' && "Proxy-Authorization"@[8] == 't' && "Proxy-Authorization"@[9] == 'h' && "Proxy-Authorization"@[10] == 'o' && "Proxy-Authorization"@[11] == 'r' && "Proxy-Authorization"@[12] == 'i' && "Proxy-Authorization"@[13] == 'z' && "Proxy-Authorization"@[14] == 'a' && "Proxy-Authorization"@[15] == 't' && "Proxy-Authorization"@[16] == 'i' && "Proxy-Authorization"@[17] == 'o' && "Proxy-Authorization"@[18] == 'n');
    reveal_strlit("Range");
    assert("Range"@.len() == 5 && "Range"@[0] == 'R' && "Range"@[1] == 'a' && "Range"@[2] == 'n' && "Range"@[3] == 'g' && "Range"@[4] == 'e');
    reveal_strlit("Referer");
    assert("Referer"@.len() == 7 && "Referer"@[0] == 'R' && "Referer"@[1] == 'e' && "Referer"@[2] == 'f' && "Referer"@[3] == 'e' && "Referer"@[4] == 'r' && "Referer"@[5] == 'e' && "Referer"@[6] == 'r');
    reveal_strlit("Retry-After");
    assert("Retry-After"@.len() == 11 && "Retry-After"@[0] == 'R' && "Retry-After"@[1] == 'e' && "Retry-After"@[2] == 't' && "Retry-After"@[3] == 'r' && "Retry-After"@[4] == 'y' && "Retry-After"@[5] == '-' && "Retry-After"@[6] == 'A' && "Retry-After"@[7] == 'f' && "Retry-After"@[8] == 't' && "Retry-After"@[9] == 'e' && "Retry-After"@[10] == 'r');
    reveal_strlit("Save-Data");
    assert("Save-Data"@.len() == 9 && "Save-Data"@[0] == 'S' && "Save-Data"@[1] == 'a' && "Save-Data"@[2] == 'v' && "Save-Data"@[3] == 'e' && "Save-Data"@[4] == '-' && "Save-Data"@[5] == 'D' && "Save-Data"@[6] == 'a' && "Save-Data"@[7] == 't' && "Save-Data"@[8] == 'a');
    reveal_strlit("Sec-Web-Socket-Accept");
    assert("Sec-Web-Socket-Accept"@.len() == 21 && "Sec-Web-Socket-Accept"@[0] == 'S' && "Sec-Web-Socket-Accept"@[1] == 'e' && "Sec-Web-Socket-Accept"@[2] == 'c' && "Sec-Web-Socket-Accept"@[3] == '-' && "Sec-Web-Socket-Accept"@[4] == 'W' && "Sec-Web-Socket-Accept"@[5] == 'e' && "Sec-Web-Socket-Accept"@[6] == 'b' && "Sec-Web-Socket-Accept"@[7] == '-' && "Sec-Web-Socket-Accept"@[8] == 'S' && "Sec-Web-Socket-Accept"@[9] == 'o' && "Sec-Web-Socket-Accept"@[10] == 'c' && "Sec-Web-Socket-Accept"@[11] == 'k' && "Sec-Web-Socket-Accept"@[12] == 'e' && "Sec-Web-Socket-Accept"@[13] == 't' && "Sec-Web-Socket-Accept"@[14] == '-' && "Sec-Web-Socket-Accept"@[15] == 'A' && "Sec-Web-Socket-Accept"@[16] == 'c' && "Sec-Web-Socket-Accept"@[17] == 'c' && "Sec-Web-Socket-Accept"@[18] == 'e' && "Sec-Web-Socket-Accept"@[19] == 'p' && "Sec-Web-Socket-Accept"@[20] == 't');
    reveal_strlit("Sec-Web-Socket-Extensions");
    assert("Sec-Web-Socket-Extensions"@.len() == 25 && "Sec-Web-Socket-Extensions"@[0] == 'S' && "Sec-Web-Socket-Extensions"@[1] == 'e' && "Sec-Web-Socket-Extensions"@[2] == 'c' && "Sec-Web-Socket-Extensions"@[3] == '-' && "Sec-Web-Socket-Extensions"@[4] == 'W' && "Sec-Web-Socket-Extensions"@[5] == 'e' && "Sec-Web-Socket-Extensions"@[6] == 'b' && "Sec-Web-Socket-Extensions"@[7] == '-' && "Sec-Web-Socket-Extensions"@[8] == 'S' && "Sec-Web-Socket-Extensions"@[9] == 'o' && "Sec-Web-Socket-Extensions"@[10] == 'c' && "Sec-Web-Socket-Extensions"@[11] == 'k' && "Sec-Web-Socket-Extensions"@[12] == 'e' && "Sec-Web-Socket-Extensions"@[13] == 't' && "Sec-Web-Socket-Extensions"@[14] == '-' && "Sec-Web-Socket-Extensions"@[15] == 'E' && "Sec-Web-Socket-Extensions"@[16] == 'x' && "Sec-Web-Socket-Extensions"@[17] == 't' && "Sec-Web-Socket-Extensions"@[18] == 'e' && "Sec-Web-Socket-Extensions"@[19] == 'n' && "Sec-Web-Socket-Extensions"@[20] == 's' && "Sec-Web-Socket-Extensions"@[21] == 'i' && "Sec-Web-Socket-Extensions"@[22] == 'o' && "Sec-Web-Socket-Extensions"@[23] == 'n' && "Sec-Web-Socket-Extensions"@[24] == 's');
    reveal_strlit("Sec-Web-Socket-Key");
    assert("Sec-Web-Socket-Key"@.len() == 18 && "Sec-Web-Socket-Key"@[0] == 'S' && "Sec-Web-Socket-Key"@[1] == 'e' && "Sec-Web-Socket-Key"@[2] == 'c' && "Sec-Web-Socket-Key"@[3] == '-' && "Sec-Web-Socket-Key"@[4] == 'W' && "Sec-Web-Socket-Key"@[5] == 'e' && "Sec-Web-Socket-Key"@[6] == 'b' && "Sec-Web-Socket-Key"@[7] == '-' && "Sec-Web-Socket-Key"@[8] == 'S' && "Sec-Web-Socket-Key"@[9] == 'o' && "Sec-Web-Socket-Key"@[10] == 'c' && "Sec-Web-Socket-Key"@[11] == 'k' && "Sec-Web-Socket-Key"@[12] == 'e' && "Sec-Web-Socket-Key"@[13] == 't' && "Sec-Web-Socket-Key"@[14] == '-' && "Sec-Web-Socket-Key"@[15] == 'K' && "Sec-Web-Socket-Key"@[16] == 'e' && "Sec-Web-Socket-Key"@[17] == 'y');
    reveal_strlit("Sec-Web-Socket-Protocol");
    assert("Sec-Web-Socket-Protocol"@.len() == 23 && "Sec-Web-Socket-Protocol"@[0] == 'S' && "Sec-Web-Socket-Protocol"@[1] == 'e' && "Sec-Web-Socket-Protocol"@[2] == 'c' && "Sec-Web-Socket-Protocol"@[3] == '-' && "Sec-Web-Socket-Protocol"@[4] == 'W' && "Sec-Web-Socket-Protocol"@[5] == 'e' && "Sec-Web-Socket-Protocol"@[6] == 'b' && "Sec-Web-Socket-Protocol"@[7] == '-' && "Sec-Web-Socket-Protocol"@[8] == 'S' && "Sec-Web-Socket-Protocol"@[9] == 'o' && "Sec-Web-Socket-Protocol"@[10] == 'c' && "Sec-Web-Socket-Protocol"@[11] == 'k' && "Sec-Web-Socket-Protocol"@[12] == 'e' && "Sec-Web-Socket-Protocol"@[13] == 't' && "Sec-Web-Socket-Protocol"@[14] == '-' && "Sec-Web-Socket-Protocol"@[15] == 'P' && "Sec-Web-Socket-Protocol"@[16] == 'r' && "Sec-Web-Socket-Protocol"@[17] == 'o' && "Sec-Web-Socket-Protocol"@[18] == 't' && "Sec-Web-Socket-Protocol"@[19] == 'o' && "Sec-Web-Socket-Protocol"@[20] == 'c' && "Sec-Web-Socket-Protocol"@[21] == 'o' && "Sec-Web-Socket-Protocol"@[22] == 'l');
    reveal_strlit("Sec-Web-Socket-Version");
    assert("Sec-Web-Socket-Version"@.len() == 22 && "Sec-Web-Socket-Version"@[0] == 'S' && "Sec-Web-Socket-Version"@[1] == 'e' && "Sec-Web-Socket-Version"@[2] == 'c' && "Sec-Web-Socket-Version"@[3] == '-' && "Sec-Web-Socket-Version"@[4] == 'W' && "Sec-Web-Socket-Version"@[5] == 'e' && "Sec-Web-Socket-Version"@[6] == 'b' && "Sec-Web-Socket-Version"@[7] == '-' && "Sec-Web-Socket-Version"@[8] == 'S' && "Sec-Web-Socket-Version"@[9] == 'o' && "Sec-Web-Socket-Version"@[10] == 'c' && "Sec-Web-Socket-Version"@[11] == 'k' && "Sec-Web-Socket-Version"@[12] == 'e' && "Sec-Web-Socket-Version"@[13] == 't' && "Sec-Web-Socket-Version"@[14] == '-' && "Sec-Web-Socket-Version"@[15] == 'V' && "Sec-Web-Socket-Version"@[16] == 'e' && "Sec-Web-Socket-Version"@[17] == 'r' && "Sec-Web-Socket-Version"@[18] == 's' && "Sec-Web-Socket-Version"@[19] == 'i' && "Sec-Web-Socket-Version"@[20] == 'o' && "Sec-Web-Socket-Version"@[21] == 'n');
    reveal_strlit("Server");
    assert("Server"@.len() == 6 && "Server"@[0] == 'S' && "Server"@[1] == 'e' && "Server"@[2] == 'r' && "Server"@[3] == 'v' && "Server"@[4] == 'e' && "Server"@[5] == 'r');
    reveal_strlit("Set-Cookie");
    assert("Set-Cookie"@.len() == 10 && "Set-Cookie"@[0] == 'S' && "Set-Cookie"@[1] == 'e' && "Set-Cookie"@[2] == 't' && "Set-Cookie"@[3] == '-' && "Set-Cookie"@[4] == 'C' && "Set-Cookie"@[5] == 'o' && "Set-Cookie"@[6] == 'o' && "Set-Cookie"@[7] == 'k' && "Set-Cookie"@[8] == 'i' && "Set-Cookie"@[9] == 'e');
    reveal_strlit("Status");
    assert("Status"@.len() == 6 && "Status"@[0] == 'S' && "Status"@[1] == 't' && "Status"@[2] == 'a' && "Status"@[3] == 't' && "Status"@[4] == 'u' && "Status"@[5] == 's');
    reveal_strlit("Upgrade");
    assert("Upgrade"@.len() == 7 && "Upgrade"@[0] == 'U' && "Upgrade"@[1] == 'p' && "Upgrade"@[2] == 'g' && "Upgrade"@[3] == 'r' && "Upgrade"@[4] == 'a' && "Upgrade"@[5] == 'd' && "Upgrade"@[6] == 'e');
    reveal_strlit("Upgrade-Insecure-Requests");
    assert("Upgrade-Insecure-Requests"@.len() == 25 && "Upgrade-Insecure-Requests"@[0] == 'U' && "Upgrade-Insecure-Requests"@[1] == 'p' && "Upgrade-Insecure-Requests"@[2] == 'g' && "Upgrade-Insecure-Requests"@[3] == 'r' && "Upgrade-Insecure-Requests"@[4] == 'a' && "Upgrade-Insecure-Requests"@[5] == 'd' && "Upgrade-Insecure-Requests"@[6] == 'e' && "Upgrade-Insecure-Requests"@[7] == '-' && "Upgrade-Insecure-Requests"@[8] == 'I' && "Upgrade-Insecure-Requests"@[9] == 'n' && "Upgrade-Insecure-Requests"@[10] == 's' && "Upgrade-Insecure-Requests"@[11] == 'e' && "Upgrade-Insecure-Requests"@[12] == 'c' && "Upgrade-Insecure-Requests"@[13] == 'u' && "Upgrade-Insecure-Requests"@[14] == 'r' && "Upgrade-Insecure-Requests"@[15] == 'e' && "Upgrade-Insecure-Requests"@[16] == '-' && "Upgrade-Insecure-Requests"@[17] == 'R' && "Upgrade-Insecure-Requests"@[18] == 'e' && "Upgrade-Insecure-Requests"@[19] == 'q' && "Upgrade-Insecure-Requests"@[20] == 'u' && "Upgrade-Insecure-Requests"@[21] == 'e' && "Upgrade-Insecure-Requests"@[22] == 's' && "Upgrade-Insecure-Requests"@[23] == 't' && "Upgrade-Insecure-Requests"@[24] == 's');
    reveal_strlit("User-Agent");
    assert("User-Agent"@.len() == 10 && "User-Agent"@[0] == 'U' && "User-Agent"@[1] == 's' && "User-Agent"@[2] == 'e' && "User-Agent"@[3] == 'r' && "User-Agent"@[4] == '-' && "User-Agent"@[5] == 'A' && "User-Agent"@[6] == 'g' && "User-Agent"@[7] == 'e' && "User-Agent"@[8] == 'n' && "User-Agent"@[9] == 't');
    reveal_strlit("Vary");
    assert("Vary"@.len() == 4 && "Vary"@[0] == 'V' && "Vary"@[1] == 'a' && "Vary"@[2] == 'r' && "Vary"@[3] == 'y');
    reveal_strlit("WWW-Authenticate");
    assert("WWW-Authenticate"@.len() == 16 && "WWW-Authenticate"@[0] == 'W' && "WWW-Authenticate"@[1] == 'W' && "WWW-Authenticate"@[2] == 'W' && "WWW-Authenticate"@[3] == '-' && "WWW-Authenticate"@[4] == 'A' && "WWW-Authenticate"@[5] == 'u' && "WWW-Authenticate"@[6] == 't' && "WWW-Authenticate"@[7] == 'h' && "WWW-Authenticate"@[8] == 'e' && "WWW-Authenticate"@[9] == 'n' && "WWW-Authenticate"@[10] == 't' && "WWW-Authenticate"@[11] == 'i' && "WWW-Authenticate"@[12] == 'c' && "WWW-Authenticate"@[13] == 'a' && "WWW-Authenticate"@[14] == 't' && "WWW-Authenticate"@[15] == 'e');
    reveal_strlit("accept");
    assert("accept"@.len() == 6 && "accept"@[0] == 'a' && "accept"@[1] == 'c' && "accept"@[2] == 'c' && "accept"@[3] == 'e' && "accept"@[4] == 'p' && "accept"@[5] == 't');
    reveal_strlit("accept-charset");
    assert("accept-charset"@.len() == 14 && "accept-charset"@[0] == 'a' && "accept-charset"@[1] == 'c' && "accept-charset"@[2] == 'c' && "accept-charset"@[3] == 'e' && "accept-charset"@[4] == 'p' && "accept-charset"@[5] == 't' && "accept-charset"@[6] == '-' && "accept-charset"@[7] == 'c' && "accept-charset"@[8] == 'h' && "accept-charset"@[9] == 'a' && "accept-charset"@[10] == 'r' && "accept-charset"@[11] == 's' && "accept-charset"@[12] == 'e' && "accept-charset"@[13] == 't');
    reveal_strlit("accept-encoding");
    assert("accept-encoding"@.len() == 15 && "accept-encoding"@[0] == 'a' && "accept-encoding"@[1] == 'c' && "accept-encoding"@[2] == 'c' && "accept-encoding"@[3] == 'e' && "accept-encoding"@[4] == 'p' && "accept-encoding"@[5] == 't' && "accept-encoding"@[6] == '-' && "accept-encoding"@[7] == 'e' && "accept-encoding"@[8] == 'n' && "accept-encoding"@[9] == 'c' && "accept-encoding"@[10] == 'o' && "accept-encoding"@[11] == 'd' && "accept-encoding"@[12] == 'i' && "accept-encoding"@[13] == 'n' && "accept-encoding"@[14] == 'g');
    reveal_strlit("accept-language");
    assert("accept-language"@.len() == 15 && "accept-language"@[0] == 'a' && "accept-language"@[1] == 'c' && "accept-language"@[2] == 'c' && "accept-language"@[3] == 'e' && "accept-language"@[4] == 'p' && "accept-language"@[5] == 't' && "accept-language"@[6] == '-' && "accept-language"@[7] == 'l' && "accept-language"@[8] == 'a' && "accept-language"@[9] == 'n' && "accept-language"@[10] == 'g' && "accept-language"@[11] == 'u' && "accept-language"@[12] == 'a' && "accept-language"@[13] == 'g' && "accept-language"@[14] == 'e');
    reveal_strlit("accept-ranges");
    assert("accept-ranges"@.len() == 13 && "accept-ranges"@[0] == 'a' && "accept-ranges"@[1] == 'c' && "accept-ranges"@[2] == 'c' && "accept-ranges"@[3] == 'e' && "accept-ranges"@[4] == 'p' && "accept-ranges"@[5] == 't' && "accept-ranges"@[6] == '-' && "accept-ranges"@[7] == 'r' && "accept-ranges"@[8] == 'a' && "accept-ranges"@[9] == 'n' && "accept-ranges"@[10] == 'g' && "accept-ranges"@[11] == 'e' && "accept-ranges"@[12] == 's');
    reveal_strlit("access-control-allow-credentials");
    assert("access-control-allow-credentials"@.len() == 32 && "access-control-allow-credentials"@[0] == 'a' && "access-control-allow-credentials"@[1] == 'c' && "access-control-allow-credentials"@[2] == 'c' && "access-control-allow-credentials"@[3] == 'e' && "access-control-allow-credentials"@[4] == 's' && "access-control-allow-credentials"@[5] == 's' && "access-control-allow-credentials"@[6] == '-' && "access-control-allow-credentials"@[7] == 'c' && "access-control-allow-credentials"@[8] == 'o' && "access-control-allow-credentials"@[9] == 'n' && "access-control-allow-credentials"@[10] == 't' && "access-control-allow-credentials"@[11] == 'r' && "access-control-allow-credentials"@[12] == 'o' && "access-control-allow-credentials"@[13] == 'l' && "access-control-allow-credentials"@[14] == '-' && "access-control-allow-credentials"@[15] == 'a' && "access-control-allow-credentials"@[16] == 'l' && "access-control-allow-credentials"@[17] == 'l' && "access-control-allow-credentials"@[18] == 'o' && "access-control-allow-credentials"@[19] == 'w' && "access-control-allow-credentials"@[20] == '-' && "access-control-allow-credentials"@[21] == 'c' && "access-control-allow-credentials"@[22] == 'r' && "access-control-allow-credentials"@[23] == 'e' && "access-control-allow-credentials"@[24] == 'd' && "access-control-allow-credentials"@[25] == 'e' && "access-control-allow-credentials"@[26] == 'n' && "access-control-allow-credentials"@[27] == 't' && "access-control-allow-credentials"@[28] == 'i' && "access-control-allow-credentials"@[29] == 'a' && "access-control-allow-credentials"@[30] == 'l' && "access-control-allow-credentials"@[31] == 's');
    reveal_strlit("access-control-allow-expose-headers");
    assert("access-control-allow-expose-headers"@.len() == 35 && "access-control-allow-expose-headers"@[0] == 'a' && "access-control-allow-expose-headers"@[1] == 'c' && "access-control-allow-expose-headers"@[2] == 'c' && "access-control-allow-expose-headers"@[3] == 'e' && "access-control-allow-expose-headers"@[4] == 's' && "access-control-allow-expose-headers"@[5] == 's' && "access-control-allow-expose-headers"@[6] == '-' && "access-control-allow-expose-headers"@[7] == 'c' && "access-control-allow-expose-headers"@[8] == 'o' && "access-control-allow-expose-headers"@[9] == 'n' && "access-control-allow-expose-headers"@[10] == 't' && "access-control-allow-expose-headers"@[11] == 'r' && "access-control-allow-expose-headers"@[12] == 'o' && "access-control-allow-expose-headers"@[13] == 'l' && "access-control-allow-expose-headers"@[14] == '-' && "access-control-allow-expose-headers"@[15] == 'a' && "access-control-allow-expose-headers"@[16] == 'l' && "access-control-allow-expose-headers"@[17] == 'l' && "access-control-allow-expose-headers"@[18] == 'o' && "access-control-allow-expose-headers"@[19] == 'w' && "access-control-allow-expose-headers"@[20] == '-' && "access-control-allow-expose-headers"@[21] == 'e' && "access-control-allow-expose-headers"@[22] == 'x' && "access-control-allow-expose-headers"@[23] == 'p' && "access-control-allow-expose-headers"@[24] == 'o' && "access-control-allow-expose-headers"@[25] == 's' && "access-control-allow-expose-headers"@[26] == 'e' && "access-control-allow-expose-headers"@[27] == '-' && "access-control-allow-expose-headers"@[28] == 'h' && "access-control-allow-expose-headers"@[29] == 'e' && "access-control-allow-expose-headers"@[30] == 'a' && "access-control-allow-expose-headers"@[31] == 'd' && "access-control-allow-expose-headers"@[32] == 'e' && "access-control-allow-expose-headers"@[33] == 'r' && "access-control-allow-expose-headers"@[34] == 's');
    reveal_strlit("access-control-allow-headers");
    assert("access-control-allow-headers"@.len() == 28 && "access-control-allow-headers"@[0] == 'a' && "access-control-allow-headers"@[1] == 'c' && "access-control-allow-headers"@[2] == 'c' && "access-control-allow-headers"@[3] == 'e' && "access-control-allow-headers"@[4] == 's' && "access-control-allow-headers"@[5] == 's' && "access-control-allow-headers"@[6] == '-' && "access-control-allow-headers"@[7] == 'c' && "access-control-allow-headers"@[8] == 'o' && "access-control-allow-headers"@[9] == 'n' && "access-control-allow-headers"@[10] == 't' && "access-control-allow-headers"@[11] == 'r' && "access-control-allow-headers"@[12] == 'o' && "access-control-allow-headers"@[13] == 'l' && "access-control-allow-headers"@[14] == '-' && "access-control-allow-headers"@[15] == 'a' && "access-control-allow-headers"@[16] == 'l' && "access-control-allow-headers"@[17] == 'l' && "access-control-allow-headers"@[18] == 'o' && "access-control-allow-headers"@[19] == 'w' && "access-control-allow-headers"@[20] == '-' && "access-control-allow-headers"@[21] == 'h' && "access-control-allow-headers"@[22] == 'e' && "access-control-allow-headers"@[23] == 'a' && "access-control-allow-headers"@[24] == 'd' && "access-control-allow-headers"@[25] == 'e' && "access-control-allow-headers"@[26] == 'r' && "access-control-allow-headers"@[27] == 's');
    reveal_strlit("access-control-allow-max-age");
    assert("access-control-allow-max-age"@.len() == 28 && "access-control-allow-max-age"@[0] == 'a' && "access-control-allow-max-age"@[1] == 'c' && "access-control-allow-max-age"@[2] == 'c' && "access-control-allow-max-age"@[3] == 'e' && "access-control-allow-max-age"@[4] == 's' && "access-control-allow-max-age"@[5] == 's' && "access-control-allow-max-age"@[6] == '-' && "access-control-allow-max-age"@[7] == 'c' && "access-control-allow-max-age"@[8] == 'o' && "access-control-allow-max-age"@[9] == 'n' && "access-control-allow-max-age"@[10] == 't' && "access-control-allow-max-age"@[11] == 'r' && "access-control-allow-max-age"@[12] == 'o' && "access-control-allow-max-age"@[13] == 'l' && "access-control-allow-max-age"@[14] == '-' && "access-control-allow-max-age"@[15] == 'a' && "access-control-allow-max-age"@[16] == 'l' && "access-control-allow-max-age"@[17] == 'l' && "access-control-allow-max-age"@[18] == 'o' && "access-control-allow-max-age"@[19] == 'w' && "access-control-allow-max-age"@[20] == '-' && "access-control-allow-max-age"@[21] == 'm' && "access-control-allow-max-age"@[22] == 'a' && "access-control-allow-max-age"@[23] == 'x' && "access-control-allow-max-age"@[24] == '-' && "access-control-allow-max-age"@[25] == 'a' && "access-control-allow-max-age"@[26] == 'g' && "access-control-allow-max-age"@[27] == 'e');
    reveal_strlit("access-control-allow-method");
    assert("access-control-allow-method"@.len() == 27 && "access-control-allow-method"@[0] == 'a' && "access-control-allow-method"@[1] == 'c' && "access-control-allow-method"@[2] == 'c' && "access-control-allow-method"@[3] == 'e' && "access-control-allow-method"@[4] == 's' && "access-control-allow-method"@[5] == 's' && "access-control-allow-method"@[6] == '-' && "access-control-allow-method"@[7] == 'c' && "access-control-allow-method"@[8] == 'o' && "access-control-allow-method"@[9] == 'n' && "access-control-allow-method"@[10] == 't' && "access-control-allow-method"@[11] == 'r' && "access-control-allow-method"@[12] == 'o' && "access-control-allow-method"@[13] == 'l' && "access-control-allow-method"@[14] == '-' && "access-control-allow-method"@[15] == 'a' && "access-control-allow-method"@[16] == 'l' && "access-control-allow-method"@[17] == 'l' && "access-control-allow-method"@[18] == 'o' && "access-control-allow-method"@[19] == 'w' && "access-control-allow-method"@[20] == '-' && "access-control-allow-method"@[21] == 'm' && "access-control-allow-method"@[22] == 'e' && "access-control-allow-method"@[23] == 't' && "access-control-allow-method"@[24] == 'h' && "access-control-allow-method"@[25] == 'o' && "access-control-allow-method"@[26] == 'd');
    reveal_strlit("access-control-allow-methods");
    assert("access-control-allow-methods"@.len() == 28 && "access-control-allow-methods"@[0] == 'a' && "access-control-allow-methods"@[1] == 'c' && "access-control-allow-methods"@[2] == 'c' && "access-control-allow-methods"@[3] == 'e' && "access-control-allow-methods"@[4] == 's' && "access-control-allow-methods"@[5] == 's' && "access-control-allow-methods"@[6] == '-' && "access-control-allow-methods"@[7] == 'c' && "access-control-allow-methods"@[8] == 'o' && "access-control-allow-methods"@[9] == 'n' && "access-control-allow-methods"@[10] == 't' && "access-control-allow-methods"@[11] == 'r' && "access-control-allow-methods"@[12] == 'o' && "access-control-allow-methods"@[13] == 'l' && "access-control-allow-methods"@[14] == '-' && "access-control-allow-methods"@[15] == 'a' && "access-control-allow-methods"@[16] == 'l' && "access-control-allow-methods"@[17] == 'l' && "access-control-allow-methods"@[18] == 'o' && "access-control-allow-methods"@[19] == 'w' && "access-control-allow-methods"@[20] == '-' && "access-control-allow-methods"@[21] == 'm' && "access-control-allow-methods"@[22] == 'e' && "access-control-allow-methods"@[23] == 't' && "access-control-allow-methods"@[24] == 'h' && "access-control-allow-methods"@[25] == 'o' && "access-control-allow-methods"@[26] == 'd' && "access-control-allow-methods"@[27] == 's');
    reveal_strlit("access-control-allow-origin");
    assert("access-control-allow-origin"@.len() == 27 && "access-control-allow-origin"@[0] == 'a' && "access-control-allow-origin"@[1] == 'c' && "access-control-allow-origin"@[2] == 'c' && "access-control-allow-origin"@[3] == 'e' && "access-control-allow-origin"@[4] == 's' && "access-control-allow-origin"@[5] == 's' && "access-control-allow-origin"@[6] == '-' && "access-control-allow-origin"@[7] == 'c' && "access-control-allow-origin"@[8] == 'o' && "access-control-allow-origin"@[9] == 'n' && "access-control-allow-origin"@[10] == 't' && "access-control-allow-origin"@[11] == 'r' && "access-control-allow-origin"@[12] == 'o' && "access-control-allow-origin"@[13] == 'l' && "access-control-allow-origin"@[14] == '-' && "access-control-allow-origin"@[15] == 'a' && "access-control-allow-origin"@[16] == 'l' && "access-control-allow-origin"@[17] == 'l' && "access-control-allow-origin"@[18] == 'o' && "access-control-allow-origin"@[19] == 'w' && "access-control-allow-origin"@[20] == '-' && "access-control-allow-origin"@[21] == 'o' && "access-control-allow-origin"@[22] == 'r' && "access-control-allow-origin"@[23] == 'i' && "access-control-allow-origin"@[24] == 'g' && "access-control-allow-origin"@[25] == 'i' && "access-control-allow-origin"@[26] == 'n');
    reveal_strlit("access-control-allow-request-headers");
    assert("access-control-allow-request-headers"@.len() == 36 && "access-control-allow-request-headers"@[0] == 'a' && "access-control-allow-request-headers"@[1] == 'c' && "access-control-allow-request-headers"@[2] == 'c' && "access-control-allow-request-headers"@[3] == 'e' && "access-control-allow-request-headers"@[4] == 's' && "access-control-allow-request-headers"@[5] == 's' && "access-control-allow-request-headers"@[6] == '-' && "access-control-allow-request-headers"@[7] == 'c' && "access-control-allow-request-headers"@[8] == 'o' && "access-control-allow-request-headers"@[9] == 'n' && "access-control-allow-request-headers"@[10] == 't' && "access-control-allow-request-headers"@[11] == 'r' && "access-control-allow-request-headers"@[12] == 'o' && "access-control-allow-request-headers"@[13] == 'l' && "access-control-allow-request-headers"@[14] == '-' && "access-control-allow-request-headers"@[15] == 'a' && "access-control-allow-request-headers"@[16] == 'l' && "access-control-allow-request-headers"@[17] == 'l' && "access-control-allow-request-headers"@[18] == 'o' && "access-control-allow-request-headers"@[19] == 'w' && "access-control-allow-request-headers"@[20] == '-' && "access-control-allow-request-headers"@[21] == 'r' && "access-control-allow-request-headers"@[22] == 'e' && "access-control-allow-request-headers"@[23] == 'q' && "access-control-allow-request-headers"@[24] == 'u' && "access-control-allow-request-headers"@[25] == 'e' && "access-control-allow-request-headers"@[26] == 's' && "access-control-allow-request-headers"@[27] == 't' && "access-control-allow-request-headers"@[28] == '-' && "access-control-allow-request-headers"@[29] == 'h' && "access-control-allow-request-headers"@[30] == 'e' && "access-control-allow-request-headers"@[31] == 'a' && "access-control-allow-request-headers"@[32] == 'd' && "access-control-allow-request-headers"@[33] == 'e' && "access-control-allow-request-headers"@[34] == 'r' && "access-control-allow-request-headers"@[35] == 's');
    reveal_strlit("allow");
    assert("allow"@.len() == 5 && "allow"@[0] == 'a' && "allow"@[1] == 'l' && "allow"@[2] == 'l' && "allow"@[3] == 'o' && "allow"@[4] == 'w');
    reveal_strlit("authorization");
    assert("authorization"@.len() == 13 && "authorization"@[0] == 'a' && "authorization"@[1] == 'u' && "authorization"@[2] == 't' && "authorization"@[3] == 'h' && "authorization"@[4] == 'o' && "authorization"@[5] == 'r' && "authorization"@[6] == 'i' && "authorization"@[7] == 'z' && "authorization"@[8] == 'a' && "authorization"@[9] == 't' && "authorization"@[10] == 'i' && "authorization"@[11] == 'o' && "authorization"@[12] == 'n');
    reveal_strlit("cache-control");
    assert("cache-control"@.len() == 13 && "cache-control"@[0] == 'c' && "cache-control"@[1] == 'a' && "cache-control"@[2] == 'c' && "cache-control"@[3] == 'h' && "cache-control"@[4] == 'e' && "cache-control"@[5] == '-' && "cache-control"@[6] == 'c' && "cache-control"@[7] == 'o' && "cache-control"@[8] == 'n' && "cache-control"@[9] == 't' && "cache-control"@[10] == 'r' && "cache-control"@[11] == 'o' && "cache-control"@[12] == 'l');
    reveal_strlit("clear-site-data");
    assert("clear-site-data"@.len() == 15 && "clear-site-data"@[0] == 'c' && "clear-site-data"@[1] == 'l' && "clear-site-data"@[2] == 'e' && "clear-site-data"@[3] == 'a' && "clear-site-data"@[4] == 'r' && "clear-site-data"@[5] == '-' && "clear-site-data"@[6] == 's' && "clear-site-data"@[7] == 'i' && "clear-site-data"@[8] == 't' && "clear-site-data"@[9] == 'e' && "clear-site-data"@[10] == '-' && "clear-site-data"@[11] == 'd' && "clear-site-data"@[12] == 'a' && "clear-site-data"@[13] == 't' && "clear-site-data"@[14] == 'a');
    reveal_strlit("connection");
    assert("connection"@.len() == 10 && "connection"@[0] == 'c' && "connection"@[1] == 'o' && "connection"@[2] == 'n' && "connection"@[3] == 'n' && "connection"@[4] == 'e' && "connection"@[5] == 'c' && "connection"@[6] == 't' && "connection"@[7] == 'i' && "connection"@[8] == 'o' && "connection"@[9] == 'n');
    reveal_strlit("content-disposition");
    assert("content-disposition"@.len() == 19 && "content-disposition"@[0] == 'c' && "content-disposition"@[1] == 'o' && "content-disposition"@[2] == 'n' && "content-disposition"@[3] == 't' && "content-disposition"@[4] == 'e' && "content-disposition"@[5] == 'n' && "content-disposition"@[6] == 't' && "content-disposition"@[7] == '-' && "content-disposition"@[8] == 'd' && "content-disposition"@[9] == 'i' && "content-disposition"@[10] == 's' && "content-disposition"@[11] == 'p' && "content-disposition"@[12] == 'o' && "content-disposition"@[13] == 's' && "content-disposition"@[14] == 'i' && "content-disposition"@[15] == 't' && "content-disposition"@[16] == 'i' && "content-disposition"@[17] == 'o' && "content-disposition"@[18] == 'n');
    reveal_strlit("content-encoding");
    assert("content-encoding"@.len() == 16 && "content-encoding"@[0] == 'c' && "content-encoding"@[1] == 'o' && "content-encoding"@[2] == 'n' && "content-encoding"@[3] == 't' && "content-encoding"@[4] == 'e' && "content-encoding"@[5] == 'n' && "content-encoding"@[6] == 't' && "content-encoding"@[7] == '-' && "content-encoding"@[8] == 'e' && "content-encoding"@[9] == 'n' && "content-encoding"@[10] == 'c' && "content-encoding"@[11] == 'o' && "content-encoding"@[12] == 'd' && "content-encoding"@[13] == 'i' && "content-encoding"@[14] == 'n' && "content-encoding"@[15] == 'g');
    reveal_strlit("content-language");
    assert("content-language"@.len() == 16 && "content-language"@[0] == 'c' && "content-language"@[1] == 'o' && "content-language"@[2] == 'n' && "content-language"@[3] == 't' && "content-language"@[4] == 'e' && "content-language"@[5] == 'n' && "content-language"@[6] == 't' && "content-language"@[7] == '-' && "content-language"@[8] == 'l' && "content-language"@[9] == 'a' && "content-language"@[10] == 'n' && "content-language"@[11] == 'g' && "content-language"@[12] == 'u' && "content-language"@[13] == 'a' && "content-language"@[14] == 'g' && "content-language"@[15] == 'e');
    reveal_strlit("content-length");
    assert("content-length"@.len() == 14 && "content-length"@[0] == 'c' && "content-length"@[1] == 'o' && "content-length"@[2] == 'n' && "content-length"@[3] == 't' && "content-length"@[4] == 'e' && "content-length"@[5] == 'n' && "content-length"@[6] == 't' && "content-length"@[7] == '-' && "content-length"@[8] == 'l' && "content-length"@[9] == 'e' && "content-length"@[10] == 'n' && "content-length"@[11] == 'g' && "content-length"@[12] == 't' && "content-length"@[13] == 'h');
    reveal_strlit("content-location");
    assert("content-location"@.len() == 16 && "content-location"@[0] == 'c' && "content-location"@[1] == 'o' && "content-location"@[2] == 'n' && "content-location"@[3] == 't' && "content-location"@[4] == 'e' && "content-location"@[5] == 'n' && "content-location"@[6] == 't' && "content-location"@[7] == '-' && "content-location"@[8] == 'l' && "content-location"@[9] == 'o' && "content-location"@[10] == 'c' && "content-location"@[11] == 'a' && "content-location"@[12] == 't' && "content-location"@[13] == 'i' && "content-location"@[14] == 'o' && "content-location"@[15] == 'n');
    reveal_strlit("content-range");
    assert("content-range"@.len() == 13 && "content-range"@[0] == 'c' && "content-range"@[1] == 'o' && "content-range"@[2] == 'n' && "content-range"@[3] == 't' && "content-range"@[4] == 'e' && "content-range"@[5] == 'n' && "content-range"@[6] == 't' && "content-range"@[7] == '-' && "content-range"@[8] == 'r' && "content-range"@[9] == 'a' && "content-range"@[10] == 'n' && "content-range"@[11] == 'g' && "content-range"@[12] == 'e');
    reveal_strlit("content-type");
    assert("content-type"@.len() == 12 && "content-type"@[0] == 'c' && "content-type"@[1] == 'o' && "content-type"@[2] == 'n' && "content-type"@[3] == 't' && "content-type"@[4] == 'e' && "content-type"@[5] == 'n' && "content-type"@[6] == 't' && "content-type"@[7] == '-' && "content-type"@[8] == 't' && "content-type"@[9] == 'y' && "content-type"@[10] == 'p' && "content-type"@[11] == 'e');
    reveal_strlit("cookie");
    assert("cookie"@.len() == 6 && "cookie"@[0] == 'c' && "cookie"@[1] == 'o' && "cookie"@[2] == 'o' && "cookie"@[3] == 'k' && "cookie"@[4] == 'i' && "cookie"@[5] == 'e');
    reveal_strlit("date");
    assert("date"@.len() == 4 && "date"@[0] == 'd' && "date"@[1] == 'a' && "date"@[2] == 't' && "date"@[3] == 'e');
    reveal_strlit("dnt");
    assert("dnt"@.len() == 3 && "dnt"@[0] == 'd' && "dnt"@[1] == 'n' && "dnt"@[2] == 't');
    reveal_strlit("etag");
    assert("etag"@.len() == 4 && "etag"@[0] == 'e' && "etag"@[1] == 't' && "etag"@[2] == 'a' && "etag"@[3] == 'g');
    reveal_strlit("expires");
    assert("expires"@.len() == 7 && "expires"@[0] == 'e' && "expires"@[1] == 'x' && "expires"@[2] == 'p' && "expires"@[3] == 'i' && "expires"@[4] == 'r' && "expires"@[5] == 'e' && "expires"@[6] == 's');
    reveal_strlit("host");
    assert("host"@.len() == 4 && "host"@[0] == 'h' && "host"@[1] == 'o' && "host"@[2] == 's' && "host"@[3] == 't');
    reveal_strlit("if-match");
    assert("if-match"@.len() == 8 && "if-match"@[0] == 'i' && "if-match"@[1] == 'f' && "if-match"@[2] == '-' && "if-match"@[3] == 'm' && "if-match"@[4] == 'a' && "if-match"@[5] == 't' && "if-match"@[6] == 'c' && "if-match"@[7] == 'h');
    reveal_strlit("if-modified-since");
    assert("if-modified-since"@.len() == 17 && "if-modified-since"@[0] == 'i' && "if-modified-since"@[1] == 'f' && "if-modified-since"@[2] == '-' && "if-modified-since"@[3] == 'm' && "if-modified-since"@[4] == 'o' && "if-modified-since"@[5] == 'd' && "if-modified-since"@[6] == 'i' && "if-modified-since"@[7] == 'f' && "if-modified-since"@[8] == 'i' && "if-modified-since"@[9] == 'e' && "if-modified-since"@[10] == 'd' && "if-modified-since"@[11] == '-' && "if-modified-since"@[12] == 's' && "if-modified-since"@[13] == 'i' && "if-modified-since"@[14] == 'n' && "if-modified-since"@[15] == 'c' && "if-modified-since"@[16] == 'e');
    reveal_strlit("if-none-match");
    assert("if-none-match"@.len() == 13 && "if-none-match"@[0] == 'i' && "if-none-match"@[1] == 'f' && "if-none-match"@[2] == '-' && "if-none-match"@[3] == 'n' && "if-none-match"@[4] == 'o' && "if-none-match"@[5] == 'n' && "if-none-match"@[6] == 'e' && "if-none-match"@[7] == '-' && "if-none-match"@[8] == 'm' && "if-none-match"@[9] == 'a' && "if-none-match"@[10] == 't' && "if-none-match"@[11] == 'c' && "if-none-match"@[12] == 'h');
    reveal_strlit("if-range");
    assert("if-range"@.len() == 8 && "if-range"@[0] == 'i' && "if-range"@[1] == 'f' && "if-range"@[2] == '-' && "if-range"@[3] == 'r' && "if-range"@[4] == 'a' && "if-range"@[5] == 'n' && "if-range"@[6] == 'g' && "if-range"@[7] == 'e');
    reveal_strlit("if-unmodified-since");
    assert("if-unmodified-since"@.len() == 19 && "if-unmodified-since"@[0] == 'i' && "if-unmodified-since"@[1] == 'f' && "if-unmodified-since"@[2] == '-' && "if-unmodified-since"@[3] == 'u' && "if-unmodified-since"@[4] == 'n' && "if-unmodified-since"@[5] == 'm' && "if-unmodified-since"@[6] == 'o' && "if-unmodified-since"@[7] == 'd' && "if-unmodified-since"@[8] == 'i' && "if-unmodified-since"@[9] == 'f' && "if-unmodified-since"@[10] == 'i' && "if-unmodified-since"@[11] == 'e' && "if-unmodified-since"@[12] == 'd' && "if-unmodified-since"@[13] == '-' && "if-unmodified-since"@[14] == 's' && "if-unmodified-since"@[15] == 'i' && "if-unmodified-since"@[16] == 'n' && "if-unmodified-since"@[17] == 'c' && "if-unmodified-since"@[18] == 'e');
    reveal_strlit("keep-alive");
    assert("keep-alive"@.len() == 10 && "keep-alive"@[0] == 'k' && "keep-alive"@[1] == 'e' && "keep-alive"@[2] == 'e' && "keep-alive"@[3] == 'p' && "keep-alive"@[4] == '-' && "keep-alive"@[5] == 'a' && "keep-alive"@[6] == 'l' && "keep-alive"@[7] == 'i' && "keep-alive"@[8] == 'v' && "keep-alive"@[9] == 'e');
    reveal_strlit("last-modified");
    assert("last-modified"@.len() == 13 && "last-modified"@[0] == 'l' && "last-modified"@[1] == 'a' && "last-modified"@[2] == 's' && "last-modified"@[3] == 't' && "last-modified"@[4] == '-' && "last-modified"@[5] == 'm' && "last-modified"@[6] == 'o' && "last-modified"@[7] == 'd' && "last-modified"@[8] == 'i' && "last-modified"@[9] == 'f' && "last-modified"@[10] == 'i' && "last-modified"@[11] == 'e' && "last-modified"@[12] == 'd');
    reveal_strlit("location");
    assert("location"@.len() == 8 && "location"@[0] == 'l' && "location"@[1] == 'o' && "location"@[2] == 'c' && "location"@[3] == 'a' && "location"@[4] == 't' && "location"@[5] == 'i' && "location"@[6] == 'o' && "location"@[7] == 'n');
    reveal_strlit("proxy-authenticate");
    assert("proxy-authenticate"@.len() == 18 && "proxy-authenticate"@[0] == 'p' && "proxy-authenticate"@[1] == 'r' && "proxy-authenticate"@[2] == 'o' && "proxy-authenticate"@[3] == 'x' && "proxy-authenticate"@[4] == 'y' && "proxy-authenticate"@[5] == '-' && "proxy-authenticate"@[6] == 'a' && "proxy-authenticate"@[7] == 'u' && "proxy-authenticate"@[8] == 't' && "proxy-authenticate"@[9] == 'h' && "proxy-authenticate"@[10] == 'e' && "proxy-authenticate"@[11] == 'n' && "proxy-authenticate"@[12] == 't' && "proxy-authenticate"@[13] == 'i' && "proxy-authenticate"@[14] == 'c' && "proxy-authenticate"@[15] == 'a' && "proxy-authenticate"@[16] == 't' && "proxy-authenticate"@[17] == 'e');
    reveal_strlit("proxy-authorization");
    assert("proxy-authorization"@.len() == 19 && "proxy-authorization"@[0] == 'p' && "proxy-authorization"@[1] == 'r' && "proxy-authorization"@[2] == 'o' && "proxy-authorization"@[3] == 'x' && "proxy-authorization"@[4] == 'y' && "proxy-authorization"@[5] == '-' && "proxy-authorization"@[6] == 'a' && "proxy-authorization"@[7] == 'u' && "proxy-authorization"@[8] == 't' && "proxy-authorization"@[9] == 'h' && "proxy-authorization"@[10] == 'o' && "proxy-authorization"@[11] == 'r' && "proxy-authorization"@[12] == 'i' && "proxy-authorization"@[13] == 'z' && "proxy-authorization"@[14] == 'a' && "proxy-authorization"@[15] == 't' && "proxy-authorization"@[16] == 'i' && "proxy-authorization"@[17] == 'o' && "proxy-authorization"@[18] == 'n');
    reveal_strlit("range");
    assert("range"@.len() == 5 && "range"@[0] == 'r' && "range"@[1] == 'a' && "range"@[2] == 'n' && "range"@[3] == 'g' && "range"@[4] == 'e');
    reveal_strlit("referer");
    assert("referer"@.len() == 7 && "referer"@[0] == 'r' && "referer"@[1] == 'e' && "referer"@[2] == 'f' && "referer"@[3] == 'e' && "referer"@[4] == 'r' && "referer"@[5] == 'e' && "referer"@[6] == 'r');
    reveal_strlit("retry-after");
    assert("retry-after"@.len() == 11 && "retry-after"@[0] == 'r' && "retry-after"@[1] == 'e' && "retry-after"@[2] == 't' && "retry-after"@[3] == 'r' && "retry-after"@[4] == 'y' && "retry-after"@[5] == '-' && "retry-after"@[6] == 'a' && "retry-after"@[7] == 'f' && "retry-after"@[8] == 't' && "retry-after"@[9] == 'e' && "retry-after"@[10] == 'r');
    reveal_strlit("save-data");
    assert("save-data"@.len() == 9 && "save-data"@[0] == 's' && "save-data"@[1] == 'a' && "save-data"@[2] == 'v' && "save-data"@[3] == 'e' && "save-data"@[4] == '-' && "save-data"@[5] == 'd' && "save-data"@[6] == 'a' && "save-data"@[7] == 't' && "save-data"@[8] == 'a');
    reveal_strlit("sec-web-socket-accept");
    assert("sec-web-socket-accept"@.len() == 21 && "sec-web-socket-accept"@[0] == 's' && "sec-web-socket-accept"@[1] == 'e' && "sec-web-socket-accept"@[2] == 'c' && "sec-web-socket-accept"@[3] == '-' && "sec-web-socket-accept"@[4] == 'w' && "sec-web-socket-accept"@[5] == 'e' && "sec-web-socket-accept"@[6] == 'b' && "sec-web-socket-accept"@[7] == '-' && "sec-web-socket-accept"@[8] == 's' && "sec-web-socket-accept"@[9] == 'o' && "sec-web-socket-accept"@[10] == 'c' && "sec-web-socket-accept"@[11] == 'k' && "sec-web-socket-accept"@[12] == 'e' && "sec-web-socket-accept"@[13] == 't' && "sec-web-socket-accept"@[14] == '-' && "sec-web-socket-accept"@[15] == 'a' && "sec-web-socket-accept"@[16] == 'c' && "sec-web-socket-accept"@[17] == 'c' && "sec-web-socket-accept"@[18] == 'e' && "sec-web-socket-accept"@[19] == 'p' && "sec-web-socket-accept"@[20] == 't');
    reveal_strlit("sec-web-socket-extensions");
    assert("sec-web-socket-extensions"@.len() == 25 && "sec-web-socket-extensions"@[0] == 's' && "sec-web-socket-extensions"@[1] == 'e' && "sec-web-socket-extensions"@[2] == 'c' && "sec-web-socket-extensions"@[3] == '-' && "sec-web-socket-extensions"@[4] == 'w' && "sec-web-socket-extensions"@[5] == 'e' && "sec-web-socket-extensions"@[6] == 'b' && "sec-web-socket-extensions"@[7] == '-' && "sec-web-socket-extensions"@[8] == 's' && "sec-web-socket-extensions"@[9] == 'o' && "sec-web-socket-extensions"@[10] == 'c' && "sec-web-socket-extensions"@[11] == 'k' && "sec-web-socket-extensions"@[12] == 'e' && "sec-web-socket-extensions"@[13] == 't' && "sec-web-socket-extensions"@[14] == '-' && "sec-web-socket-extensions"@[15] == 'e' && "sec-web-socket-extensions"@[16] == 'x' && "sec-web-socket-extensions"@[17] == 't' && "sec-web-socket-extensions"@[18] == 'e' && "sec-web-socket-extensions"@[19] == 'n' && "sec-web-socket-extensions"@[20] == 's' && "sec-web-socket-extensions"@[21] == 'i' && "sec-web-socket-extensions"@[22] == 'o' && "sec-web-socket-extensions"@[23] == 'n' && "sec-web-socket-extensions"@[24] == 's');
    reveal_strlit("sec-web-socket-key");
    assert("sec-web-socket-key"@.len() == 18 && "sec-web-socket-key"@[0] == 's' && "sec-web-socket-key"@[1] == 'e' && "sec-web-socket-key"@[2] == 'c' && "sec-web-socket-key"@[3] == '-' && "sec-web-socket-key"@[4] == 'w' && "sec-web-socket-key"@[5] == 'e' && "sec-web-socket-key"@[6] == 'b' && "sec-web-socket-key"@[7] == '-' && "sec-web-socket-key"@[8] == 's' && "sec-web-socket-key"@[9] == 'o' && "sec-web-socket-key"@[10] == 'c' && "sec-web-socket-key"@[11] == 'k' && "sec-web-socket-key"@[12] == 'e' && "sec-web-socket-key"@[13] == 't' && "sec-web-socket-key"@[14] == '-' && "sec-web-socket-key"@[15] == 'k' && "sec-web-socket-key"@[16] == 'e' && "sec-web-socket-key"@[17] == 'y');
    reveal_strlit("sec-web-socket-protocol");
    assert("sec-web-socket-protocol"@.len() == 23 && "sec-web-socket-protocol"@[0] == 's' && "sec-web-socket-protocol"@[1] == 'e' && "sec-web-socket-protocol"@[2] == 'c' && "sec-web-socket-protocol"@[3] == '-' && "sec-web-socket-protocol"@[4] == 'w' && "sec-web-socket-protocol"@[5] == 'e' && "sec-web-socket-protocol"@[6] == 'b' && "sec-web-socket-protocol"@[7] == '-' && "sec-web-socket-protocol"@[8] == 's' && "sec-web-socket-protocol"@[9] == 'o' && "sec-web-socket-protocol"@[10] == 'c' && "sec-web-socket-protocol"@[11] == 'k' && "sec-web-socket-protocol"@[12] == 'e' && "sec-web-socket-protocol"@[13] == 't' && "sec-web-socket-protocol"@[14] == '-' && "sec-web-socket-protocol"@[15] == 'p' && "sec-web-socket-protocol"@[16] == 'r' && "sec-web-socket-protocol"@[17] == 'o' && "sec-web-socket-protocol"@[18] == 't' && "sec-web-socket-protocol"@[19] == 'o' && "sec-web-socket-protocol"@[20] == 'c' && "sec-web-socket-protocol"@[21] == 'o' && "sec-web-socket-protocol"@[22] == 'l');
    reveal_strlit("sec-web-socket-version");
    assert("sec-web-socket-version"@.len() == 22 && "sec-web-socket-version"@[0] == 's' && "sec-web-socket-version"@[1] == 'e' && "sec-web-socket-version"@[2] == 'c' && "sec-web-socket-version"@[3] == '-' && "sec-web-socket-version"@[4] == 'w' && "sec-web-socket-version"@[5] == 'e' && "sec-web-socket-version"@[6] == 'b' && "sec-web-socket-version"@[7] == '-' && "sec-web-socket-version"@[8] == 's' && "sec-web-socket-version"@[9] == 'o' && "sec-web-socket-version"@[10] == 'c' && "sec-web-socket-version"@[11] == 'k' && "sec-web-socket-version"@[12] == 'e' && "sec-web-socket-version"@[13] == 't' && "sec-web-socket-version"@[14] == '-' && "sec-web-socket-version"@[15] == 'v' && "sec-web-socket-version"@[16] == 'e' && "sec-web-socket-version"@[17] == 'r' && "sec-web-socket-version"@[18] == 's' && "sec-web-socket-version"@[19] == 'i' && "sec-web-socket-version"@[20] == 'o' && "sec-web-socket-version"@[21] == 'n');
    reveal_strlit("server");
    assert("server"@.len() == 6 && "server"@[0] == 's' && "server"@[1] == 'e' && "server"@[2] == 'r' && "server"@[3] == 'v' && "server"@[4] == 'e' && "server"@[5] == 'r');
    reveal_strlit("set-cookie");
    assert("set-cookie"@.len() == 10 && "set-cookie"@[0] == 's' && "set-cookie"@[1] == 'e' && "set-cookie"@[2] == 't' && "set-cookie"@[3] == '-' && "set-cookie"@[4] == 'c' && "set-cookie"@[5] == 'o' && "set-cookie"@[6] == 'o' && "set-cookie"@[7] == 'k' && "set-cookie"@[8] == 'i' && "set-cookie"@[9] == 'e');
    reveal_strlit("status");
    assert("status"@.len() == 6 && "status"@[0] == 's' && "status"@[1] == 't' && "status"@[2] == 'a' && "status"@[3] == 't' && "status"@[4] == 'u' && "status"@[5] == 's');
    reveal_strlit("upgrade");
    assert("upgrade"@.len() == 7 && "upgrade"@[0] == 'u' && "upgrade"@[1] == 'p' && "upgrade"@[2] == 'g' && "upgrade"@[3] == 'r' && "upgrade"@[4] == 'a' && "upgrade"@[5] == 'd' && "upgrade"@[6] == 'e');
    reveal_strlit("upgrade-insecure-requests");
    assert("upgrade-insecure-requests"@.len() == 25 && "upgrade-insecure-requests"@[0] == 'u' && "upgrade-insecure-requests"@[1] == 'p' && "upgrade-insecure-requests"@[2] == 'g' && "upgrade-insecure-requests"@[3] == 'r' && "upgrade-insecure-requests"@[4] == 'a' && "upgrade-insecure-requests"@[5] == 'd' && "upgrade-insecure-requests"@[6] == 'e' && "upgrade-insecure-requests"@[7] == '-' && "upgrade-insecure-requests"@[8] == 'i' && "upgrade-insecure-requests"@[9] == 'n' && "upgrade-insecure-requests"@[10] == 's' && "upgrade-insecure-requests"@[11] == 'e' && "upgrade-insecure-requests"@[12] == 'c' && "upgrade-insecure-requests"@[13] == 'u' && "upgrade-insecure-requests"@[14] == 'r' && "upgrade-insecure-requests"@[15] == 'e' && "upgrade-insecure-requests"@[16] == '-' && "upgrade-insecure-requests"@[17] == 'r' && "upgrade-insecure-requests"@[18] == 'e' && "upgrade-insecure-requests"@[19] == 'q' && "upgrade-insecure-requests"@[20] == 'u' && "upgrade-insecure-requests"@[21] == 'e' && "upgrade-insecure-requests"@[22] == 's' && "upgrade-insecure-requests"@[23] == 't' && "upgrade-insecure-requests"@[24] == 's');
    reveal_strlit("user-agent");
    assert("user-agent"@.len() == 10 && "user-agent"@[0] == 'u' && "user-agent"@[1] == 's' && "user-agent"@[2] == 'e' && "user-agent"@[3] == 'r' && "user-agent"@[4] == '-' && "user-agent"@[5] == 'a' && "user-agent"@[6] == 'g' && "user-agent"@[7] == 'e' && "user-agent"@[8] == 'n' && "user-agent"@[9] == 't');
    reveal_strlit("vary");
    assert("vary"@.len() == 4 && "vary"@[0] == 'v' && "vary"@[1] == 'a' && "vary"@[2] == 'r' && "vary"@[3] == 'y');
    reveal_strlit("www-authenticate");
    assert("www-authenticate"@.len() == 16 && "www-authenticate"@[0] == 'w' && "www-authenticate"@[1] == 'w' && "www-authenticate"@[2] == 'w' && "www-authenticate"@[3] == '-' && "www-authenticate"@[4] == 'a' && "www-authenticate"@[5] == 'u' && "www-authenticate"@[6] == 't' && "www-authenticate"@[7] == 'h' && "www-authenticate"@[8] == 'e' && "www-authenticate"@[9] == 'n' && "www-authenticate"@[10] == 't' && "www-authenticate"@[11] == 'i' && "www-authenticate"@[12] == 'c' && "www-authenticate"@[13] == 'a' && "www-authenticate"@[14] == 't' && "www-authenticate"@[15] == 'e');
}

/// A unit of ranges.
#[derive(Clone, Eq, PartialEq, Debug)]
pub enum Unit {
    Bytes,
    Other(String),
}

/// The text of a value.
pub open spec fn unit_text(x: Unit) -> Seq<char> {
    match x {
        Unit::Bytes => "bytes"@,
        Unit::Other(v) => v@,
    }
}

/// The named value that the text `s` stands for, if any.
pub open spec fn unit_parse(s: Seq<char>) -> Option<Unit> {
    if s == "bytes"@ { Some(Unit::Bytes) }
    else { None }
}

impl Unit {
    /// Reads the value from its text; any other text is kept as it is.
    pub fn from_str(s: &str) -> (r: Result<Unit, ()>)
        ensures
            match unit_parse(s@) {
                Some(x) => r == Ok::<Unit, ()>(x),
                None => r matches Ok(Unit::Other(v)) && v@ == s@,
            },
    {
        if str_eq(s, "bytes") {
            return Ok(Unit::Bytes);
        }
        Ok(Unit::Other(String::from_str(s)))
    }

    /// The text of the value.
    pub fn to_string(&self) -> (r: String)
        ensures
            r@ == unit_text(*self),
    {
        match self {
            Unit::Bytes => String::from_str("bytes"),
            Unit::Other(v) => v.clone(),
        }
    }
}

/// Reading the text of a named value gives the value.
pub proof fn lemma_unit_text_roundtrip(x: Unit)
    requires
        !(x is Other),
    ensures
        unit_parse(unit_text(x)) == Some(x),
{
    reveal_strlit("bytes");
    assert("bytes"@.len() == 5 && "bytes"@[0] == 'b' && "bytes"@[1] == 'y' && "bytes"@[2] == 't' && "bytes"@[3] == 'e' && "bytes"@[4] == 's');
}

/// A request method.
#[derive(Clone, Eq, PartialEq, Ord, PartialOrd, Debug, Hash)]
pub enum Method {
    Options,
    Get,
    Head,
    Post,
    Put,
    Delete,
    Trace,
    Connect,
    Patch,
    Other(String),
}

/// The text of a value.
pub open spec fn method_text(x: Method) -> Seq<char> {
    match x {
        Method::Options => "OPTIONS"@,
        Method::Get => "GET"@,
        Method::Head => "HEAD"@,
        Method::Post => "POST"@,
        Method::Put => "PUT"@,
        Method::Delete => "DELETE"@,
        Method::Trace => "TRACE"@,
        Method::Connect => "CONNECT"@,
        Method::Patch => "PATCH"@,
        Method::Other(v) => v@,
    }
}

/// The named value that the text `s` stands for, if any.
pub open spec fn method_parse(s: Seq<char>) -> Option<Method> {
    if s == "OPTIONS"@ { Some(Method::Options) }
    else if s == "GET"@ { Some(Method::Get) }
    else if s == "HEAD"@ { Some(Method::Head) }
    else if s == "POST"@ { Some(Method::Post) }
    else if s == "PUT"@ { Some(Method::Put) }
    else if s == "DELETE"@ { Some(Method::Delete) }
    else if s == "TRACE"@ { Some(Method::Trace) }
    else if s == "CONNECT"@ { Some(Method::Connect) }
    else if s == "PATCH"@ { Some(Method::Patch) }
    else { None }
}

impl Method {
    /// Reads the value from its text; any other text is kept as it is.
    pub fn from_str(s: &str) -> (r: Result<Method, ()>)
        ensures
            match method_parse(s@) {
                Some(x) => r == Ok::<Method, ()>(x),
                None => r matches Ok(Method::Other(v)) && v@ == s@,
            },
    {
        if str_eq(s, "OPTIONS") {
            return Ok(Method::Options);
        }
        if str_eq(s, "GET") {
            return Ok(Method::Get);
        }
        if str_eq(s, "HEAD") {
            return Ok(Method::Head);
        }
        if str_eq(s, "POST") {
            return Ok(Method::Post);
        }
        if str_eq(s, "PUT") {
            return Ok(Method::Put);
        }
        if str_eq(s, "DELETE") {
            return Ok(Method::Delete);
        }
        if str_eq(s, "TRACE") {
            return Ok(Method::Trace);
        }
        if str_eq(s, "CONNECT") {
            return Ok(Method::Connect);
        }
        if str_eq(s, "PATCH") {
            return Ok(Method::Patch);
        }
        Ok(Method::Other(String::from_str(s)))
    }

    /// The text of the value.
    pub fn to_string(&self) -> (r: String)
        ensures
            r@ == method_text(*self),
    {
        match self {
            Method::Options => String::from_str("OPTIONS"),
            Method::Get => String::from_str("GET"),
            Method::Head => String::from_str("HEAD"),
            Method::Post => String::from_str("POST"),
            Method::Put => String::from_str("PUT"),
            Method::Delete => String::from_str("DELETE"),
            Method::Trace => String::from_str("TRACE"),
            Method::Connect => String::from_str("CONNECT"),
            Method::Patch => String::from_str("PATCH"),
            Method::Other(v) => v.clone(),
        }
    }
}

/// Reading the text of a named value gives the value.
pub proof fn lemma_method_text_roundtrip(x: Method)
    requires
        !(x is Other),
    ensures
        method_parse(method_text(x)) == Some(x),
{
    reveal_strlit("CONNECT");
    assert("CONNECT"@.len() == 7 && "CONNECT"@[0] == 'C' && "CONNECT"@[1] == 'O' && "CONNECT"@[2] == 'N' && "CONNECT"@[3] == 'N' && "CONNECT"@[4] == 'E' && "CONNECT"@[5] == 'C' && "CONNECT"@[6] == 'T');
    reveal_strlit("DELETE");
    assert("DELETE"@.len() == 6 && "DELETE"@[0] == 'D' && "DELETE"@[1] == 'E' && "DELETE"@[2] == 'L' && "DELETE"@[3] == 'E' && "DELETE"@[4] == 'T' && "DELETE"@[5] == 'E');
    reveal_strlit("GET");
    assert("GET"@.len() == 3 && "GET"@[0] == 'G' && "GET"@[1] == 'E' && "GET"@[2] == 'T');
    reveal_strlit("HEAD");
    assert("HEAD"@.len() == 4 && "HEAD"@[0] == 'H' && "HEAD"@[1] == 'E' && "HEAD"@[2] == 'A' && "HEAD"@[3] == 'D');
    reveal_strlit("OPTIONS");
    assert("OPTIONS"@.len() == 7 && "OPTIONS"@[0] == 'O' && "OPTIONS"@[1] == 'P' && "OPTIONS"@[2] == 'T' && "OPTIONS"@[3] == 'I' && "OPTIONS"@[4] == 'O' && "OPTIONS"@[5] == 'N' && "OPTIONS"@[6] == 'S');
    reveal_strlit("PATCH");
    assert("PATCH"@.len() == 5 && "PATCH"@[0] == 'P' && "PATCH"@[1] == 'A' && "PATCH"@[2] == 'T' && "PATCH"@[3] == 'C' && "PATCH"@[4] == 'H');
    reveal_strlit("POST");
    assert("POST"@.len() == 4 && "POST"@[0] == 'P' && "POST"@[1] == 'O' && "POST"@[2] == 'S' && "POST"@[3] == 'T');
    reveal_strlit("PUT");
    assert("PUT"@.len() == 3 && "PUT"@[0] == 'P' && "PUT"@[1] == 'U' && "PUT"@[2] == 'T');
    reveal_strlit("TRACE");
    assert("TRACE"@.len() == 5 && "TRACE"@[0] == 'T' && "TRACE"@[1] == 'R' && "TRACE"@[2] == 'A' && "TRACE"@[3] == 'C' && "TRACE"@[4] == 'E');
}

/// A URI scheme.
#[derive(Clone, Eq, PartialEq, Debug)]
pub enum Scheme {
    Http,
    Https,
    Ssh,
    Other(String),
}

/// The text of a value.
pub open spec fn scheme_text(x: Scheme) -> Seq<char> {
    match x {
        Scheme::Http => "http"@,
        Scheme::Https => "https"@,
        Scheme::Ssh => "ssh"@,
        Scheme::Other(v) => v@,
    }
}

/// The named value that the text `s` stands for, if any.
pub open spec fn scheme_parse(s: Seq<char>) -> Option<Scheme> {
    if s == "http"@ { Some(Scheme::Http) }
    else if s == "https"@ { Some(Scheme::Https) }
    else if s == "ssh"@ { Some(Scheme::Ssh) }
    else { None }
}

impl Scheme {
    /// Reads the value from its text; any other text is kept as it is.
    pub fn from_str(s: &str) -> (r: Result<Scheme, ()>)
        ensures
            match scheme_parse(s@) {
                Some(x) => r == Ok::<Scheme, ()>(x),
                None => r matches Ok(Scheme::Other(v)) && v@ == s@,
            },
    {
        if str_eq(s, "http") {
            return Ok(Scheme::Http);
        }
        if str_eq(s, "https") {
            return Ok(Scheme::Https);
        }
        if str_eq(s, "ssh") {
            return Ok(Scheme::Ssh);
        }
        Ok(Scheme::Other(String::from_str(s)))
    }

    /// The text of the value.
    pub fn to_string(&self) -> (r: String)
        ensures
            r@ == scheme_text(*self),
    {
        match self {
            Scheme::Http => String::from_str("http"),
            Scheme::Https => String::from_str("https"),
            Scheme::Ssh => String::from_str("ssh"),
            Scheme::Other(v) => v.clone(),
        }
    }
}

/// Reading the text of a named value gives the value.
pub proof fn lemma_scheme_text_roundtrip(x: Scheme)
    requires
        !(x is Other),
    ensures
        scheme_parse(scheme_text(x)) == Some(x),
{
    reveal_strlit("http");
    assert("http"@.len() == 4 && "http"@[0] == 'h' && "http"@[1] == 't' && "http"@[2] == 't' && "http"@[3] == 'p');
    reveal_strlit("https");
    assert("https"@.len() == 5 && "https"@[0] == 'h' && "https"@[1] == 't' && "https"@[2] == 't' && "https"@[3] == 'p' && "https"@[4] == 's');
    reveal_strlit("ssh");
    assert("ssh"@.len() == 3 && "ssh"@[0] == 's' && "ssh"@[1] == 's' && "ssh"@[2] == 'h');
}

/// A connection option.
#[derive(Clone, Eq, PartialEq, Debug)]
pub enum Connection {
    KeepAlive,
    Close,
    Upgrade,
    Other(String),
}

/// The text of a value.
pub open spec fn connection_text(x: Connection) -> Seq<char> {
    match x {
        Connection::KeepAlive => "keep-alive"@,
        Connection::Close => "close"@,
        Connection::Upgrade => "Upgrade"@,
        Connection::Other(v) => v@,
    }
}

/// The named value that the text `s` stands for, if any.
pub open spec fn connection_parse(s: Seq<char>) -> Option<Connection> {
    if s == "keep-alive"@ { Some(Connection::KeepAlive) }
    else if s == "close"@ { Some(Connection::Close) }
    else if s == "Upgrade"@ { Some(Connection::Upgrade) }
    else { None }
}

impl Connection {
    /// Reads the value from its text; any other text is kept as it is.
    pub fn from_str(s: &str) -> (r: Result<Connection, ()>)
        ensures
            match connection_parse(s@) {
                Some(x) => r == Ok::<Connection, ()>(x),
                None => r matches Ok(Connection::Other(v)) && v@ == s@,
            },
    {
        if str_eq(s, "keep-alive") {
            return Ok(Connection::KeepAlive);
        }
        if str_eq(s, "close") {
            return Ok(Connection::Close);
        }
        if str_eq(s, "Upgrade") {
            return Ok(Connection::Upgrade);
        }
        Ok(Connection::Other(String::from_str(s)))
    }

    /// The text of the value.
    pub fn to_string(&self) -> (r: String)
        ensures
            r@ == connection_text(*self),
    {
        match self {
            Connection::KeepAlive => String::from_str("keep-alive"),
            Connection::Close => String::from_str("close"),
            Connection::Upgrade => String::from_str("Upgrade"),
            Connection::Other(v) => v.clone(),
        }
    }
}

/// Reading the text of a named value gives the value.
pub proof fn lemma_connection_text_roundtrip(x: Connection)
    requires
        !(x is Other),
    ensures
        connection_parse(connection_text(x)) == Some(x),
{
    reveal_strlit("Upgrade");
    assert("Upgrade"@.len() == 7 && "Upgrade"@[0] == 'U' && "Upgrade"@[1] == 'p' && "Upgrade"@[2] == 'g' && "Upgrade"@[3] == 'r' && "Upgrade"@[4] == 'a' && "Upgrade"@[5] == 'd' && "Upgrade"@[6] == 'e');
    reveal_strlit("close");
    assert("close"@.len() == 5 && "close"@[0] == 'c' && "close"@[1] == 'l' && "close"@[2] == 'o' && "close"@[3] == 's' && "close"@[4] == 'e');
    reveal_strlit("keep-alive");
    assert("keep-alive"@.len() == 10 && "keep-alive"@[0] == 'k' && "keep-alive"@[1] == 'e' && "keep-alive"@[2] == 'e' && "keep-alive"@[3] == 'p' && "keep-alive"@[4] == '-' && "keep-alive"@[5] == 'a' && "keep-alive"@[6] == 'l' && "keep-alive"@[7] == 'i' && "keep-alive"@[8] == 'v' && "keep-alive"@[9] == 'e');
}

/// The range units that a server accepts.
#[derive(Clone, Eq, PartialEq, Debug)]
pub enum AcceptRanges {
    NONE,
    Bytes,
    Other(String),
}

/// The text of a value.
pub open spec fn accept_ranges_text(x: AcceptRanges) -> Seq<char> {
    match x {
        AcceptRanges::NONE => "none"@,
        AcceptRanges::Bytes => "bytes"@,
        AcceptRanges::Other(v) => v@,
    }
}

/// The named value that the text `s` stands for, if any.
pub open spec fn accept_ranges_parse(s: Seq<char>) -> Option<AcceptRanges> {
    if s == "none"@ { Some(AcceptRanges::NONE) }
    else if s == "bytes"@ { Some(AcceptRanges::Bytes) }
    else { None }
}

impl AcceptRanges {
    /// Reads the value from its text; any other text is kept as it is.
    pub fn from_str(s: &str) -> (r: Result<AcceptRanges, ()>)
        ensures
            match accept_ranges_parse(s@) {
                Some(x) => r == Ok::<AcceptRanges, ()>(x),
                None => r matches Ok(AcceptRanges::Other(v)) && v@ == s@,
            },
    {
        if str_eq(s, "none") {
            return Ok(AcceptRanges::NONE);
        }
        if str_eq(s, "bytes") {
            return Ok(AcceptRanges::Bytes);
        }
        Ok(AcceptRanges::Other(String::from_str(s)))
    }

    /// The text of the value.
    pub fn to_string(&self) -> (r: String)
        ensures
            r@ == accept_ranges_text(*self),
    {
        match self {
            AcceptRanges::NONE => String::from_str("none"),
            AcceptRanges::Bytes => String::from_str("bytes"),
            AcceptRanges::Other(v) => v.clone(),
        }
    }
}

/// Reading the text of a named value gives the value.
pub proof fn lemma_accept_ranges_text_roundtrip(x: AcceptRanges)
    requires
        !(x is Other),
    ensures
        accept_ranges_parse(accept_ranges_text(x)) == Some(x),
{
    reveal_strlit("bytes");
    assert("bytes"@.len() == 5 && "bytes"@[0] == 'b' && "bytes"@[1] == 'y' && "bytes"@[2] == 't' && "bytes"@[3] == 'e' && "bytes"@[4] == 's');
    reveal_strlit("none");
    assert("none"@.len() == 4 && "none"@[0] == 'n' && "none"@[1] == 'o' && "none"@[2] == 'n' && "none"@[3] == 'e');
}

/// An authentication scheme.
#[derive(Clone, Eq, PartialEq, Debug)]
pub enum AuthorizationType {
    Basic,
    Bearer,
    Digest,
    Hoba,
    Mutual,
    Negotiate,
    OAuth,
    ScramSha1,
    ScramSha256,
    Vapid,
    Other(String),
}

/// The text of a value.
pub open spec fn authorization_type_text(x: AuthorizationType) -> Seq<char> {
    match x {
        AuthorizationType::Basic => "Basic"@,
        AuthorizationType::Bearer => "Bearer"@,
        AuthorizationType::Digest => "Digest"@,
        AuthorizationType::Hoba => "HOBA"@,
        AuthorizationType::Mutual => "Mutual"@,
        AuthorizationType::Negotiate => "Negotiate"@,
        AuthorizationType::OAuth => "OAuth"@,
        AuthorizationType::ScramSha1 => "SCRAM-SHA-1"@,
        AuthorizationType::ScramSha256 => "SCRAM-SHA-256"@,
        AuthorizationType::Vapid => "vapid"@,
        AuthorizationType::Other(v) => v@,
    }
}

/// The named value that the text `s` stands for, if any.
pub open spec fn authorization_type_parse(s: Seq<char>) -> Option<AuthorizationType> {
    if s == "Basic"@ { Some(AuthorizationType::Basic) }
    else if s == "Bearer"@ { Some(AuthorizationType::Bearer) }
    else if s == "Digest"@ { Some(AuthorizationType::Digest) }
    else if s == "HOBA"@ { Some(AuthorizationType::Hoba) }
    else if s == "Mutual"@ { Some(AuthorizationType::Mutual) }
    else if s == "Negotiate"@ { Some(AuthorizationType::Negotiate) }
    else if s == "OAuth"@ { Some(AuthorizationType::OAuth) }
    else if s == "SCRAM-SHA-1"@ { Some(AuthorizationType::ScramSha1) }
    else if s == "SCRAM-SHA-256"@ { Some(AuthorizationType::ScramSha256) }
    else if s == "vapid"@ { Some(AuthorizationType::Vapid) }
    else { None }
}

impl AuthorizationType {
    /// Reads the value from its text; any other text is kept as it is.
    pub fn from_str(s: &str) -> (r: Result<AuthorizationType, ()>)
        ensures
            match authorization_type_parse(s@) {
                Some(x) => r == Ok::<AuthorizationType, ()>(x),
                None => r matches Ok(AuthorizationType::Other(v)) && v@ == s@,
            },
    {
        if str_eq(s, "Basic") {
            return Ok(AuthorizationType::Basic);
        }
        if str_eq(s, "Bearer") {
            return Ok(AuthorizationType::Bearer);
        }
        if str_eq(s, "Digest") {
            return Ok(AuthorizationType::Digest);
        }
        if str_eq(s, "HOBA") {
            return Ok(AuthorizationType::Hoba);
        }
        if str_eq(s, "Mutual") {
            return Ok(AuthorizationType::Mutual);
        }
        if str_eq(s, "Negotiate") {
            return Ok(AuthorizationType::Negotiate);
        }
        if str_eq(s, "OAuth") {
            return Ok(AuthorizationType::OAuth);
        }
        if str_eq(s, "SCRAM-SHA-1") {
            return Ok(AuthorizationType::ScramSha1);
        }
        if str_eq(s, "SCRAM-SHA-256") {
            return Ok(AuthorizationType::ScramSha256);
        }
        if str_eq(s, "vapid") {
            return Ok(AuthorizationType::Vapid);
        }
        Ok(AuthorizationType::Other(String::from_str(s)))
    }

    /// The text of the value.
    pub fn to_string(&self) -> (r: String)
        ensures
            r@ == authorization_type_text(*self),
    {
        match self {
            AuthorizationType::Basic => String::from_str("Basic"),
            AuthorizationType::Bearer => String::from_str("Bearer"),
            AuthorizationType::Digest => String::from_str("Digest"),
            AuthorizationType::Hoba => String::from_str("HOBA"),
            AuthorizationType::Mutual => String::from_str("Mutual"),
            AuthorizationType::Negotiate => String::from_str("Negotiate"),
            AuthorizationType::OAuth => String::from_str("OAuth"),
            AuthorizationType::ScramSha1 => String::from_str("SCRAM-SHA-1"),
            AuthorizationType::ScramSha256 => String::from_str("SCRAM-SHA-256"),
            AuthorizationType::Vapid => String::from_str("vapid"),
            AuthorizationType::Other(v) => v.clone(),
        }
    }
}

/// Reading the text of a named value gives the value.
pub proof fn lemma_authorization_type_text_roundtrip(x: AuthorizationType)
    requires
        !(x is Other),
    ensures
        authorization_type_parse(authorization_type_text(x)) == Some(x),
{
    reveal_strlit("Basic");
    assert("Basic"@.len() == 5 && "Basic"@[0] == 'B' && "Basic"@[1] == 'a' && "Basic"@[2] == 's' && "Basic"@[3] == 'i' && "Basic"@[4] == 'c');
    reveal_strlit("Bearer");
    assert("Bearer"@.len() == 6 && "Bearer"@[0] == 'B' && "Bearer"@[1] == 'e' && "Bearer"@[2] == 'a' && "Bearer"@[3] == 'r' && "Bearer"@[4] == 'e' && "Bearer"@[5] == 'r');
    reveal_strlit("Digest");
    assert("Digest"@.len() == 6 && "Digest"@[0] == 'D' && "Digest"@[1] == 'i' && "Digest"@[2] == 'g' && "Digest"@[3] == 'e' && "Digest"@[4] == 's' && "Digest"@[5] == 't');
    reveal_strlit("HOBA");
    assert("HOBA"@.len() == 4 && "HOBA"@[0] == 'H' && "HOBA"@[1] == 'O' && "HOBA"@[2] == 'B' && "HOBA"@[3] == 'A');
    reveal_strlit("Mutual");
    assert("Mutual"@.len() == 6 && "Mutual"@[0] == 'M' && "Mutual"@[1] == 'u' && "Mutual"@[2] == 't' && "Mutual"@[3] == 'u' && "Mutual"@[4] == 'a' && "Mutual"@[5] == 'l');
    reveal_strlit("Negotiate");
    assert("Negotiate"@.len() == 9 && "Negotiate"@[0] == 'N' && "Negotiate"@[1] == 'e' && "Negotiate"@[2] == 'g' && "Negotiate"@[3] == 'o' && "Negotiate"@[4] == 't' && "Negotiate"@[5] == 'i' && "Negotiate"@[6] == 'a' && "Negotiate"@[7] == 't' && "Negotiate"@[8] == 'e');
    reveal_strlit("OAuth");
    assert("OAuth"@.len() == 5 && "OAuth"@[0] == 'O' && "OAuth"@[1] == 'A' && "OAuth"@[2] == 'u' && "OAuth"@[3] == 't' && "OAuth"@[4] == 'h');
    reveal_strlit("SCRAM-SHA-1");
    assert("SCRAM-SHA-1"@.len() == 11 && "SCRAM-SHA-1"@[0] == 'S' && "SCRAM-SHA-1"@[1] == 'C' && "SCRAM-SHA-1"@[2] == 'R' && "SCRAM-SHA-1"@[3] == 'A' && "SCRAM-SHA-1"@[4] == 'M' && "SCRAM-SHA-1"@[5] == '-' && "SCRAM-SHA-1"@[6] == 'S' && "SCRAM-SHA-1"@[7] == 'H' && "SCRAM-SHA-1"@[8] == 'A' && "SCRAM-SHA-1"@[9] == '-' && "SCRAM-SHA-1"@[10] == '1');
    reveal_strlit("SCRAM-SHA-256");
    assert("SCRAM-SHA-256"@.len() == 13 && "SCRAM-SHA-256"@[0] == 'S' && "SCRAM-SHA-256"@[1] == 'C' && "SCRAM-SHA-256"@[2] == 'R' && "SCRAM-SHA-256"@[3] == 'A' && "SCRAM-SHA-256"@[4] == 'M' && "SCRAM-SHA-256"@[5] == '-' && "SCRAM-SHA-256"@[6] == 'S' && "SCRAM-SHA-256"@[7] == 'H' && "SCRAM-SHA-256"@[8] == 'A' && "SCRAM-SHA-256"@[9] == '-' && "SCRAM-SHA-256"@[10] == '2' && "SCRAM-SHA-256"@[11] == '5' && "SCRAM-SHA-256"@[12] == '6');
    reveal_strlit("vapid");
    assert("vapid"@.len() == 5 && "vapid"@[0] == 'v' && "vapid"@[1] == 'a' && "vapid"@[2] == 'p' && "vapid"@[3] == 'i' && "vapid"@[4] == 'd');
}

/// A directive of `Clear-Site-Data`.
#[derive(Copy, Clone, Eq, PartialEq, Debug)]
pub enum ClearSiteDataDirective {
    Cache,
    Cookies,
    Storage,
    ExecutionContext,
    All,
}

/// The text of a value.
pub open spec fn clear_site_data_directive_text(x: ClearSiteDataDirective) -> Seq<char> {
    match x {
        ClearSiteDataDirective::Cache => "cache"@,
        ClearSiteDataDirective::Cookies => "cookies"@,
        ClearSiteDataDirective::Storage => "storage"@,
        ClearSiteDataDirective::ExecutionContext => "executionContext"@,
        ClearSiteDataDirective::All => "*"@,
    }
}

/// The named value that the text `s` stands for, if any.
pub open spec fn clear_site_data_directive_parse(s: Seq<char>) -> Option<ClearSiteDataDirective> {
    if s == "cache"@ { Some(ClearSiteDataDirective::Cache) }
    else if s == "cookies"@ { Some(ClearSiteDataDirective::Cookies) }
    else if s == "storage"@ { Some(ClearSiteDataDirective::Storage) }
    else if s == "executionContext"@ { Some(ClearSiteDataDirective::ExecutionContext) }
    else if s == "*"@ { Some(ClearSiteDataDirective::All) }
    else { None }
}

impl ClearSiteDataDirective {
    /// Reads the value from its text.
    pub fn from_str(s: &str) -> (r: Result<ClearSiteDataDirective, ()>)
        ensures
            match clear_site_data_directive_parse(s@) {
                Some(x) => r == Ok::<ClearSiteDataDirective, ()>(x),
                None => r == Err::<ClearSiteDataDirective, ()>(()),
            },
    {
        if str_eq(s, "cache") {
            return Ok(ClearSiteDataDirective::Cache);
        }
        if str_eq(s, "cookies") {
            return Ok(ClearSiteDataDirective::Cookies);
        }
        if str_eq(s, "storage") {
            return Ok(ClearSiteDataDirective::Storage);
        }
        if str_eq(s, "executionContext") {
            return Ok(ClearSiteDataDirective::ExecutionContext);
        }
        if str_eq(s, "*") {
            return Ok(ClearSiteDataDirective::All);
        }
        Err(())
    }

    /// The text of the value.
    pub fn to_string(&self) -> (r: String)
        ensures
            r@ == clear_site_data_directive_text(*self),
    {
        match self {
            ClearSiteDataDirective::Cache => String::from_str("cache"),
            ClearSiteDataDirective::Cookies => String::from_str("cookies"),
            ClearSiteDataDirective::Storage => String::from_str("storage"),
            ClearSiteDataDirective::ExecutionContext => String::from_str("executionContext"),
            ClearSiteDataDirective::All => String::from_str("*"),
        }
    }
}

/// Reading the text of a named value gives the value.
pub proof fn lemma_clear_site_data_directive_text_roundtrip(x: ClearSiteDataDirective)
    ensures
        clear_site_data_directive_parse(clear_site_data_directive_text(x)) == Some(x),
{
    reveal_strlit("*");
    assert("*"@.len() == 1 && "*"@[0] == '*');
    reveal_strlit("cache");
    assert("cache"@.len() == 5 && "cache"@[0] == 'c' && "cache"@[1] == 'a' && "cache"@[2] == 'c' && "cache"@[3] == 'h' && "cache"@[4] == 'e');
    reveal_strlit("cookies");
    assert("cookies"@.len() == 7 && "cookies"@[0] == 'c' && "cookies"@[1] == 'o' && "cookies"@[2] == 'o' && "cookies"@[3] == 'k' && "cookies"@[4] == 'i' && "cookies"@[5] == 'e' && "cookies"@[6] == 's');
    reveal_strlit("executionContext");
    assert("executionContext"@.len() == 16 && "executionContext"@[0] == 'e' && "executionContext"@[1] == 'x' && "executionContext"@[2] == 'e' && "executionContext"@[3] == 'c' && "executionContext"@[4] == 'u' && "executionContext"@[5] == 't' && "executionContext"@[6] == 'i' && "executionContext"@[7] == 'o' && "executionContext"@[8] == 'n' && "executionContext"@[9] == 'C' && "executionContext"@[10] == 'o' && "executionContext"@[11] == 'n' && "executionContext"@[12] == 't' && "executionContext"@[13] == 'e' && "executionContext"@[14] == 'x' && "executionContext"@[15] == 't');
    reveal_strlit("storage");
    assert("storage"@.len() == 7 && "storage"@[0] == 's' && "storage"@[1] == 't' && "storage"@[2] == 'o' && "storage"@[3] == 'r' && "storage"@[4] == 'a' && "storage"@[5] == 'g' && "storage"@[6] == 'e');
}

/// A response status.
#[derive(Copy, Clone, Eq, PartialEq, Ord, PartialOrd, Debug)]
pub enum Status {
    Continue,
    SwitchingProtocols,
    Processing,
    EarlyHints,
    OK,
    Created,
    Accepted,
    NonAuthoritativeInformation,
    NoContent,
    ResetContent,
    PartialContent,
    MultiStatus,
    AlreadyReported,
    ImUsed,
    MultipleChoices,
    MovedPermanently,
    Found,
    SeeOther,
    NotModified,
    UseProxy,
    TemporaryRedirect,
    PermanentRedirect,
    BadRequest,
    Unauthorized,
    PaymentRequired,
    Forbidden,
    NotFound,
    MethodNotAllowed,
    NotAcceptable,
    ProxyAuthenticationRequired,
    RequestTimeout,
    Conflict,
    Gone,
    LengthRequired,
    PreconditionFailed,
    PayloadTooLarge,
    UriTooLong,
    UnsupportedMediaType,
    RangeNotSatisfiable,
    ExpectationFailed,
    MisdirectedRequest,
    UnprocessableEntity,
    Locked,
    FailedDependency,
    UpgradeRequired,
    PreconditionRequired,
    TooManyRequests,
    RequestHeaderFilesTooLarge,
    UnavailableForLegalReasons,
    InternalServerError,
    NotImplemented,
    BadGateway,
    ServiceUnavailable,
    GatewayTimeout,
    HttpVersionNotSupported,
    VariantAlsoNegotiates,
    InsufficientStorage,
    LoopDetected,
    NotExtended,
    NetworkAuthenticationRequired,
}

/// The code of a status.
pub open spec fn status_code(s: Status) -> u16 {
    match s {
        Status::Continue => 100,
        Status::SwitchingProtocols => 101,
        Status::Processing => 102,
        Status::EarlyHints => 103,
        Status::OK => 200,
        Status::Created => 201,
        Status::Accepted => 202,
        Status::NonAuthoritativeInformation => 203,
        Status::NoContent => 204,
        Status::ResetContent => 205,
        Status::PartialContent => 206,
        Status::MultiStatus => 207,
        Status::AlreadyReported => 208,
        Status::ImUsed => 226,
        Status::MultipleChoices => 300,
        Status::MovedPermanently => 301,
        Status::Found => 302,
        Status::SeeOther => 303,
        Status::NotModified => 304,
        Status::UseProxy => 305,
        Status::TemporaryRedirect => 307,
        Status::PermanentRedirect => 308,
        Status::BadRequest => 400,
        Status::Unauthorized => 401,
        Status::PaymentRequired => 402,
        Status::Forbidden => 403,
        Status::NotFound => 404,
        Status::MethodNotAllowed => 405,
        Status::NotAcceptable => 406,
        Status::ProxyAuthenticationRequired => 407,
        Status::RequestTimeout => 408,
        Status::Conflict => 409,
        Status::Gone => 410,
        Status::LengthRequired => 411,
        Status::PreconditionFailed => 412,
        Status::PayloadTooLarge => 413,
        Status::UriTooLong => 414,
        Status::UnsupportedMediaType => 415,
        Status::RangeNotSatisfiable => 416,
        Status::ExpectationFailed => 417,
        Status::MisdirectedRequest => 421,
        Status::UnprocessableEntity => 422,
        Status::Locked => 423,
        Status::FailedDependency => 424,
        Status::UpgradeRequired => 426,
        Status::PreconditionRequired => 428,
        Status::TooManyRequests => 429,
        Status::RequestHeaderFilesTooLarge => 431,
        Status::UnavailableForLegalReasons => 451,
        Status::InternalServerError => 500,
        Status::NotImplemented => 501,
        Status::BadGateway => 502,
        Status::ServiceUnavailable => 503,
        Status::GatewayTimeout => 504,
        Status::HttpVersionNotSupported => 505,
        Status::VariantAlsoNegotiates => 506,
        Status::InsufficientStorage => 507,
        Status::LoopDetected => 508,
        Status::NotExtended => 510,
        Status::NetworkAuthenticationRequired => 511,
    }
}

/// The status with the code `v`, if there is one.
pub open spec fn status_of(v: usize) -> Option<Status> {
    if v == 100 { Some(Status::Continue) }
    else if v == 101 { Some(Status::SwitchingProtocols) }
    else if v == 102 { Some(Status::Processing) }
    else if v == 103 { Some(Status::EarlyHints) }
    else if v == 200 { Some(Status::OK) }
    else if v == 201 { Some(Status::Created) }
    else if v == 202 { Some(Status::Accepted) }
    else if v == 203 { Some(Status::NonAuthoritativeInformation) }
    else if v == 204 { Some(Status::NoContent) }
    else if v == 205 { Some(Status::ResetContent) }
    else if v == 206 { Some(Status::PartialContent) }
    else if v == 207 { Some(Status::MultiStatus) }
    else if v == 208 { Some(Status::AlreadyReported) }
    else if v == 226 { Some(Status::ImUsed) }
    else if v == 300 { Some(Status::MultipleChoices) }
    else if v == 301 { Some(Status::MovedPermanently) }
    else if v == 302 { Some(Status::Found) }
    else if v == 303 { Some(Status::SeeOther) }
    else if v == 304 { Some(Status::NotModified) }
    else if v == 305 { Some(Status::UseProxy) }
    else if v == 307 { Some(Status::TemporaryRedirect) }
    else if v == 308 { Some(Status::PermanentRedirect) }
    else if v == 400 { Some(Status::BadRequest) }
    else if v == 401 { Some(Status::Unauthorized) }
    else if v == 402 { Some(Status::PaymentRequired) }
    else if v == 403 { Some(Status::Forbidden) }
    else if v == 404 { Some(Status::NotFound) }
    else if v == 405 { Some(Status::MethodNotAllowed) }
    else if v == 406 { Some(Status::NotAcceptable) }
    else if v == 407 { Some(Status::ProxyAuthenticationRequired) }
    else if v == 408 { Some(Status::RequestTimeout) }
    else if v == 409 { Some(Status::Conflict) }
    else if v == 410 { Some(Status::Gone) }
    else if v == 411 { Some(Status::LengthRequired) }
    else if v == 412 { Some(Status::PreconditionFailed) }
    else if v == 413 { Some(Status::PayloadTooLarge) }
    else if v == 414 { Some(Status::UriTooLong) }
    else if v == 415 { Some(Status::UnsupportedMediaType) }
    else if v == 416 { Some(Status::RangeNotSatisfiable) }
    else if v == 417 { Some(Status::ExpectationFailed) }
    else if v == 421 { Some(Status::MisdirectedRequest) }
    else if v == 422 { Some(Status::UnprocessableEntity) }
    else if v == 423 { Some(Status::Locked) }
    else if v == 424 { Some(Status::FailedDependency) }
    else if v == 426 { Some(Status::UpgradeRequired) }
    else if v == 428 { Some(Status::PreconditionRequired) }
    else if v == 429 { Some(Status::TooManyRequests) }
    else if v == 431 { Some(Status::RequestHeaderFilesTooLarge) }
    else if v == 451 { Some(Status::UnavailableForLegalReasons) }
    else if v == 500 { Some(Status::InternalServerError) }
    else if v == 501 { Some(Status::NotImplemented) }
    else if v == 502 { Some(Status::BadGateway) }
    else if v == 503 { Some(Status::ServiceUnavailable) }
    else if v == 504 { Some(Status::GatewayTimeout) }
    else if v == 505 { Some(Status::HttpVersionNotSupported) }
    else if v == 506 { Some(Status::VariantAlsoNegotiates) }
    else if v == 507 { Some(Status::InsufficientStorage) }
    else if v == 508 { Some(Status::LoopDetected) }
    else if v == 510 { Some(Status::NotExtended) }
    else if v == 511 { Some(Status::NetworkAuthenticationRequired) }
    else { None }
}

/// The reason phrase of a status, in capitals.
pub open spec fn status_reason(s: Status) -> Seq<char> {
    match s {
        Status::Continue => "CONTINUE"@,
        Status::SwitchingProtocols => "SWITCHING PROTOCOLS"@,
        Status::Processing => "PROCESSING"@,
        Status::EarlyHints => "EARLY HINTS"@,
        Status::OK => "OK"@,
        Status::Created => "CREATED"@,
        Status::Accepted => "ACCEPTED"@,
        Status::NonAuthoritativeInformation => "NON AUTHORITATIVE INFORMATION"@,
        Status::NoContent => "NO CONTENT"@,
        Status::ResetContent => "RESET CONTENT"@,
        Status::PartialContent => "PARTIAL CONTENT"@,
        Status::MultiStatus => "MULTI STATUS"@,
        Status::AlreadyReported => "ALREADY REPORTED"@,
        Status::ImUsed => "IM USED"@,
        Status::MultipleChoices => "MULTIPLE CHOICES"@,
        Status::MovedPermanently => "MOVED PERMANENTLY"@,
        Status::Found => "FOUND"@,
        Status::SeeOther => "SEE OTHER"@,
        Status::NotModified => "NOT MODIFIED"@,
        Status::UseProxy => "USE PROXY"@,
        Status::TemporaryRedirect => "TEMPORARY REDIRECT"@,
        Status::PermanentRedirect => "PERMANENT REDIRECT"@,
        Status::BadRequest => "BAD REQUEST"@,
        Status::Unauthorized => "UNAUTHORIZED"@,
        Status::PaymentRequired => "PAYMENT REQUIRED"@,
        Status::Forbidden => "FORBIDDEN"@,
        Status::NotFound => "NOT FOUND"@,
        Status::MethodNotAllowed => "METHOD NOT ALLOWED"@,
        Status::NotAcceptable => "NOT ACCEPTABLE"@,
        Status::ProxyAuthenticationRequired => "PROXY AUTHENTICATION REQUIRED"@,
        Status::RequestTimeout => "REQUEST TIMEOUT"@,
        Status::Conflict => "CONFLICT"@,
        Status::Gone => "GONE"@,
        Status::LengthRequired => "LENGTH REQUIRED"@,
        Status::PreconditionFailed => "PRECONDITION FAILED"@,
        Status::PayloadTooLarge => "PAYLOAD TOO LARGE"@,
        Status::UriTooLong => "URI TOO LONG"@,
        Status::UnsupportedMediaType => "UNSUPPORTED MEDIA TYPE"@,
        Status::RangeNotSatisfiable => "RANGE NOT SATISFIABLE"@,
        Status::ExpectationFailed => "EXPECTATION FAILED"@,
        Status::MisdirectedRequest => "MISDIRECTED REQUEST"@,
        Status::UnprocessableEntity => "UNPROCESSABLE ENTITY"@,
        Status::Locked => "LOCKED"@,
        Status::FailedDependency => "FAILED DEPENDENCY"@,
        Status::UpgradeRequired => "UPGRADE REQUIRED"@,
        Status::PreconditionRequired => "PRECONDITION REQUIRED"@,
        Status::TooManyRequests => "TOO MANY REQUESTS"@,
        Status::RequestHeaderFilesTooLarge => "REQUEST HEADER FILES TOO LARGE"@,
        Status::UnavailableForLegalReasons => "UNAVAILABLE FOR LEGAL REASONS"@,
        Status::InternalServerError => "INTERNAL SERVER ERROR"@,
        Status::NotImplemented => "NOT IMPLEMENTED"@,
        Status::BadGateway => "BAD GATEWAY"@,
        Status::ServiceUnavailable => "SERVICE UNAVAILABLE"@,
        Status::GatewayTimeout => "GATEWAY TIMEOUT"@,
        Status::HttpVersionNotSupported => "HTTP VERSION NOT SUPPORTED"@,
        Status::VariantAlsoNegotiates => "VARIANT ALSO NEGOTIATES"@,
        Status::InsufficientStorage => "INSUFFICIENT STORAGE"@,
        Status::LoopDetected => "LOOP DETECTED"@,
        Status::NotExtended => "NOT EXTENDED"@,
        Status::NetworkAuthenticationRequired => "NETWORK AUTHENTICATION REQUIRED"@,
    }
}

impl Status {
    /// The code of the status.
    pub fn code(self) -> (r: u16)
        ensures
            r == status_code(self),
    {
        match self {
            Status::Continue => 100,
            Status::SwitchingProtocols => 101,
            Status::Processing => 102,
            Status::EarlyHints => 103,
            Status::OK => 200,
            Status::Created => 201,
            Status::Accepted => 202,
            Status::NonAuthoritativeInformation => 203,
            Status::NoContent => 204,
            Status::ResetContent => 205,
            Status::PartialContent => 206,
            Status::MultiStatus => 207,
            Status::AlreadyReported => 208,
            Status::ImUsed => 226,
            Status::MultipleChoices => 300,
            Status::MovedPermanently => 301,
            Status::Found => 302,
            Status::SeeOther => 303,
            Status::NotModified => 304,
            Status::UseProxy => 305,
            Status::TemporaryRedirect => 307,
            Status::PermanentRedirect => 308,
            Status::BadRequest => 400,
            Status::Unauthorized => 401,
            Status::PaymentRequired => 402,
            Status::Forbidden => 403,
            Status::NotFound => 404,
            Status::MethodNotAllowed => 405,
            Status::NotAcceptable => 406,
            Status::ProxyAuthenticationRequired => 407,
            Status::RequestTimeout => 408,
            Status::Conflict => 409,
            Status::Gone => 410,
            Status::LengthRequired => 411,
            Status::PreconditionFailed => 412,
            Status::PayloadTooLarge => 413,
            Status::UriTooLong => 414,
            Status::UnsupportedMediaType => 415,
            Status::RangeNotSatisfiable => 416,
            Status::ExpectationFailed => 417,
            Status::MisdirectedRequest => 421,
            Status::UnprocessableEntity => 422,
            Status::Locked => 423,
            Status::FailedDependency => 424,
            Status::UpgradeRequired => 426,
            Status::PreconditionRequired => 428,
            Status::TooManyRequests => 429,
            Status::RequestHeaderFilesTooLarge => 431,
            Status::UnavailableForLegalReasons => 451,
            Status::InternalServerError => 500,
            Status::NotImplemented => 501,
            Status::BadGateway => 502,
            Status::ServiceUnavailable => 503,
            Status::GatewayTimeout => 504,
            Status::HttpVersionNotSupported => 505,
            Status::VariantAlsoNegotiates => 506,
            Status::InsufficientStorage => 507,
            Status::LoopDetected => 508,
            Status::NotExtended => 510,
            Status::NetworkAuthenticationRequired => 511,
        }
    }

    /// The status with the code `value`.
    pub fn try_from(value: usize) -> (r: Result<Status, ()>)
        ensures
            match status_of(value) {
                Some(s) => r == Ok::<Status, ()>(s),
                None => r == Err::<Status, ()>(()),
            },
    {
        match value {
            100 => Ok(Status::Continue),
            101 => Ok(Status::SwitchingProtocols),
            102 => Ok(Status::Processing),
            103 => Ok(Status::EarlyHints),
            200 => Ok(Status::OK),
            201 => Ok(Status::Created),
            202 => Ok(Status::Accepted),
            203 => Ok(Status::NonAuthoritativeInformation),
            204 => Ok(Status::NoContent),
            205 => Ok(Status::ResetContent),
            206 => Ok(Status::PartialContent),
            207 => Ok(Status::MultiStatus),
            208 => Ok(Status::AlreadyReported),
            226 => Ok(Status::ImUsed),
            300 => Ok(Status::MultipleChoices),
            301 => Ok(Status::MovedPermanently),
            302 => Ok(Status::Found),
            303 => Ok(Status::SeeOther),
            304 => Ok(Status::NotModified),
            305 => Ok(Status::UseProxy),
            307 => Ok(Status::TemporaryRedirect),
            308 => Ok(Status::PermanentRedirect),
            400 => Ok(Status::BadRequest),
            401 => Ok(Status::Unauthorized),
            402 => Ok(Status::PaymentRequired),
            403 => Ok(Status::Forbidden),
            404 => Ok(Status::NotFound),
            405 => Ok(Status::MethodNotAllowed),
            406 => Ok(Status::NotAcceptable),
            407 => Ok(Status::ProxyAuthenticationRequired),
            408 => Ok(Status::RequestTimeout),
            409 => Ok(Status::Conflict),
            410 => Ok(Status::Gone),
            411 => Ok(Status::LengthRequired),
            412 => Ok(Status::PreconditionFailed),
            413 => Ok(Status::PayloadTooLarge),
            414 => Ok(Status::UriTooLong),
            415 => Ok(Status::UnsupportedMediaType),
            416 => Ok(Status::RangeNotSatisfiable),
            417 => Ok(Status::ExpectationFailed),
            421 => Ok(Status::MisdirectedRequest),
            422 => Ok(Status::UnprocessableEntity),
            423 => Ok(Status::Locked),
            424 => Ok(Status::FailedDependency),
            426 => Ok(Status::UpgradeRequired),
            428 => Ok(Status::PreconditionRequired),
            429 => Ok(Status::TooManyRequests),
            431 => Ok(Status::RequestHeaderFilesTooLarge),
            451 => Ok(Status::UnavailableForLegalReasons),
            500 => Ok(Status::InternalServerError),
            501 => Ok(Status::NotImplemented),
            502 => Ok(Status::BadGateway),
            503 => Ok(Status::ServiceUnavailable),
            504 => Ok(Status::GatewayTimeout),
            505 => Ok(Status::HttpVersionNotSupported),
            506 => Ok(Status::VariantAlsoNegotiates),
            507 => Ok(Status::InsufficientStorage),
            508 => Ok(Status::LoopDetected),
            510 => Ok(Status::NotExtended),
            511 => Ok(Status::NetworkAuthenticationRequired),
            _ => Err(()),
        }
    }

    /// Reads a status from the decimal text of its code.
    pub fn from_str(s: &str) -> (r: Result<Status, ()>)
        ensures
            match usize_text(s@) {
                Some(v) => match status_of(v) {
                    Some(x) => r == Ok::<Status, ()>(x),
                    None => r == Err::<Status, ()>(()),
                },
                None => r == Err::<Status, ()>(()),
            },
    {
        match parse_usize(s) {
            Some(v) => Status::try_from(v),
            None => Err(()),
        }
    }

    /// The reason phrase of the status, in capitals.
    pub fn to_string(&self) -> (r: String)
        ensures
            r@ == status_reason(*self),
    {
        match self {
            Status::Continue => String::from_str("CONTINUE"),
            Status::SwitchingProtocols => String::from_str("SWITCHING PROTOCOLS"),
            Status::Processing => String::from_str("PROCESSING"),
            Status::EarlyHints => String::from_str("EARLY HINTS"),
            Status::OK => String::from_str("OK"),
            Status::Created => String::from_str("CREATED"),
            Status::Accepted => String::from_str("ACCEPTED"),
            Status::NonAuthoritativeInformation => String::from_str("NON AUTHORITATIVE INFORMATION"),
            Status::NoContent => String::from_str("NO CONTENT"),
            Status::ResetContent => String::from_str("RESET CONTENT"),
            Status::PartialContent => String::from_str("PARTIAL CONTENT"),
            Status::MultiStatus => String::from_str("MULTI STATUS"),
            Status::AlreadyReported => String::from_str("ALREADY REPORTED"),
            Status::ImUsed => String::from_str("IM USED"),
            Status::MultipleChoices => String::from_str("MULTIPLE CHOICES"),
            Status::MovedPermanently => String::from_str("MOVED PERMANENTLY"),
            Status::Found => String::from_str("FOUND"),
            Status::SeeOther => String::from_str("SEE OTHER"),
            Status::NotModified => String::from_str("NOT MODIFIED"),
            Status::UseProxy => String::from_str("USE PROXY"),
            Status::TemporaryRedirect => String::from_str("TEMPORARY REDIRECT"),
            Status::PermanentRedirect => String::from_str("PERMANENT REDIRECT"),
            Status::BadRequest => String::from_str("BAD REQUEST"),
            Status::Unauthorized => String::from_str("UNAUTHORIZED"),
            Status::PaymentRequired => String::from_str("PAYMENT REQUIRED"),
            Status::Forbidden => String::from_str("FORBIDDEN"),
            Status::NotFound => String::from_str("NOT FOUND"),
            Status::MethodNotAllowed => String::from_str("METHOD NOT ALLOWED"),
            Status::NotAcceptable => String::from_str("NOT ACCEPTABLE"),
            Status::ProxyAuthenticationRequired => String::from_str("PROXY AUTHENTICATION REQUIRED"),
            Status::RequestTimeout => String::from_str("REQUEST TIMEOUT"),
            Status::Conflict => String::from_str("CONFLICT"),
            Status::Gone => String::from_str("GONE"),
            Status::LengthRequired => String::from_str("LENGTH REQUIRED"),
            Status::PreconditionFailed => String::from_str("PRECONDITION FAILED"),
            Status::PayloadTooLarge => String::from_str("PAYLOAD TOO LARGE"),
            Status::UriTooLong => String::from_str("URI TOO LONG"),
            Status::UnsupportedMediaType => String::from_str("UNSUPPORTED MEDIA TYPE"),
            Status::RangeNotSatisfiable => String::from_str("RANGE NOT SATISFIABLE"),
            Status::ExpectationFailed => String::from_str("EXPECTATION FAILED"),
            Status::MisdirectedRequest => String::from_str("MISDIRECTED REQUEST"),
            Status::UnprocessableEntity => String::from_str("UNPROCESSABLE ENTITY"),
            Status::Locked => String::from_str("LOCKED"),
            Status::FailedDependency => String::from_str("FAILED DEPENDENCY"),
            Status::UpgradeRequired => String::from_str("UPGRADE REQUIRED"),
            Status::PreconditionRequired => String::from_str("PRECONDITION REQUIRED"),
            Status::TooManyRequests => String::from_str("TOO MANY REQUESTS"),
            Status::RequestHeaderFilesTooLarge => String::from_str("REQUEST HEADER FILES TOO LARGE"),
            Status::UnavailableForLegalReasons => String::from_str("UNAVAILABLE FOR LEGAL REASONS"),
            Status::InternalServerError => String::from_str("INTERNAL SERVER ERROR"),
            Status::NotImplemented => String::from_str("NOT IMPLEMENTED"),
            Status::BadGateway => String::from_str("BAD GATEWAY"),
            Status::ServiceUnavailable => String::from_str("SERVICE UNAVAILABLE"),
            Status::GatewayTimeout => String::from_str("GATEWAY TIMEOUT"),
            Status::HttpVersionNotSupported => String::from_str("HTTP VERSION NOT SUPPORTED"),
            Status::VariantAlsoNegotiates => String::from_str("VARIANT ALSO NEGOTIATES"),
            Status::InsufficientStorage => String::from_str("INSUFFICIENT STORAGE"),
            Status::LoopDetected => String::from_str("LOOP DETECTED"),
            Status::NotExtended => String::from_str("NOT EXTENDED"),
            Status::NetworkAuthenticationRequired => String::from_str("NETWORK AUTHENTICATION REQUIRED"),
        }
    }
}

/// Reading a status back from its code gives the status.
pub proof fn lemma_status_code_roundtrip(s: Status)
    ensures
        status_of(status_code(s) as usize) == Some(s),
{
}

/// The name of what `str::to_lowercase` makes of `s`.
pub uninterp spec fn lowercase(s: Seq<char>) -> Seq<char>;

/// `str::to_lowercase`: the lowercase form of the text. Claimed: the result is `lowercase` of
/// the text, a function of the text alone.
#[verifier::external_body]
fn to_lowercase(s: &str) -> (r: String)
    ensures
        r@ == lowercase(s@),
{
    s.to_lowercase()
}

/// A character set.
#[derive(Clone, Eq, PartialEq, Debug)]
pub enum Charset {
    UsAscii,
    Utf8,
    Utf16,
    Utf16LE,
    Utf16BE,
    Utf32,
    Utf32LE,
    Utf32BE,
    Iso8859_1,
    Iso8859_2,
    Iso8859_3,
    Iso8859_4,
    Iso8859_5,
    Iso8859_6,
    Iso8859_7,
    Iso8859_8,
    Iso8859_9,
    Iso8859_10,
    Iso8859_11,
    Iso8859_13,
    Iso8859_14,
    Iso8859_15,
    Iso8859_16,
    Windows1251,
    Windows1252,
    Windows1253,
    Windows1254,
    Windows1255,
    Windows1256,
    Windows1257,
    Windows1258,
    Other(String),
}

/// The text of a value.
pub open spec fn charset_text(x: Charset) -> Seq<char> {
    match x {
        Charset::UsAscii => "US-ASCII"@,
        Charset::Utf8 => "UTF-8"@,
        Charset::Utf16 => "UTF-16"@,
        Charset::Utf16LE => "UTF-16LE"@,
        Charset::Utf16BE => "UTF-16BE"@,
        Charset::Utf32 => "UTF-32"@,
        Charset::Utf32LE => "UTF-32LE"@,
        Charset::Utf32BE => "UTF-32BE"@,
        Charset::Iso8859_1 => "ISO-8859-1"@,
        Charset::Iso8859_2 => "ISO-8859-2"@,
        Charset::Iso8859_3 => "ISO-8859-3"@,
        Charset::Iso8859_4 => "ISO-8859-4"@,
        Charset::Iso8859_5 => "ISO-8859-5"@,
        Charset::Iso8859_6 => "ISO-8859-6"@,
        Charset::Iso8859_7 => "ISO-8859-7"@,
        Charset::Iso8859_8 => "ISO-8859-8"@,
        Charset::Iso8859_9 => "ISO-8859-9"@,
        Charset::Iso8859_10 => "ISO-8859-10"@,
        Charset::Iso8859_11 => "ISO-8859-11"@,
        Charset::Iso8859_13 => "ISO-8859-13"@,
        Charset::Iso8859_14 => "ISO-8859-14"@,
        Charset::Iso8859_15 => "ISO-8859-15"@,
        Charset::Iso8859_16 => "ISO-8859-16"@,
        Charset::Windows1251 => "windows-1251"@,
        Charset::Windows1252 => "windows-1252"@,
        Charset::Windows1253 => "windows-1253"@,
        Charset::Windows1254 => "windows-1254"@,
        Charset::Windows1255 => "windows-1255"@,
        Charset::Windows1256 => "windows-1256"@,
        Charset::Windows1257 => "windows-1257"@,
        Charset::Windows1258 => "windows-1258"@,
        Charset::Other(v) => v@,
    }
}

/// The named value that the text `s` stands for, if any.
pub open spec fn charset_parse(s: Seq<char>) -> Option<Charset> {
    if s == "us-ascii"@ { Some(Charset::UsAscii) }
    else if s == "US-ASCII"@ { Some(Charset::UsAscii) }
    else if s == "utf-8"@ { Some(Charset::Utf8) }
    else if s == "UTF-8"@ { Some(Charset::Utf8) }
    else if s == "utf-16"@ { Some(Charset::Utf16) }
    else if s == "UTF-16"@ { Some(Charset::Utf16) }
    else if s == "utf-16le"@ { Some(Charset::Utf16LE) }
    else if s == "UTF-16LE"@ { Some(Charset::Utf16LE) }
    else if s == "utf-16be"@ { Some(Charset::Utf16BE) }
    else if s == "UTF-16BE"@ { Some(Charset::Utf16BE) }
    else if s == "utf-32"@ { Some(Charset::Utf32) }
    else if s == "UTF-32"@ { Some(Charset::Utf32) }
    else if s == "utf-32le"@ { Some(Charset::Utf32LE) }
    else if s == "UTF-32LE"@ { Some(Charset::Utf32LE) }
    else if s == "utf-32be"@ { Some(Charset::Utf32BE) }
    else if s == "UTF-32BE"@ { Some(Charset::Utf32BE) }
    else if s == "ISO-8859-1"@ { Some(Charset::Iso8859_1) }
    else if s == "ISO-8859-2"@ { Some(Charset::Iso8859_2) }
    else if s == "ISO-8859-3"@ { Some(Charset::Iso8859_3) }
    else if s == "ISO-8859-4"@ { Some(Charset::Iso8859_4) }
    else if s == "ISO-8859-5"@ { Some(Charset::Iso8859_5) }
    else if s == "ISO-8859-6"@ { Some(Charset::Iso8859_6) }
    else if s == "ISO-8859-7"@ { Some(Charset::Iso8859_7) }
    else if s == "ISO-8859-8"@ { Some(Charset::Iso8859_8) }
    else if s == "ISO-8859-9"@ { Some(Charset::Iso8859_9) }
    else if s == "ISO-8859-10"@ { Some(Charset::Iso8859_10) }
    else if s == "ISO-8859-11"@ { Some(Charset::Iso8859_11) }
    else if s == "ISO-8859-13"@ { Some(Charset::Iso8859_13) }
    else if s == "ISO-8859-14"@ { Some(Charset::Iso8859_14) }
    else if s == "ISO-8859-15"@ { Some(Charset::Iso8859_15) }
    else if s == "ISO-8859-16"@ { Some(Charset::Iso8859_16) }
    else if s == "windows-1251"@ { Some(Charset::Windows1251) }
    else if s == "windows-1252"@ { Some(Charset::Windows1252) }
    else if s == "windows-1253"@ { Some(Charset::Windows1253) }
    else if s == "windows-1254"@ { Some(Charset::Windows1254) }
    else if s == "windows-1255"@ { Some(Charset::Windows1255) }
    else if s == "windows-1256"@ { Some(Charset::Windows1256) }
    else if s == "windows-1257"@ { Some(Charset::Windows1257) }
    else if s == "windows-1258"@ { Some(Charset::Windows1258) }
    else { None }
}

impl Charset {
    /// Reads the value from its text; any other text is kept in lowercase.
    pub fn from_str(s: &str) -> (r: Result<Charset, ()>)
        ensures
            match charset_parse(s@) {
                Some(x) => r == Ok::<Charset, ()>(x),
                None => r matches Ok(Charset::Other(v)) && v@ == lowercase(s@),
            },
    {
        if str_eq(s, "us-ascii") {
            return Ok(Charset::UsAscii);
        }
        if str_eq(s, "US-ASCII") {
            return Ok(Charset::UsAscii);
        }
        if str_eq(s, "utf-8") {
            return Ok(Charset::Utf8);
        }
        if str_eq(s, "UTF-8") {
            return Ok(Charset::Utf8);
        }
        if str_eq(s, "utf-16") {
            return Ok(Charset::Utf16);
        }
        if str_eq(s, "UTF-16") {
            return Ok(Charset::Utf16);
        }
        if str_eq(s, "utf-16le") {
            return Ok(Charset::Utf16LE);
        }
        if str_eq(s, "UTF-16LE") {
            return Ok(Charset::Utf16LE);
        }
        if str_eq(s, "utf-16be") {
            return Ok(Charset::Utf16BE);
        }
        if str_eq(s, "UTF-16BE") {
            return Ok(Charset::Utf16BE);
        }
        if str_eq(s, "utf-32") {
            return Ok(Charset::Utf32);
        }
        if str_eq(s, "UTF-32") {
            return Ok(Charset::Utf32);
        }
        if str_eq(s, "utf-32le") {
            return Ok(Charset::Utf32LE);
        }
        if str_eq(s, "UTF-32LE") {
            return Ok(Charset::Utf32LE);
        }
        if str_eq(s, "utf-32be") {
            return Ok(Charset::Utf32BE);
        }
        if str_eq(s, "UTF-32BE") {
            return Ok(Charset::Utf32BE);
        }
        if str_eq(s, "ISO-8859-1") {
            return Ok(Charset::Iso8859_1);
        }
        if str_eq(s, "ISO-8859-2") {
            return Ok(Charset::Iso8859_2);
        }
        if str_eq(s, "ISO-8859-3") {
            return Ok(Charset::Iso8859_3);
        }
        if str_eq(s, "ISO-8859-4") {
            return Ok(Charset::Iso8859_4);
        }
        if str_eq(s, "ISO-8859-5") {
            return Ok(Charset::Iso8859_5);
        }
        if str_eq(s, "ISO-8859-6") {
            return Ok(Charset::Iso8859_6);
        }
        if str_eq(s, "ISO-8859-7") {
            return Ok(Charset::Iso8859_7);
        }
        if str_eq(s, "ISO-8859-8") {
            return Ok(Charset::Iso8859_8);
        }
        if str_eq(s, "ISO-8859-9") {
            return Ok(Charset::Iso8859_9);
        }
        if str_eq(s, "ISO-8859-10") {
            return Ok(Charset::Iso8859_10);
        }
        if str_eq(s, "ISO-8859-11") {
            return Ok(Charset::Iso8859_11);
        }
        if str_eq(s, "ISO-8859-13") {
            return Ok(Charset::Iso8859_13);
        }
        if str_eq(s, "ISO-8859-14") {
            return Ok(Charset::Iso8859_14);
        }
        if str_eq(s, "ISO-8859-15") {
            return Ok(Charset::Iso8859_15);
        }
        if str_eq(s, "ISO-8859-16") {
            return Ok(Charset::Iso8859_16);
        }
        if str_eq(s, "windows-1251") {
            return Ok(Charset::Windows1251);
        }
        if str_eq(s, "windows-1252") {
            return Ok(Charset::Windows1252);
        }
        if str_eq(s, "windows-1253") {
            return Ok(Charset::Windows1253);
        }
        if str_eq(s, "windows-1254") {
            return Ok(Charset::Windows1254);
        }
        if str_eq(s, "windows-1255") {
            return Ok(Charset::Windows1255);
        }
        if str_eq(s, "windows-1256") {
            return Ok(Charset::Windows1256);
        }
        if str_eq(s, "windows-1257") {
            return Ok(Charset::Windows1257);
        }
        if str_eq(s, "windows-1258") {
            return Ok(Charset::Windows1258);
        }
        Ok(Charset::Other(to_lowercase(s)))
    }

    /// The text of the value.
    pub fn to_string(&self) -> (r: String)
        ensures
            r@ == charset_text(*self),
    {
        match self {
            Charset::UsAscii => String::from_str("US-ASCII"),
            Charset::Utf8 => String::from_str("UTF-8"),
            Charset::Utf16 => String::from_str("UTF-16"),
            Charset::Utf16LE => String::from_str("UTF-16LE"),
            Charset::Utf16BE => String::from_str("UTF-16BE"),
            Charset::Utf32 => String::from_str("UTF-32"),
            Charset::Utf32LE => String::from_str("UTF-32LE"),
            Charset::Utf32BE => String::from_str("UTF-32BE"),
            Charset::Iso8859_1 => String::from_str("ISO-8859-1"),
            Charset::Iso8859_2 => String::from_str("ISO-8859-2"),
            Charset::Iso8859_3 => String::from_str("ISO-8859-3"),
            Charset::Iso8859_4 => String::from_str("ISO-8859-4"),
            Charset::Iso8859_5 => String::from_str("ISO-8859-5"),
            Charset::Iso8859_6 => String::from_str("ISO-8859-6"),
            Charset::Iso8859_7 => String::from_str("ISO-8859-7"),
            Charset::Iso8859_8 => String::from_str("ISO-8859-8"),
            Charset::Iso8859_9 => String::from_str("ISO-8859-9"),
            Charset::Iso8859_10 => String::from_str("ISO-8859-10"),
            Charset::Iso8859_11 => String::from_str("ISO-8859-11"),
            Charset::Iso8859_13 => String::from_str("ISO-8859-13"),
            Charset::Iso8859_14 => String::from_str("ISO-8859-14"),
            Charset::Iso8859_15 => String::from_str("ISO-8859-15"),
            Charset::Iso8859_16 => String::from_str("ISO-8859-16"),
            Charset::Windows1251 => String::from_str("windows-1251"),
            Charset::Windows1252 => String::from_str("windows-1252"),
            Charset::Windows1253 => String::from_str("windows-1253"),
            Charset::Windows1254 => String::from_str("windows-1254"),
            Charset::Windows1255 => String::from_str("windows-1255"),
            Charset::Windows1256 => String::from_str("windows-1256"),
            Charset::Windows1257 => String::from_str("windows-1257"),
            Charset::Windows1258 => String::from_str("windows-1258"),
            Charset::Other(v) => v.clone(),
        }
    }
}

/// Reading the text of a named value gives the value.
pub proof fn lemma_charset_text_roundtrip(x: Charset)
    requires
        !(x is Other),
    ensures
        charset_parse(charset_text(x)) == Some(x),
{
    reveal_strlit("ISO-8859-1");
    assert("ISO-8859-1"@.len() == 10 && "ISO-8859-1"@[0] == 'I' && "ISO-8859-1"@[1] == 'S' && "ISO-8859-1"@[2] == 'O' && "ISO-8859-1"@[3] == '-' && "ISO-8859-1"@[4] == '8' && "ISO-8859-1"@[5] == '8' && "ISO-8859-1"@[6] == '5' && "ISO-8859-1"@[7] == '9' && "ISO-8859-1"@[8] == '-' && "ISO-8859-1"@[9] == '1');
    reveal_strlit("ISO-8859-10");
    assert("ISO-8859-10"@.len() == 11 && "ISO-8859-10"@[0] == 'I' && "ISO-8859-10"@[1] == 'S' && "ISO-8859-10"@[2] == 'O' && "ISO-8859-10"@[3] == '-' && "ISO-8859-10"@[4] == '8' && "ISO-8859-10"@[5] == '8' && "ISO-8859-10"@[6] == '5' && "ISO-8859-10"@[7] == '9' && "ISO-8859-10"@[8] == '-' && "ISO-8859-10"@[9] == '1' && "ISO-8859-10"@[10] == '0');
    reveal_strlit("ISO-8859-11");
    assert("ISO-8859-11"@.len() == 11 && "ISO-8859-11"@[0] == 'I' && "ISO-8859-11"@[1] == 'S' && "ISO-8859-11"@[2] == 'O' && "ISO-8859-11"@[3] == '-' && "ISO-8859-11"@[4] == '8' && "ISO-8859-11"@[5] == '8' && "ISO-8859-11"@[6] == '5' && "ISO-8859-11"@[7] == '9' && "ISO-8859-11"@[8] == '-' && "ISO-8859-11"@[9] == '1' && "ISO-8859-11"@[10] == '1');
    reveal_strlit("ISO-8859-13");
    assert("ISO-8859-13"@.len() == 11 && "ISO-8859-13"@[0] == 'I' && "ISO-8859-13"@[1] == 'S' && "ISO-8859-13"@[2] == 'O' && "ISO-8859-13"@[3] == '-' && "ISO-8859-13"@[4] == '8' && "ISO-8859-13"@[5] == '8' && "ISO-8859-13"@[6] == '5' && "ISO-8859-13"@[7] == '9' && "ISO-8859-13"@[8] == '-' && "ISO-8859-13"@[9] == '1' && "ISO-8859-13"@[10] == '3');
    reveal_strlit("ISO-8859-14");
    assert("ISO-8859-14"@.len() == 11 && "ISO-8859-14"@[0] == 'I' && "ISO-8859-14"@[1] == 'S' && "ISO-8859-14"@[2] == 'O' && "ISO-8859-14"@[3] == '-' && "ISO-8859-14"@[4] == '8' && "ISO-8859-14"@[5] == '8' && "ISO-8859-14"@[6] == '5' && "ISO-8859-14"@[7] == '9' && "ISO-8859-14"@[8] == '-' && "ISO-8859-14"@[9] == '1' && "ISO-8859-14"@[10] == '4');
    reveal_strlit("ISO-8859-15");
    assert("ISO-8859-15"@.len() == 11 && "ISO-8859-15"@[0] == 'I' && "ISO-8859-15"@[1] == 'S' && "ISO-8859-15"@[2] == 'O' && "ISO-8859-15"@[3] == '-' && "ISO-8859-15"@[4] == '8' && "ISO-8859-15"@[5] == '8' && "ISO-8859-15"@[6] == '5' && "ISO-8859-15"@[7] == '9' && "ISO-8859-15"@[8] == '-' && "ISO-8859-15"@[9] == '1' && "ISO-8859-15"@[10] == '5');
    reveal_strlit("ISO-8859-16");
    assert("ISO-8859-16"@.len() == 11 && "ISO-8859-16"@[0] == 'I' && "ISO-8859-16"@[1] == 'S' && "ISO-8859-16"@[2] == 'O' && "ISO-8859-16"@[3] == '-' && "ISO-8859-16"@[4] == '8' && "ISO-8859-16"@[5] == '8' && "ISO-8859-16"@[6] == '5' && "ISO-8859-16"@[7] == '9' && "ISO-8859-16"@[8] == '-' && "ISO-8859-16"@[9] == '1' && "ISO-8859-16"@[10] == '6');
    reveal_strlit("ISO-8859-2");
    assert("ISO-8859-2"@.len() == 10 && "ISO-8859-2"@[0] == 'I' && "ISO-8859-2"@[1] == 'S' && "ISO-8859-2"@[2] == 'O' && "ISO-8859-2"@[3] == '-' && "ISO-8859-2"@[4] == '8' && "ISO-8859-2"@[5] == '8' && "ISO-8859-2"@[6] == '5' && "ISO-8859-2"@[7] == '9' && "ISO-8859-2"@[8] == '-' && "ISO-8859-2"@[9] == '2');
    reveal_strlit("ISO-8859-3");
    assert("ISO-8859-3"@.len() == 10 && "ISO-8859-3"@[0] == 'I' && "ISO-8859-3"@[1] == 'S' && "ISO-8859-3"@[2] == 'O' && "ISO-8859-3"@[3] == '-' && "ISO-8859-3"@[4] == '8' && "ISO-8859-3"@[5] == '8' && "ISO-8859-3"@[6] == '5' && "ISO-8859-3"@[7] == '9' && "ISO-8859-3"@[8] == '-' && "ISO-8859-3"@[9] == '3');
    reveal_strlit("ISO-8859-4");
    assert("ISO-8859-4"@.len() == 10 && "ISO-8859-4"@[0] == 'I' && "ISO-8859-4"@[1] == 'S' && "ISO-8859-4"@[2] == 'O' && "ISO-8859-4"@[3] == '-' && "ISO-8859-4"@[4] == '8' && "ISO-8859-4"@[5] == '8' && "ISO-8859-4"@[6] == '5' && "ISO-8859-4"@[7] == '9' && "ISO-8859-4"@[8] == '-' && "ISO-8859-4"@[9] == '4');
    reveal_strlit("ISO-8859-5");
    assert("ISO-8859-5"@.len() == 10 && "ISO-8859-5"@[0] == 'I' && "ISO-8859-5"@[1] == 'S' && "ISO-8859-5"@[2] == 'O' && "ISO-8859-5"@[3] == '-' && "ISO-8859-5"@[4] == '8' && "ISO-8859-5"@[5] == '8' && "ISO-8859-5"@[6] == '5' && "ISO-8859-5"@[7] == '9' && "ISO-8859-5"@[8] == '-' && "ISO-8859-5"@[9] == '5');
    reveal_strlit("ISO-8859-6");
    assert("ISO-8859-6"@.len() == 10 && "ISO-8859-6"@[0] == 'I' && "ISO-8859-6"@[1] == 'S' && "ISO-8859-6"@[2] == 'O' && "ISO-8859-6"@[3] == '-' && "ISO-8859-6"@[4] == '8' && "ISO-8859-6"@[5] == '8' && "ISO-8859-6"@[6] == '5' && "ISO-8859-6"@[7] == '9' && "ISO-8859-6"@[8] == '-' && "ISO-8859-6"@[9] == '6');
    reveal_strlit("ISO-8859-7");
    assert("ISO-8859-7"@.len() == 10 && "ISO-8859-7"@[0] == 'I' && "ISO-8859-7"@[1] == 'S' && "ISO-8859-7"@[2] == 'O' && "ISO-8859-7"@[3] == '-' && "ISO-8859-7"@[4] == '8' && "ISO-8859-7"@[5] == '8' && "ISO-8859-7"@[6] == '5' && "ISO-8859-7"@[7] == '9' && "ISO-8859-7"@[8] == '-' && "ISO-8859-7"@[9] == '7');
    reveal_strlit("ISO-8859-8");
    assert("ISO-8859-8"@.len() == 10 && "ISO-8859-8"@[0] == 'I' && "ISO-8859-8"@[1] == 'S' && "ISO-8859-8"@[2] == 'O' && "ISO-8859-8"@[3] == '-' && "ISO-8859-8"@[4] == '8' && "ISO-8859-8"@[5] == '8' && "ISO-8859-8"@[6] == '5' && "ISO-8859-8"@[7] == '9' && "ISO-8859-8"@[8] == '-' && "ISO-8859-8"@[9] == '8');
    reveal_strlit("ISO-8859-9");
    assert("ISO-8859-9"@.len() == 10 && "ISO-8859-9"@[0] == 'I' && "ISO-8859-9"@[1] == 'S' && "ISO-8859-9"@[2] == 'O' && "ISO-8859-9"@[3] == '-' && "ISO-8859-9"@[4] == '8' && "ISO-8859-9"@[5] == '8' && "ISO-8859-9"@[6] == '5' && "ISO-8859-9"@[7] == '9' && "ISO-8859-9"@[8] == '-' && "ISO-8859-9"@[9] == '9');
    reveal_strlit("US-ASCII");
    assert("US-ASCII"@.len() == 8 && "US-ASCII"@[0] == 'U' && "US-ASCII"@[1] == 'S' && "US-ASCII"@[2] == '-' && "US-ASCII"@[3] == 'A' && "US-ASCII"@[4] == 'S' && "US-ASCII"@[5] == 'C' && "US-ASCII"@[6] == 'I' && "US-ASCII"@[7] == 'I');
    reveal_strlit("UTF-16");
    assert("UTF-16"@.len() == 6 && "UTF-16"@[0] == 'U' && "UTF-16"@[1] == 'T' && "UTF-16"@[2] == 'F' && "UTF-16"@[3] == '-' && "UTF-16"@[4] == '1' && "UTF-16"@[5] == '6');
    reveal_strlit("UTF-16BE");
    assert("UTF-16BE"@.len() == 8 && "UTF-16BE"@[0] == 'U' && "UTF-16BE"@[1] == 'T' && "UTF-16BE"@[2] == 'F' && "UTF-16BE"@[3] == '-' && "UTF-16BE"@[4] == '1' && "UTF-16BE"@[5] == '6' && "UTF-16BE"@[6] == 'B' && "UTF-16BE"@[7] == 'E');
    reveal_strlit("UTF-16LE");
    assert("UTF-16LE"@.len() == 8 && "UTF-16LE"@[0] == 'U' && "UTF-16LE"@[1] == 'T' && "UTF-16LE"@[2] == 'F' && "UTF-16LE"@[3] == '-' && "UTF-16LE"@[4] == '1' && "UTF-16LE"@[5] == '6' && "UTF-16LE"@[6] == 'L' && "UTF-16LE"@[7] == 'E');
    reveal_strlit("UTF-32");
    assert("UTF-32"@.len() == 6 && "UTF-32"@[0] == 'U' && "UTF-32"@[1] == 'T' && "UTF-32"@[2] == 'F' && "UTF-32"@[3] == '-' && "UTF-32"@[4] == '3' && "UTF-32"@[5] == '2');
    reveal_strlit("UTF-32BE");
    assert("UTF-32BE"@.len() == 8 && "UTF-32BE"@[0] == 'U' && "UTF-32BE"@[1] == 'T' && "UTF-32BE"@[2] == 'F' && "UTF-32BE"@[3] == '-' && "UTF-32BE"@[4] == '3' && "UTF-32BE"@[5] == '2' && "UTF-32BE"@[6] == 'B' && "UTF-32BE"@[7] == 'E');
    reveal_strlit("UTF-32LE");
    assert("UTF-32LE"@.len() == 8 && "UTF-32LE"@[0] == 'U' && "UTF-32LE"@[1] == 'T' && "UTF-32LE"@[2] == 'F' && "UTF-32LE"@[3] == '-' && "UTF-32LE"@[4] == '3' && "UTF-32LE"@[5] == '2' && "UTF-32LE"@[6] == 'L' && "UTF-32LE"@[7] == 'E');
    reveal_strlit("UTF-8");
    assert("UTF-8"@.len() == 5 && "UTF-8"@[0] == 'U' && "UTF-8"@[1] == 'T' && "UTF-8"@[2] == 'F' && "UTF-8"@[3] == '-' && "UTF-8"@[4] == '8');
    reveal_strlit("us-ascii");
    assert("us-ascii"@.len() == 8 && "us-ascii"@[0] == 'u' && "us-ascii"@[1] == 's' && "us-ascii"@[2] == '-' && "us-ascii"@[3] == 'a' && "us-ascii"@[4] == 's' && "us-ascii"@[5] == 'c' && "us-ascii"@[6] == 'i' && "us-ascii"@[7] == 'i');
    reveal_strlit("utf-16");
    assert("utf-16"@.len() == 6 && "utf-16"@[0] == 'u' && "utf-16"@[1] == 't' && "utf-16"@[2] == 'f' && "utf-16"@[3] == '-' && "utf-16"@[4] == '1' && "utf-16"@[5] == '6');
    reveal_strlit("utf-16be");
    assert("utf-16be"@.len() == 8 && "utf-16be"@[0] == 'u' && "utf-16be"@[1] == 't' && "utf-16be"@[2] == 'f' && "utf-16be"@[3] == '-' && "utf-16be"@[4] == '1' && "utf-16be"@[5] == '6' && "utf-16be"@[6] == 'b' && "utf-16be"@[7] == 'e');
    reveal_strlit("utf-16le");
    assert("utf-16le"@.len() == 8 && "utf-16le"@[0] == 'u' && "utf-16le"@[1] == 't' && "utf-16le"@[2] == 'f' && "utf-16le"@[3] == '-' && "utf-16le"@[4] == '1' && "utf-16le"@[5] == '6' && "utf-16le"@[6] == 'l' && "utf-16le"@[7] == 'e');
    reveal_strlit("utf-32");
    assert("utf-32"@.len() == 6 && "utf-32"@[0] == 'u' && "utf-32"@[1] == 't' && "utf-32"@[2] == 'f' && "utf-32"@[3] == '-' && "utf-32"@[4] == '3' && "utf-32"@[5] == '2');
    reveal_strlit("utf-32be");
    assert("utf-32be"@.len() == 8 && "utf-32be"@[0] == 'u' && "utf-32be"@[1] == 't' && "utf-32be"@[2] == 'f' && "utf-32be"@[3] == '-' && "utf-32be"@[4] == '3' && "utf-32be"@[5] == '2' && "utf-32be"@[6] == 'b' && "utf-32be"@[7] == 'e');
    reveal_strlit("utf-32le");
    assert("utf-32le"@.len() == 8 && "utf-32le"@[0] == 'u' && "utf-32le"@[1] == 't' && "utf-32le"@[2] == 'f' && "utf-32le"@[3] == '-' && "utf-32le"@[4] == '3' && "utf-32le"@[5] == '2' && "utf-32le"@[6] == 'l' && "utf-32le"@[7] == 'e');
    reveal_strlit("utf-8");
    assert("utf-8"@.len() == 5 && "utf-8"@[0] == 'u' && "utf-8"@[1] == 't' && "utf-8"@[2] == 'f' && "utf-8"@[3] == '-' && "utf-8"@[4] == '8');
    reveal_strlit("windows-1251");
    assert("windows-1251"@.len() == 12 && "windows-1251"@[0] == 'w' && "windows-1251"@[1] == 'i' && "windows-1251"@[2] == 'n' && "windows-1251"@[3] == 'd' && "windows-1251"@[4] == 'o' && "windows-1251"@[5] == 'w' && "windows-1251"@[6] == 's' && "windows-1251"@[7] == '-' && "windows-1251"@[8] == '1' && "windows-1251"@[9] == '2' && "windows-1251"@[10] == '5' && "windows-1251"@[11] == '1');
    reveal_strlit("windows-1252");
    assert("windows-1252"@.len() == 12 && "windows-1252"@[0] == 'w' && "windows-1252"@[1] == 'i' && "windows-1252"@[2] == 'n' && "windows-1252"@[3] == 'd' && "windows-1252"@[4] == 'o' && "windows-1252"@[5] == 'w' && "windows-1252"@[6] == 's' && "windows-1252"@[7] == '-' && "windows-1252"@[8] == '1' && "windows-1252"@[9] == '2' && "windows-1252"@[10] == '5' && "windows-1252"@[11] == '2');
    reveal_strlit("windows-1253");
    assert("windows-1253"@.len() == 12 && "windows-1253"@[0] == 'w' && "windows-1253"@[1] == 'i' && "windows-1253"@[2] == 'n' && "windows-1253"@[3] == 'd' && "windows-1253"@[4] == 'o' && "windows-1253"@[5] == 'w' && "windows-1253"@[6] == 's' && "windows-1253"@[7] == '-' && "windows-1253"@[8] == '1' && "windows-1253"@[9] == '2' && "windows-1253"@[10] == '5' && "windows-1253"@[11] == '3');
    reveal_strlit("windows-1254");
    assert("windows-1254"@.len() == 12 && "windows-1254"@[0] == 'w' && "windows-1254"@[1] == 'i' && "windows-1254"@[2] == 'n' && "windows-1254"@[3] == 'd' && "windows-1254"@[4] == 'o' && "windows-1254"@[5] == 'w' && "windows-1254"@[6] == 's' && "windows-1254"@[7] == '-' && "windows-1254"@[8] == '1' && "windows-1254"@[9] == '2' && "windows-1254"@[10] == '5' && "windows-1254"@[11] == '4');
    reveal_strlit("windows-1255");
    assert("windows-1255"@.len() == 12 && "windows-1255"@[0] == 'w' && "windows-1255"@[1] == 'i' && "windows-1255"@[2] == 'n' && "windows-1255"@[3] == 'd' && "windows-1255"@[4] == 'o' && "windows-1255"@[5] == 'w' && "windows-1255"@[6] == 's' && "windows-1255"@[7] == '-' && "windows-1255"@[8] == '1' && "windows-1255"@[9] == '2' && "windows-1255"@[10] == '5' && "windows-1255"@[11] == '5');
    reveal_strlit("windows-1256");
    assert("windows-1256"@.len() == 12 && "windows-1256"@[0] == 'w' && "windows-1256"@[1] == 'i' && "windows-1256"@[2] == 'n' && "windows-1256"@[3] == 'd' && "windows-1256"@[4] == 'o' && "windows-1256"@[5] == 'w' && "windows-1256"@[6] == 's' && "windows-1256"@[7] == '-' && "windows-1256"@[8] == '1' && "windows-1256"@[9] == '2' && "windows-1256"@[10] == '5' && "windows-1256"@[11] == '6');
    reveal_strlit("windows-1257");
    assert("windows-1257"@.len() == 12 && "windows-1257"@[0] == 'w' && "windows-1257"@[1] == 'i' && "windows-1257"@[2] == 'n' && "windows-1257"@[3] == 'd' && "windows-1257"@[4] == 'o' && "windows-1257"@[5] == 'w' && "windows-1257"@[6] == 's' && "windows-1257"@[7] == '-' && "windows-1257"@[8] == '1' && "windows-1257"@[9] == '2' && "windows-1257"@[10] == '5' && "windows-1257"@[11] == '7');
    reveal_strlit("windows-1258");
    assert("windows-1258"@.len() == 12 && "windows-1258"@[0] == 'w' && "windows-1258"@[1] == 'i' && "windows-1258"@[2] == 'n' && "windows-1258"@[3] == 'd' && "windows-1258"@[4] == 'o' && "windows-1258"@[5] == 'w' && "windows-1258"@[6] == 's' && "windows-1258"@[7] == '-' && "windows-1258"@[8] == '1' && "windows-1258"@[9] == '2' && "windows-1258"@[10] == '5' && "windows-1258"@[11] == '8');
}

/// The `SameSite` attribute of a cookie.
#[derive(Copy, Clone, Eq, PartialEq, Debug)]
pub enum SameSite {
    Strict,
    Lax,
    NONE,
}

/// A directive of `Cache-Control`.
#[derive(Copy, Clone, Eq, PartialEq, Debug)]
pub enum CacheControl {
    MaxAge(u32),
    MaxStale(u32),
    MinFresh(u32),
    NoCache,
    NoStore,
    NoTransform,
    OnlyIfCached,
    MustRevalidate,
    Public,
    Private,
    ProxyRevalidate,
    SMaxage(u32),
    Immutable,
    StaleWhileRevalidate(u32),
    StaleIfError(u32),
}

/// The value that `str::parse::<u32>` reads from `s`.
pub open spec fn u32_text(s: Seq<char>) -> Option<u32> {
    match usize_text(s) {
        Some(v) => if v <= u32::MAX { Some(v as u32) } else { None },
        None => None,
    }
}

fn parse_u32(s: &str) -> (r: Option<u32>)
    ensures
        r == u32_text(s@),
{
    match parse_usize(s) {
        Some(v) => if v <= 0xffff_ffff { Some(v as u32) } else { None },
        None => None,
    }
}

/// The text of a directive as it is written. `Immutable` is written `nimmutable`, and the
/// value of `StaleWhileRevalidate` is not written.
pub open spec fn cache_control_text(c: CacheControl) -> Seq<char> {
    match c {
        CacheControl::MaxAge(v) => "max-age="@ + decimal(v as nat),
        CacheControl::MaxStale(v) => "max-stale="@ + decimal(v as nat),
        CacheControl::MinFresh(v) => "min-fresh="@ + decimal(v as nat),
        CacheControl::NoCache => "no-cache"@,
        CacheControl::NoStore => "no-store"@,
        CacheControl::NoTransform => "no-transform"@,
        CacheControl::OnlyIfCached => "only-if-cached"@,
        CacheControl::MustRevalidate => "must-revalidate"@,
        CacheControl::Public => "public"@,
        CacheControl::Private => "private"@,
        CacheControl::ProxyRevalidate => "proxy-revalidate"@,
        CacheControl::SMaxage(v) => "s-maxage="@ + decimal(v as nat),
        CacheControl::Immutable => "nimmutable"@,
        CacheControl::StaleWhileRevalidate(_) => "stale-while-revalidate"@,
        CacheControl::StaleIfError(v) => "stale-if-error="@ + decimal(v as nat),
    }
}

/// Reading a directive: the name up to the first `=`, and for the directives with a value,
/// the number after it.
pub open spec fn cache_control_parse(s: Seq<char>) -> Option<CacheControl> {
    let i = index_of_from(s, '=', 0);
    let key = if i < 0 { s } else { s.take(i) };
    let val = if i < 0 { None } else { u32_text(s.skip(i + 1)) };
    if key == "max-age"@ { match val { Some(v) => Some(CacheControl::MaxAge(v)), None => None } }
    else if key == "max-stale"@ { match val { Some(v) => Some(CacheControl::MaxStale(v)), None => None } }
    else if key == "min-fresh"@ { match val { Some(v) => Some(CacheControl::MinFresh(v)), None => None } }
    else if key == "no-cache"@ { Some(CacheControl::NoCache) }
    else if key == "no-store"@ { Some(CacheControl::NoStore) }
    else if key == "no-transform"@ { Some(CacheControl::NoTransform) }
    else if key == "only-if-cached"@ { Some(CacheControl::OnlyIfCached) }
    else if key == "must-revalidate"@ { Some(CacheControl::MustRevalidate) }
    else if key == "public"@ { Some(CacheControl::Public) }
    else if key == "private"@ { Some(CacheControl::Private) }
    else if key == "proxy-revalidate"@ { Some(CacheControl::ProxyRevalidate) }
    else if key == "s-maxage"@ { match val { Some(v) => Some(CacheControl::SMaxage(v)), None => None } }
    else if key == "immutable"@ { Some(CacheControl::Immutable) }
    else if key == "stale-while-revalidate"@ { match val { Some(v) => Some(CacheControl::StaleWhileRevalidate(v)), None => None } }
    else if key == "stale-if-error"@ { match val { Some(v) => Some(CacheControl::StaleIfError(v)), None => None } }
    else { None }
}

fn with_number(prefix: &str, v: u32) -> (r: String)
    ensures
        r@ == prefix@ + decimal(v as nat),
{
    let mut s = String::from_str(prefix);
    push_decimal(&mut s, v as u64);
    s
}

impl CacheControl {
    /// Reads a directive: the name up to the first `=`, and for the directives with a value,
    /// the number after it.
    pub fn from_str(s: &str) -> (r: Result<CacheControl, ()>)
        ensures
            match cache_control_parse(s@) {
                Some(c) => r == Ok::<CacheControl, ()>(c),
                None => r == Err::<CacheControl, ()>(()),
            },
    {
        let n = s.unicode_len();
        let mut i: usize = 0;
        while i < n && s.get_char(i) != '='
            invariant
                n == s@.len(),
                i <= n,
                forall|m: int| 0 <= m < i ==> s@[m] != '=',
            decreases n - i,
        {
            i += 1;
        }
        proof {
            lemma_index_of_from(s@, '=', 0, i as int);
        }
        let key = s.substring_char(0, i);
        let val = if i < n {
            let t = s.substring_char(i + 1, n);
            proof {
                assert(t@ =~= s@.skip(i + 1));
            }
            parse_u32(t)
        } else {
            None
        };
        proof {
            if i < n {
                assert(key@ =~= s@.take(i as int));
            } else {
                assert(key@ =~= s@);
            }
        }
        if str_eq(key, "max-age") {
            match val { Some(v) => Ok(CacheControl::MaxAge(v)), None => Err(()) }
        } else if str_eq(key, "max-stale") {
            match val { Some(v) => Ok(CacheControl::MaxStale(v)), None => Err(()) }
        } else if str_eq(key, "min-fresh") {
            match val { Some(v) => Ok(CacheControl::MinFresh(v)), None => Err(()) }
        } else if str_eq(key, "no-cache") {
            Ok(CacheControl::NoCache)
        } else if str_eq(key, "no-store") {
            Ok(CacheControl::NoStore)
        } else if str_eq(key, "no-transform") {
            Ok(CacheControl::NoTransform)
        } else if str_eq(key, "only-if-cached") {
            Ok(CacheControl::OnlyIfCached)
        } else if str_eq(key, "must-revalidate") {
            Ok(CacheControl::MustRevalidate)
        } else if str_eq(key, "public") {
            Ok(CacheControl::Public)
        } else if str_eq(key, "private") {
            Ok(CacheControl::Private)
        } else if str_eq(key, "proxy-revalidate") {
            Ok(CacheControl::ProxyRevalidate)
        } else if str_eq(key, "s-maxage") {
            match val { Some(v) => Ok(CacheControl::SMaxage(v)), None => Err(()) }
        } else if str_eq(key, "immutable") {
            Ok(CacheControl::Immutable)
        } else if str_eq(key, "stale-while-revalidate") {
            match val { Some(v) => Ok(CacheControl::StaleWhileRevalidate(v)), None => Err(()) }
        } else if str_eq(key, "stale-if-error") {
            match val { Some(v) => Ok(CacheControl::StaleIfError(v)), None => Err(()) }
        } else {
            Err(())
        }
    }

    /// The text of the directive. `Immutable` is written `nimmutable`, and the value of
    /// `StaleWhileRevalidate` is not written.
    pub fn to_string(&self) -> (r: String)
        ensures
            r@ == cache_control_text(*self),
    {
        match *self {
            CacheControl::MaxAge(v) => with_number("max-age=", v),
            CacheControl::MaxStale(v) => with_number("max-stale=", v),
            CacheControl::MinFresh(v) => with_number("min-fresh=", v),
            CacheControl::NoCache => String::from_str("no-cache"),
            CacheControl::NoStore => String::from_str("no-store"),
            CacheControl::NoTransform => String::from_str("no-transform"),
            CacheControl::OnlyIfCached => String::from_str("only-if-cached"),
            CacheControl::MustRevalidate => String::from_str("must-revalidate"),
            CacheControl::Public => String::from_str("public"),
            CacheControl::Private => String::from_str("private"),
            CacheControl::ProxyRevalidate => String::from_str("proxy-revalidate"),
            CacheControl::SMaxage(v) => with_number("s-maxage=", v),
            CacheControl::Immutable => String::from_str("nimmutable"),
            CacheControl::StaleWhileRevalidate(_) => String::from_str("stale-while-revalidate"),
            CacheControl::StaleIfError(v) => with_number("stale-if-error=", v),
        }
    }
}

/// Reading the text of a directive gives the directive, but for `Immutable` and
/// `StaleWhileRevalidate`, whose text is not read back as themselves.
pub proof fn lemma_cache_control_roundtrip(c: CacheControl)
    requires
        c != CacheControl::Immutable,
        !(c is StaleWhileRevalidate),
    ensures
        cache_control_parse(cache_control_text(c)) == Some(c),
{
    reveal_strlit("max-age");
    assert("max-age"@.len() == 7 && "max-age"@[0] == 'm' && "max-age"@[1] == 'a' && "max-age"@[2] == 'x' && "max-age"@[3] == '-' && "max-age"@[4] == 'a' && "max-age"@[5] == 'g' && "max-age"@[6] == 'e');
    reveal_strlit("max-stale");
    assert("max-stale"@.len() == 9 && "max-stale"@[0] == 'm' && "max-stale"@[1] == 'a' && "max-stale"@[2] == 'x' && "max-stale"@[3] == '-' && "max-stale"@[4] == 's' && "max-stale"@[5] == 't' && "max-stale"@[6] == 'a' && "max-stale"@[7] == 'l' && "max-stale"@[8] == 'e');
    reveal_strlit("min-fresh");
    assert("min-fresh"@.len() == 9 && "min-fresh"@[0] == 'm' && "min-fresh"@[1] == 'i' && "min-fresh"@[2] == 'n' && "min-fresh"@[3] == '-' && "min-fresh"@[4] == 'f' && "min-fresh"@[5] == 'r' && "min-fresh"@[6] == 'e' && "min-fresh"@[7] == 's' && "min-fresh"@[8] == 'h');
    reveal_strlit("no-cache");
    assert("no-cache"@.len() == 8 && "no-cache"@[0] == 'n' && "no-cache"@[1] == 'o' && "no-cache"@[2] == '-' && "no-cache"@[3] == 'c' && "no-cache"@[4] == 'a' && "no-cache"@[5] == 'c' && "no-cache"@[6] == 'h' && "no-cache"@[7] == 'e');
    reveal_strlit("no-store");
    assert("no-store"@.len() == 8 && "no-store"@[0] == 'n' && "no-store"@[1] == 'o' && "no-store"@[2] == '-' && "no-store"@[3] == 's' && "no-store"@[4] == 't' && "no-store"@[5] == 'o' && "no-store"@[6] == 'r' && "no-store"@[7] == 'e');
    reveal_strlit("no-transform");
    assert("no-transform"@.len() == 12 && "no-transform"@[0] == 'n' && "no-transform"@[1] == 'o' && "no-transform"@[2] == '-' && "no-transform"@[3] == 't' && "no-transform"@[4] == 'r' && "no-transform"@[5] == 'a' && "no-transform"@[6] == 'n' && "no-transform"@[7] == 's' && "no-transform"@[8] == 'f' && "no-transform"@[9] == 'o' && "no-transform"@[10] == 'r' && "no-transform"@[11] == 'm');
    reveal_strlit("only-if-cached");
    assert("only-if-cached"@.len() == 14 && "only-if-cached"@[0] == 'o' && "only-if-cached"@[1] == 'n' && "only-if-cached"@[2] == 'l' && "only-if-cached"@[3] == 'y' && "only-if-cached"@[4] == '-' && "only-if-cached"@[5] == 'i' && "only-if-cached"@[6] == 'f' && "only-if-cached"@[7] == '-' && "only-if-cached"@[8] == 'c' && "only-if-cached"@[9] == 'a' && "only-if-cached"@[10] == 'c' && "only-if-cached"@[11] == 'h' && "only-if-cached"@[12] == 'e' && "only-if-cached"@[13] == 'd');
    reveal_strlit("must-revalidate");
    assert("must-revalidate"@.len() == 15 && "must-revalidate"@[0] == 'm' && "must-revalidate"@[1] == 'u' && "must-revalidate"@[2] == 's' && "must-revalidate"@[3] == 't' && "must-revalidate"@[4] == '-' && "must-revalidate"@[5] == 'r' && "must-revalidate"@[6] == 'e' && "must-revalidate"@[7] == 'v' && "must-revalidate"@[8] == 'a' && "must-revalidate"@[9] == 'l' && "must-revalidate"@[10] == 'i' && "must-revalidate"@[11] == 'd' && "must-revalidate"@[12] == 'a' && "must-revalidate"@[13] == 't' && "must-revalidate"@[14] == 'e');
    reveal_strlit("public");
    assert("public"@.len() == 6 && "public"@[0] == 'p' && "public"@[1] == 'u' && "public"@[2] == 'b' && "public"@[3] == 'l' && "public"@[4] == 'i' && "public"@[5] == 'c');
    reveal_strlit("private");
    assert("private"@.len() == 7 && "private"@[0] == 'p' && "private"@[1] == 'r' && "private"@[2] == 'i' && "private"@[3] == 'v' && "private"@[4] == 'a' && "private"@[5] == 't' && "private"@[6] == 'e');
    reveal_strlit("proxy-revalidate");
    assert("proxy-revalidate"@.len() == 16 && "proxy-revalidate"@[0] == 'p' && "proxy-revalidate"@[1] == 'r' && "proxy-revalidate"@[2] == 'o' && "proxy-revalidate"@[3] == 'x' && "proxy-revalidate"@[4] == 'y' && "proxy-revalidate"@[5] == '-' && "proxy-revalidate"@[6] == 'r' && "proxy-revalidate"@[7] == 'e' && "proxy-revalidate"@[8] == 'v' && "proxy-revalidate"@[9] == 'a' && "proxy-revalidate"@[10] == 'l' && "proxy-revalidate"@[11] == 'i' && "proxy-revalidate"@[12] == 'd' && "proxy-revalidate"@[13] == 'a' && "proxy-revalidate"@[14] == 't' && "proxy-revalidate"@[15] == 'e');
    reveal_strlit("s-maxage");
    assert("s-maxage"@.len() == 8 && "s-maxage"@[0] == 's' && "s-maxage"@[1] == '-' && "s-maxage"@[2] == 'm' && "s-maxage"@[3] == 'a' && "s-maxage"@[4] == 'x' && "s-maxage"@[5] == 'a' && "s-maxage"@[6] == 'g' && "s-maxage"@[7] == 'e');
    reveal_strlit("immutable");
    assert("immutable"@.len() == 9 && "immutable"@[0] == 'i' && "immutable"@[1] == 'm' && "immutable"@[2] == 'm' && "immutable"@[3] == 'u' && "immutable"@[4] == 't' && "immutable"@[5] == 'a' && "immutable"@[6] == 'b' && "immutable"@[7] == 'l' && "immutable"@[8] == 'e');
    reveal_strlit("stale-while-revalidate");
    assert("stale-while-revalidate"@.len() == 22 && "stale-while-revalidate"@[0] == 's' && "stale-while-revalidate"@[1] == 't' && "stale-while-revalidate"@[2] == 'a' && "stale-while-revalidate"@[3] == 'l' && "stale-while-revalidate"@[4] == 'e' && "stale-while-revalidate"@[5] == '-' && "stale-while-revalidate"@[6] == 'w' && "stale-while-revalidate"@[7] == 'h' && "stale-while-revalidate"@[8] == 'i' && "stale-while-revalidate"@[9] == 'l' && "stale-while-revalidate"@[10] == 'e' && "stale-while-revalidate"@[11] == '-' && "stale-while-revalidate"@[12] == 'r' && "stale-while-revalidate"@[13] == 'e' && "stale-while-revalidate"@[14] == 'v' && "stale-while-revalidate"@[15] == 'a' && "stale-while-revalidate"@[16] == 'l' && "stale-while-revalidate"@[17] == 'i' && "stale-while-revalidate"@[18] == 'd' && "stale-while-revalidate"@[19] == 'a' && "stale-while-revalidate"@[20] == 't' && "stale-while-revalidate"@[21] == 'e');
    reveal_strlit("stale-if-error");
    assert("stale-if-error"@.len() == 14 && "stale-if-error"@[0] == 's' && "stale-if-error"@[1] == 't' && "stale-if-error"@[2] == 'a' && "stale-if-error"@[3] == 'l' && "stale-if-error"@[4] == 'e' && "stale-if-error"@[5] == '-' && "stale-if-error"@[6] == 'i' && "stale-if-error"@[7] == 'f' && "stale-if-error"@[8] == '-' && "stale-if-error"@[9] == 'e' && "stale-if-error"@[10] == 'r' && "stale-if-error"@[11] == 'r' && "stale-if-error"@[12] == 'o' && "stale-if-error"@[13] == 'r');
    reveal_strlit("max-age=");
    assert("max-age="@.len() == 8 && "max-age="@[0] == 'm' && "max-age="@[1] == 'a' && "max-age="@[2] == 'x' && "max-age="@[3] == '-' && "max-age="@[4] == 'a' && "max-age="@[5] == 'g' && "max-age="@[6] == 'e' && "max-age="@[7] == '=');
    reveal_strlit("max-stale=");
    assert("max-stale="@.len() == 10 && "max-stale="@[0] == 'm' && "max-stale="@[1] == 'a' && "max-stale="@[2] == 'x' && "max-stale="@[3] == '-' && "max-stale="@[4] == 's' && "max-stale="@[5] == 't' && "max-stale="@[6] == 'a' && "max-stale="@[7] == 'l' && "max-stale="@[8] == 'e' && "max-stale="@[9] == '=');
    reveal_strlit("min-fresh=");
    assert("min-fresh="@.len() == 10 && "min-fresh="@[0] == 'm' && "min-fresh="@[1] == 'i' && "min-fresh="@[2] == 'n' && "min-fresh="@[3] == '-' && "min-fresh="@[4] == 'f' && "min-fresh="@[5] == 'r' && "min-fresh="@[6] == 'e' && "min-fresh="@[7] == 's' && "min-fresh="@[8] == 'h' && "min-fresh="@[9] == '=');
    reveal_strlit("s-maxage=");
    assert("s-maxage="@.len() == 9 && "s-maxage="@[0] == 's' && "s-maxage="@[1] == '-' && "s-maxage="@[2] == 'm' && "s-maxage="@[3] == 'a' && "s-maxage="@[4] == 'x' && "s-maxage="@[5] == 'a' && "s-maxage="@[6] == 'g' && "s-maxage="@[7] == 'e' && "s-maxage="@[8] == '=');
    reveal_strlit("stale-if-error=");
    assert("stale-if-error="@.len() == 15 && "stale-if-error="@[0] == 's' && "stale-if-error="@[1] == 't' && "stale-if-error="@[2] == 'a' && "stale-if-error="@[3] == 'l' && "stale-if-error="@[4] == 'e' && "stale-if-error="@[5] == '-' && "stale-if-error="@[6] == 'i' && "stale-if-error="@[7] == 'f' && "stale-if-error="@[8] == '-' && "stale-if-error="@[9] == 'e' && "stale-if-error="@[10] == 'r' && "stale-if-error="@[11] == 'r' && "stale-if-error="@[12] == 'o' && "stale-if-error="@[13] == 'r' && "stale-if-error="@[14] == '=');
    let t = cache_control_text(c);
    match c {
        CacheControl::MaxAge(x) => {
            lemma_usize_text_decimal(x as usize);
            lemma_index_of_from(t, '=', 0, 7);
            assert(t.take(7) =~= "max-age"@);
            assert(t.skip(8) =~= decimal(x as nat));
        }
        CacheControl::MaxStale(x) => {
            lemma_usize_text_decimal(x as usize);
            lemma_index_of_from(t, '=', 0, 9);
            assert(t.take(9) =~= "max-stale"@);
            assert(t.skip(10) =~= decimal(x as nat));
        }
        CacheControl::MinFresh(x) => {
            lemma_usize_text_decimal(x as usize);
            lemma_index_of_from(t, '=', 0, 9);
            assert(t.take(9) =~= "min-fresh"@);
            assert(t.skip(10) =~= decimal(x as nat));
        }
        CacheControl::SMaxage(x) => {
            lemma_usize_text_decimal(x as usize);
            lemma_index_of_from(t, '=', 0, 8);
            assert(t.take(8) =~= "s-maxage"@);
            assert(t.skip(9) =~= decimal(x as nat));
        }
        CacheControl::StaleIfError(x) => {
            lemma_usize_text_decimal(x as usize);
            lemma_index_of_from(t, '=', 0, 14);
            assert(t.take(14) =~= "stale-if-error"@);
            assert(t.skip(15) =~= decimal(x as nat));
        }
        CacheControl::NoCache => {
            lemma_index_of_from(t, '=', 0, t.len() as int);
        }
        CacheControl::NoStore => {
            lemma_index_of_from(t, '=', 0, t.len() as int);
        }
        CacheControl::NoTransform => {
            lemma_index_of_from(t, '=', 0, t.len() as int);
        }
        CacheControl::OnlyIfCached => {
            lemma_index_of_from(t, '=', 0, t.len() as int);
        }
        CacheControl::MustRevalidate => {
            lemma_index_of_from(t, '=', 0, t.len() as int);
        }
        CacheControl::Public => {
            lemma_index_of_from(t, '=', 0, t.len() as int);
        }
        CacheControl::Private => {
            lemma_index_of_from(t, '=', 0, t.len() as int);
        }
        CacheControl::ProxyRevalidate => {
            lemma_index_of_from(t, '=', 0, t.len() as int);
        }
        _ => {}
    }
}

/// An entity tag: weak or not, and its value.
#[derive(Clone, Eq, PartialEq, Debug)]
pub struct ETag {
    pub weak_validator: bool,
    pub value: String,
}

/// The text of an entity tag: `W/` for a weak one, then the value in double quotes.
pub open spec fn etag_text(weak: bool, value: Seq<char>) -> Seq<char> {
    (if weak { "W/"@ } else { Seq::<char>::empty() }) + seq!['"'] + value + seq!['"']
}

/// Whether reading an entity tag from `s` is defined: the text has no double quote, or more
/// than one.
pub open spec fn etag_readable(s: Seq<char>) -> bool {
    index_of_from(s, '"', 0) < 0 || index_of_from(s, '"', 0) < last_index_before(s, '"', s.len() as int)
}

/// Reading an entity tag: weak when the text starts with `W/`, and the value between the first
/// and the last double quote; nothing when there is no double quote.
pub open spec fn etag_parse(s: Seq<char>) -> Option<(bool, Seq<char>)> {
    let f = index_of_from(s, '"', 0);
    let l = last_index_before(s, '"', s.len() as int);
    if f < 0 {
        None
    } else {
        Some((s.len() >= 2 && s[0] == 'W' && s[1] == '/', s.subrange(f + 1, l)))
    }
}

impl ETag {
    /// Reads an entity tag: weak when the text starts with `W/`; the value is what lies
    /// between the first and the last double quote.
    pub fn from_str(s: &str) -> (r: Result<ETag, ()>)
        requires
            etag_readable(s@),
        ensures
            match etag_parse(s@) {
                None => r == Err::<ETag, ()>(()),
                Some((weak, value)) => r matches Ok(e) && e.weak_validator == weak && e.value@ == value,
            },
    {
        let n = s.unicode_len();
        let weak = n >= 2 && s.get_char(0) == 'W' && s.get_char(1) == '/';
        let mut f: usize = 0;
        while f < n && s.get_char(f) != '"'
            invariant
                n == s@.len(),
                f <= n,
                forall|m: int| 0 <= m < f ==> s@[m] != '"',
            decreases n - f,
        {
            f += 1;
        }
        proof {
            lemma_index_of_from(s@, '"', 0, f as int);
        }
        if f == n {
            return Err(());
        }
        let mut l: usize = n;
        while l > 0 && s.get_char(l - 1) != '"'
            invariant
                n == s@.len(),
                l <= n,
                last_index_before(s@, '"', n as int) == last_index_before(s@, '"', l as int),
            decreases l,
        {
            l -= 1;
        }
        proof {
            assert(s@[f as int] == '"');
        }
        let value = s.substring_char(f + 1, l - 1);
        Ok(ETag { weak_validator: weak, value: String::from_str(value) })
    }

    /// The text of the entity tag: `W/` for a weak one, then the value in double quotes.
    pub fn to_string(&self) -> (r: String)
        ensures
            r@ == etag_text(self.weak_validator, self.value@),
    {
        let mut s = if self.weak_validator { String::from_str("W/") } else { String::new() };
        s.append("\"");
        s.append(self.value.as_str());
        s.append("\"");
        proof {
            reveal_strlit("\"");
            assert("\""@ =~= seq!['"']);
        }
        s
    }
}

proof fn lemma_last_index_before(s: Seq<char>, c: char, i: int, j: int)
    requires
        0 <= i <= j <= s.len(),
        forall|m: int| i <= m < j ==> s[m] != c,
    ensures
        last_index_before(s, c, j) == last_index_before(s, c, i),
    decreases j - i,
{
    if i < j {
        lemma_last_index_before(s, c, i, j - 1);
    }
}

/// Writing an entity tag whose value has no double quote and reading it back gives the tag.
pub proof fn lemma_etag_roundtrip(weak: bool, value: Seq<char>)
    requires
        forall|i: int| 0 <= i < value.len() ==> value[i] != '"',
    ensures
        etag_readable(etag_text(weak, value)),
        etag_parse(etag_text(weak, value)) == Some((weak, value)),
{
    reveal_strlit("W/");
    assert("W/"@.len() == 2 && "W/"@[0] == 'W' && "W/"@[1] == '/');
    let p = if weak { "W/"@ } else { Seq::<char>::empty() };
    let t = etag_text(weak, value);
    let f = p.len() as int;
    let l = t.len() - 1;
    assert(t =~= p + seq!['"'] + value + seq!['"']);
    assert(t[f] == '"');
    assert(t[l] == '"');
    assert forall|m: int| f + 1 <= m < l implies t[m] != '"' by {
        assert(t[m] == value[m - f - 1]);
    }
    lemma_index_of_from(t, '"', 0, f);
    lemma_last_index_before(t, '"', f + 1, l);
    assert(last_index_before(t, '"', l + 1) == l);
    assert(t.subrange(f + 1, l) =~= value);
}

/// The `Keep-Alive` parameters.
#[derive(Copy, Clone, Eq, PartialEq, Debug)]
pub struct KeepAlive {
    pub timeout: usize,
    pub max: usize,
}

impl KeepAlive {
    /// The text of the parameters: `timeout=`, the timeout, `, max=` and the maximum.
    pub fn to_string(&self) -> (r: String)
        ensures
            r@ == "timeout="@ + decimal(self.timeout as nat) + ", max="@ + decimal(self.max as nat),
    {
        let mut s = String::from_str("timeout=");
        push_decimal(&mut s, self.timeout as u64);
        s.append(", max=");
        push_decimal(&mut s, self.max as u64);
        s
    }
}

/// Credentials with their scheme.
#[derive(Clone, Eq, PartialEq, Debug)]
pub struct Authorization {
    pub auth_type: AuthorizationType,
    pub credentials: String,
}

/// Whether `x` is the scheme that reading the text `t` gives: the named scheme, or any other
/// text kept as it is.
pub open spec fn authorization_type_read(x: AuthorizationType, t: Seq<char>) -> bool {
    match authorization_type_parse(t) {
        Some(y) => x == y,
        None => x matches AuthorizationType::Other(v) && v@ == t,
    }
}

impl Authorization {
    /// Reads credentials: the first word of the text is the scheme, the second the
    /// credentials; words are separated by ASCII whitespace and any further words are ignored.
    /// Fails when the text has fewer than two words.
    pub fn from_str(s: &str) -> (r: Result<Authorization, ()>)
        ensures
            words(s@).len() < 2 ==> r is Err,
            words(s@).len() >= 2 ==> (r matches Ok(a)
                && authorization_type_read(a.auth_type, words(s@)[0])
                && a.credentials@ == words(s@)[1]),
    {
        let w = split_ascii_whitespace(s);
        if w.len() < 2 {
            return Err(());
        }
        proof {
            assert(w@[0]@ == words(s@)[0]);
            assert(w@[1]@ == words(s@)[1]);
        }
        let auth_type = match AuthorizationType::from_str(w[0]) {
            Ok(x) => x,
            Err(e) => return Err(e),
        };
        Ok(Authorization { auth_type, credentials: String::from_str(w[1]) })
    }

    /// The text of the credentials: the scheme, a space and the credentials.
    pub fn to_string(&self) -> (r: String)
        ensures
            r@ == authorization_type_text(self.auth_type) + " "@ + self.credentials@,
    {
        let mut s = self.auth_type.to_string();
        s.append(" ");
        s.append(self.credentials.as_str());
        s
    }
}

/// Writing credentials whose scheme and credentials are each one word (non-empty, without
/// ASCII whitespace) and reading the text back gives the same scheme and credentials.
pub proof fn lemma_authorization_roundtrip(x: AuthorizationType, credentials: Seq<char>)
    requires
        authorization_type_text(x).len() > 0,
        forall|m: int| 0 <= m < authorization_type_text(x).len()
            ==> !ascii_ws(#[trigger] authorization_type_text(x)[m]),
        credentials.len() > 0,
        forall|m: int| 0 <= m < credentials.len() ==> !ascii_ws(#[trigger] credentials[m]),
        x is Other ==> authorization_type_parse(authorization_type_text(x)) is None,
    ensures
        words(authorization_type_text(x) + " "@ + credentials)
            == seq![authorization_type_text(x), credentials],
        authorization_type_read(x, authorization_type_text(x)),
{
    lemma_two_words(authorization_type_text(x), credentials);
    if !(x is Other) {
        lemma_authorization_type_text_roundtrip(x);
    }
}

/// The range of a partial response.
#[derive(Clone, Eq, PartialEq, Debug)]
pub struct ContentRange {
    pub unit: Unit,
    pub range: Option<(usize, usize)>,
    pub size: Option<usize>,
}

/// The text of a content range: the unit, then ` first-last` or ` *`, then `/size` or `/*`.
pub open spec fn content_range_text(c: ContentRange) -> Seq<char> {
    unit_text(c.unit) + match c.range {
        Some((a, b)) => " "@ + decimal(a as nat) + "-"@ + decimal(b as nat),
        None => " *"@,
    } + match c.size {
        Some(z) => "/"@ + decimal(z as nat),
        None => "/*"@,
    }
}

/// `s` with each slash read as a space.
pub open spec fn slash_as_space(s: Seq<char>) -> Seq<char> {
    s.map_values(|c: char| if c == '/' { ' ' } else { c })
}

/// The pieces of a content range: the text cut at each space and at each slash.
pub open spec fn content_range_pieces(s: Seq<char>) -> Seq<Seq<char>> {
    pieces(slash_as_space(s), ' ')
}

/// What a piece of a content range gives for an optional number: `*` for none, or a number.
pub open spec fn star_or_usize(p: Seq<char>) -> Option<Option<usize>> {
    if p == "*"@ {
        Some(None)
    } else {
        match usize_text(p) {
            Some(v) => Some(Some(v)),
            None => None,
        }
    }
}

/// What the range piece of a content range gives: `*` for none, or two numbers before and
/// after its first `-` (what follows a second `-` is ignored).
pub open spec fn content_range_span(p: Seq<char>) -> Option<Option<(usize, usize)>> {
    if p == "*"@ {
        Some(None)
    } else {
        let q = pieces(p, '-');
        if q.len() < 2 {
            None
        } else {
            match (usize_text(q[0]), usize_text(q[1])) {
                (Some(a), Some(b)) => Some(Some((a, b))),
                _ => None,
            }
        }
    }
}

/// What reading a content range from `s` gives: the unit's text, the range and the size, from
/// the first three pieces (further pieces are ignored); nothing where a piece is missing or
/// does not read.
pub open spec fn content_range_fields(s: Seq<char>) -> Option<(Seq<char>, Option<(usize, usize)>, Option<usize>)> {
    let p = content_range_pieces(s);
    if p.len() < 3 {
        None
    } else {
        match (content_range_span(p[1]), star_or_usize(p[2])) {
            (Some(range), Some(size)) => Some((p[0], range, size)),
            _ => None,
        }
    }
}

/// Whether `x` is the unit that reading the text `t` gives: the named unit, or any other text
/// kept as it is.
pub open spec fn unit_read(x: Unit, t: Seq<char>) -> bool {
    match unit_parse(t) {
        Some(y) => x == y,
        None => x matches Unit::Other(v) && v@ == t,
    }
}

fn slash_as_space_string(s: &str) -> (r: String)
    ensures
        r@ == slash_as_space(s@),
{
    let n = s.unicode_len();
    let mut out = String::new();
    let mut i: usize = 0;
    while i < n
        invariant
            n == s@.len(),
            i <= n,
            out@ == slash_as_space(s@).take(i as int),
        decreases n - i,
    {
        let c = s.get_char(i);
        let ghost before = out@;
        push_char(&mut out, if c == '/' { ' ' } else { c });
        proof {
            assert(out@ =~= slash_as_space(s@).take(i + 1));
        }
        i += 1;
    }
    proof {
        assert(slash_as_space(s@).take(n as int) =~= slash_as_space(s@));
    }
    out
}

fn read_star_or_usize(p: &str) -> (r: Option<Option<usize>>)
    ensures
        r == star_or_usize(p@),
{
    if str_eq(p, "*") {
        return Some(None);
    }
    match parse_usize(p) {
        Some(v) => Some(Some(v)),
        None => None,
    }
}

fn read_content_range_span(p: &str) -> (r: Option<Option<(usize, usize)>>)
    ensures
        r == content_range_span(p@),
{
    if str_eq(p, "*") {
        return Some(None);
    }
    let q = split_char(p, '-');
    if q.len() < 2 {
        return None;
    }
    proof {
        assert(q@[0]@ == pieces(p@, '-')[0]);
        assert(q@[1]@ == pieces(p@, '-')[1]);
    }
    match (parse_usize(q[0]), parse_usize(q[1])) {
        (Some(a), Some(b)) => Some(Some((a, b))),
        _ => None,
    }
}

impl ContentRange {
    /// Reads a content range: the text is cut at each space and each slash; the first piece is
    /// the unit, the second `*` or `first-last`, the third `*` or the size. Fails where a
    /// piece is missing or a number does not read.
    pub fn from_str(s: &str) -> (r: Result<ContentRange, ()>)
        ensures
            match content_range_fields(s@) {
                None => r is Err,
                Some((u, range, size)) => r matches Ok(c) && unit_read(c.unit, u) && c.range == range
                    && c.size == size,
            },
    {
        let t = slash_as_space_string(s);
        let p = split_char(t.as_str(), ' ');
        if p.len() < 3 {
            return Err(());
        }
        proof {
            assert(p@[0]@ == content_range_pieces(s@)[0]);
            assert(p@[1]@ == content_range_pieces(s@)[1]);
            assert(p@[2]@ == content_range_pieces(s@)[2]);
        }
        let unit = match Unit::from_str(p[0]) {
            Ok(u) => u,
            Err(e) => return Err(e),
        };
        let range = match read_content_range_span(p[1]) {
            Some(x) => x,
            None => return Err(()),
        };
        let size = match read_star_or_usize(p[2]) {
            Some(x) => x,
            None => return Err(()),
        };
        Ok(ContentRange { unit, range, size })
    }

    /// The text of the content range: the unit, then ` first-last` or ` *`, then `/size` or
    /// `/*`.
    pub fn to_string(&self) -> (r: String)
        ensures
            r@ == content_range_text(*self),
    {
        let mut s = self.unit.to_string();
        match self.range {
            Some((a, b)) => {
                s.append(" ");
                push_decimal(&mut s, a as u64);
                s.append("-");
                push_decimal(&mut s, b as u64);
            }
            None => s.append(" *"),
        }
        match self.size {
            Some(z) => {
                s.append("/");
                push_decimal(&mut s, z as u64);
            }
            None => s.append("/*"),
        }
        s
    }
}

proof fn lemma_decimal_plain(n: nat)
    ensures
        decimal(n).len() > 0,
        forall|m: int| 0 <= m < decimal(n).len() ==> '0' <= #[trigger] decimal(n)[m] <= '9',
        decimal(n) != "*"@,
{
    lemma_decimal_digits(n);
    reveal_strlit("*");
    assert("*"@[0] == '*');
    if decimal(n) == "*"@ {
        assert('0' <= decimal(n)[0] <= '9');
    }
}

/// Writing a content range and reading the text back gives the same content range, where the
/// unit's text holds no space or slash (and a unit written by another name is not `bytes`).
pub proof fn lemma_content_range_roundtrip(c: ContentRange)
    requires
        forall|m: int| 0 <= m < unit_text(c.unit).len()
            ==> #[trigger] unit_text(c.unit)[m] != ' ' && unit_text(c.unit)[m] != '/',
        c.unit is Other ==> unit_parse(unit_text(c.unit)) is None,
    ensures
        content_range_fields(content_range_text(c)) == Some((unit_text(c.unit), c.range, c.size)),
        unit_read(c.unit, unit_text(c.unit)),
{
    reveal_strlit(" ");
    reveal_strlit("-");
    reveal_strlit(" *");
    reveal_strlit("/");
    reveal_strlit("/*");
    reveal_strlit("*");
    let u = unit_text(c.unit);
    let x = match c.range {
        Some((a, b)) => decimal(a as nat) + seq!['-'] + decimal(b as nat),
        None => seq!['*'],
    };
    let y = match c.size {
        Some(z) => decimal(z as nat),
        None => seq!['*'],
    };
    match c.range {
        Some((a, b)) => {
            lemma_decimal_plain(a as nat);
            lemma_decimal_plain(b as nat);
            lemma_usize_text_decimal(a);
            lemma_usize_text_decimal(b);
        }
        None => {}
    }
    match c.size {
        Some(z) => {
            lemma_decimal_plain(z as nat);
            lemma_usize_text_decimal(z);
        }
        None => {}
    }
    let text = content_range_text(c);
    assert(text =~= u + seq![' '] + x + seq!['/'] + y);
    assert forall|m: int| 0 <= m < x.len() implies #[trigger] x[m] != ' ' && x[m] != '/' by {
        match c.range {
            Some((a, b)) => {
                let da = decimal(a as nat);
                if m < da.len() {
                    assert(x[m] == da[m]);
                } else if m > da.len() {
                    assert(x[m] == decimal(b as nat)[m - da.len() - 1]);
                }
            }
            None => {}
        }
    }
    assert forall|m: int| 0 <= m < y.len() implies #[trigger] y[m] != ' ' && y[m] != '/' by {}
    let mapped = u + seq![' '] + x + seq![' '] + y;
    assert(slash_as_space(text) =~= mapped) by {
        assert forall|m: int| 0 <= m < text.len() implies #[trigger] slash_as_space(text)[m] == mapped[m] by {
            if m < u.len() {
                assert(text[m] == u[m]);
            } else if m == u.len() {
            } else if m < u.len() + 1 + x.len() {
                assert(text[m] == x[m - u.len() - 1]);
            } else if m == u.len() + 1 + x.len() {
            } else {
                assert(text[m] == y[m - u.len() - 2 - x.len()]);
            }
        }
    }
    assert(mapped =~= u + seq![' '] + (x + seq![' '] + y));
    lemma_pieces_cons(u, ' ', x + seq![' '] + y);
    lemma_pieces_cons(x, ' ', y);
    lemma_pieces_single(y, ' ');
    let p = content_range_pieces(text);
    assert(p =~= seq![u, x, y]);
    match c.range {
        Some((a, b)) => {
            let da = decimal(a as nat);
            let db = decimal(b as nat);
            assert forall|m: int| 0 <= m < da.len() implies #[trigger] da[m] != '-' by {}
            assert forall|m: int| 0 <= m < db.len() implies #[trigger] db[m] != '-' by {}
            lemma_pieces_cons(da, '-', db);
            lemma_pieces_single(db, '-');
            assert(pieces(x, '-') =~= seq![da, db]);
            assert(x != "*"@) by {
                assert(x.len() > 1);
            }
        }
        None => {
            assert(x =~= "*"@);
        }
    }
    match c.size {
        Some(z) => {}
        None => {
            assert(y =~= "*"@);
        }
    }
    if !(c.unit is Other) {
        lemma_unit_text_roundtrip(c.unit);
    }
}

/// A range of a `Range` header.
#[derive(Clone, Debug, Eq, PartialEq)]
pub struct Range {
    pub start: Option<usize>,
    pub end: Option<usize>,
}

/// The ranges of a `Range` header.
#[derive(Clone, Debug, Eq, PartialEq)]
pub struct Ranges {
    pub unit: Unit,
    pub ranges: Vec<Range>,
}

/// The text of one range, followed by `, `; a range without bounds writes nothing.
pub open spec fn range_text(r: Range) -> Seq<char> {
    match (r.start, r.end) {
        (Some(a), None) => decimal(a as nat) + "-, "@,
        (None, Some(b)) => "-"@ + decimal(b as nat) + ", "@,
        (Some(a), Some(b)) => decimal(a as nat) + "-"@ + decimal(b as nat) + ", "@,
        (None, None) => Seq::empty(),
    }
}

/// The text of the ranges from the `i`-th on.
pub open spec fn ranges_text(rs: Seq<Range>, i: int) -> Seq<char>
    decreases rs.len() - i,
{
    if i < 0 || i >= rs.len() { Seq::empty() } else { range_text(rs[i]) + ranges_text(rs, i + 1) }
}

/// What one side of a range gives: nothing for an empty text, else a number (`None` where the
/// text does not read as one).
pub open spec fn bound_text(t: Seq<char>) -> Option<Option<usize>> {
    if t.len() == 0 {
        Some(None)
    } else {
        match usize_text(t) {
            Some(v) => Some(Some(v)),
            None => None,
        }
    }
}

/// What one piece of a `Range` header gives: the piece without surrounding whitespace, cut at
/// its first `-`, the start before and the end after; nothing without a `-` or where a side
/// does not read.
pub open spec fn range_parse(p: Seq<char>) -> Option<Range> {
    let t = trimmed(p);
    let k = index_of_from(t, '-', 0);
    if k < 0 {
        None
    } else {
        match (bound_text(t.take(k)), bound_text(t.skip(k + 1))) {
            (Some(start), Some(end)) => Some(Range { start, end }),
            _ => None,
        }
    }
}

fn read_bound(t: &str) -> (r: Option<Option<usize>>)
    ensures
        r == bound_text(t@),
{
    if t.unicode_len() == 0 {
        return Some(None);
    }
    match parse_usize(t) {
        Some(v) => Some(Some(v)),
        None => None,
    }
}

fn read_range(p: &str) -> (r: Option<Range>)
    ensures
        r == range_parse(p@),
{
    let t = trim(p);
    match split_once(t, '-') {
        None => None,
        Some((a, b)) => {
            let start = match read_bound(a) {
                Some(x) => x,
                None => return None,
            };
            let end = match read_bound(b) {
                Some(x) => x,
                None => return None,
            };
            Some(Range { start, end })
        }
    }
}

impl Ranges {
    /// Reads the ranges of a `Range` header: the unit before the first `=`, then the pieces
    /// after it cut at each `,`, each read as a range. Fails without `=` or where a piece does
    /// not read.
    pub fn from_str(s: &str) -> (r: Result<Ranges, ()>)
        ensures
            index_of_from(s@, '=', 0) < 0 ==> r is Err,
            index_of_from(s@, '=', 0) >= 0 ==> ({
                let k = index_of_from(s@, '=', 0);
                let ps = pieces(s@.skip(k + 1), ',');
                if forall|i: int| 0 <= i < ps.len() ==> #[trigger] range_parse(ps[i]) is Some {
                    r matches Ok(x) && unit_read(x.unit, s@.take(k)) && x.ranges@.len() == ps.len()
                        && forall|i: int| 0 <= i < ps.len() ==> Some(#[trigger] x.ranges@[i]) == range_parse(ps[i])
                } else {
                    r is Err
                }
            }),
    {
        let (u, rest) = match split_once(s, '=') {
            Some(p) => p,
            None => return Err(()),
        };
        let unit = match Unit::from_str(u) {
            Ok(x) => x,
            Err(e) => return Err(e),
        };
        let ps = split_char(rest, ',');
        let ghost pcs = pieces(rest@, ',');
        proof {
            assert(pcs.len() == ps@.len());
            assert forall|j: int| 0 <= j < ps@.len() implies #[trigger] ps@[j]@ == pcs[j] by {
                assert(crate::text::texts(ps@)[j] == ps@[j]@);
            }
        }
        let mut ranges: Vec<Range> = Vec::new();
        let mut i: usize = 0;
        while i < ps.len()
            invariant
                i <= ps@.len(),
                pcs == pieces(s@.skip(index_of_from(s@, '=', 0) + 1), ','),
                pcs.len() == ps@.len(),
                forall|j: int| 0 <= j < ps@.len() ==> #[trigger] ps@[j]@ == pcs[j],
                ranges@.len() == i,
                forall|j: int| 0 <= j < i ==> Some(#[trigger] ranges@[j]) == range_parse(pcs[j]),
            decreases ps@.len() - i,
        {
            match read_range(ps[i]) {
                Some(x) => ranges.push(x),
                None => {
                    assert(range_parse(pcs[i as int]) is None);
                    return Err(());
                }
            }
            i += 1;
        }
        proof {
            assert forall|j: int| 0 <= j < pcs.len() implies #[trigger] range_parse(pcs[j]) is Some by {
                assert(Some(ranges@[j]) == range_parse(pcs[j]));
            }
            assert(unit_read(unit, s@.take(index_of_from(s@, '=', 0))));
        }
        Ok(Ranges { unit, ranges })
    }

    /// The text of the ranges: the unit, `=`, then each range followed by `, `.
    pub fn to_string(&self) -> (r: String)
        ensures
            r@ == unit_text(self.unit) + "="@ + ranges_text(self.ranges@, 0),
    {
        let mut s = self.unit.to_string();
        s.append("=");
        let ghost head = s@;
        let mut i: usize = 0;
        while i < self.ranges.len()
            invariant
                i <= self.ranges@.len(),
                s@ + ranges_text(self.ranges@, i as int) == head + ranges_text(self.ranges@, 0),
            decreases self.ranges@.len() - i,
        {
            let ghost before = s@;
            let r = &self.ranges[i];
            match (r.start, r.end) {
                (Some(a), None) => {
                    push_decimal(&mut s, a as u64);
                    s.append("-, ");
                }
                (None, Some(b)) => {
                    s.append("-");
                    push_decimal(&mut s, b as u64);
                    s.append(", ");
                }
                (Some(a), Some(b)) => {
                    push_decimal(&mut s, a as u64);
                    s.append("-");
                    push_decimal(&mut s, b as u64);
                    s.append(", ");
                }
                (None, None) => {}
            }
            proof {
                assert(s@ =~= before + range_text(self.ranges@[i as int]));
                assert(before + ranges_text(self.ranges@, i as int) =~= s@ + ranges_text(self.ranges@, i + 1));
            }
            i += 1;
        }
        proof {
            assert(s@ =~= head + ranges_text(self.ranges@, 0));
        }
        s
    }
}

/// The codes of the response statuses, as RFC 9110 (section 15) and the IANA registry assign
/// them: each status has its code, and each code reads as its status.
#[verifier::rlimit(50)]
pub proof fn lemma_status_numbers()
    ensures
        status_code(Status::Continue) == 100,
        status_of(100) == Some(Status::Continue),
        status_code(Status::SwitchingProtocols) == 101,
        status_of(101) == Some(Status::SwitchingProtocols),
        status_code(Status::Processing) == 102,
        status_of(102) == Some(Status::Processing),
        status_code(Status::EarlyHints) == 103,
        status_of(103) == Some(Status::EarlyHints),
        status_code(Status::OK) == 200,
        status_of(200) == Some(Status::OK),
        status_code(Status::Created) == 201,
        status_of(201) == Some(Status::Created),
        status_code(Status::Accepted) == 202,
        status_of(202) == Some(Status::Accepted),
        status_code(Status::NonAuthoritativeInformation) == 203,
        status_of(203) == Some(Status::NonAuthoritativeInformation),
        status_code(Status::NoContent) == 204,
        status_of(204) == Some(Status::NoContent),
        status_code(Status::ResetContent) == 205,
        status_of(205) == Some(Status::ResetContent),
        status_code(Status::PartialContent) == 206,
        status_of(206) == Some(Status::PartialContent),
        status_code(Status::MultiStatus) == 207,
        status_of(207) == Some(Status::MultiStatus),
        status_code(Status::AlreadyReported) == 208,
        status_of(208) == Some(Status::AlreadyReported),
        status_code(Status::ImUsed) == 226,
        status_of(226) == Some(Status::ImUsed),
        status_code(Status::MultipleChoices) == 300,
        status_of(300) == Some(Status::MultipleChoices),
        status_code(Status::MovedPermanently) == 301,
        status_of(301) == Some(Status::MovedPermanently),
        status_code(Status::Found) == 302,
        status_of(302) == Some(Status::Found),
        status_code(Status::SeeOther) == 303,
        status_of(303) == Some(Status::SeeOther),
        status_code(Status::NotModified) == 304,
        status_of(304) == Some(Status::NotModified),
        status_code(Status::UseProxy) == 305,
        status_of(305) == Some(Status::UseProxy),
        status_code(Status::TemporaryRedirect) == 307,
        status_of(307) == Some(Status::TemporaryRedirect),
        status_code(Status::PermanentRedirect) == 308,
        status_of(308) == Some(Status::PermanentRedirect),
        status_code(Status::BadRequest) == 400,
        status_of(400) == Some(Status::BadRequest),
        status_code(Status::Unauthorized) == 401,
        status_of(401) == Some(Status::Unauthorized),
        status_code(Status::PaymentRequired) == 402,
        status_of(402) == Some(Status::PaymentRequired),
        status_code(Status::Forbidden) == 403,
        status_of(403) == Some(Status::Forbidden),
        status_code(Status::NotFound) == 404,
        status_of(404) == Some(Status::NotFound),
        status_code(Status::MethodNotAllowed) == 405,
        status_of(405) == Some(Status::MethodNotAllowed),
        status_code(Status::NotAcceptable) == 406,
        status_of(406) == Some(Status::NotAcceptable),
        status_code(Status::ProxyAuthenticationRequired) == 407,
        status_of(407) == Some(Status::ProxyAuthenticationRequired),
        status_code(Status::RequestTimeout) == 408,
        status_of(408) == Some(Status::RequestTimeout),
        status_code(Status::Conflict) == 409,
        status_of(409) == Some(Status::Conflict),
        status_code(Status::Gone) == 410,
        status_of(410) == Some(Status::Gone),
        status_code(Status::LengthRequired) == 411,
        status_of(411) == Some(Status::LengthRequired),
        status_code(Status::PreconditionFailed) == 412,
        status_of(412) == Some(Status::PreconditionFailed),
        status_code(Status::PayloadTooLarge) == 413,
        status_of(413) == Some(Status::PayloadTooLarge),
        status_code(Status::UriTooLong) == 414,
        status_of(414) == Some(Status::UriTooLong),
        status_code(Status::UnsupportedMediaType) == 415,
        status_of(415) == Some(Status::UnsupportedMediaType),
        status_code(Status::RangeNotSatisfiable) == 416,
        status_of(416) == Some(Status::RangeNotSatisfiable),
        status_code(Status::ExpectationFailed) == 417,
        status_of(417) == Some(Status::ExpectationFailed),
        status_code(Status::MisdirectedRequest) == 421,
        status_of(421) == Some(Status::MisdirectedRequest),
        status_code(Status::UnprocessableEntity) == 422,
        status_of(422) == Some(Status::UnprocessableEntity),
        status_code(Status::Locked) == 423,
        status_of(423) == Some(Status::Locked),
        status_code(Status::FailedDependency) == 424,
        status_of(424) == Some(Status::FailedDependency),
        status_code(Status::UpgradeRequired) == 426,
        status_of(426) == Some(Status::UpgradeRequired),
        status_code(Status::PreconditionRequired) == 428,
        status_of(428) == Some(Status::PreconditionRequired),
        status_code(Status::TooManyRequests) == 429,
        status_of(429) == Some(Status::TooManyRequests),
        status_code(Status::RequestHeaderFilesTooLarge) == 431,
        status_of(431) == Some(Status::RequestHeaderFilesTooLarge),
        status_code(Status::UnavailableForLegalReasons) == 451,
        status_of(451) == Some(Status::UnavailableForLegalReasons),
        status_code(Status::InternalServerError) == 500,
        status_of(500) == Some(Status::InternalServerError),
        status_code(Status::NotImplemented) == 501,
        status_of(501) == Some(Status::NotImplemented),
        status_code(Status::BadGateway) == 502,
        status_of(502) == Some(Status::BadGateway),
        status_code(Status::ServiceUnavailable) == 503,
        status_of(503) == Some(Status::ServiceUnavailable),
        status_code(Status::GatewayTimeout) == 504,
        status_of(504) == Some(Status::GatewayTimeout),
        status_code(Status::HttpVersionNotSupported) == 505,
        status_of(505) == Some(Status::HttpVersionNotSupported),
        status_code(Status::VariantAlsoNegotiates) == 506,
        status_of(506) == Some(Status::VariantAlsoNegotiates),
        status_code(Status::InsufficientStorage) == 507,
        status_of(507) == Some(Status::InsufficientStorage),
        status_code(Status::LoopDetected) == 508,
        status_of(508) == Some(Status::LoopDetected),
        status_code(Status::NotExtended) == 510,
        status_of(510) == Some(Status::NotExtended),
        status_code(Status::NetworkAuthenticationRequired) == 511,
        status_of(511) == Some(Status::NetworkAuthenticationRequired),
{
}

/// Every number that reads as a status is the number that status is written as.
pub proof fn lemma_status_of_inverse(v: usize)
    ensures
        status_of(v) matches Some(x) ==> status_code(x) == v,
{
}

/// The names of the request methods, as RFC 9110 (section 9) and RFC 5789 give them;
/// `lemma_method_text_roundtrip` reads each back as its method.
#[verifier::rlimit(50)]
pub proof fn lemma_method_names()
    ensures
        method_text(Method::Options) == "OPTIONS"@,
        method_text(Method::Get) == "GET"@,
        method_text(Method::Head) == "HEAD"@,
        method_text(Method::Post) == "POST"@,
        method_text(Method::Put) == "PUT"@,
        method_text(Method::Delete) == "DELETE"@,
        method_text(Method::Trace) == "TRACE"@,
        method_text(Method::Connect) == "CONNECT"@,
        method_text(Method::Patch) == "PATCH"@,
{
}

/// The names of the headers as HTTP/1 writes them (RFC 9110 and the IANA field name registry);
/// `lemma_header_name_v2_lowercase` gives the HTTP/2 names from them and
/// `lemma_header_name_roundtrip` reads them back.
#[verifier::rlimit(50)]
pub proof fn lemma_header_names()
    ensures
        header_name_v1(HeaderId::AcceptCharset) == "Accept-Charset"@,
        header_name_v1(HeaderId::AcceptEncoding) == "Accept-Encoding"@,
        header_name_v1(HeaderId::AcceptLanguage) == "Accept-Language"@,
        header_name_v1(HeaderId::AcceptRanges) == "Accept-Ranges"@,
        header_name_v1(HeaderId::AcceptTypes) == "Accept"@,
        header_name_v1(HeaderId::AccessControlAllowCredentials) == "Access-Control-Allow-Credentials"@,
        header_name_v1(HeaderId::AccessControlAllowHeaders) == "Access-Control-Allow-Headers"@,
        header_name_v1(HeaderId::AccessControlAllowMethods) == "Access-Control-Allow-Methods"@,
        header_name_v1(HeaderId::AccessControlAllowOrigin) == "Access-Control-Allow-Origin"@,
        header_name_v1(HeaderId::AccessControlAllowExposeHeaders) == "Access-Control-Allow-Expose-Headers"@,
        header_name_v1(HeaderId::AccessControlAllowMaxAge) == "Access-Control-Allow-Max-Age"@,
        header_name_v1(HeaderId::AccessControlAllowRequestHeaders) == "Access-Control-Allow-Request-Headers"@,
        header_name_v1(HeaderId::AccessControlAllowRequestMethod) == "Access-Control-Allow-Method"@,
        header_name_v1(HeaderId::Allow) == "Allow"@,
        header_name_v1(HeaderId::Authority) == ":Authority"@,
        header_name_v1(HeaderId::Authorization) == "Authorization"@,
        header_name_v1(HeaderId::CacheControl) == "Cache-Control"@,
        header_name_v1(HeaderId::ClearSiteData) == "Clear-Site-Data"@,
        header_name_v1(HeaderId::Connection) == "Connection"@,
        header_name_v1(HeaderId::ContentDisposition) == "Content-Disposition"@,
        header_name_v1(HeaderId::ContentEncoding) == "Content-Encoding"@,
        header_name_v1(HeaderId::ContentLanguage) == "Content-Language"@,
        header_name_v1(HeaderId::ContentLength) == "Content-Length"@,
        header_name_v1(HeaderId::ContentLocation) == "Content-Location"@,
        header_name_v1(HeaderId::ContentRange) == "Content-Range"@,
        header_name_v1(HeaderId::ContentType) == "Content-Type"@,
        header_name_v1(HeaderId::Cookie) == "Cookie"@,
        header_name_v1(HeaderId::Dnt) == "DNT"@,
        header_name_v1(HeaderId::Date) == "Date"@,
        header_name_v1(HeaderId::ETag) == "ETag"@,
        header_name_v1(HeaderId::Expires) == "Expires"@,
        header_name_v1(HeaderId::Host) == "Host"@,
        header_name_v1(HeaderId::IfMatch) == "If-Match"@,
        header_name_v1(HeaderId::IfModifiedSince) == "If-Modified-Since"@,
        header_name_v1(HeaderId::IfNoneMatch) == "If-None-Match"@,
        header_name_v1(HeaderId::IfRange) == "If-Range"@,
        header_name_v1(HeaderId::IfUnmodifiedSince) == "If-Unmodified-Since"@,
        header_name_v1(HeaderId::KeepAlive) == "Keep-Alive"@,
        header_name_v1(HeaderId::LastModified) == "Last-Modified"@,
        header_name_v1(HeaderId::Location) == "Location"@,
        header_name_v1(HeaderId::Method) == ":Method"@,
        header_name_v1(HeaderId::Path) == ":Path"@,
        header_name_v1(HeaderId::ProxyAuthenticate) == "Proxy-Authenticate"@,
        header_name_v1(HeaderId::ProxyAuthorization) == "Proxy-Authorization"@,
        header_name_v1(HeaderId::Range) == "Range"@,
        header_name_v1(HeaderId::Referer) == "Referer"@,
        header_name_v1(HeaderId::RetryAfter) == "Retry-After"@,
        header_name_v1(HeaderId::SaveData) == "Save-Data"@,
        header_name_v1(HeaderId::Scheme) == ":Scheme"@,
        header_name_v1(HeaderId::SecWebSocketProtocol) == "Sec-Web-Socket-Protocol"@,
        header_name_v1(HeaderId::SecWebSocketExtensions) == "Sec-Web-Socket-Extensions"@,
        header_name_v1(HeaderId::SecWebSocketVersion) == "Sec-Web-Socket-Version"@,
        header_name_v1(HeaderId::SecWebSocketAccept) == "Sec-Web-Socket-Accept"@,
        header_name_v1(HeaderId::SecWebSocketKey) == "Sec-Web-Socket-Key"@,
        header_name_v1(HeaderId::Server) == "Server"@,
        header_name_v1(HeaderId::SetCookie) == "Set-Cookie"@,
        header_name_v1(HeaderId::Status) == "Status"@,
        header_name_v1(HeaderId::Upgrade) == "Upgrade"@,
        header_name_v1(HeaderId::UpgradeInsecureRequests) == "Upgrade-Insecure-Requests"@,
        header_name_v1(HeaderId::UserAgent) == "User-Agent"@,
        header_name_v1(HeaderId::Vary) == "Vary"@,
        header_name_v1(HeaderId::WwwAuthenticate) == "WWW-Authenticate"@,
{
}

} // verus!
