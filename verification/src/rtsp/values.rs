//! The values of RTSP headers that carry settings: connections, cache directives, message
//! body tags, connection credentials, request status, RTP information, transports, accepted
//! credentials and the proxies a message passed (`Via`).
use vstd::prelude::*;
use vstd::string::StringExecFns;
use vstd::string::StrSliceExecFns;
use crate::text::{str_eq, split_once, split_key_value, key_value, index_of_from, last_index_before,
    lemma_index_of_from, parse_usize, usize_text, push_decimal, decimal, lemma_usize_text_decimal,
    has_prefix, starts_with, strip_prefix, find_char, split_char, pieces, texts, push_char, find_from, find_str,
    occurs_at, trim, trimmed, lemma_decimal_digits, lemma_pieces_single, lemma_pieces_cons};
use crate::http::headers::u32_text;
use crate::rtsp::{CacheControl, ConnectionCredentials, MTag, RequestStatus, Status, status_of, status_reason,
    RtpInfo, Transport, TransportParam, Mode, mode_parse, mode_text, ConTransSetup, ConTransCon,
    con_trans_setup_parse, con_trans_con_parse, con_trans_setup_text, con_trans_con_text, AcceptCredentials,
    lemma_con_trans_setup_text_roundtrip, lemma_con_trans_con_text_roundtrip,
    AcceptCredentialsInfo, AcceptCredentialsCredentialHashAlgorithm,
    accept_credentials_credential_hash_algorithm_parse, accept_credentials_credential_hash_algorithm_text};
use crate::rtsp::{TransportProtocol, transport_protocol_parse, transport_protocol_text, lemma_transport_protocol_text_roundtrip};
use crate::inet::{IpAddr, ip_read, ip_readable, ip_text, parse_ip, push_ip};
use crate::dns::records::{base64_encoded, base64_decoded, base64_encode, base64_decode, base64_char,
    base64_text_reads_back};

verus! {

/// The text of an optional string.
pub open spec fn opt_text(v: Option<String>) -> Option<Seq<char>> {
    match v {
        Some(x) => Some(x@),
        None => None,
    }
}

fn opt_string(v: Option<&str>) -> (r: Option<String>)
    ensures
        opt_text(r) == (match v { Some(x) => Some(x@), None => None::<Seq<char>> }),
{
    match v {
        Some(x) => Some(String::from_str(x)),
        None => None,
    }
}

/// A connection option of RTSP.
#[derive(Clone, Debug, Eq, PartialEq)]
pub enum Connection {
    Close,
    Ext(String),
}

impl Connection {
    /// Reads a connection option: `close`, or any other text as it is.
    pub fn from_str(s: &str) -> (r: Result<Connection, ()>)
        ensures
            s@ == "close"@ ==> r == Ok::<Connection, ()>(Connection::Close),
            s@ != "close"@ ==> (r matches Ok(Connection::Ext(v)) && v@ == s@),
    {
        if str_eq(s, "close") {
            Ok(Connection::Close)
        } else {
            Ok(Connection::Ext(String::from_str(s)))
        }
    }

    /// The text of the option.
    pub fn to_string(&self) -> (r: String)
        ensures
            r@ == connection_text(*self),
    {
        match self {
            Connection::Close => String::from_str("close"),
            Connection::Ext(v) => v.clone(),
        }
    }
}

/// The text of a connection option.
pub open spec fn connection_text(c: Connection) -> Seq<char> {
    match c {
        Connection::Close => "close"@,
        Connection::Ext(v) => v@,
    }
}

/// Reading the text of a connection option gives the option back, where an other option is
/// not the text `close`.
pub proof fn lemma_connection_roundtrip(c: Connection)
    requires
        c matches Connection::Ext(v) ==> v@ != "close"@,
    ensures
        connection_text(c) == "close"@ <==> c is Close,
{
}

/// Whether a cache directive `key`, with or without a value, is one that the reading knows.
pub open spec fn cache_directive_shape(key: Seq<char>, value: Option<Seq<char>>) -> bool {
    ||| key == "max-stale"@
    ||| (key == "min-fresh"@ && value is Some)
    ||| (key == "max-age"@ && value is Some)
    ||| (value is None && (key == "only-if-cached"@ || key == "public"@ || key == "private"@
        || key == "no-cache"@ || key == "no-transform"@ || key == "must-revalidate"@
        || key == "proxy-revalidate"@))
}

/// Whether `r` is what reading the cache directive `s` gives: the text is cut at its first
/// `=`; `max-stale` takes an optional number, `min-fresh` and `max-age` a number, the others
/// no value; any other text is an extension with its key and value.
pub open spec fn cache_control_reads(r: Result<CacheControl, ()>, s: Seq<char>) -> bool {
    let (k, v) = key_value(s);
    if k == "max-stale"@ {
        match v {
            None => r == Ok::<CacheControl, ()>(CacheControl::MaxStale(None)),
            Some(t) => match usize_text(t) {
                Some(n) => r == Ok::<CacheControl, ()>(CacheControl::MaxStale(Some(n))),
                None => r is Err,
            },
        }
    } else if k == "min-fresh"@ && v is Some {
        match usize_text(v->0) {
            Some(n) => r == Ok::<CacheControl, ()>(CacheControl::MinFresh(n)),
            None => r is Err,
        }
    } else if k == "max-age"@ && v is Some {
        match usize_text(v->0) {
            Some(n) => r == Ok::<CacheControl, ()>(CacheControl::MaxAge(n)),
            None => r is Err,
        }
    } else if v is None && k == "only-if-cached"@ {
        r == Ok::<CacheControl, ()>(CacheControl::OnlyIfCached)
    } else if v is None && k == "public"@ {
        r == Ok::<CacheControl, ()>(CacheControl::Public)
    } else if v is None && k == "private"@ {
        r == Ok::<CacheControl, ()>(CacheControl::Private)
    } else if v is None && k == "no-cache"@ {
        r == Ok::<CacheControl, ()>(CacheControl::NoCache)
    } else if v is None && k == "no-transform"@ {
        r == Ok::<CacheControl, ()>(CacheControl::NoTransform)
    } else if v is None && k == "must-revalidate"@ {
        r == Ok::<CacheControl, ()>(CacheControl::MustRevalidate)
    } else if v is None && k == "proxy-revalidate"@ {
        r == Ok::<CacheControl, ()>(CacheControl::ProxyRevalidate)
    } else {
        r matches Ok(CacheControl::Ext(a, b)) && a@ == k && opt_text(b) == v
    }
}

/// The text of a cache directive; the proxy revalidation directive is written as `max-age`.
pub open spec fn cache_control_text(c: CacheControl) -> Seq<char> {
    match c {
        CacheControl::MaxStale(None) => "max-stale"@,
        CacheControl::MaxStale(Some(v)) => "max-stale"@ + "="@ + decimal(v as nat),
        CacheControl::MinFresh(v) => "min-fresh"@ + "="@ + decimal(v as nat),
        CacheControl::OnlyIfCached => "only-if-cached"@,
        CacheControl::Public => "public"@,
        CacheControl::Private => "private"@,
        CacheControl::NoCache => "no-cache"@,
        CacheControl::NoTransform => "no-transform"@,
        CacheControl::MustRevalidate => "must-revalidate"@,
        CacheControl::ProxyRevalidate => "max-age"@,
        CacheControl::MaxAge(v) => "max-age"@ + "="@ + decimal(v as nat),
        CacheControl::Ext(key, None) => key@,
        CacheControl::Ext(key, Some(val)) => key@ + "="@ + val@,
    }
}

fn parse_count(t: &str) -> (r: Result<usize, ()>)
    ensures
        match usize_text(t@) {
            Some(n) => r == Ok::<usize, ()>(n),
            None => r is Err,
        },
{
    match parse_usize(t) {
        Some(n) => Ok(n),
        None => Err(()),
    }
}

impl CacheControl {
    /// Reads a cache directive (see `cache_control_reads`).
    pub fn from_str(s: &str) -> (r: Result<CacheControl, ()>)
        ensures
            cache_control_reads(r, s@),
    {
        let (k, v) = split_key_value(s);
        if str_eq(k, "max-stale") {
            return match v {
                None => Ok(CacheControl::MaxStale(None)),
                Some(t) => match parse_count(t) {
                    Ok(n) => Ok(CacheControl::MaxStale(Some(n))),
                    Err(()) => Err(()),
                },
            };
        }
        match v {
            Some(t) => {
                if str_eq(k, "min-fresh") {
                    return match parse_count(t) {
                        Ok(n) => Ok(CacheControl::MinFresh(n)),
                        Err(()) => Err(()),
                    };
                } else if str_eq(k, "max-age") {
                    return match parse_count(t) {
                        Ok(n) => Ok(CacheControl::MaxAge(n)),
                        Err(()) => Err(()),
                    };
                }
                Ok(CacheControl::Ext(String::from_str(k), Some(String::from_str(t))))
            },
            None => {
                if str_eq(k, "only-if-cached") {
                    Ok(CacheControl::OnlyIfCached)
                } else if str_eq(k, "public") {
                    Ok(CacheControl::Public)
                } else if str_eq(k, "private") {
                    Ok(CacheControl::Private)
                } else if str_eq(k, "no-cache") {
                    Ok(CacheControl::NoCache)
                } else if str_eq(k, "no-transform") {
                    Ok(CacheControl::NoTransform)
                } else if str_eq(k, "must-revalidate") {
                    Ok(CacheControl::MustRevalidate)
                } else if str_eq(k, "proxy-revalidate") {
                    Ok(CacheControl::ProxyRevalidate)
                } else {
                    Ok(CacheControl::Ext(String::from_str(k), None))
                }
            },
        }
    }

    /// The text of the directive (see `cache_control_text`).
    pub fn to_string(&self) -> (r: String)
        ensures
            r@ == cache_control_text(*self),
    {
        match self {
            CacheControl::MaxStale(None) => String::from_str("max-stale"),
            CacheControl::MaxStale(Some(v)) => {
                let mut s = String::from_str("max-stale");
                s.append("=");
                push_decimal(&mut s, *v as u64);
                s
            },
            CacheControl::MinFresh(v) => {
                let mut s = String::from_str("min-fresh");
                s.append("=");
                push_decimal(&mut s, *v as u64);
                s
            },
            CacheControl::OnlyIfCached => String::from_str("only-if-cached"),
            CacheControl::Public => String::from_str("public"),
            CacheControl::Private => String::from_str("private"),
            CacheControl::NoCache => String::from_str("no-cache"),
            CacheControl::NoTransform => String::from_str("no-transform"),
            CacheControl::MustRevalidate => String::from_str("must-revalidate"),
            CacheControl::ProxyRevalidate => String::from_str("max-age"),
            CacheControl::MaxAge(v) => {
                let mut s = String::from_str("max-age");
                s.append("=");
                push_decimal(&mut s, *v as u64);
                s
            },
            CacheControl::Ext(key, None) => key.clone(),
            CacheControl::Ext(key, Some(val)) => {
                let mut s = key.clone();
                s.append("=");
                s.append(val.as_str());
                s
            },
        }
    }
}


/// Reading the text of a cache directive gives the directive back, where it is not the proxy
/// revalidation directive (written as `max-age`) and, for an extension, the key holds no `=`
/// and is not read as a known directive.
pub proof fn lemma_cache_control_roundtrip(c: CacheControl)
    requires
        !(c is ProxyRevalidate),
        c matches CacheControl::Ext(k, v) ==> index_of_from(k@, '=', 0) < 0
            && !cache_directive_shape(k@, opt_text(v)),
    ensures
        cache_control_reads(Ok::<CacheControl, ()>(c), cache_control_text(c)),
{
    reveal_strlit("max-stale");
    assert("max-stale"@.len() == 9 && "max-stale"@[0] == 'm' && "max-stale"@[1] == 'a' && "max-stale"@[2] == 'x' && "max-stale"@[3] == '-' && "max-stale"@[4] == 's' && "max-stale"@[5] == 't' && "max-stale"@[6] == 'a' && "max-stale"@[7] == 'l' && "max-stale"@[8] == 'e');
    reveal_strlit("min-fresh");
    assert("min-fresh"@.len() == 9 && "min-fresh"@[0] == 'm' && "min-fresh"@[1] == 'i' && "min-fresh"@[2] == 'n' && "min-fresh"@[3] == '-' && "min-fresh"@[4] == 'f' && "min-fresh"@[5] == 'r' && "min-fresh"@[6] == 'e' && "min-fresh"@[7] == 's' && "min-fresh"@[8] == 'h');
    reveal_strlit("max-age");
    assert("max-age"@.len() == 7 && "max-age"@[0] == 'm' && "max-age"@[1] == 'a' && "max-age"@[2] == 'x' && "max-age"@[3] == '-' && "max-age"@[4] == 'a' && "max-age"@[5] == 'g' && "max-age"@[6] == 'e');
    reveal_strlit("only-if-cached");
    assert("only-if-cached"@.len() == 14 && "only-if-cached"@[0] == 'o' && "only-if-cached"@[1] == 'n' && "only-if-cached"@[2] == 'l' && "only-if-cached"@[3] == 'y' && "only-if-cached"@[4] == '-' && "only-if-cached"@[5] == 'i' && "only-if-cached"@[6] == 'f' && "only-if-cached"@[7] == '-' && "only-if-cached"@[8] == 'c' && "only-if-cached"@[9] == 'a' && "only-if-cached"@[10] == 'c' && "only-if-cached"@[11] == 'h' && "only-if-cached"@[12] == 'e' && "only-if-cached"@[13] == 'd');
    reveal_strlit("public");
    assert("public"@.len() == 6 && "public"@[0] == 'p' && "public"@[1] == 'u' && "public"@[2] == 'b' && "public"@[3] == 'l' && "public"@[4] == 'i' && "public"@[5] == 'c');
    reveal_strlit("private");
    assert("private"@.len() == 7 && "private"@[0] == 'p' && "private"@[1] == 'r' && "private"@[2] == 'i' && "private"@[3] == 'v' && "private"@[4] == 'a' && "private"@[5] == 't' && "private"@[6] == 'e');
    reveal_strlit("no-cache");
    assert("no-cache"@.len() == 8 && "no-cache"@[0] == 'n' && "no-cache"@[1] == 'o' && "no-cache"@[2] == '-' && "no-cache"@[3] == 'c' && "no-cache"@[4] == 'a' && "no-cache"@[5] == 'c' && "no-cache"@[6] == 'h' && "no-cache"@[7] == 'e');
    reveal_strlit("no-transform");
    assert("no-transform"@.len() == 12 && "no-transform"@[0] == 'n' && "no-transform"@[1] == 'o' && "no-transform"@[2] == '-' && "no-transform"@[3] == 't' && "no-transform"@[4] == 'r' && "no-transform"@[5] == 'a' && "no-transform"@[6] == 'n' && "no-transform"@[7] == 's' && "no-transform"@[8] == 'f' && "no-transform"@[9] == 'o' && "no-transform"@[10] == 'r' && "no-transform"@[11] == 'm');
    reveal_strlit("must-revalidate");
    assert("must-revalidate"@.len() == 15 && "must-revalidate"@[0] == 'm' && "must-revalidate"@[1] == 'u' && "must-revalidate"@[2] == 's' && "must-revalidate"@[3] == 't' && "must-revalidate"@[4] == '-' && "must-revalidate"@[5] == 'r' && "must-revalidate"@[6] == 'e' && "must-revalidate"@[7] == 'v' && "must-revalidate"@[8] == 'a' && "must-revalidate"@[9] == 'l' && "must-revalidate"@[10] == 'i' && "must-revalidate"@[11] == 'd' && "must-revalidate"@[12] == 'a' && "must-revalidate"@[13] == 't' && "must-revalidate"@[14] == 'e');
    reveal_strlit("proxy-revalidate");
    assert("proxy-revalidate"@.len() == 16 && "proxy-revalidate"@[0] == 'p' && "proxy-revalidate"@[1] == 'r' && "proxy-revalidate"@[2] == 'o' && "proxy-revalidate"@[3] == 'x' && "proxy-revalidate"@[4] == 'y' && "proxy-revalidate"@[5] == '-' && "proxy-revalidate"@[6] == 'r' && "proxy-revalidate"@[7] == 'e' && "proxy-revalidate"@[8] == 'v' && "proxy-revalidate"@[9] == 'a' && "proxy-revalidate"@[10] == 'l' && "proxy-revalidate"@[11] == 'i' && "proxy-revalidate"@[12] == 'd' && "proxy-revalidate"@[13] == 'a' && "proxy-revalidate"@[14] == 't' && "proxy-revalidate"@[15] == 'e');
    reveal_strlit("=");
    assert("="@.len() == 1 && "="@[0] == '=');
    let t = cache_control_text(c);
    match c {
        CacheControl::MaxStale(Some(v)) => {
            lemma_index_of_from("max-stale"@, '=', 0, 9);
            lemma_key_value_at("max-stale"@, decimal(v as nat));
            lemma_usize_text_decimal(v);
        },
        CacheControl::MinFresh(v) => {
            lemma_index_of_from("min-fresh"@, '=', 0, 9);
            lemma_key_value_at("min-fresh"@, decimal(v as nat));
            lemma_usize_text_decimal(v);
        },
        CacheControl::MaxAge(v) => {
            lemma_index_of_from("max-age"@, '=', 0, 7);
            lemma_key_value_at("max-age"@, decimal(v as nat));
            lemma_usize_text_decimal(v);
        },
        CacheControl::Ext(k, Some(v)) => {
            lemma_key_value_at(k@, v@);
        },
        CacheControl::Ext(k, None) => {},
        _ => {
            lemma_without_equals(t);
        },
    }
}

/// A key without `=`, then `=` and a value, is cut into that key and value.
proof fn lemma_key_value_at(k: Seq<char>, v: Seq<char>)
    requires
        index_of_from(k, '=', 0) < 0,
    ensures
        key_value(k + "="@ + v) == (k, Some(v)),
{
    reveal_strlit("=");
    assert("="@.len() == 1 && "="@[0] == '=');
    let s = k + "="@ + v;
    lemma_no_equals(k);
    assert forall|m: int| 0 <= m < k.len() implies s[m] != '=' by {
        assert(s[m] == k[m]);
    }
    lemma_index_of_from(s, '=', 0, k.len() as int);
    assert(s.take(k.len() as int) =~= k);
    assert(s.skip(k.len() as int + 1) =~= v);
}

/// A text in which the search finds no `=` holds none.
proof fn lemma_no_equals(k: Seq<char>)
    requires
        index_of_from(k, '=', 0) < 0,
    ensures
        forall|m: int| 0 <= m < k.len() ==> k[m] != '=',
{
    assert forall|m: int| 0 <= m < k.len() implies k[m] != '=' by {
        if k[m] == '=' {
            lemma_index_found(k, 0, m);
        }
    }
}

/// A text without `=` has no value.
proof fn lemma_without_equals(k: Seq<char>)
    requires
        forall|m: int| 0 <= m < k.len() ==> k[m] != '=',
    ensures
        key_value(k) == (k, None::<Seq<char>>),
{
    lemma_index_of_from(k, '=', 0, k.len() as int);
}

/// The search for `=` from `i` stops at or before an `=` at `m`.
proof fn lemma_index_found(k: Seq<char>, i: int, m: int)
    requires
        0 <= i <= m < k.len(),
        k[m] == '=',
    ensures
        i <= index_of_from(k, '=', i) <= m,
    decreases m - i,
{
    if k[i] != '=' {
        lemma_index_found(k, i + 1, m);
    }
}


/// Whether `r` is what reading the message body tag `s` gives: weak where the text begins
/// with `W/`, and the value between the first and the last `"`; no tag without a `"`.
pub open spec fn mtag_reads(r: Result<MTag, ()>, s: Seq<char>) -> bool {
    let a = index_of_from(s, '"', 0);
    let b = last_index_before(s, '"', s.len() as int);
    if a < 0 {
        r is Err
    } else {
        r matches Ok(t) && t.weak_validator == has_prefix(s, "W/"@) && t.value@ == s.subrange(a + 1, b)
    }
}

/// The text of a message body tag: `W/` where it is weak, then the value in quotes.
pub open spec fn mtag_text(t: MTag) -> Seq<char> {
    (if t.weak_validator { "W/"@ } else { Seq::empty() }) + "\""@ + t.value@ + "\""@
}

/// Where the first and the last `"` of `s` are, if it has one.
fn quote_bounds(s: &str) -> (r: Option<(usize, usize)>)
    ensures
        index_of_from(s@, '"', 0) < 0 ==> r is None,
        index_of_from(s@, '"', 0) >= 0 ==> (r matches Some((a, b)) && a == index_of_from(s@, '"', 0)
            && b == last_index_before(s@, '"', s@.len() as int) && a <= b < s@.len()),
{
    let n = s.unicode_len();
    let mut a: usize = 0;
    while a < n && s.get_char(a) != '"'
        invariant
            n == s@.len(),
            a <= n,
            forall|q: int| 0 <= q < a ==> s@[q] != '"',
        decreases n - a,
    {
        a += 1;
    }
    proof {
        lemma_index_of_from(s@, '"', 0, a as int);
    }
    if a == n {
        return None;
    }
    let mut b: usize = n;
    while b > a + 1 && s.get_char(b - 1) != '"'
        invariant
            n == s@.len(),
            a < b <= n,
            s@[a as int] == '"',
            forall|q: int| b <= q < n ==> s@[q] != '"',
            last_index_before(s@, '"', b as int) == last_index_before(s@, '"', n as int),
        decreases b,
    {
        b -= 1;
    }
    Some((a, b - 1))
}

impl MTag {
    /// Reads a message body tag (see `mtag_reads`). A text with a single `"` cannot be cut, so
    /// `requires` leaves it out.
    pub fn from_str(s: &str) -> (r: Result<MTag, ()>)
        requires
            index_of_from(s@, '"', 0) >= 0 ==> index_of_from(s@, '"', 0) < last_index_before(s@, '"', s@.len() as int),
        ensures
            mtag_reads(r, s@),
    {
        let weak_validator = starts_with(s, "W/");
        match quote_bounds(s) {
            None => Err(()),
            Some((a, b)) => Ok(MTag { weak_validator, value: String::from_str(s.substring_char(a + 1, b)) }),
        }
    }

    /// The text of the tag (see `mtag_text`).
    pub fn to_string(&self) -> (r: String)
        ensures
            r@ == mtag_text(*self),
    {
        let mut s = if self.weak_validator { String::from_str("W/") } else { String::new() };
        s.append("\"");
        s.append(self.value.as_str());
        s.append("\"");
        s
    }
}

/// Reading the text of a message body tag whose value holds no `"` gives the tag back.
pub proof fn lemma_mtag_roundtrip(t: MTag)
    requires
        forall|m: int| 0 <= m < t.value@.len() ==> t.value@[m] != '"',
    ensures
        index_of_from(mtag_text(t), '"', 0) >= 0,
        index_of_from(mtag_text(t), '"', 0) < last_index_before(mtag_text(t), '"', mtag_text(t).len() as int),
        mtag_reads(Ok::<MTag, ()>(t), mtag_text(t)),
{
    reveal_strlit("W/");
    reveal_strlit("\"");
    assert("W/"@.len() == 2 && "W/"@[0] == 'W' && "W/"@[1] == '/');
    assert("\""@.len() == 1 && "\""@[0] == '"');
    let s = mtag_text(t);
    let w = if t.weak_validator { 2int } else { 0int };
    let v = t.value@;
    assert(s.len() == w + v.len() + 2);
    assert forall|m: int| 0 <= m < w implies s[m] != '"' by {}
    assert(s[w] == '"');
    lemma_index_of_from(s, '"', 0, w);
    assert(s[s.len() - 1] == '"');
    assert(last_index_before(s, '"', s.len() as int) == s.len() - 1);
    assert(s.subrange(w + 1, s.len() - 1) =~= v);
    if t.weak_validator {
        assert(s.take(2) =~= "W/"@);
    } else {
        assert(s[0] == '"');
    }
}

/// Whether `r` is what reading connection credentials `s` gives: a `"`, the URL up to the
/// next `"`, then `;` and the credentials in base64.
pub open spec fn connection_credentials_reads(r: Result<ConnectionCredentials, ()>, s: Seq<char>) -> bool {
    let i = index_of_from(s, '"', 1);
    if !(s.len() > 0 && s[0] == '"') || i < 0 {
        r is Err
    } else if !(i + 1 < s.len() && s[i + 1] == ';') {
        r is Err
    } else {
        match base64_decoded(s.skip(i + 2)) {
            None => r is Err,
            Some(cred) => r matches Ok(c) && c.url@ == s.subrange(1, i) && c.cred@ == cred,
        }
    }
}

/// The text of connection credentials: the URL in quotes, `;` and the credentials in base64.
pub open spec fn connection_credentials_text(c: ConnectionCredentials) -> Seq<char> {
    "\""@ + c.url@ + "\";"@ + base64_encoded(c.cred@)
}

impl ConnectionCredentials {
    /// Reads connection credentials (see `connection_credentials_reads`).
    pub fn from_str(s: &str) -> (r: Result<ConnectionCredentials, ()>)
        ensures
            connection_credentials_reads(r, s@),
    {
        let n = s.unicode_len();
        if n == 0 || s.get_char(0) != '"' {
            return Err(());
        }
        let mut i: usize = 1;
        while i < n && s.get_char(i) != '"'
            invariant
                n == s@.len(),
                1 <= i <= n,
                forall|q: int| 1 <= q < i ==> s@[q] != '"',
            decreases n - i,
        {
            i += 1;
        }
        proof {
            lemma_index_of_from(s@, '"', 1, i as int);
        }
        if i == n {
            return Err(());
        }
        if i + 1 >= n || s.get_char(i + 1) != ';' {
            return Err(());
        }
        let url = String::from_str(s.substring_char(1, i));
        let rest = s.substring_char(i + 2, n);
        proof {
            assert(rest@ =~= s@.skip(i + 2));
        }
        match base64_decode(rest) {
            Ok(cred) => Ok(ConnectionCredentials { url, cred }),
            Err(_) => Err(()),
        }
    }

    /// The text of the credentials (see `connection_credentials_text`).
    pub fn to_string(&self) -> (r: String)
        ensures
            r@ == connection_credentials_text(*self),
    {
        let mut s = String::from_str("\"");
        s.append(self.url.as_str());
        s.append("\";");
        let c = base64_encode(self.cred.as_slice());
        s.append(c.as_str());
        s
    }
}

/// Reading the text of connection credentials whose URL holds no `"` gives them back.
pub proof fn lemma_connection_credentials_roundtrip(c: ConnectionCredentials)
    requires
        forall|m: int| 0 <= m < c.url@.len() ==> c.url@[m] != '"',
        base64_text_reads_back(c.cred@),
    ensures
        connection_credentials_reads(Ok::<ConnectionCredentials, ()>(c), connection_credentials_text(c)),
{
    reveal_strlit("\"");
    reveal_strlit("\";");
    assert("\""@.len() == 1 && "\""@[0] == '"');
    assert("\";"@.len() == 2 && "\";"@[0] == '"' && "\";"@[1] == ';');
    let s = connection_credentials_text(c);
    let u = c.url@;
    let i = u.len() as int + 1;
    assert(s[0] == '"');
    assert forall|m: int| 1 <= m < i implies s[m] != '"' by {
        assert(s[m] == u[m - 1]);
    }
    assert(s[i] == '"');
    lemma_index_of_from(s, '"', 1, i);
    assert(s[i + 1] == ';');
    assert(s.subrange(1, i) =~= u);
    assert(s.skip(i + 2) =~= base64_encoded(c.cred@));
}


/// How far reading a request status `s` gets: the sequence number, the status and the text
/// after `reason="`, where the text has the form `cseq=<n> status=<code> reason="...`.
pub open spec fn request_status_parts(s: Seq<char>) -> Option<(usize, Status, Seq<char>)> {
    if !has_prefix(s, "cseq="@) {
        None
    } else {
        let s1 = s.skip(5);
        let i = index_of_from(s1, ' ', 0);
        if i < 0 {
            None
        } else {
            match usize_text(s1.take(i)) {
                None => None,
                Some(cseq) => {
                    let s2 = s1.skip(i + 1);
                    if !has_prefix(s2, "status="@) {
                        None
                    } else {
                        let s3 = s2.skip(7);
                        let j = index_of_from(s3, ' ', 0);
                        if j < 0 {
                            None
                        } else {
                            match usize_text(s3.take(j)) {
                                None => None,
                                Some(code) => match status_of(code) {
                                    None => None,
                                    Some(st) => {
                                        let s4 = s3.skip(j + 1);
                                        if !has_prefix(s4, "reason=\""@) {
                                            None
                                        } else {
                                            Some((cseq, st, s4.skip(8)))
                                        }
                                    },
                                },
                            }
                        }
                    }
                },
            }
        }
    }
}

/// Whether `r` is what reading the request status `s` gives (see `request_status_parts`):
/// the text after `reason="` must end at its first `"`; the reason kept is the first
/// character of that text.
pub open spec fn request_status_reads(r: Result<RequestStatus, ()>, s: Seq<char>) -> bool {
    match request_status_parts(s) {
        None => r is Err,
        Some((cseq, st, rest)) => {
            let k = index_of_from(rest, '"', 0);
            if k < 0 || k != rest.len() - 1 {
                r is Err
            } else {
                r matches Ok(x) && x.cseq == cseq && x.status == st && x.reason@ == rest.take(1)
            }
        },
    }
}

/// The text of a request status: the sequence number, the reason phrase of the status and the
/// reason in quotes.
pub open spec fn request_status_text(x: RequestStatus) -> Seq<char> {
    "cseq="@ + decimal(x.cseq as nat) + " status="@ + status_reason(x.status) + " reason=\""@ + x.reason@ + "\""@
}

impl RequestStatus {
    /// Reads a request status (see `request_status_reads`). The first character of the reason
    /// is cut as one octet, so `requires` leaves out a reason that begins with a character of
    /// more octets.
    pub fn from_str(s: &str) -> (r: Result<RequestStatus, ()>)
        requires
            match request_status_parts(s@) {
                Some((_, _, rest)) => index_of_from(rest, '"', 0) >= 0 ==> (rest[0] as u32) < 0x80,
                None => true,
            },
        ensures
            request_status_reads(r, s@),
    {
        let s1 = match strip_prefix(s, "cseq=") {
            Some(v) => v,
            None => return Err(()),
        };
        proof {
            reveal_strlit("cseq=");
            reveal_strlit("status=");
            reveal_strlit("reason=\"");
            assert("cseq="@.len() == 5);
            assert("status="@.len() == 7);
            assert("reason=\""@.len() == 8);
        }
        let i = match find_char(s1, ' ') {
            Some(i) => i,
            None => return Err(()),
        };
        let cseq = match parse_usize(s1.substring_char(0, i)) {
            Some(v) => v,
            None => {
                proof {
                    assert(s1@.subrange(0, i as int) =~= s1@.take(i as int));
                }
                return Err(());
            },
        };
        proof {
            assert(s1@.subrange(0, i as int) =~= s1@.take(i as int));
        }
        let n1 = s1.unicode_len();
        let s2 = s1.substring_char(i + 1, n1);
        proof {
            assert(s2@ =~= s1@.skip(i + 1));
        }
        let s3 = match strip_prefix(s2, "status=") {
            Some(v) => v,
            None => return Err(()),
        };
        let j = match find_char(s3, ' ') {
            Some(j) => j,
            None => return Err(()),
        };
        let code_text = s3.substring_char(0, j);
        proof {
            assert(code_text@ =~= s3@.take(j as int));
        }
        let code = match parse_usize(code_text) {
            Some(v) => v,
            None => return Err(()),
        };
        let status = match Status::try_from(code) {
            Ok(v) => v,
            Err(()) => return Err(()),
        };
        let n3 = s3.unicode_len();
        let s4 = s3.substring_char(j + 1, n3);
        proof {
            assert(s4@ =~= s3@.skip(j + 1));
        }
        let s5 = match strip_prefix(s4, "reason=\"") {
            Some(v) => v,
            None => return Err(()),
        };
        let k = match find_char(s5, '"') {
            Some(k) => k,
            None => return Err(()),
        };
        let reason = String::from_str(s5.substring_char(0, 1));
        proof {
            assert(s5@.subrange(0, 1) =~= s5@.take(1));
        }
        if k != s5.unicode_len() - 1 {
            return Err(());
        }
        Ok(RequestStatus { cseq, status, reason })
    }

    /// The text of the request status (see `request_status_text`).
    pub fn to_string(&self) -> (r: String)
        ensures
            r@ == request_status_text(*self),
    {
        let mut s = String::from_str("cseq=");
        push_decimal(&mut s, self.cseq as u64);
        s.append(" status=");
        let st = self.status.to_string();
        s.append(st.as_str());
        s.append(" reason=\"");
        s.append(self.reason.as_str());
        s.append("\"");
        s
    }
}


/// The texts of the strings of `v`.
pub open spec fn string_texts(v: Seq<String>) -> Seq<Seq<char>> {
    v.map_values(|x: String| x@)
}

fn to_strings(v: Vec<&str>) -> (r: Vec<String>)
    ensures
        string_texts(r@) == texts(v@),
{
    let mut r: Vec<String> = Vec::new();
    let mut i: usize = 0;
    while i < v.len()
        invariant
            i <= v@.len(),
            r@.len() == i,
            string_texts(r@) == texts(v@.take(i as int)),
        decreases v@.len() - i,
    {
        let ghost before = r@;
        let x = String::from_str(v[i]);
        r.push(x);
        proof {
            assert forall|k: int| 0 <= k < i + 1 implies #[trigger] string_texts(r@)[k] == texts(v@.take(i + 1))[k] by {
                if k < i {
                    assert(r@[k] == before[k]);
                    assert(string_texts(before)[k] == texts(v@.take(i as int))[k]);
                } else {
                    assert(r@[k] == x);
                }
            }
            assert(string_texts(r@) =~= texts(v@.take(i + 1)));
        }
        i += 1;
    }
    assert(v@.take(v@.len() as int) =~= v@);
    r
}

/// The uppercase hexadecimal digit of `d` (below 16).
pub open spec fn hex_upper_digit(d: nat) -> char {
    if d < 10 { (0x30 + d) as char } else { (0x37 + d) as char }
}

/// The uppercase hexadecimal numeral of `n`, without leading zeros.
pub open spec fn hex_upper(n: nat) -> Seq<char>
    decreases n,
{
    if n < 16 { seq![hex_upper_digit(n)] } else { hex_upper(n / 16).push(hex_upper_digit(n % 16)) }
}

fn push_hex_upper(out: &mut String, v: u32)
    ensures
        final(out)@ == old(out)@ + hex_upper(v as nat),
    decreases v,
{
    if v >= 16 {
        push_hex_upper(out, v / 16);
    }
    let d = v % 16;
    let c = if d < 10 { (0x30 + d as u8) as char } else { (0x37 + d as u8) as char };
    proof {
        assert(c == hex_upper_digit(d as nat));
    }
    push_char(out, c);
    assert(final(out)@ =~= old(out)@ + hex_upper(v as nat));
}

/// How far reading RTP information `s` gets: the URL and the text after ` ssrc=`, where the
/// text has the form `url="<url>" ssrc=...`.
pub open spec fn rtp_info_parts(s: Seq<char>) -> Option<(Seq<char>, Seq<char>)> {
    if !has_prefix(s, "url=\""@) {
        None
    } else {
        let s1 = s.skip(5);
        let i = index_of_from(s1, '"', 0);
        if i < 0 {
            None
        } else {
            let s2 = s1.skip(i);
            if !has_prefix(s2, "\" ssrc="@) { None } else { Some((s1.take(i), s2.skip(7))) }
        }
    }
}

/// Whether `r` is what reading RTP information `s` gives (see `rtp_info_parts`): the
/// synchronization source in decimal up to the first `:`, then the parameters cut at each `;`.
pub open spec fn rtp_info_reads(r: Result<RtpInfo, ()>, s: Seq<char>) -> bool {
    match rtp_info_parts(s) {
        None => r is Err,
        Some((url, rest)) => {
            let j = index_of_from(rest, ':', 0);
            if j < 0 {
                r is Err
            } else {
                match u32_text(rest.take(j)) {
                    None => r is Err,
                    Some(ssrc) => r matches Ok(x) && x.url@ == url && x.ssrc == ssrc
                        && string_texts(x.params@) == pieces(rest.skip(j + 1), ';'),
                }
            }
        },
    }
}

/// The parameters from the `i`-th on, each after a `;`.
pub open spec fn params_text(p: Seq<String>, i: int) -> Seq<char>
    decreases p.len() - i,
{
    if i < 0 || i >= p.len() { Seq::empty() } else { ";"@ + p[i]@ + params_text(p, i + 1) }
}

/// The text of RTP information: the URL in quotes, the synchronization source in uppercase
/// hexadecimal, `:` and the parameters joined by `;`.
pub open spec fn rtp_info_text(x: RtpInfo) -> Seq<char> {
    "url=\""@ + x.url@ + "\" ssrc="@ + hex_upper(x.ssrc as nat) + ":"@ + x.params@[0]@ + params_text(x.params@, 1)
}

impl RtpInfo {
    /// Reads RTP information (see `rtp_info_reads`).
    pub fn from_str(s: &str) -> (r: Result<RtpInfo, ()>)
        ensures
            rtp_info_reads(r, s@),
    {
        proof {
            reveal_strlit("url=\"");
            reveal_strlit("\" ssrc=");
            assert("url=\""@.len() == 5);
            assert("\" ssrc="@.len() == 7);
        }
        let s1 = match strip_prefix(s, "url=\"") {
            Some(v) => v,
            None => return Err(()),
        };
        let i = match find_char(s1, '"') {
            Some(i) => i,
            None => return Err(()),
        };
        let n1 = s1.unicode_len();
        let url = String::from_str(s1.substring_char(0, i));
        let s2 = s1.substring_char(i, n1);
        proof {
            assert(s2@ =~= s1@.skip(i as int));
            assert(s1@.subrange(0, i as int) =~= s1@.take(i as int));
        }
        let s3 = match strip_prefix(s2, "\" ssrc=") {
            Some(v) => v,
            None => return Err(()),
        };
        let j = match find_char(s3, ':') {
            Some(j) => j,
            None => return Err(()),
        };
        let n3 = s3.unicode_len();
        let ssrc_text = s3.substring_char(0, j);
        proof {
            assert(ssrc_text@ =~= s3@.take(j as int));
        }
        let ssrc = match parse_usize(ssrc_text) {
            Some(v) => if v <= 0xffff_ffff { v as u32 } else { return Err(()) },
            None => return Err(()),
        };
        let rest = s3.substring_char(j + 1, n3);
        proof {
            assert(rest@ =~= s3@.skip(j + 1));
        }
        let params = to_strings(split_char(rest, ';'));
        Ok(RtpInfo { url, ssrc, params })
    }

    /// The text of the RTP information (see `rtp_info_text`); it needs a parameter.
    pub fn to_string(&self) -> (r: String)
        requires
            self.params@.len() > 0,
        ensures
            r@ == rtp_info_text(*self),
    {
        let mut s = String::from_str("url=\"");
        s.append(self.url.as_str());
        s.append("\" ssrc=");
        push_hex_upper(&mut s, self.ssrc);
        s.append(":");
        s.append(self.params[0].as_str());
        let ghost head = s@;
        let mut i: usize = 1;
        while i < self.params.len()
            invariant
                1 <= i <= self.params@.len(),
                s@ + params_text(self.params@, i as int) == head + params_text(self.params@, 1),
            decreases self.params@.len() - i,
        {
            let ghost before = s@;
            s.append(";");
            s.append(self.params[i].as_str());
            proof {
                assert(before + params_text(self.params@, i as int) =~= s@ + params_text(self.params@, i + 1));
            }
            i += 1;
        }
        assert(s@ =~= head + params_text(self.params@, 1));
        s
    }
}


/// The value that `str::parse::<u8>` reads from `s`.
pub open spec fn u8_text(s: Seq<char>) -> Option<u8> {
    match usize_text(s) {
        Some(v) => if v <= 255 { Some(v as u8) } else { None },
        None => None,
    }
}

fn parse_u8(s: &str) -> (r: Result<u8, ()>)
    ensures
        match u8_text(s@) {
            Some(v) => r == Ok::<u8, ()>(v),
            None => r is Err,
        },
{
    match parse_usize(s) {
        Some(v) => if v <= 255 { Ok(v as u8) } else { Err(()) },
        None => Err(()),
    }
}

/// Whether `m` is what reading the mode `p` gives: a known mode, or an extension with the text.
pub open spec fn mode_reads(m: Mode, p: Seq<char>) -> bool {
    match mode_parse(p) {
        Some(x) => m == x,
        None => m matches Mode::Ext(v) && v@ == p,
    }
}

/// Whether every piece of an address list begins or ends with `"`.
pub open spec fn addresses_quoted(ps: Seq<Seq<char>>) -> bool {
    forall|i: int| 0 <= i < ps.len() ==> (#[trigger] ps[i]).len() > 0 && (ps[i][0] == '"' || ps[i].last() == '"')
}

/// The quoted modes of a `mode` value without its quotes.
pub open spec fn mode_list_text(t: Seq<char>) -> Seq<char> {
    t.subrange(1, t.len() - 1)
}

/// Whether the `mode` value `t` is in quotes.
pub open spec fn quoted(t: Seq<char>) -> bool {
    t.len() > 0 && t[0] == '"' && t.last() == '"'
}

/// The two numbers of an `interleaved` value: cut at its first `-`; without one, the whole
/// parameter text is taken for the first number and there is no second.
pub open spec fn interleaved_parts(s: Seq<char>, t: Seq<char>) -> (Seq<char>, Option<Seq<char>>) {
    let d = index_of_from(t, '-', 0);
    if d < 0 { (s, None) } else { (t.take(d), Some(t.skip(d + 1))) }
}

/// Whether `r` is what reading the transport parameter `s` gives. The text is cut at its first
/// `=`; each known key takes its value (`ssrc` is read as a number of layers); an address list
/// is cut at each `/` and every address must begin or end with `"`; the modes are in quotes,
/// cut at each `,`; any other text is an extension.
pub open spec fn transport_param_reads(r: Result<TransportParam, ()>, s: Seq<char>) -> bool {
    let (k, v) = key_value(s);
    if v is None {
        if k == "unicast"@ {
            r == Ok::<TransportParam, ()>(TransportParam::Unicast)
        } else if k == "multicast"@ {
            r == Ok::<TransportParam, ()>(TransportParam::Multicast)
        } else if k == "RTCP-mux"@ {
            r == Ok::<TransportParam, ()>(TransportParam::RtcpMux)
        } else {
            r matches Ok(TransportParam::Ext(a, None)) && a@ == k
        }
    } else {
        let t = v->0;
        if k == "interleaved"@ {
            let (a, b) = interleaved_parts(s, t);
            match (u8_text(a), b) {
                (None, _) => r is Err,
                (Some(x), None) => r == Ok::<TransportParam, ()>(TransportParam::Interleaved(x, None)),
                (Some(x), Some(bb)) => match u8_text(bb) {
                    None => r is Err,
                    Some(y) => r == Ok::<TransportParam, ()>(TransportParam::Interleaved(x, Some(y))),
                },
            }
        } else if k == "ttl"@ {
            match u8_text(t) {
                Some(x) => r == Ok::<TransportParam, ()>(TransportParam::Ttl(x)),
                None => r is Err,
            }
        } else if k == "layers"@ || k == "ssrc"@ {
            match usize_text(t) {
                Some(x) => r == Ok::<TransportParam, ()>(TransportParam::Layers(x)),
                None => r is Err,
            }
        } else if k == "mode"@ {
            if !quoted(t) {
                r is Err
            } else {
                let ps = pieces(mode_list_text(t), ',');
                r matches Ok(TransportParam::Mode(ms)) && ms@.len() == ps.len()
                    && forall|i: int| 0 <= i < ps.len() ==> mode_reads(#[trigger] ms@[i], ps[i])
            }
        } else if k == "dest_addr"@ || k == "src_addr"@ {
            let ps = pieces(t, '/');
            if !addresses_quoted(ps) {
                r is Err
            } else if k == "dest_addr"@ {
                r matches Ok(TransportParam::DstAddr(l)) && string_texts(l@) == ps
            } else {
                r matches Ok(TransportParam::SrcAddr(l)) && string_texts(l@) == ps
            }
        } else if k == "setup"@ {
            match con_trans_setup_parse(t) {
                Some(x) => r == Ok::<TransportParam, ()>(TransportParam::Setup(x)),
                None => r is Err,
            }
        } else if k == "connection"@ {
            match con_trans_con_parse(t) {
                Some(x) => r == Ok::<TransportParam, ()>(TransportParam::Connection(x)),
                None => r is Err,
            }
        } else if k == "MIKEY"@ {
            match base64_decoded(t) {
                Some(b) => r matches Ok(TransportParam::MiKey(x)) && x@ == b,
                None => r is Err,
            }
        } else {
            r matches Ok(TransportParam::Ext(a, Some(b))) && a@ == k && b@ == t
        }
    }
}

/// Whether a `mode` value is the single character `"`, which reading cannot cut.
pub open spec fn lone_quote_mode(s: Seq<char>) -> bool {
    key_value(s).0 == "mode"@ && key_value(s).1 == Some(seq!['"'])
}

fn parse_modes(t: &str) -> (r: Vec<Mode>)
    ensures
        r@.len() == pieces(t@, ',').len(),
        forall|i: int| 0 <= i < r@.len() ==> mode_reads(#[trigger] r@[i], pieces(t@, ',')[i]),
{
    let ps = split_char(t, ',');
    let mut ms: Vec<Mode> = Vec::new();
    let mut i: usize = 0;
    while i < ps.len()
        invariant
            i <= ps@.len(),
            texts(ps@) == pieces(t@, ','),
            ms@.len() == i,
            forall|j: int| 0 <= j < i ==> mode_reads(#[trigger] ms@[j], pieces(t@, ',')[j]),
        decreases ps@.len() - i,
    {
        assert(texts(ps@)[i as int] == ps@[i as int]@);
        let m = match Mode::from_str(ps[i]) {
            Ok(m) => m,
            Err(()) => Mode::Play,
        };
        ms.push(m);
        i += 1;
    }
    ms
}

fn parse_addresses(t: &str) -> (r: Result<Vec<String>, ()>)
    ensures
        addresses_quoted(pieces(t@, '/')) ==> (r matches Ok(l) && string_texts(l@) == pieces(t@, '/')),
        !addresses_quoted(pieces(t@, '/')) ==> r is Err,
{
    let ps = split_char(t, '/');
    let mut i: usize = 0;
    while i < ps.len()
        invariant
            i <= ps@.len(),
            texts(ps@) == pieces(t@, '/'),
            forall|j: int| 0 <= j < i ==> (#[trigger] texts(ps@)[j]).len() > 0
                && (texts(ps@)[j][0] == '"' || texts(ps@)[j].last() == '"'),
        decreases ps@.len() - i,
    {
        let p = ps[i];
        assert(texts(ps@)[i as int] == p@);
        let n = p.unicode_len();
        if n == 0 || (p.get_char(0) != '"' && p.get_char(n - 1) != '"') {
            return Err(());
        }
        i += 1;
    }
    Ok(to_strings(ps))
}

impl TransportParam {
    /// Reads a transport parameter (see `transport_param_reads`). A `mode` value of a single
    /// `"` cannot be cut, so `requires` leaves it out.
    pub fn from_str(s: &str) -> (r: Result<TransportParam, ()>)
        requires
            !lone_quote_mode(s@),
        ensures
            transport_param_reads(r, s@),
    {
        let (k, v) = split_key_value(s);
        match v {
            None => {
                if str_eq(k, "unicast") {
                    Ok(TransportParam::Unicast)
                } else if str_eq(k, "multicast") {
                    Ok(TransportParam::Multicast)
                } else if str_eq(k, "RTCP-mux") {
                    Ok(TransportParam::RtcpMux)
                } else {
                    Ok(TransportParam::Ext(String::from_str(k), None))
                }
            },
            Some(t) => {
                if str_eq(k, "interleaved") {
                    let (a, b) = match split_once(t, '-') {
                        Some((a, b)) => (a, Some(b)),
                        None => (s, None),
                    };
                    let x = match parse_u8(a) {
                        Ok(x) => x,
                        Err(()) => return Err(()),
                    };
                    let y = match b {
                        None => None,
                        Some(bb) => match parse_u8(bb) {
                            Ok(y) => Some(y),
                            Err(()) => return Err(()),
                        },
                    };
                    Ok(TransportParam::Interleaved(x, y))
                } else if str_eq(k, "ttl") {
                    match parse_u8(t) {
                        Ok(x) => Ok(TransportParam::Ttl(x)),
                        Err(()) => Err(()),
                    }
                } else if str_eq(k, "layers") || str_eq(k, "ssrc") {
                    match parse_usize(t) {
                        Some(x) => Ok(TransportParam::Layers(x)),
                        None => Err(()),
                    }
                } else if str_eq(k, "mode") {
                    let n = t.unicode_len();
                    if n == 0 || t.get_char(0) != '"' || t.get_char(n - 1) != '"' {
                        return Err(());
                    }
                    proof {
                        if n == 1 {
                            assert(t@ =~= seq!['"']);
                        }
                    }
                    let inner = t.substring_char(1, n - 1);
                    Ok(TransportParam::Mode(parse_modes(inner)))
                } else if str_eq(k, "dest_addr") {
                    match parse_addresses(t) {
                        Ok(l) => Ok(TransportParam::DstAddr(l)),
                        Err(()) => Err(()),
                    }
                } else if str_eq(k, "src_addr") {
                    match parse_addresses(t) {
                        Ok(l) => Ok(TransportParam::SrcAddr(l)),
                        Err(()) => Err(()),
                    }
                } else if str_eq(k, "setup") {
                    match ConTransSetup::from_str(t) {
                        Ok(x) => Ok(TransportParam::Setup(x)),
                        Err(()) => Err(()),
                    }
                } else if str_eq(k, "connection") {
                    match ConTransCon::from_str(t) {
                        Ok(x) => Ok(TransportParam::Connection(x)),
                        Err(()) => Err(()),
                    }
                } else if str_eq(k, "MIKEY") {
                    match base64_decode(t) {
                        Ok(x) => Ok(TransportParam::MiKey(x)),
                        Err(_) => Err(()),
                    }
                } else {
                    Ok(TransportParam::Ext(String::from_str(k), Some(String::from_str(t))))
                }
            },
        }
    }
}


/// The text of the modes from the `i`-th on, each after a `,`.
pub open spec fn modes_text(m: Seq<Mode>, i: int) -> Seq<char>
    decreases m.len() - i,
{
    if i < 0 || i >= m.len() { Seq::empty() } else { ","@ + mode_text(m[i]) + modes_text(m, i + 1) }
}

/// The text of the addresses from the `i`-th on, each after a `/` and in quotes.
pub open spec fn addresses_text(a: Seq<String>, i: int) -> Seq<char>
    decreases a.len() - i,
{
    if i < 0 || i >= a.len() { Seq::empty() } else { "/\""@ + a[i]@ + "\""@ + addresses_text(a, i + 1) }
}

/// Whether a transport parameter can be written: its lists of modes and addresses are not
/// empty.
pub open spec fn transport_param_writable(p: TransportParam) -> bool {
    match p {
        TransportParam::Mode(v) => v@.len() > 0,
        TransportParam::DstAddr(v) => v@.len() > 0,
        TransportParam::SrcAddr(v) => v@.len() > 0,
        _ => true,
    }
}

/// The text of a transport parameter. The modes are written in quotes and the address lists
/// as quoted addresses joined by `/`, each without its key.
pub open spec fn transport_param_text(p: TransportParam) -> Seq<char> {
    match p {
        TransportParam::Unicast => "unicast"@,
        TransportParam::Multicast => "multicast"@,
        TransportParam::Interleaved(v, None) => "interleaved"@ + "="@ + decimal(v as nat),
        TransportParam::Interleaved(v, Some(w)) => "interleaved"@ + "="@ + decimal(v as nat) + "-"@ + decimal(w as nat),
        TransportParam::Ttl(v) => "ttl"@ + "="@ + decimal(v as nat),
        TransportParam::Layers(v) => "layers"@ + "="@ + decimal(v as nat),
        TransportParam::Ssrc(v) => "ssrc"@ + "="@ + decimal(v as nat),
        TransportParam::Mode(v) => "\""@ + mode_text(v@[0]) + modes_text(v@, 1) + "\""@,
        TransportParam::DstAddr(v) => "\""@ + v@[0]@ + "\""@ + addresses_text(v@, 1),
        TransportParam::SrcAddr(v) => "\""@ + v@[0]@ + "\""@ + addresses_text(v@, 1),
        TransportParam::Setup(v) => "setup"@ + "="@ + con_trans_setup_text(v),
        TransportParam::Connection(v) => "connection"@ + "="@ + con_trans_con_text(v),
        TransportParam::RtcpMux => "RTCP-mux"@,
        TransportParam::MiKey(v) => "MIKEY"@ + "="@ + base64_encoded(v@),
        TransportParam::Ext(key, None) => key@,
        TransportParam::Ext(key, Some(val)) => key@ + "="@ + val@,
    }
}

fn push_addresses(s: &mut String, v: &Vec<String>)
    requires
        v@.len() > 0,
    ensures
        final(s)@ == old(s)@ + "\""@ + v@[0]@ + "\""@ + addresses_text(v@, 1),
{
    s.append("\"");
    s.append(v[0].as_str());
    s.append("\"");
    let ghost head = s@;
    let mut i: usize = 1;
    while i < v.len()
        invariant
            1 <= i <= v@.len(),
            s@ + addresses_text(v@, i as int) == head + addresses_text(v@, 1),
        decreases v@.len() - i,
    {
        let ghost before = s@;
        s.append("/\"");
        s.append(v[i].as_str());
        s.append("\"");
        proof {
            assert(before + addresses_text(v@, i as int) =~= s@ + addresses_text(v@, i + 1));
        }
        i += 1;
    }
    assert(s@ =~= head + addresses_text(v@, 1));
}

impl TransportParam {
    /// The text of the parameter (see `transport_param_text`).
    pub fn to_string(&self) -> (r: String)
        requires
            transport_param_writable(*self),
        ensures
            r@ == transport_param_text(*self),
    {
        match self {
            TransportParam::Unicast => String::from_str("unicast"),
            TransportParam::Multicast => String::from_str("multicast"),
            TransportParam::Interleaved(v, w) => {
                let mut s = String::from_str("interleaved");
                s.append("=");
                push_decimal(&mut s, *v as u64);
                match w {
                    Some(w) => {
                        s.append("-");
                        push_decimal(&mut s, *w as u64);
                    },
                    None => {},
                }
                s
            },
            TransportParam::Ttl(v) => {
                let mut s = String::from_str("ttl");
                s.append("=");
                push_decimal(&mut s, *v as u64);
                s
            },
            TransportParam::Layers(v) => {
                let mut s = String::from_str("layers");
                s.append("=");
                push_decimal(&mut s, *v as u64);
                s
            },
            TransportParam::Ssrc(v) => {
                let mut s = String::from_str("ssrc");
                s.append("=");
                push_decimal(&mut s, *v as u64);
                s
            },
            TransportParam::Mode(v) => {
                let mut s = String::from_str("\"");
                let m0 = v[0].to_string();
                s.append(m0.as_str());
                let ghost head = s@;
                let mut i: usize = 1;
                while i < v.len()
                    invariant
                        1 <= i <= v@.len(),
                        s@ + modes_text(v@, i as int) == head + modes_text(v@, 1),
                    decreases v@.len() - i,
                {
                    let ghost before = s@;
                    s.append(",");
                    let m = v[i].to_string();
                    s.append(m.as_str());
                    proof {
                        assert(before + modes_text(v@, i as int) =~= s@ + modes_text(v@, i + 1));
                    }
                    i += 1;
                }
                assert(s@ =~= head + modes_text(v@, 1));
                s.append("\"");
                s
            },
            TransportParam::DstAddr(v) => {
                let mut s = String::new();
                push_addresses(&mut s, v);
                s
            },
            TransportParam::SrcAddr(v) => {
                let mut s = String::new();
                push_addresses(&mut s, v);
                s
            },
            TransportParam::Setup(v) => {
                let mut s = String::from_str("setup");
                s.append("=");
                let t = v.to_string();
                s.append(t.as_str());
                s
            },
            TransportParam::Connection(v) => {
                let mut s = String::from_str("connection");
                s.append("=");
                let t = v.to_string();
                s.append(t.as_str());
                s
            },
            TransportParam::RtcpMux => String::from_str("RTCP-mux"),
            TransportParam::MiKey(v) => {
                let mut s = String::from_str("MIKEY");
                s.append("=");
                let t = base64_encode(v.as_slice());
                s.append(t.as_str());
                s
            },
            TransportParam::Ext(key, None) => key.clone(),
            TransportParam::Ext(key, Some(val)) => {
                let mut s = key.clone();
                s.append("=");
                s.append(val.as_str());
                s
            },
        }
    }
}

/// Whether reading the transport parameter `p` fails.
pub open spec fn transport_param_fails(p: Seq<char>) -> bool {
    transport_param_reads(Err::<TransportParam, ()>(()), p)
}

/// Whether `r` is what reading the transport specification `s` gives: cut at each `;`, the
/// first piece is the identifier and every later piece a parameter; one that fails fails the
/// whole.
pub open spec fn transport_reads(r: Result<Transport, ()>, s: Seq<char>) -> bool {
    let ps = pieces(s, ';');
    if exists|i: int| 1 <= i < ps.len() && transport_param_fails(#[trigger] ps[i]) {
        r is Err
    } else {
        r matches Ok(t) && t.id@ == ps[0] && t.params@.len() == ps.len() - 1
            && forall|i: int| 0 <= i < t.params@.len()
                ==> transport_param_reads(Ok::<TransportParam, ()>(#[trigger] t.params@[i]), ps[i + 1])
    }
}

/// Whether reading the transport specification `s` would cut a lone `"` as modes: a parameter
/// of that form that every parameter before it lets reading reach.
pub open spec fn transport_reaches_lone_quote(s: Seq<char>) -> bool {
    let ps = pieces(s, ';');
    exists|i: int| 1 <= i < ps.len() && lone_quote_mode(#[trigger] ps[i])
        && forall|j: int| 1 <= j < i ==> !transport_param_fails(#[trigger] ps[j])
}

/// The text of the parameters from the `i`-th on, each after a `;`.
pub open spec fn transport_params_text(p: Seq<TransportParam>, i: int) -> Seq<char>
    decreases p.len() - i,
{
    if i < 0 || i >= p.len() { Seq::empty() } else { ";"@ + transport_param_text(p[i]) + transport_params_text(p, i + 1) }
}

impl Transport {
    /// Reads a transport specification (see `transport_reads`). A parameter `mode` of a lone
    /// `"` that reading reaches cannot be cut, so `requires` leaves it out.
    pub fn from_str(s: &str) -> (r: Result<Transport, ()>)
        requires
            !transport_reaches_lone_quote(s@),
        ensures
            transport_reads(r, s@),
    {
        let ps = split_char(s, ';');
        let ghost qs = pieces(s@, ';');
        assert(texts(ps@)[0] == ps@[0]@);
        let id = String::from_str(ps[0]);
        let mut params: Vec<TransportParam> = Vec::new();
        let mut i: usize = 1;
        while i < ps.len()
            invariant
                1 <= i <= ps@.len(),
                texts(ps@) == qs,
                qs == pieces(s@, ';'),
                !transport_reaches_lone_quote(s@),
                params@.len() == i - 1,
                forall|j: int| 1 <= j < i ==> !transport_param_fails(#[trigger] qs[j]),
                forall|j: int| 0 <= j < params@.len()
                    ==> transport_param_reads(Ok::<TransportParam, ()>(#[trigger] params@[j]), qs[j + 1]),
            decreases ps@.len() - i,
        {
            assert(texts(ps@)[i as int] == ps@[i as int]@);
            proof {
                if lone_quote_mode(qs[i as int]) {
                    assert(transport_reaches_lone_quote(s@));
                }
            }
            match TransportParam::from_str(ps[i]) {
                Ok(p) => {
                    params.push(p);
                },
                Err(()) => {
                    assert(transport_param_fails(qs[i as int]));
                    return Err(());
                },
            }
            i += 1;
        }
        Ok(Transport { id, params })
    }

    /// The text of the transport specification: the identifier and each parameter after a
    /// `;`.
    pub fn to_string(&self) -> (r: String)
        requires
            forall|i: int| 0 <= i < self.params@.len() ==> transport_param_writable(#[trigger] self.params@[i]),
        ensures
            r@ == self.id@ + transport_params_text(self.params@, 0),
    {
        let mut s = self.id.clone();
        let ghost head = s@;
        let mut i: usize = 0;
        while i < self.params.len()
            invariant
                i <= self.params@.len(),
                forall|j: int| 0 <= j < self.params@.len() ==> transport_param_writable(#[trigger] self.params@[j]),
                s@ + transport_params_text(self.params@, i as int) == head + transport_params_text(self.params@, 0),
            decreases self.params@.len() - i,
        {
            let ghost before = s@;
            s.append(";");
            let t = self.params[i].to_string();
            s.append(t.as_str());
            proof {
                assert(before + transport_params_text(self.params@, i as int) =~= s@ + transport_params_text(self.params@, i + 1));
            }
            i += 1;
        }
        assert(s@ =~= head + transport_params_text(self.params@, 0));
        s
    }
}


/// Whether `a` is what reading the hash algorithm `p` gives: `sha-256`, or another with the
/// text.
pub open spec fn hash_algorithm_reads(a: AcceptCredentialsCredentialHashAlgorithm, p: Seq<char>) -> bool {
    match accept_credentials_credential_hash_algorithm_parse(p) {
        Some(x) => a == x,
        None => a matches AcceptCredentialsCredentialHashAlgorithm::Other(v) && v@ == p,
    }
}

/// Whether `r` is what reading accepted credentials information `s` gives: a `"`, then up to
/// the first `";` the URI (the `"` kept with it), then the pieces cut at each `;`: the hash
/// algorithm and the hash in base64.
pub open spec fn accept_credentials_info_reads(r: Result<AcceptCredentialsInfo, ()>, s: Seq<char>) -> bool {
    let e = find_from(s, "\";"@, 0);
    if s[0] != '"' || e < 0 {
        r is Err
    } else {
        let ps = pieces(s.skip(e + 2), ';');
        if ps.len() < 2 {
            r is Err
        } else {
            match base64_decoded(ps[1]) {
                None => r is Err,
                Some(h) => r matches Ok(x) && x.uri@ == s.subrange(1, e + 1) && hash_algorithm_reads(x.algo, ps[0])
                    && x.hash@ == h,
            }
        }
    }
}

/// The text of accepted credentials information: the URI in quotes, `;`, the hash algorithm,
/// `;` and the hash in base64.
pub open spec fn accept_credentials_info_text(x: AcceptCredentialsInfo) -> Seq<char> {
    "\""@ + x.uri@ + "\";"@ + accept_credentials_credential_hash_algorithm_text(x.algo) + ";"@
        + base64_encoded(x.hash@)
}

impl AcceptCredentialsInfo {
    /// Reads accepted credentials information (see `accept_credentials_info_reads`). Its first
    /// character is looked at without a check, so `requires` leaves out the empty text.
    pub fn from_str(s: &str) -> (r: Result<AcceptCredentialsInfo, ()>)
        requires
            s@.len() > 0,
        ensures
            accept_credentials_info_reads(r, s@),
    {
        if s.get_char(0) != '"' {
            return Err(());
        }
        let e = match find_str(s, "\";") {
            Some(e) => e,
            None => return Err(()),
        };
        proof {
            reveal_strlit("\";");
            assert("\";"@.len() == 2);
        }
        let n = s.unicode_len();
        let rest = s.substring_char(e + 2, n);
        proof {
            assert(rest@ =~= s@.skip(e + 2));
        }
        let ps = split_char(rest, ';');
        let uri = String::from_str(s.substring_char(1, e + 1));
        assert(texts(ps@)[0] == ps@[0]@);
        let algo = match AcceptCredentialsCredentialHashAlgorithm::from_str(ps[0]) {
            Ok(a) => a,
            Err(()) => return Err(()),
        };
        if ps.len() < 2 {
            return Err(());
        }
        assert(texts(ps@)[1] == ps@[1]@);
        let hash = match base64_decode(ps[1]) {
            Ok(h) => h,
            Err(_) => return Err(()),
        };
        Ok(AcceptCredentialsInfo { uri, algo, hash })
    }

    /// The text of the information (see `accept_credentials_info_text`).
    pub fn to_string(&self) -> (r: String)
        ensures
            r@ == accept_credentials_info_text(*self),
    {
        let mut s = String::from_str("\"");
        s.append(self.uri.as_str());
        s.append("\";");
        let a = self.algo.to_string();
        s.append(a.as_str());
        s.append(";");
        let h = base64_encode(self.hash.as_slice());
        s.append(h.as_str());
        s
    }
}

/// Whether reading the accepted credentials information `p` fails.
pub open spec fn accept_credentials_info_fails(p: Seq<char>) -> bool {
    accept_credentials_info_reads(Err::<AcceptCredentialsInfo, ()>(()), p)
}

/// Whether `r` is what reading accepted credentials `s` gives: `User`, `Proxy` or `Any`; after
/// `User ` a list of information cut at each `,` and trimmed, where one that fails fails the
/// whole; any other text is an extension cut at its first `=`.
pub open spec fn accept_credentials_reads(r: Result<AcceptCredentials, ()>, s: Seq<char>) -> bool {
    if s == "User"@ {
        r matches Ok(AcceptCredentials::User(v)) && v@.len() == 0
    } else if s == "Proxy"@ {
        r == Ok::<AcceptCredentials, ()>(AcceptCredentials::Proxy)
    } else if s == "Any"@ {
        r == Ok::<AcceptCredentials, ()>(AcceptCredentials::Any)
    } else if has_prefix(s, "User "@) {
        let ps = pieces(s.skip(5), ',');
        if exists|i: int| 0 <= i < ps.len() && accept_credentials_info_fails(trimmed(#[trigger] ps[i])) {
            r is Err
        } else {
            r matches Ok(AcceptCredentials::User(v)) && v@.len() == ps.len()
                && forall|i: int| 0 <= i < ps.len()
                    ==> accept_credentials_info_reads(Ok::<AcceptCredentialsInfo, ()>(#[trigger] v@[i]), trimmed(ps[i]))
        }
    } else {
        let (k, v) = key_value(s);
        r matches Ok(AcceptCredentials::Ext(a, b)) && a@ == k && opt_text(b) == v
    }
}

/// Whether reading accepted credentials `s` reaches an empty entry in its list, which it cannot
/// look at: one that every entry before it lets reading reach.
pub open spec fn accept_credentials_reaches_empty(s: Seq<char>) -> bool {
    &&& s != "User"@ && s != "Proxy"@ && s != "Any"@ && has_prefix(s, "User "@)
    &&& exists|i: int| 0 <= i < pieces(s.skip(5), ',').len()
        && trimmed(#[trigger] pieces(s.skip(5), ',')[i]).len() == 0
        && forall|j: int| 0 <= j < i ==> !accept_credentials_info_fails(trimmed(#[trigger] pieces(s.skip(5), ',')[j]))
}

/// The text of the entries from the `i`-th on, each after a `,`.
pub open spec fn infos_text(v: Seq<AcceptCredentialsInfo>, i: int) -> Seq<char>
    decreases v.len() - i,
{
    if i < 0 || i >= v.len() { Seq::empty() } else { ","@ + accept_credentials_info_text(v[i]) + infos_text(v, i + 1) }
}

/// The text of accepted credentials. A non-empty list is written as `User `, its first entry,
/// then every entry after a `,` (the first once more); an extension with a value as the key, a
/// space and the value.
pub open spec fn accept_credentials_text(x: AcceptCredentials) -> Seq<char> {
    match x {
        AcceptCredentials::User(v) => if v@.len() == 0 {
            "User"@
        } else {
            "User "@ + accept_credentials_info_text(v@[0]) + infos_text(v@, 0)
        },
        AcceptCredentials::Proxy => "Proxy"@,
        AcceptCredentials::Any => "Any"@,
        AcceptCredentials::Ext(key, None) => key@,
        AcceptCredentials::Ext(key, Some(val)) => key@ + " "@ + val@,
    }
}

impl AcceptCredentials {
    /// Reads accepted credentials (see `accept_credentials_reads`). An empty entry in the list
    /// cannot be looked at, so `requires` leaves out texts whose reading reaches one.
    pub fn from_str(s: &str) -> (r: Result<AcceptCredentials, ()>)
        requires
            !accept_credentials_reaches_empty(s@),
        ensures
            accept_credentials_reads(r, s@),
    {
        if str_eq(s, "User") {
            return Ok(AcceptCredentials::User(Vec::new()));
        }
        if str_eq(s, "Proxy") {
            return Ok(AcceptCredentials::Proxy);
        }
        if str_eq(s, "Any") {
            return Ok(AcceptCredentials::Any);
        }
        proof {
            reveal_strlit("User ");
            assert("User "@.len() == 5);
        }
        match strip_prefix(s, "User ") {
            Some(list) => {
                let ps = split_char(list, ',');
                let ghost qs = pieces(s@.skip(5), ',');
                let mut infos: Vec<AcceptCredentialsInfo> = Vec::new();
                let mut i: usize = 0;
                while i < ps.len()
                    invariant
                        i <= ps@.len(),
                        texts(ps@) == qs,
                        qs == pieces(s@.skip(5), ','),
                        has_prefix(s@, "User "@),
                        s@ != "User"@ && s@ != "Proxy"@ && s@ != "Any"@,
                        !accept_credentials_reaches_empty(s@),
                        infos@.len() == i,
                        forall|j: int| 0 <= j < i ==> !accept_credentials_info_fails(trimmed(#[trigger] qs[j])),
                        forall|j: int| 0 <= j < i
                            ==> accept_credentials_info_reads(Ok::<AcceptCredentialsInfo, ()>(#[trigger] infos@[j]), trimmed(qs[j])),
                    decreases ps@.len() - i,
                {
                    assert(texts(ps@)[i as int] == ps@[i as int]@);
                    let p = trim(ps[i]);
                    proof {
                        if p@.len() == 0 {
                            assert(accept_credentials_reaches_empty(s@));
                        }
                    }
                    match AcceptCredentialsInfo::from_str(p) {
                        Ok(x) => infos.push(x),
                        Err(()) => {
                            assert(accept_credentials_info_fails(trimmed(qs[i as int])));
                            return Err(());
                        },
                    }
                    i += 1;
                }
                Ok(AcceptCredentials::User(infos))
            },
            None => {
                let (k, v) = split_key_value(s);
                Ok(AcceptCredentials::Ext(String::from_str(k), opt_string(v)))
            },
        }
    }

    /// The text of the accepted credentials (see `accept_credentials_text`).
    pub fn to_string(&self) -> (r: String)
        ensures
            r@ == accept_credentials_text(*self),
    {
        match self {
            AcceptCredentials::User(v) => {
                if v.len() == 0 {
                    return String::from_str("User");
                }
                let mut s = String::from_str("User ");
                let first = v[0].to_string();
                s.append(first.as_str());
                let ghost head = s@;
                let mut i: usize = 0;
                while i < v.len()
                    invariant
                        i <= v@.len(),
                        s@ + infos_text(v@, i as int) == head + infos_text(v@, 0),
                    decreases v@.len() - i,
                {
                    let ghost before = s@;
                    s.append(",");
                    let t = v[i].to_string();
                    s.append(t.as_str());
                    proof {
                        assert(before + infos_text(v@, i as int) =~= s@ + infos_text(v@, i + 1));
                    }
                    i += 1;
                }
                assert(s@ =~= head + infos_text(v@, 0));
                s
            },
            AcceptCredentials::Proxy => String::from_str("Proxy"),
            AcceptCredentials::Any => String::from_str("Any"),
            AcceptCredentials::Ext(key, None) => key.clone(),
            AcceptCredentials::Ext(key, Some(val)) => {
                let mut s = key.clone();
                s.append(" ");
                s.append(val.as_str());
                s
            },
        }
    }
}


/// Whether a transport parameter `key`, with or without a value, is one that the reading knows.
pub open spec fn transport_param_shape(key: Seq<char>, value: Option<Seq<char>>) -> bool {
    if value is None {
        key == "unicast"@ || key == "multicast"@ || key == "RTCP-mux"@
    } else {
        key == "interleaved"@ || key == "ttl"@ || key == "layers"@ || key == "ssrc"@ || key == "mode"@
            || key == "dest_addr"@ || key == "src_addr"@ || key == "setup"@ || key == "connection"@
            || key == "MIKEY"@
    }
}

/// Reading the text of a transport parameter gives it back, where it is written with its key:
/// not the modes or an address list (written without their key), not a synchronization source
/// (read as layers), not a lone interleaved channel (read from the whole text); a key holds no
/// `=` and is not read as a known parameter; the base64 text of a key reads back.
pub proof fn lemma_transport_param_roundtrip(p: TransportParam)
    requires
        !(p is Mode) && !(p is DstAddr) && !(p is SrcAddr) && !(p is Ssrc),
        !(p matches TransportParam::Interleaved(_, None)),
        p matches TransportParam::MiKey(v) ==> base64_text_reads_back(v@),
        p matches TransportParam::Ext(k, v) ==> index_of_from(k@, '=', 0) < 0
            && !transport_param_shape(k@, opt_text(v)),
    ensures
        transport_param_reads(Ok::<TransportParam, ()>(p), transport_param_text(p)),
{
    reveal_strlit("unicast");
    assert("unicast"@.len() == 7 && "unicast"@[0] == 'u' && "unicast"@[1] == 'n' && "unicast"@[2] == 'i' && "unicast"@[3] == 'c' && "unicast"@[4] == 'a' && "unicast"@[5] == 's' && "unicast"@[6] == 't');
    reveal_strlit("multicast");
    assert("multicast"@.len() == 9 && "multicast"@[0] == 'm' && "multicast"@[1] == 'u' && "multicast"@[2] == 'l' && "multicast"@[3] == 't' && "multicast"@[4] == 'i' && "multicast"@[5] == 'c' && "multicast"@[6] == 'a' && "multicast"@[7] == 's' && "multicast"@[8] == 't');
    reveal_strlit("RTCP-mux");
    assert("RTCP-mux"@.len() == 8 && "RTCP-mux"@[0] == 'R' && "RTCP-mux"@[1] == 'T' && "RTCP-mux"@[2] == 'C' && "RTCP-mux"@[3] == 'P' && "RTCP-mux"@[4] == '-' && "RTCP-mux"@[5] == 'm' && "RTCP-mux"@[6] == 'u' && "RTCP-mux"@[7] == 'x');
    reveal_strlit("interleaved");
    assert("interleaved"@.len() == 11 && "interleaved"@[0] == 'i' && "interleaved"@[1] == 'n' && "interleaved"@[2] == 't' && "interleaved"@[3] == 'e' && "interleaved"@[4] == 'r' && "interleaved"@[5] == 'l' && "interleaved"@[6] == 'e' && "interleaved"@[7] == 'a' && "interleaved"@[8] == 'v' && "interleaved"@[9] == 'e' && "interleaved"@[10] == 'd');
    reveal_strlit("ttl");
    assert("ttl"@.len() == 3 && "ttl"@[0] == 't' && "ttl"@[1] == 't' && "ttl"@[2] == 'l');
    reveal_strlit("layers");
    assert("layers"@.len() == 6 && "layers"@[0] == 'l' && "layers"@[1] == 'a' && "layers"@[2] == 'y' && "layers"@[3] == 'e' && "layers"@[4] == 'r' && "layers"@[5] == 's');
    reveal_strlit("ssrc");
    assert("ssrc"@.len() == 4 && "ssrc"@[0] == 's' && "ssrc"@[1] == 's' && "ssrc"@[2] == 'r' && "ssrc"@[3] == 'c');
    reveal_strlit("mode");
    assert("mode"@.len() == 4 && "mode"@[0] == 'm' && "mode"@[1] == 'o' && "mode"@[2] == 'd' && "mode"@[3] == 'e');
    reveal_strlit("dest_addr");
    assert("dest_addr"@.len() == 9 && "dest_addr"@[0] == 'd' && "dest_addr"@[1] == 'e' && "dest_addr"@[2] == 's' && "dest_addr"@[3] == 't' && "dest_addr"@[4] == '_' && "dest_addr"@[5] == 'a' && "dest_addr"@[6] == 'd' && "dest_addr"@[7] == 'd' && "dest_addr"@[8] == 'r');
    reveal_strlit("src_addr");
    assert("src_addr"@.len() == 8 && "src_addr"@[0] == 's' && "src_addr"@[1] == 'r' && "src_addr"@[2] == 'c' && "src_addr"@[3] == '_' && "src_addr"@[4] == 'a' && "src_addr"@[5] == 'd' && "src_addr"@[6] == 'd' && "src_addr"@[7] == 'r');
    reveal_strlit("setup");
    assert("setup"@.len() == 5 && "setup"@[0] == 's' && "setup"@[1] == 'e' && "setup"@[2] == 't' && "setup"@[3] == 'u' && "setup"@[4] == 'p');
    reveal_strlit("connection");
    assert("connection"@.len() == 10 && "connection"@[0] == 'c' && "connection"@[1] == 'o' && "connection"@[2] == 'n' && "connection"@[3] == 'n' && "connection"@[4] == 'e' && "connection"@[5] == 'c' && "connection"@[6] == 't' && "connection"@[7] == 'i' && "connection"@[8] == 'o' && "connection"@[9] == 'n');
    reveal_strlit("MIKEY");
    assert("MIKEY"@.len() == 5 && "MIKEY"@[0] == 'M' && "MIKEY"@[1] == 'I' && "MIKEY"@[2] == 'K' && "MIKEY"@[3] == 'E' && "MIKEY"@[4] == 'Y');
    reveal_strlit("=");
    assert("="@.len() == 1 && "="@[0] == '=');
    reveal_strlit("-");
    assert("-"@.len() == 1 && "-"@[0] == '-');
    match p {
        TransportParam::Interleaved(a, Some(b)) => {
            let da = decimal(a as nat);
            let db = decimal(b as nat);
            lemma_index_of_from("interleaved"@, '=', 0, 11);
            assert(transport_param_text(p) =~= "interleaved"@ + "="@ + (da + "-"@ + db));
            lemma_key_value_at("interleaved"@, da + "-"@ + db);
            lemma_decimal_digits(a as nat);
            let t = da + "-"@ + db;
            assert forall|m: int| 0 <= m < da.len() implies t[m] != '-' by {
                assert(t[m] == da[m]);
                assert('0' <= da[m] <= '9');
            }
            lemma_index_of_from(t, '-', 0, da.len() as int);
            assert(t.take(da.len() as int) =~= da);
            assert(t.skip(da.len() as int + 1) =~= db);
            lemma_usize_text_decimal(a as usize);
            lemma_usize_text_decimal(b as usize);
        },
        TransportParam::Ttl(v) => {
            lemma_index_of_from("ttl"@, '=', 0, 3);
            lemma_key_value_at("ttl"@, decimal(v as nat));
            lemma_usize_text_decimal(v as usize);
        },
        TransportParam::Layers(v) => {
            lemma_index_of_from("layers"@, '=', 0, 6);
            lemma_key_value_at("layers"@, decimal(v as nat));
            lemma_usize_text_decimal(v);
        },
        TransportParam::Setup(x) => {
            lemma_index_of_from("setup"@, '=', 0, 5);
            lemma_key_value_at("setup"@, con_trans_setup_text(x));
            lemma_con_trans_setup_text_roundtrip(x);
        },
        TransportParam::Connection(x) => {
            lemma_index_of_from("connection"@, '=', 0, 10);
            lemma_key_value_at("connection"@, con_trans_con_text(x));
            lemma_con_trans_con_text_roundtrip(x);
        },
        TransportParam::MiKey(v) => {
            lemma_index_of_from("MIKEY"@, '=', 0, 5);
            lemma_key_value_at("MIKEY"@, base64_encoded(v@));
        },
        TransportParam::Ext(k, Some(v)) => {
            lemma_key_value_at(k@, v@);
        },
        TransportParam::Ext(k, None) => {},
        _ => {
            lemma_without_equals(transport_param_text(p));
        },
    }
}


/// The parameters from the `i`-th on, joined by `;`, are cut back into those parameters, where
/// none holds a `;`.
proof fn lemma_params_pieces(ps: Seq<String>, i: int)
    requires
        0 <= i < ps.len(),
        forall|k: int, m: int| 0 <= k < ps.len() && 0 <= m < ps[k]@.len() ==> #[trigger] ps[k]@[m] != ';',
    ensures
        pieces(ps[i]@ + params_text(ps, i + 1), ';') == string_texts(ps).skip(i),
    decreases ps.len() - i,
{
    reveal_strlit(";");
    assert(";"@ =~= seq![';']);
    assert forall|m: int| 0 <= m < ps[i]@.len() implies #[trigger] ps[i]@[m] != ';' by {}
    if i + 1 < ps.len() {
        lemma_params_pieces(ps, i + 1);
        assert(ps[i]@ + params_text(ps, i + 1) =~= ps[i]@ + seq![';'] + (ps[i + 1]@ + params_text(ps, i + 2)));
        lemma_pieces_cons(ps[i]@, ';', ps[i + 1]@ + params_text(ps, i + 2));
        assert(seq![ps[i]@] + string_texts(ps).skip(i + 1) =~= string_texts(ps).skip(i));
    } else {
        assert(params_text(ps, i + 1) == Seq::<char>::empty());
        assert(ps[i]@ + Seq::<char>::empty() =~= ps[i]@);
        lemma_pieces_single(ps[i]@, ';');
        assert(seq![ps[i]@] =~= string_texts(ps).skip(i));
    }
}

/// Reading the text of RTP information gives it back, where the URL holds no `"`, there are
/// parameters and none holds a `;`, and the synchronization source is below 10 (it is written
/// in hexadecimal and read in decimal, which agree only there).
pub proof fn lemma_rtp_info_roundtrip(x: RtpInfo)
    requires
        forall|m: int| 0 <= m < x.url@.len() ==> x.url@[m] != '"',
        x.params@.len() > 0,
        forall|k: int, m: int| 0 <= k < x.params@.len() && 0 <= m < x.params@[k]@.len()
            ==> #[trigger] x.params@[k]@[m] != ';',
        x.ssrc < 10,
    ensures
        rtp_info_reads(Ok::<RtpInfo, ()>(x), rtp_info_text(x)),
{
    reveal_strlit("url=\"");
    reveal_strlit("\" ssrc=");
    reveal_strlit(":");
    assert("url=\""@.len() == 5 && "url=\""@[4] == '"');
    assert("\" ssrc="@.len() == 7 && "\" ssrc="@[0] == '"');
    assert(":"@.len() == 1 && ":"@[0] == ':');
    let s = rtp_info_text(x);
    let u = x.url@;
    let h = hex_upper(x.ssrc as nat);
    let tail = x.params@[0]@ + params_text(x.params@, 1);
    assert(h == decimal(x.ssrc as nat));
    assert(h.len() == 1 && h[0] != ':');
    assert(s =~= "url=\""@ + (u + ("\" ssrc="@ + (h + ":"@ + tail))));
    assert(s.take(5) =~= "url=\""@);
    let s1 = s.skip(5);
    assert(s1 =~= u + ("\" ssrc="@ + (h + ":"@ + tail)));
    assert forall|m: int| 0 <= m < u.len() implies s1[m] != '"' by {
        assert(s1[m] == u[m]);
    }
    assert(s1[u.len() as int] == '"');
    lemma_index_of_from(s1, '"', 0, u.len() as int);
    assert(s1.take(u.len() as int) =~= u);
    let s2 = s1.skip(u.len() as int);
    assert(s2 =~= "\" ssrc="@ + (h + ":"@ + tail));
    assert(s2.take(7) =~= "\" ssrc="@);
    let s3 = s2.skip(7);
    assert(s3 =~= h + ":"@ + tail);
    assert(s3[0] != ':' && s3[1] == ':');
    lemma_index_of_from(s3, ':', 0, 1);
    assert(s3.take(1) =~= h);
    assert(s3.skip(2) =~= tail);
    lemma_usize_text_decimal(x.ssrc as usize);
    lemma_params_pieces(x.params@, 0);
    assert(string_texts(x.params@).skip(0) =~= string_texts(x.params@));
}


/// Whether the parameter `p` is one whose text reads back (see
/// `lemma_transport_param_roundtrip`).
pub open spec fn transport_param_reads_back(p: TransportParam) -> bool {
    &&& !(p is Mode) && !(p is DstAddr) && !(p is SrcAddr) && !(p is Ssrc)
    &&& !(p matches TransportParam::Interleaved(_, None))
    &&& (p matches TransportParam::MiKey(v) ==> base64_text_reads_back(v@))
    &&& (p matches TransportParam::Ext(k, v) ==> index_of_from(k@, '=', 0) < 0
        && !transport_param_shape(k@, opt_text(v)))
}

/// The texts of the parameters.
pub open spec fn transport_param_texts(ps: Seq<TransportParam>) -> Seq<Seq<char>> {
    ps.map_values(|p: TransportParam| transport_param_text(p))
}

proof fn lemma_transport_params_pieces(ps: Seq<TransportParam>, i: int)
    requires
        0 <= i < ps.len(),
        forall|k: int, m: int| 0 <= k < ps.len() && 0 <= m < transport_param_text(ps[k]).len()
            ==> #[trigger] transport_param_text(ps[k])[m] != ';',
    ensures
        pieces(transport_param_text(ps[i]) + transport_params_text(ps, i + 1), ';') == transport_param_texts(ps).skip(i),
    decreases ps.len() - i,
{
    reveal_strlit(";");
    assert(";"@ =~= seq![';']);
    let t = transport_param_text(ps[i]);
    assert forall|m: int| 0 <= m < t.len() implies #[trigger] t[m] != ';' by {}
    if i + 1 < ps.len() {
        lemma_transport_params_pieces(ps, i + 1);
        assert(t + transport_params_text(ps, i + 1)
            =~= t + seq![';'] + (transport_param_text(ps[i + 1]) + transport_params_text(ps, i + 2)));
        lemma_pieces_cons(t, ';', transport_param_text(ps[i + 1]) + transport_params_text(ps, i + 2));
        assert(seq![t] + transport_param_texts(ps).skip(i + 1) =~= transport_param_texts(ps).skip(i));
    } else {
        assert(t + Seq::<char>::empty() =~= t);
        lemma_pieces_single(t, ';');
        assert(seq![t] =~= transport_param_texts(ps).skip(i));
    }
}

/// Reading the text of a transport specification gives it back, where the identifier holds no
/// `;` and every parameter reads back from a text without `;`.
pub proof fn lemma_transport_roundtrip(x: Transport)
    requires
        forall|m: int| 0 <= m < x.id@.len() ==> x.id@[m] != ';',
        forall|i: int| 0 <= i < x.params@.len() ==> transport_param_reads_back(#[trigger] x.params@[i]),
        forall|k: int, m: int| 0 <= k < x.params@.len() && 0 <= m < transport_param_text(x.params@[k]).len()
            ==> #[trigger] transport_param_text(x.params@[k])[m] != ';',
    ensures
        transport_reads(Ok::<Transport, ()>(x), x.id@ + transport_params_text(x.params@, 0)),
{
    reveal_strlit(";");
    assert(";"@ =~= seq![';']);
    let ps = x.params@;
    let s = x.id@ + transport_params_text(ps, 0);
    assert forall|m: int| 0 <= m < x.id@.len() implies #[trigger] x.id@[m] != ';' by {}
    let qs = pieces(s, ';');
    if ps.len() == 0 {
        assert(s =~= x.id@);
        lemma_pieces_single(x.id@, ';');
    } else {
        assert(s =~= x.id@ + seq![';'] + (transport_param_text(ps[0]) + transport_params_text(ps, 1)));
        lemma_pieces_cons(x.id@, ';', transport_param_text(ps[0]) + transport_params_text(ps, 1));
        lemma_transport_params_pieces(ps, 0);
        assert(qs =~= seq![x.id@] + transport_param_texts(ps));
    }
    assert(qs.len() == ps.len() + 1);
    assert forall|i: int| 0 <= i < ps.len() implies
        transport_param_reads(Ok::<TransportParam, ()>(#[trigger] ps[i]), qs[i + 1]) by {
        assert(qs[i + 1] == transport_param_text(ps[i]));
        lemma_transport_param_roundtrip(ps[i]);
    }
    assert forall|i: int| 1 <= i < qs.len() implies !transport_param_fails(#[trigger] qs[i]) by {
        assert(transport_param_reads(Ok::<TransportParam, ()>(ps[i - 1]), qs[i]));
    }
}

/// A parameter of a `Via` value.
#[derive(Clone, Debug, Eq, PartialEq)]
pub enum ViaParam {
    Ttl(u8),
    MAddr(String),
    Received(IpAddr),
    Ext(String, Option<String>),
}

/// The key and value of a `Via` parameter: the text cut at its first space, or the whole text
/// and no value.
pub open spec fn space_key_value(s: Seq<char>) -> (Seq<char>, Option<Seq<char>>) {
    let i = index_of_from(s, ' ', 0);
    if i < 0 { (s, None) } else { (s.take(i), Some(s.skip(i + 1))) }
}

/// Whether `r` is what reading the `Via` parameter `s` gives. The text is cut at its first
/// space (not at `=`); with a value, `ttl` takes a number below 256, `maddr` any text and
/// `received` an IP address; any other text is an extension.
pub open spec fn via_param_reads(r: Result<ViaParam, ()>, s: Seq<char>) -> bool {
    let (k, v) = space_key_value(s);
    match v {
        Some(t) => if k == "ttl"@ {
            match u8_text(t) {
                Some(n) => r == Ok::<ViaParam, ()>(ViaParam::Ttl(n)),
                None => r is Err,
            }
        } else if k == "maddr"@ {
            r matches Ok(ViaParam::MAddr(x)) && x@ == t
        } else if k == "received"@ {
            if ip_readable(t) {
                r matches Ok(ViaParam::Received(a)) && ip_read(t, Some(a))
            } else {
                r is Err
            }
        } else {
            r matches Ok(ViaParam::Ext(a, Some(b))) && a@ == k && b@ == t
        },
        None => r matches Ok(ViaParam::Ext(a, None)) && a@ == k,
    }
}

/// The text of a `Via` parameter: `key=value`, or the bare key of an extension without a value.
pub open spec fn via_param_text(p: ViaParam) -> Seq<char> {
    match p {
        ViaParam::Ttl(v) => "ttl="@ + decimal(v as nat),
        ViaParam::MAddr(v) => "maddr="@ + v@,
        ViaParam::Received(a) => "received="@ + ip_text(a),
        ViaParam::Ext(k, None) => k@,
        ViaParam::Ext(k, Some(v)) => k@ + "="@ + v@,
    }
}

impl ViaParam {
    /// Reads a `Via` parameter (see `via_param_reads`).
    pub fn from_str(s: &str) -> (r: Result<ViaParam, ()>)
        ensures
            via_param_reads(r, s@),
    {
        let (k, v) = match split_once(s, ' ') {
            Some((k, v)) => (k, Some(v)),
            None => (s, None),
        };
        match v {
            Some(t) => {
                if str_eq(k, "ttl") {
                    match parse_u8(t) {
                        Ok(n) => Ok(ViaParam::Ttl(n)),
                        Err(e) => Err(e),
                    }
                } else if str_eq(k, "maddr") {
                    Ok(ViaParam::MAddr(String::from_str(t)))
                } else if str_eq(k, "received") {
                    match parse_ip(t) {
                        Some(a) => Ok(ViaParam::Received(a)),
                        None => Err(()),
                    }
                } else {
                    Ok(ViaParam::Ext(String::from_str(k), Some(String::from_str(t))))
                }
            },
            None => Ok(ViaParam::Ext(String::from_str(k), None)),
        }
    }

    /// The text of the parameter (see `via_param_text`).
    pub fn to_string(&self) -> (r: String)
        ensures
            r@ == via_param_text(*self),
    {
        match self {
            ViaParam::Ttl(v) => {
                let mut s = String::from_str("ttl=");
                push_decimal(&mut s, *v as u64);
                s
            },
            ViaParam::MAddr(v) => {
                let mut s = String::from_str("maddr=");
                s.append(v.as_str());
                s
            },
            ViaParam::Received(a) => {
                let mut s = String::from_str("received=");
                push_ip(&mut s, a);
                s
            },
            ViaParam::Ext(k, None) => k.clone(),
            ViaParam::Ext(k, Some(v)) => {
                let mut s = k.clone();
                s.append("=");
                s.append(v.as_str());
                s
            },
        }
    }
}

/// The proxy or gateway a message passed, as a `Via` header names it.
#[derive(Clone, Debug, Eq, PartialEq)]
pub struct Via {
    pub protocol_name: String,
    pub protocol_version: String,
    pub protocol_transport: TransportProtocol,
    pub sent_by: String,
    pub params: Vec<ViaParam>,
}

/// The parts of a `Via` value: before its first space the sent protocol, cut at its first two
/// `/` into name, version and transport; after the space the pieces cut at each `;`, the host
/// first and then the parameters. Nothing without the space or the two `/`.
pub open spec fn via_parts(s: Seq<char>) -> Option<(Seq<char>, Seq<char>, Seq<char>, Seq<Seq<char>>)> {
    let i = index_of_from(s, ' ', 0);
    if i < 0 {
        None
    } else {
        let sp = s.take(i);
        let j = index_of_from(sp, '/', 0);
        if j < 0 {
            None
        } else {
            let rest = sp.skip(j + 1);
            let k = index_of_from(rest, '/', 0);
            if k < 0 {
                None
            } else {
                Some((sp.take(j), rest.take(k), rest.skip(k + 1), pieces(s.skip(i + 1), ';')))
            }
        }
    }
}

/// Whether `x` is the transport protocol that reading the text `t` gives.
pub open spec fn transport_protocol_reads(x: TransportProtocol, t: Seq<char>) -> bool {
    match transport_protocol_parse(t) {
        Some(y) => x == y,
        None => x matches TransportProtocol::Other(v) && v@ == t,
    }
}

/// Whether reading the `Via` parameter `p` fails.
pub open spec fn via_param_fails(p: Seq<char>) -> bool {
    via_param_reads(Err::<ViaParam, ()>(()), p)
}

/// Whether `r` is what reading the `Via` value `s` gives (see `via_parts`); a parameter that
/// fails fails the whole.
pub open spec fn via_reads(r: Result<Via, ()>, s: Seq<char>) -> bool {
    match via_parts(s) {
        None => r is Err,
        Some((name, version, transport, ps)) => if exists|i: int| 1 <= i < ps.len() && via_param_fails(#[trigger] ps[i]) {
            r is Err
        } else {
            r matches Ok(v) && v.protocol_name@ == name && v.protocol_version@ == version
                && transport_protocol_reads(v.protocol_transport, transport) && v.sent_by@ == ps[0]
                && v.params@.len() == ps.len() - 1
                && forall|i: int| 0 <= i < v.params@.len()
                    ==> via_param_reads(Ok::<ViaParam, ()>(#[trigger] v.params@[i]), ps[i + 1])
        },
    }
}

/// The text of the parameters from the `i`-th on, each after a `;`.
pub open spec fn via_params_text(p: Seq<ViaParam>, i: int) -> Seq<char>
    decreases p.len() - i,
{
    if i < 0 || i >= p.len() { Seq::empty() } else { seq![';'] + via_param_text(p[i]) + via_params_text(p, i + 1) }
}

/// The text of a `Via` value: name, version and transport separated by `/`, a space, the host,
/// then each parameter after a `;`.
pub open spec fn via_text(v: Via) -> Seq<char> {
    v.protocol_name@ + seq!['/'] + v.protocol_version@ + seq!['/'] + transport_protocol_text(v.protocol_transport)
        + seq![' '] + v.sent_by@ + via_params_text(v.params@, 0)
}

impl Via {
    /// Reads a `Via` value (see `via_reads`).
    pub fn from_str(s: &str) -> (r: Result<Via, ()>)
        ensures
            via_reads(r, s@),
    {
        let (sent_protocol, rest) = match split_once(s, ' ') {
            Some(p) => p,
            None => return Err(()),
        };
        let (protocol_name, sp) = match split_once(sent_protocol, '/') {
            Some(p) => p,
            None => return Err(()),
        };
        let (protocol_version, transport) = match split_once(sp, '/') {
            Some(p) => p,
            None => return Err(()),
        };
        let protocol_transport = match TransportProtocol::from_str(transport) {
            Ok(x) => x,
            Err(e) => return Err(e),
        };
        let ps = split_char(rest, ';');
        let ghost qs = pieces(rest@, ';');
        proof {
            assert(via_parts(s@) == Some((protocol_name@, protocol_version@, transport@, qs)));
        }
        assert(texts(ps@)[0] == ps@[0]@);
        let sent_by = String::from_str(ps[0]);
        let mut params: Vec<ViaParam> = Vec::new();
        let mut i: usize = 1;
        while i < ps.len()
            invariant
                1 <= i <= ps@.len(),
                via_parts(s@) == Some((protocol_name@, protocol_version@, transport@, qs)),
                qs.len() == ps@.len(),
                texts(ps@) == qs,
                params@.len() == i - 1,
                forall|j: int| 1 <= j < i ==> !via_param_fails(#[trigger] qs[j]),
                forall|j: int| 0 <= j < params@.len()
                    ==> via_param_reads(Ok::<ViaParam, ()>(#[trigger] params@[j]), qs[j + 1]),
            decreases ps@.len() - i,
        {
            assert(texts(ps@)[i as int] == ps@[i as int]@);
            match ViaParam::from_str(ps[i]) {
                Ok(p) => {
                    params.push(p);
                },
                Err(()) => {
                    assert(via_param_fails(qs[i as int]));
                    assert(via_parts(s@) is Some);
                    assert(via_parts(s@).unwrap().3 == qs);
                    return Err(());
                },
            }
            i += 1;
        }
        Ok(Via {
            protocol_name: String::from_str(protocol_name),
            protocol_version: String::from_str(protocol_version),
            protocol_transport,
            sent_by,
            params,
        })
    }

    /// The text of the value (see `via_text`).
    pub fn to_string(&self) -> (r: String)
        ensures
            r@ == via_text(*self),
    {
        let mut s = self.protocol_name.clone();
        proof {
            reveal_strlit("/");
            reveal_strlit(" ");
            reveal_strlit(";");
        }
        s.append("/");
        s.append(self.protocol_version.as_str());
        s.append("/");
        let t = self.protocol_transport.to_string();
        s.append(t.as_str());
        s.append(" ");
        s.append(self.sent_by.as_str());
        let ghost head = s@;
        let mut i: usize = 0;
        while i < self.params.len()
            invariant
                i <= self.params@.len(),
                s@ + via_params_text(self.params@, i as int) == head + via_params_text(self.params@, 0),
            decreases self.params@.len() - i,
        {
            let ghost before = s@;
            s.append(";");
            let p = self.params[i].to_string();
            s.append(p.as_str());
            proof {
                reveal_strlit(";");
                assert(";"@ =~= seq![';']);
                assert(before + via_params_text(self.params@, i as int) =~= s@ + via_params_text(self.params@, i + 1));
            }
            i += 1;
        }
        proof {
            assert(s@ =~= head + via_params_text(self.params@, 0));
            assert(s@ =~= via_text(*self));
        }
        s
    }
}

proof fn lemma_via_params_pieces(x: Seq<char>, p: Seq<ViaParam>, i: int)
    requires
        0 <= i <= p.len(),
        forall|m: int| 0 <= m < x.len() ==> #[trigger] x[m] != ';',
        forall|j: int, m: int| i <= j < p.len() && 0 <= m < via_param_text(p[j]).len()
            ==> #[trigger] via_param_text(p[j])[m] != ';',
    ensures
        pieces(x + via_params_text(p, i), ';') == seq![x] + Seq::new((p.len() - i) as nat, |j: int| via_param_text(p[i + j])),
    decreases p.len() - i,
{
    if i == p.len() {
        assert(x + via_params_text(p, i) =~= x);
        lemma_pieces_single(x, ';');
        assert(seq![x] + Seq::new((p.len() - i) as nat, |j: int| via_param_text(p[i + j])) =~= seq![x]);
    } else {
        let t = via_param_text(p[i]);
        assert forall|m: int| 0 <= m < t.len() implies #[trigger] t[m] != ';' by {
            assert(via_param_text(p[i])[m] != ';');
        }
        lemma_via_params_pieces(t, p, i + 1);
        assert(x + via_params_text(p, i) =~= x + seq![';'] + (t + via_params_text(p, i + 1)));
        lemma_pieces_cons(x, ';', t + via_params_text(p, i + 1));
        assert(seq![x] + (seq![t] + Seq::new((p.len() - (i + 1)) as nat, |j: int| via_param_text(p[i + 1 + j])))
            =~= seq![x] + Seq::new((p.len() - i) as nat, |j: int| via_param_text(p[i + j])));
    }
}

/// Writing a `Via` value and reading the text back gives the same value, where the name and
/// version hold no `/` or space, the transport's text no space (and a transport written by
/// another name is none of the named ones), the host no `;`, and every parameter is a bare
/// extension name without `;` or space. (Other parameters are written with `=` but read at a
/// space, so they do not read back.)
pub proof fn lemma_via_roundtrip(v: Via)
    requires
        forall|m: int| 0 <= m < v.protocol_name@.len() ==> #[trigger] v.protocol_name@[m] != '/' && v.protocol_name@[m] != ' ',
        forall|m: int| 0 <= m < v.protocol_version@.len() ==> #[trigger] v.protocol_version@[m] != '/' && v.protocol_version@[m] != ' ',
        forall|m: int| 0 <= m < transport_protocol_text(v.protocol_transport).len() ==> #[trigger] transport_protocol_text(v.protocol_transport)[m] != ' ',
        v.protocol_transport is Other ==> transport_protocol_parse(transport_protocol_text(v.protocol_transport)) is None,
        forall|m: int| 0 <= m < v.sent_by@.len() ==> #[trigger] v.sent_by@[m] != ';',
        forall|j: int| 0 <= j < v.params@.len() ==> (#[trigger] v.params@[j] matches ViaParam::Ext(k, None)
            && forall|m: int| 0 <= m < k@.len() ==> #[trigger] k@[m] != ';' && k@[m] != ' '),
    ensures
        via_reads(Ok::<Via, ()>(v), via_text(v)),
{
    let n = v.protocol_name@;
    let ver = v.protocol_version@;
    let tr = transport_protocol_text(v.protocol_transport);
    let b = v.sent_by@;
    let p = v.params@;
    let ptext = via_params_text(p, 0);
    let s = via_text(v);
    let sp = n + seq!['/'] + ver + seq!['/'] + tr;
    assert(s =~= sp + seq![' '] + (b + ptext));
    let i = sp.len() as int;
    assert forall|m: int| 0 <= m < i implies #[trigger] s[m] != ' ' by {
        assert(s[m] == sp[m]);
        if m < n.len() {
            assert(sp[m] == n[m]);
        } else if m == n.len() {
        } else if m < n.len() + 1 + ver.len() {
            assert(sp[m] == ver[m - n.len() - 1]);
        } else if m == n.len() + 1 + ver.len() {
        } else {
            assert(sp[m] == tr[m - n.len() - 2 - ver.len()]);
        }
    }
    lemma_index_of_from(s, ' ', 0, i);
    assert(index_of_from(s, ' ', 0) == i);
    assert(s.take(i) =~= sp);
    assert(s.skip(i + 1) =~= b + ptext);
    assert forall|m: int| 0 <= m < n.len() implies #[trigger] sp[m] != '/' by {
        assert(sp[m] == n[m]);
    }
    lemma_index_of_from(sp, '/', 0, n.len() as int);
    let rest = sp.skip(n.len() as int + 1);
    assert(rest =~= ver + seq!['/'] + tr);
    assert(sp.take(n.len() as int) =~= n);
    assert forall|m: int| 0 <= m < ver.len() implies #[trigger] rest[m] != '/' by {
        assert(rest[m] == ver[m]);
    }
    lemma_index_of_from(rest, '/', 0, ver.len() as int);
    assert(rest.take(ver.len() as int) =~= ver);
    assert(rest.skip(ver.len() as int + 1) =~= tr);
    assert forall|j: int, m: int| 0 <= j < p.len() && 0 <= m < via_param_text(p[j]).len()
        implies #[trigger] via_param_text(p[j])[m] != ';' by {
        assert(p[j] matches ViaParam::Ext(k, None));
    }
    lemma_via_params_pieces(b, p, 0);
    let ps = pieces(b + ptext, ';');
    assert(ps =~= seq![b] + Seq::new(p.len(), |j: int| via_param_text(p[j])));
    if !(v.protocol_transport is Other) {
        lemma_transport_protocol_text_roundtrip(v.protocol_transport);
    }
    assert forall|j: int| 0 <= j < p.len() implies via_param_reads(Ok::<ViaParam, ()>(#[trigger] p[j]), ps[j + 1]) by {
        match p[j] {
            ViaParam::Ext(k, None) => {
                assert(ps[j + 1] == k@);
                lemma_index_of_from(k@, ' ', 0, k@.len() as int);
            },
            _ => {},
        }
    }
    assert forall|j: int| 1 <= j < ps.len() implies !via_param_fails(#[trigger] ps[j]) by {
        assert(via_param_reads(Ok::<ViaParam, ()>(p[j - 1]), ps[j]));
    }
}

} // verus!
