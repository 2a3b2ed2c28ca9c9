//! Session Description Protocol (RFC 8866): origins, connection information, network, address
//! and bandwidth types, bandwidth information, repeat times and attributes.
use vstd::prelude::*;
use vstd::string::StringExecFns;
use crate::text::{str_eq, split_once, index_of_from, lemma_index_of_from, push_decimal, decimal,
    split_ascii_whitespace, words, words_from, ascii_ws, texts, parse_u64, u64_text, lemma_decimal_digits,
    lemma_words_scan, lemma_words_cons, lemma_words_single};
use crate::inet::{IpAddr, ip_read, ip_readable, ip_text, parse_ip, push_ip, lemma_ip_roundtrip, lemma_ip_text_chars, hex_digit_value};

verus! {

/// A network type.
#[derive(Copy, Clone, Debug, Eq, PartialEq)]
pub enum NetType {
    IP4,
    IP6,
}

/// The text of a value.
pub open spec fn net_type_text(x: NetType) -> Seq<char> {
    match x {
        NetType::IP4 => "IP4"@,
        NetType::IP6 => "IP6"@,
    }
}

/// The named value that the text `s` stands for, if any.
pub open spec fn net_type_parse(s: Seq<char>) -> Option<NetType> {
    if s == "IP4"@ { Some(NetType::IP4) }
    else if s == "IP6"@ { Some(NetType::IP6) }
    else { None }
}

impl NetType {
    /// Reads the value from its text.
    pub fn from_str(s: &str) -> (r: Result<NetType, ()>)
        ensures
            match net_type_parse(s@) {
                Some(x) => r == Ok::<NetType, ()>(x),
                None => r == Err::<NetType, ()>(()),
            },
    {
        if str_eq(s, "IP4") {
            return Ok(NetType::IP4);
        }
        if str_eq(s, "IP6") {
            return Ok(NetType::IP6);
        }
        Err(())
    }

    /// The text of the value.
    pub fn to_string(&self) -> (r: String)
        ensures
            r@ == net_type_text(*self),
    {
        match self {
            NetType::IP4 => String::from_str("IP4"),
            NetType::IP6 => String::from_str("IP6"),
        }
    }
}

/// Reading the text of a named value gives the value.
pub proof fn lemma_net_type_text_roundtrip(x: NetType)
    ensures
        net_type_parse(net_type_text(x)) == Some(x),
{
    reveal_strlit("IP4");
    assert("IP4"@.len() == 3 && "IP4"@[0] == 'I' && "IP4"@[1] == 'P' && "IP4"@[2] == '4');
    reveal_strlit("IP6");
    assert("IP6"@.len() == 3 && "IP6"@[0] == 'I' && "IP6"@[1] == 'P' && "IP6"@[2] == '6');
}

/// An address type.
#[derive(Copy, Clone, Debug, Eq, PartialEq)]
pub enum AddrType {
    IN,
}

/// The text of a value.
pub open spec fn addr_type_text(x: AddrType) -> Seq<char> {
    match x {
        AddrType::IN => "IN"@,
    }
}

/// The named value that the text `s` stands for, if any.
pub open spec fn addr_type_parse(s: Seq<char>) -> Option<AddrType> {
    if s == "IN"@ { Some(AddrType::IN) }
    else { None }
}

impl AddrType {
    /// Reads the value from its text.
    pub fn from_str(s: &str) -> (r: Result<AddrType, ()>)
        ensures
            match addr_type_parse(s@) {
                Some(x) => r == Ok::<AddrType, ()>(x),
                None => r == Err::<AddrType, ()>(()),
            },
    {
        if str_eq(s, "IN") {
            return Ok(AddrType::IN);
        }
        Err(())
    }

    /// The text of the value.
    pub fn to_string(&self) -> (r: String)
        ensures
            r@ == addr_type_text(*self),
    {
        match self {
            AddrType::IN => String::from_str("IN"),
        }
    }
}

/// Reading the text of a named value gives the value.
pub proof fn lemma_addr_type_text_roundtrip(x: AddrType)
    ensures
        addr_type_parse(addr_type_text(x)) == Some(x),
{
    reveal_strlit("IN");
    assert("IN"@.len() == 2 && "IN"@[0] == 'I' && "IN"@[1] == 'N');
}

/// The origin of a session: user name, session id and version, and the address of the host.
#[derive(Clone, Debug, Eq, PartialEq)]
pub struct Origin {
    pub username: String,
    pub session_id: u64,
    pub session_version: u64,
    pub net_type: NetType,
    pub addr_type: AddrType,
    pub unicast_addr: IpAddr,
}

/// Whether the words `w` read as an origin: six or more, where the second and third are
/// numbers, the fourth a network type, the fifth an address type and the sixth an address.
pub open spec fn origin_readable(w: Seq<Seq<char>>) -> bool {
    &&& w.len() >= 6
    &&& u64_text(w[1]) is Some
    &&& u64_text(w[2]) is Some
    &&& net_type_parse(w[3]) is Some
    &&& addr_type_parse(w[4]) is Some
    &&& ip_readable(w[5])
}

/// Whether `o` is the origin that the words `w` give (see `origin_readable`).
pub open spec fn origin_from_words(o: Origin, w: Seq<Seq<char>>) -> bool {
    &&& o.username@ == w[0]
    &&& u64_text(w[1]) == Some(o.session_id)
    &&& u64_text(w[2]) == Some(o.session_version)
    &&& net_type_parse(w[3]) == Some(o.net_type)
    &&& addr_type_parse(w[4]) == Some(o.addr_type)
    &&& ip_read(w[5], Some(o.unicast_addr))
}

/// The text of an origin: its six fields separated by spaces.
pub open spec fn origin_text(o: Origin) -> Seq<char> {
    o.username@ + " "@ + decimal(o.session_id as nat) + " "@ + decimal(o.session_version as nat)
        + " "@ + net_type_text(o.net_type) + " "@ + addr_type_text(o.addr_type) + " "@
        + ip_text(o.unicast_addr)
}

impl Origin {
    /// Reads an origin from the words of the text (see `origin_readable`); further words are
    /// ignored.
    pub fn from_str(s: &str) -> (r: Result<Origin, ()>)
        ensures
            !origin_readable(words(s@)) ==> r is Err,
            origin_readable(words(s@)) ==> (r matches Ok(o) && origin_from_words(o, words(s@))),
    {
        let w = split_ascii_whitespace(s);
        if w.len() < 6 {
            return Err(());
        }
        proof {
            assert forall|i: int| 0 <= i < 6 implies #[trigger] w@[i]@ == words(s@)[i] by {
                assert(texts(w@)[i] == w@[i]@);
            }
        }
        let session_id = match parse_u64(w[1]) {
            Some(v) => v,
            None => return Err(()),
        };
        let session_version = match parse_u64(w[2]) {
            Some(v) => v,
            None => return Err(()),
        };
        let net_type = match NetType::from_str(w[3]) {
            Ok(v) => v,
            Err(e) => return Err(e),
        };
        let addr_type = match AddrType::from_str(w[4]) {
            Ok(v) => v,
            Err(e) => return Err(e),
        };
        let unicast_addr = match parse_ip(w[5]) {
            Some(v) => v,
            None => return Err(()),
        };
        Ok(Origin {
            username: String::from_str(w[0]),
            session_id,
            session_version,
            net_type,
            addr_type,
            unicast_addr,
        })
    }

    /// The text of the origin: its six fields separated by spaces.
    pub fn to_string(&self) -> (r: String)
        ensures
            r@ == origin_text(*self),
    {
        let mut s = self.username.clone();
        proof {
            assert(s@ == self.username@);
        }
        s.append(" ");
        push_decimal(&mut s, self.session_id);
        s.append(" ");
        push_decimal(&mut s, self.session_version);
        s.append(" ");
        let n = self.net_type.to_string();
        s.append(n.as_str());
        s.append(" ");
        let a = self.addr_type.to_string();
        s.append(a.as_str());
        s.append(" ");
        push_ip(&mut s, &self.unicast_addr);
        s
    }
}

/// Connection information: network and address type and the address.
#[derive(Copy, Clone, Debug, Eq, PartialEq)]
pub struct ConnectionInformation {
    pub net_type: NetType,
    pub addr_type: AddrType,
    pub connection_addr: IpAddr,
}

/// Whether the words `w` read as connection information: three or more, a network type, an
/// address type and an address.
pub open spec fn connection_information_readable(w: Seq<Seq<char>>) -> bool {
    w.len() >= 3 && net_type_parse(w[0]) is Some && addr_type_parse(w[1]) is Some && ip_readable(w[2])
}

/// The text of connection information: its three fields separated by spaces.
pub open spec fn connection_information_text(c: ConnectionInformation) -> Seq<char> {
    net_type_text(c.net_type) + " "@ + addr_type_text(c.addr_type) + " "@ + ip_text(c.connection_addr)
}

impl ConnectionInformation {
    /// Reads connection information from the words of the text (see
    /// `connection_information_readable`); further words are ignored.
    pub fn from_str(s: &str) -> (r: Result<ConnectionInformation, ()>)
        ensures
            !connection_information_readable(words(s@)) ==> r is Err,
            connection_information_readable(words(s@)) ==> (r matches Ok(c)
                && net_type_parse(words(s@)[0]) == Some(c.net_type)
                && addr_type_parse(words(s@)[1]) == Some(c.addr_type)
                && ip_read(words(s@)[2], Some(c.connection_addr))),
    {
        let w = split_ascii_whitespace(s);
        if w.len() < 3 {
            return Err(());
        }
        proof {
            assert forall|i: int| 0 <= i < 3 implies #[trigger] w@[i]@ == words(s@)[i] by {
                assert(texts(w@)[i] == w@[i]@);
            }
        }
        let net_type = match NetType::from_str(w[0]) {
            Ok(v) => v,
            Err(e) => return Err(e),
        };
        let addr_type = match AddrType::from_str(w[1]) {
            Ok(v) => v,
            Err(e) => return Err(e),
        };
        let connection_addr = match parse_ip(w[2]) {
            Some(v) => v,
            None => return Err(()),
        };
        Ok(ConnectionInformation { net_type, addr_type, connection_addr })
    }

    /// The text of the connection information: its three fields separated by spaces.
    pub fn to_string(&self) -> (r: String)
        ensures
            r@ == connection_information_text(*self),
    {
        let mut s = self.net_type.to_string();
        s.append(" ");
        let a = self.addr_type.to_string();
        s.append(a.as_str());
        s.append(" ");
        push_ip(&mut s, &self.connection_addr);
        s
    }
}

proof fn lemma_decimal_word(v: u64)
    ensures
        decimal(v as nat).len() > 0,
        forall|m: int| 0 <= m < decimal(v as nat).len() ==> !ascii_ws(#[trigger] decimal(v as nat)[m]),
        u64_text(decimal(v as nat)) == Some(v),
{
    lemma_decimal_digits(v as nat);
    let d = decimal(v as nat);
    assert forall|m: int| 0 <= m < d.len() implies !ascii_ws(#[trigger] d[m]) by {
        assert('0' <= d[m] <= '9');
    }
}

proof fn lemma_type_words(n: NetType, a: AddrType)
    ensures
        net_type_text(n).len() > 0,
        forall|m: int| 0 <= m < net_type_text(n).len() ==> !ascii_ws(#[trigger] net_type_text(n)[m]),
        addr_type_text(a).len() > 0,
        forall|m: int| 0 <= m < addr_type_text(a).len() ==> !ascii_ws(#[trigger] addr_type_text(a)[m]),
        net_type_parse(net_type_text(n)) == Some(n),
        addr_type_parse(addr_type_text(a)) == Some(a),
{
    reveal_strlit("IP4");
    reveal_strlit("IP6");
    reveal_strlit("IN");
    lemma_net_type_text_roundtrip(n);
    lemma_addr_type_text_roundtrip(a);
}

proof fn lemma_ip_word(a: IpAddr)
    ensures
        words(ip_text(a)) == seq![ip_text(a)],
        ip_read(ip_text(a), Some(a)),
        ip_readable(ip_text(a)),
{
    let s = ip_text(a);
    lemma_ip_text_chars(a);
    assert forall|m: int| 0 <= m < s.len() implies !ascii_ws(#[trigger] s[m]) by {
        assert(s[m] == ':' || s[m] == '.' || hex_digit_value(s[m]) >= 0);
    }
    lemma_words_single(s);
    lemma_ip_roundtrip(a);
}

/// Writing an origin whose user name is one word (not empty, without whitespace) and reading
/// the text back gives the same origin.
pub proof fn lemma_origin_roundtrip(o: Origin)
    requires
        o.username@.len() > 0,
        forall|m: int| 0 <= m < o.username@.len() ==> !ascii_ws(#[trigger] o.username@[m]),
    ensures
        origin_readable(words(origin_text(o))),
        origin_from_words(o, words(origin_text(o))),
{
    let u = o.username@;
    let d1 = decimal(o.session_id as nat);
    let d2 = decimal(o.session_version as nat);
    let nt = net_type_text(o.net_type);
    let at = addr_type_text(o.addr_type);
    let ip = ip_text(o.unicast_addr);
    lemma_decimal_word(o.session_id);
    lemma_decimal_word(o.session_version);
    lemma_type_words(o.net_type, o.addr_type);
    lemma_ip_word(o.unicast_addr);
    let r4 = at + " "@ + ip;
    let r3 = nt + " "@ + r4;
    let r2 = d2 + " "@ + r3;
    let r1 = d1 + " "@ + r2;
    assert(origin_text(o) =~= u + " "@ + r1);
    lemma_words_cons(at, ip);
    lemma_words_cons(nt, r4);
    lemma_words_cons(d2, r3);
    lemma_words_cons(d1, r2);
    lemma_words_cons(u, r1);
    let w = words(origin_text(o));
    assert(w =~= seq![u, d1, d2, nt, at, ip]);
}

/// Writing connection information and reading the text back gives the same information.
pub proof fn lemma_connection_information_roundtrip(c: ConnectionInformation)
    ensures
        connection_information_readable(words(connection_information_text(c))),
        net_type_parse(words(connection_information_text(c))[0]) == Some(c.net_type),
        addr_type_parse(words(connection_information_text(c))[1]) == Some(c.addr_type),
        ip_read(words(connection_information_text(c))[2], Some(c.connection_addr)),
{
    let nt = net_type_text(c.net_type);
    let at = addr_type_text(c.addr_type);
    let ip = ip_text(c.connection_addr);
    lemma_type_words(c.net_type, c.addr_type);
    lemma_ip_word(c.connection_addr);
    let r = at + " "@ + ip;
    assert(connection_information_text(c) =~= nt + " "@ + r);
    lemma_words_cons(at, ip);
    lemma_words_cons(nt, r);
    assert(words(connection_information_text(c)) =~= seq![nt, at, ip]);
}

/// A bandwidth type.
#[derive(Copy, Clone, Debug, Eq, PartialEq)]
pub enum BandwidthType {
    CT,
    AS,
}

/// The text of a value.
pub open spec fn bandwidth_type_text(x: BandwidthType) -> Seq<char> {
    match x {
        BandwidthType::CT => "CT"@,
        BandwidthType::AS => "AS"@,
    }
}

/// The named value that the text `s` stands for, if any.
pub open spec fn bandwidth_type_parse(s: Seq<char>) -> Option<BandwidthType> {
    if s == "CT"@ { Some(BandwidthType::CT) }
    else if s == "AS"@ { Some(BandwidthType::AS) }
    else { None }
}

impl BandwidthType {
    /// Reads the value from its text.
    pub fn from_str(s: &str) -> (r: Result<BandwidthType, ()>)
        ensures
            match bandwidth_type_parse(s@) {
                Some(x) => r == Ok::<BandwidthType, ()>(x),
                None => r == Err::<BandwidthType, ()>(()),
            },
    {
        if str_eq(s, "CT") {
            return Ok(BandwidthType::CT);
        }
        if str_eq(s, "AS") {
            return Ok(BandwidthType::AS);
        }
        Err(())
    }

    /// The text of the value.
    pub fn to_string(&self) -> (r: String)
        ensures
            r@ == bandwidth_type_text(*self),
    {
        match self {
            BandwidthType::CT => String::from_str("CT"),
            BandwidthType::AS => String::from_str("AS"),
        }
    }
}

/// Reading the text of a named value gives the value.
pub proof fn lemma_bandwidth_type_text_roundtrip(x: BandwidthType)
    ensures
        bandwidth_type_parse(bandwidth_type_text(x)) == Some(x),
{
    reveal_strlit("AS");
    assert("AS"@.len() == 2 && "AS"@[0] == 'A' && "AS"@[1] == 'S');
    reveal_strlit("CT");
    assert("CT"@.len() == 2 && "CT"@[0] == 'C' && "CT"@[1] == 'T');
}

/// Bandwidth information: its type and the bandwidth.
#[derive(Clone, Debug, Eq, PartialEq)]
pub struct BandwidthInformation {
    pub bw_type: BandwidthType,
    pub bandwidth: String,
}

/// Reading bandwidth information: the type up to the first `:`, then the bandwidth.
pub open spec fn bandwidth_information_parse(s: Seq<char>) -> Option<(BandwidthType, Seq<char>)> {
    let i = index_of_from(s, ':', 0);
    if i < 0 {
        None
    } else {
        match bandwidth_type_parse(s.take(i)) {
            Some(t) => Some((t, s.skip(i + 1))),
            None => None,
        }
    }
}

impl BandwidthInformation {
    /// Reads bandwidth information: the type up to the first `:`, then the bandwidth.
    pub fn from_str(s: &str) -> (r: Result<BandwidthInformation, ()>)
        ensures
            match bandwidth_information_parse(s@) {
                Some((t, b)) => r matches Ok(x) && x.bw_type == t && x.bandwidth@ == b,
                None => r is Err,
            },
    {
        let (ty, bw) = match split_once(s, ':') {
            Some(p) => p,
            None => return Err(()),
        };
        let bw_type = match BandwidthType::from_str(ty) {
            Ok(t) => t,
            Err(_) => return Err(()),
        };
        Ok(BandwidthInformation { bw_type, bandwidth: String::from_str(bw) })
    }

    /// The text of the bandwidth information: the type, `:` and the bandwidth.
    pub fn to_string(&self) -> (r: String)
        ensures
            r@ == bandwidth_type_text(self.bw_type) + ":"@ + self.bandwidth@,
    {
        let mut s = self.bw_type.to_string();
        s.append(":");
        s.append(self.bandwidth.as_str());
        s
    }
}

/// Writing bandwidth information and reading it back gives the type and the bandwidth.
pub proof fn lemma_bandwidth_information_roundtrip(t: BandwidthType, b: Seq<char>)
    ensures
        bandwidth_information_parse(bandwidth_type_text(t) + ":"@ + b) == Some((t, b)),
{
    reveal_strlit(":");
    assert(":"@.len() == 1 && ":"@[0] == ':');
    reveal_strlit("CT");
    assert("CT"@.len() == 2 && "CT"@[0] == 'C' && "CT"@[1] == 'T');
    reveal_strlit("AS");
    assert("AS"@.len() == 2 && "AS"@[0] == 'A' && "AS"@[1] == 'S');
    let s = bandwidth_type_text(t) + ":"@ + b;
    lemma_index_of_from(s, ':', 0, 2);
    assert(s.take(2) =~= bandwidth_type_text(t));
    assert(s.skip(3) =~= b);
    lemma_bandwidth_type_text_roundtrip(t);
}

/// The repeat times of a session: interval, active duration and offsets, in seconds.
#[derive(Clone, Debug, Eq, PartialEq)]
pub struct RepeatTimes {
    pub interval: u64,
    pub duration: u64,
    pub offsets: Vec<u64>,
}

/// The text of the offsets from the `i`-th on, each after a space.
pub open spec fn offsets_text(o: Seq<u64>, i: int) -> Seq<char>
    decreases o.len() - i,
{
    if i < 0 || i >= o.len() { Seq::empty() } else { " "@ + decimal(o[i] as nat) + offsets_text(o, i + 1) }
}

/// The values that the words `w` from the `i`-th on read as, in seconds; nothing where one of
/// them is no number.
pub open spec fn seconds_from(w: Seq<Seq<char>>, i: int) -> Option<Seq<u64>>
    decreases w.len() - i,
{
    if i < 0 || i >= w.len() {
        Some(Seq::empty())
    } else {
        match (u64_text(w[i]), seconds_from(w, i + 1)) {
            (Some(v), Some(rest)) => Some(seq![v] + rest),
            _ => None,
        }
    }
}

/// Reading repeat times: the words of the text are the interval, the duration and the offsets,
/// each a number of seconds.
pub open spec fn repeat_times_parse(s: Seq<char>) -> Option<(u64, u64, Seq<u64>)> {
    let w = words(s);
    if w.len() < 2 {
        None
    } else {
        match (u64_text(w[0]), u64_text(w[1]), seconds_from(w, 2)) {
            (Some(i), Some(d), Some(o)) => Some((i, d, o)),
            _ => None,
        }
    }
}

impl RepeatTimes {
    /// Reads repeat times (see `repeat_times_parse`).
    pub fn from_str(s: &str) -> (r: Result<RepeatTimes, ()>)
        ensures
            match repeat_times_parse(s@) {
                Some((i, d, o)) => r matches Ok(x) && x.interval == i && x.duration == d && x.offsets@ == o,
                None => r is Err,
            },
    {
        let w = split_ascii_whitespace(s);
        let ghost ws = texts(w@);
        if w.len() < 2 {
            return Err(());
        }
        assert(ws[0] == w@[0]@ && ws[1] == w@[1]@);
        let interval = match parse_u64(w[0]) {
            Some(v) => v,
            None => return Err(()),
        };
        let duration = match parse_u64(w[1]) {
            Some(v) => v,
            None => return Err(()),
        };
        let mut offsets: Vec<u64> = Vec::new();
        let mut i: usize = 2;
        while i < w.len()
            invariant
                2 <= i <= w@.len(),
                ws == texts(w@),
                ws == words(s@),
                u64_text(ws[0]) == Some(interval),
                u64_text(ws[1]) == Some(duration),
                forall|o: Seq<u64>| #[trigger] seconds_from(ws, i as int) == Some(o)
                    ==> seconds_from(ws, 2) == Some(offsets@ + o),
                seconds_from(ws, i as int) is None ==> seconds_from(ws, 2) is None,
            decreases w@.len() - i,
        {
            assert(ws[i as int] == w@[i as int]@);
            let v = match parse_u64(w[i]) {
                Some(v) => v,
                None => return Err(()),
            };
            let ghost before = offsets@;
            offsets.push(v);
            proof {
                assert forall|o: Seq<u64>| #[trigger] seconds_from(ws, i + 1) == Some(o)
                    implies seconds_from(ws, 2) == Some(offsets@ + o) by {
                    assert(seconds_from(ws, i as int) == Some(seq![v] + o));
                    assert(before + (seq![v] + o) =~= offsets@ + o);
                }
            }
            i += 1;
        }
        proof {
            assert(seconds_from(ws, i as int) == Some(Seq::<u64>::empty()));
            assert(offsets@ + Seq::<u64>::empty() =~= offsets@);
        }
        Ok(RepeatTimes { interval, duration, offsets })
    }

    /// The text of the repeat times: the interval, the duration and each offset, in seconds,
    /// separated by spaces.
    pub fn to_string(&self) -> (r: String)
        ensures
            r@ == decimal(self.interval as nat) + " "@ + decimal(self.duration as nat)
                + offsets_text(self.offsets@, 0),
    {
        let mut s = String::new();
        push_decimal(&mut s, self.interval);
        s.append(" ");
        push_decimal(&mut s, self.duration);
        let ghost head = s@;
        let mut i: usize = 0;
        while i < self.offsets.len()
            invariant
                i <= self.offsets@.len(),
                s@ + offsets_text(self.offsets@, i as int) == head + offsets_text(self.offsets@, 0),
            decreases self.offsets@.len() - i,
        {
            let ghost before = s@;
            s.append(" ");
            push_decimal(&mut s, self.offsets[i]);
            proof {
                assert(before + offsets_text(self.offsets@, i as int) =~= s@ + offsets_text(self.offsets@, i + 1));
            }
            i += 1;
        }
        assert(s@ =~= head + offsets_text(self.offsets@, 0));
        s
    }
}

/// A time zone adjustment; it holds nothing.
#[derive(Clone, Debug, Eq, PartialEq)]
pub struct TimeZoneAdjustment {}

impl TimeZoneAdjustment {
    /// Reads an adjustment: any text gives the empty adjustment.
    pub fn from_str(s: &str) -> (r: Result<TimeZoneAdjustment, ()>)
        ensures
            r is Ok,
    {
        Ok(TimeZoneAdjustment {})
    }

    /// The text of the adjustment: empty.
    pub fn to_string(&self) -> (r: String)
        ensures
            r@ == Seq::<char>::empty(),
    {
        String::new()
    }
}

/// An attribute: a name and a value.
#[derive(Clone, Debug, Eq, PartialEq)]
pub struct Attribute {
    pub name: String,
    pub value: String,
}

impl Attribute {
    /// Reads an attribute: the name up to the first `:`, then the value.
    pub fn from_str(s: &str) -> (r: Result<Attribute, ()>)
        ensures
            index_of_from(s@, ':', 0) < 0 ==> r is Err,
            index_of_from(s@, ':', 0) >= 0 ==> (r matches Ok(a)
                && a.name@ == s@.take(index_of_from(s@, ':', 0))
                && a.value@ == s@.skip(index_of_from(s@, ':', 0) + 1)),
    {
        match split_once(s, ':') {
            Some((name, value)) => Ok(Attribute { name: String::from_str(name), value: String::from_str(value) }),
            None => Err(()),
        }
    }

    /// The text of the attribute: the name, `:` and the value.
    pub fn to_string(&self) -> (r: String)
        ensures
            r@ == self.name@ + ":"@ + self.value@,
    {
        let mut s = self.name.clone();
        s.append(":");
        s.append(self.value.as_str());
        s
    }
}

/// Writing an attribute whose name has no `:` and reading it back gives the name and the
/// value.
pub proof fn lemma_attribute_roundtrip(name: Seq<char>, value: Seq<char>)
    requires
        forall|i: int| 0 <= i < name.len() ==> name[i] != ':',
    ensures
        ({
            let s = name + ":"@ + value;
            &&& index_of_from(s, ':', 0) == name.len()
            &&& s.take(name.len() as int) == name
            &&& s.skip(name.len() as int + 1) == value
        }),
{
    reveal_strlit(":");
    assert(":"@.len() == 1 && ":"@[0] == ':');
    let s = name + ":"@ + value;
    assert forall|m: int| 0 <= m < name.len() implies s[m] != ':' by {
        assert(s[m] == name[m]);
    }
    lemma_index_of_from(s, ':', 0, name.len() as int);
    assert(s.take(name.len() as int) =~= name);
    assert(s.skip(name.len() as int + 1) =~= value);
}


/// A decimal numeral followed by the end or by a space is one word.
proof fn lemma_numeral_word(s: Seq<char>, p: int, v: u64)
    requires
        0 <= p,
        p + decimal(v as nat).len() <= s.len(),
        s.subrange(p, p + decimal(v as nat).len()) == decimal(v as nat),
        p + decimal(v as nat).len() == s.len() || s[p + decimal(v as nat).len()] == ' ',
    ensures
        words_from(s, p, p) == seq![decimal(v as nat)] + words_from(s, p + decimal(v as nat).len(), p + decimal(v as nat).len()),
        u64_text(decimal(v as nat)) == Some(v),
{
    let dv = decimal(v as nat);
    let q = p + dv.len();
    lemma_decimal_digits(v as nat);
    assert forall|m: int| p <= m < q implies !ascii_ws(#[trigger] s[m]) by {
        assert(s[m] == dv[m - p]);
        assert('0' <= dv[m - p] <= '9');
    }
    lemma_words_scan(s, p, p, q);
    assert(s.subrange(p, q) == dv);
    if q < s.len() {
        assert(words_from(s, q, q) == Seq::<Seq<char>>::empty() + words_from(s, q + 1, q + 1));
        assert(words_from(s, p, q) == seq![dv] + words_from(s, q + 1, q + 1));
        assert(Seq::<Seq<char>>::empty() + words_from(s, q + 1, q + 1) =~= words_from(s, q + 1, q + 1));
    } else {
        assert(words_from(s, q, q) == Seq::<Seq<char>>::empty());
        assert(seq![dv] + Seq::<Seq<char>>::empty() =~= seq![dv]);
    }
    let d = if dv.len() > 0 && dv[0] == '+' { dv.skip(1) } else { dv };
    assert(d == dv);
}

/// The words of the offsets text from the `k`-th offset on are their numerals.
proof fn lemma_offsets_words(s: Seq<char>, p: int, o: Seq<u64>, k: int)
    requires
        0 <= p <= s.len(),
        0 <= k <= o.len(),
        s.skip(p) == offsets_text(o, k),
    ensures
        words_from(s, p, p) == Seq::new((o.len() - k) as nat, |m: int| decimal(o[k + m] as nat)),
        forall|m: int| k <= m < o.len() ==> u64_text(#[trigger] decimal(o[m] as nat)) == Some(o[m]),
    decreases o.len() - k,
{
    reveal_strlit(" ");
    assert(" "@.len() == 1 && " "@[0] == ' ');
    if k == o.len() {
        assert(s.skip(p).len() == 0);
        assert(words_from(s, p, p) =~= Seq::new((o.len() - k) as nat, |m: int| decimal(o[k + m] as nat)));
    } else {
        let dk = decimal(o[k] as nat);
        let rest = offsets_text(o, k + 1);
        assert(s.skip(p) == " "@ + dk + rest);
        assert((" "@ + dk + rest)[0] == ' ');
        assert(s.skip(p)[0] == s[p]);
        assert(s[p] == ' ');
        assert(s.skip(p).len() == 1 + dk.len() + rest.len());
        let q = p + 1 + dk.len();
        assert(s.subrange(p + 1, q) =~= dk) by {
            assert forall|m: int| 0 <= m < dk.len() implies s.subrange(p + 1, q)[m] == dk[m] by {
                assert(s.skip(p)[1 + m] == dk[m]);
            }
        }
        assert(s.skip(q) =~= rest) by {
            assert forall|m: int| 0 <= m < rest.len() implies s.skip(q)[m] == rest[m] by {
                assert(s.skip(p)[1 + dk.len() + m] == rest[m]);
            }
        }
        if q < s.len() {
            reveal_with_fuel(offsets_text, 2);
            assert(rest.len() > 0 && rest[0] == ' ');
            assert(s[q] == s.skip(q)[0]);
        }
        lemma_numeral_word(s, p + 1, o[k]);
        lemma_offsets_words(s, q, o, k + 1);
        assert(words_from(s, p, p) == Seq::<Seq<char>>::empty() + words_from(s, p + 1, p + 1));
        assert(words_from(s, p, p) =~= Seq::new((o.len() - k) as nat, |m: int| decimal(o[k + m] as nat)));
    }
}

proof fn lemma_seconds_from(w: Seq<Seq<char>>, o: Seq<u64>, j: int)
    requires
        w.len() == 2 + o.len(),
        2 <= j <= w.len(),
        forall|m: int| 0 <= m < o.len() ==> w[2 + m] == decimal(o[m] as nat),
        forall|m: int| 0 <= m < o.len() ==> u64_text(#[trigger] decimal(o[m] as nat)) == Some(o[m]),
    ensures
        seconds_from(w, j) == Some(o.skip(j - 2)),
    decreases w.len() - j,
{
    if j < w.len() {
        lemma_seconds_from(w, o, j + 1);
        assert(w[j] == decimal(o[j - 2] as nat));
        assert(seq![o[j - 2]] + o.skip(j - 1) =~= o.skip(j - 2));
    } else {
        assert(o.skip(j - 2) =~= Seq::<u64>::empty());
    }
}

/// Writing repeat times and reading the text back gives the interval, the duration and the
/// offsets.
pub proof fn lemma_repeat_times_roundtrip(interval: u64, duration: u64, offsets: Seq<u64>)
    ensures
        repeat_times_parse(decimal(interval as nat) + " "@ + decimal(duration as nat) + offsets_text(offsets, 0))
            == Some((interval, duration, offsets)),
{
    reveal_strlit(" ");
    assert(" "@.len() == 1 && " "@[0] == ' ');
    let di = decimal(interval as nat);
    let dd = decimal(duration as nat);
    let off = offsets_text(offsets, 0);
    let t = di + " "@ + dd + off;
    let a = di.len() as int;
    let q = a + 1 + dd.len();
    assert(t.subrange(0, a) =~= di);
    assert(t[a] == ' ');
    lemma_numeral_word(t, 0, interval);
    assert(words_from(t, a, a) == Seq::<Seq<char>>::empty() + words_from(t, a + 1, a + 1));
    assert(t.subrange(a + 1, q) =~= dd);
    assert(t.skip(q) =~= off);
    if q < t.len() {
        reveal_with_fuel(offsets_text, 2);
        assert(off.len() > 0 && off[0] == ' ');
        assert(t[q] == t.skip(q)[0]);
    }
    lemma_numeral_word(t, a + 1, duration);
    lemma_offsets_words(t, q, offsets, 0);
    let w = words(t);
    assert(w =~= seq![di] + (Seq::<Seq<char>>::empty() + (seq![dd]
        + Seq::new(offsets.len(), |m: int| decimal(offsets[0 + m] as nat)))));
    assert(w.len() == 2 + offsets.len());
    assert(w[0] == di && w[1] == dd);
    assert forall|m: int| 0 <= m < offsets.len() implies w[2 + m] == decimal(offsets[m] as nat) by {}
    lemma_seconds_from(w, offsets, 2);
    assert(offsets.skip(0) =~= offsets);
}

} // verus!
