//! Resource record types, classes and record data.
use vstd::prelude::*;
use vstd::string::StringExecFns;
use vstd::utf8::encode_utf8;
use crate::text::{has_prefix, str_eq, push_char, push_decimal, decimal, index_of_from, lemma_index_of_from};
use crate::dns::zone::{ZoneParseError, ZoneParseErrorType};
use crate::inet::{ipv4_parse, ipv4_text, parse_ipv4, push_ipv4, lemma_ipv4_roundtrip, ipv6_parse, ipv6_text, parse_ipv6, push_ipv6, groups_octets, octets_groups, lemma_ip_roundtrip, IpAddr, ip_read, ip_text};

verus! {

/// The class of a resource record.
#[derive(Copy, Clone, Debug, Eq, PartialEq)]
pub enum Class {
    IN,
    CS,
    CH,
    HS,
    NONE,
    Any,
}

/// The numeric value of a class.
pub open spec fn class_value(c: Class) -> u16 {
    match c {
        Class::IN => 1,
        Class::CS => 2,
        Class::CH => 3,
        Class::HS => 4,
        Class::NONE => 254,
        Class::Any => 255,
    }
}

/// The class with value `v`, if there is one.
pub open spec fn class_of(v: u16) -> Option<Class> {
    if v == 1 { Some(Class::IN) }
    else if v == 2 { Some(Class::CS) }
    else if v == 3 { Some(Class::CH) }
    else if v == 4 { Some(Class::HS) }
    else if v == 254 { Some(Class::NONE) }
    else if v == 255 { Some(Class::Any) }
    else { None }
}

/// The zone file mnemonic of a class; `NONE` has none.
pub open spec fn class_mnemonic(c: Class) -> Option<Seq<char>> {
    match c {
        Class::IN => Some("IN"@),
        Class::CS => Some("CS"@),
        Class::CH => Some("CH"@),
        Class::HS => Some("HS"@),
        Class::NONE => None,
        Class::Any => Some("*"@),
    }
}

/// The class that a zone file mnemonic stands for.
pub open spec fn class_parse(s: Seq<char>) -> Option<Class> {
    if s == "IN"@ { Some(Class::IN) }
    else if s == "CS"@ { Some(Class::CS) }
    else if s == "CH"@ { Some(Class::CH) }
    else if s == "HS"@ { Some(Class::HS) }
    else if s == "*"@ { Some(Class::Any) }
    else { None }
}

impl Class {
    /// The numeric value of the class.
    pub fn value(self) -> (r: u16)
        ensures
            r == class_value(self),
    {
        match self {
            Class::IN => 1,
            Class::CS => 2,
            Class::CH => 3,
            Class::HS => 4,
            Class::NONE => 254,
            Class::Any => 255,
        }
    }

    /// The class with the value `value`: 1 to 4, 254 and 255.
    pub fn try_from(value: u16) -> (r: Result<Class, ()>)
        ensures
            match class_of(value) {
                Some(c) => r == Ok::<Class, ()>(c),
                None => r == Err::<Class, ()>(()),
            },
    {
        match value {
            1 => Ok(Class::IN),
            2 => Ok(Class::CS),
            3 => Ok(Class::CH),
            4 => Ok(Class::HS),
            254 => Ok(Class::NONE),
            255 => Ok(Class::Any),
            _ => Err(()),
        }
    }

    /// Parses a class mnemonic of a zone file.
    pub fn from_str(s: &str) -> (r: Result<Class, ZoneParseError>)
        ensures
            match class_parse(s@) {
                Some(c) => r == Ok::<Class, ZoneParseError>(c),
                None => r == Err::<Class, ZoneParseError>(
                    ZoneParseError { ty: ZoneParseErrorType::RecordClass, line: 0, row: 0 }),
            },
    {
        if str_eq(s, "IN") {
            Ok(Class::IN)
        } else if str_eq(s, "CS") {
            Ok(Class::CS)
        } else if str_eq(s, "CH") {
            Ok(Class::CH)
        } else if str_eq(s, "HS") {
            Ok(Class::HS)
        } else if str_eq(s, "*") {
            Ok(Class::Any)
        } else {
            Err(ZoneParseError::new(ZoneParseErrorType::RecordClass, 0, 0))
        }
    }

    /// The zone file mnemonic of the class. `NONE` has no mnemonic.
    pub fn to_string(&self) -> (r: String)
        requires
            *self != Class::NONE,
        ensures
            class_mnemonic(*self) == Some(r@),
    {
        match self {
            Class::IN => String::from_str("IN"),
            Class::CS => String::from_str("CS"),
            Class::CH => String::from_str("CH"),
            Class::HS => String::from_str("HS"),
            Class::NONE => String::new(),
            Class::Any => String::from_str("*"),
        }
    }
}

/// Reading a class back from its value gives the class.
pub proof fn lemma_class_value_roundtrip(c: Class)
    ensures
        class_of(class_value(c)) == Some(c),
{
}

/// Parsing the mnemonic of a class gives the class.
pub proof fn lemma_class_mnemonic_roundtrip(c: Class)
    requires
        c != Class::NONE,
    ensures
        class_parse(class_mnemonic(c).unwrap()) == Some(c),
{
    reveal_strlit("IN");
    assert("IN"@.len() == 2 && "IN"@[0] == 'I' && "IN"@[1] == 'N');
    reveal_strlit("CS");
    assert("CS"@.len() == 2 && "CS"@[0] == 'C' && "CS"@[1] == 'S');
    reveal_strlit("CH");
    assert("CH"@.len() == 2 && "CH"@[0] == 'C' && "CH"@[1] == 'H');
    reveal_strlit("HS");
    assert("HS"@.len() == 2 && "HS"@[0] == 'H' && "HS"@[1] == 'S');
    reveal_strlit("*");
    assert("*"@.len() == 1 && "*"@[0] == '*');
    match c {
        Class::IN => {}
        Class::CS => {}
        Class::CH => {}
        Class::HS => {}
        Class::NONE => {}
        Class::Any => {}
    }
}

/// The type of a resource record.
#[derive(Copy, Clone, Debug, Eq, PartialEq)]
pub enum Type {
    A,
    NS,
    MD,
    MF,
    CName,
    SOA,
    MB,
    MG,
    MR,
    Null,
    WKS,
    Ptr,
    HInfo,
    MInfo,
    MX,
    TXT,
    RP,
    AFSB,
    X25,
    ISDN,
    RT,
    Nsap,
    NsapPtr,
    Sig,
    Key,
    PX,
    GPos,
    AAAA,
    Loc,
    NXT,
    EID,
    NimLoc,
    Srv,
    ATMA,
    NaPtr,
    KX,
    Cert,
    A6,
    DName,
    SINK,
    OPT,
    APL,
    DS,
    SSHFP,
    IpSecKey,
    RRSig,
    NSec,
    DnsKey,
    DHCID,
    NSec3,
    NSec3Param,
    TLSA,
    SMIMEA,
    HIP,
    NInfo,
    RKey,
    TALink,
    CDS,
    CDNSKey,
    OpenGPGKey,
    CSYNC,
    ZoneMD,
    SVCB,
    HTTPS,
    SPF,
    UInfo,
    UID,
    GID,
    UNSPEC,
    NID,
    L32,
    L64,
    LP,
    EUI48,
    EUI64,
    TKey,
    TSig,
    AXFR,
    MailB,
    MailA,
    All,
    URI,
    CAA,
    AVC,
    DOA,
    AMTRELAY,
}

/// The numeric value of a type.
pub open spec fn type_value(t: Type) -> u16 {
    match t {
        Type::A => 1,
        Type::NS => 2,
        Type::MD => 3,
        Type::MF => 4,
        Type::CName => 5,
        Type::SOA => 6,
        Type::MB => 7,
        Type::MG => 8,
        Type::MR => 9,
        Type::Null => 10,
        Type::WKS => 11,
        Type::Ptr => 12,
        Type::HInfo => 13,
        Type::MInfo => 14,
        Type::MX => 15,
        Type::TXT => 16,
        Type::RP => 17,
        Type::AFSB => 18,
        Type::X25 => 19,
        Type::ISDN => 20,
        Type::RT => 21,
        Type::Nsap => 22,
        Type::NsapPtr => 23,
        Type::Sig => 24,
        Type::Key => 25,
        Type::PX => 26,
        Type::GPos => 27,
        Type::AAAA => 28,
        Type::Loc => 29,
        Type::NXT => 30,
        Type::EID => 31,
        Type::NimLoc => 32,
        Type::Srv => 33,
        Type::ATMA => 34,
        Type::NaPtr => 35,
        Type::KX => 36,
        Type::Cert => 37,
        Type::A6 => 38,
        Type::DName => 39,
        Type::SINK => 40,
        Type::OPT => 41,
        Type::APL => 42,
        Type::DS => 43,
        Type::SSHFP => 44,
        Type::IpSecKey => 45,
        Type::RRSig => 46,
        Type::NSec => 47,
        Type::DnsKey => 48,
        Type::DHCID => 49,
        Type::NSec3 => 50,
        Type::NSec3Param => 51,
        Type::TLSA => 52,
        Type::SMIMEA => 53,
        Type::HIP => 55,
        Type::NInfo => 56,
        Type::RKey => 57,
        Type::TALink => 58,
        Type::CDS => 59,
        Type::CDNSKey => 60,
        Type::OpenGPGKey => 61,
        Type::CSYNC => 62,
        Type::ZoneMD => 63,
        Type::SVCB => 64,
        Type::HTTPS => 65,
        Type::SPF => 99,
        Type::UInfo => 100,
        Type::UID => 101,
        Type::GID => 102,
        Type::UNSPEC => 103,
        Type::NID => 104,
        Type::L32 => 105,
        Type::L64 => 106,
        Type::LP => 107,
        Type::EUI48 => 108,
        Type::EUI64 => 109,
        Type::TKey => 249,
        Type::TSig => 250,
        Type::AXFR => 252,
        Type::MailB => 253,
        Type::MailA => 254,
        Type::All => 255,
        Type::URI => 256,
        Type::CAA => 257,
        Type::AVC => 258,
        Type::DOA => 259,
        Type::AMTRELAY => 260,
    }
}

/// The type with value `v`, if there is one.
pub open spec fn type_of(v: u16) -> Option<Type> {
    if v == 1 { Some(Type::A) }
    else if v == 2 { Some(Type::NS) }
    else if v == 3 { Some(Type::MD) }
    else if v == 4 { Some(Type::MF) }
    else if v == 5 { Some(Type::CName) }
    else if v == 6 { Some(Type::SOA) }
    else if v == 7 { Some(Type::MB) }
    else if v == 8 { Some(Type::MG) }
    else if v == 9 { Some(Type::MR) }
    else if v == 10 { Some(Type::Null) }
    else if v == 11 { Some(Type::WKS) }
    else if v == 12 { Some(Type::Ptr) }
    else if v == 13 { Some(Type::HInfo) }
    else if v == 14 { Some(Type::MInfo) }
    else if v == 15 { Some(Type::MX) }
    else if v == 16 { Some(Type::TXT) }
    else if v == 17 { Some(Type::RP) }
    else if v == 18 { Some(Type::AFSB) }
    else if v == 19 { Some(Type::X25) }
    else if v == 20 { Some(Type::ISDN) }
    else if v == 21 { Some(Type::RT) }
    else if v == 22 { Some(Type::Nsap) }
    else if v == 23 { Some(Type::NsapPtr) }
    else if v == 24 { Some(Type::Sig) }
    else if v == 25 { Some(Type::Key) }
    else if v == 26 { Some(Type::PX) }
    else if v == 27 { Some(Type::GPos) }
    else if v == 28 { Some(Type::AAAA) }
    else if v == 29 { Some(Type::Loc) }
    else if v == 30 { Some(Type::NXT) }
    else if v == 31 { Some(Type::EID) }
    else if v == 32 { Some(Type::NimLoc) }
    else if v == 33 { Some(Type::Srv) }
    else if v == 34 { Some(Type::ATMA) }
    else if v == 35 { Some(Type::NaPtr) }
    else if v == 36 { Some(Type::KX) }
    else if v == 37 { Some(Type::Cert) }
    else if v == 38 { Some(Type::A6) }
    else if v == 39 { Some(Type::DName) }
    else if v == 40 { Some(Type::SINK) }
    else if v == 41 { Some(Type::OPT) }
    else if v == 42 { Some(Type::APL) }
    else if v == 43 { Some(Type::DS) }
    else if v == 44 { Some(Type::SSHFP) }
    else if v == 45 { Some(Type::IpSecKey) }
    else if v == 46 { Some(Type::RRSig) }
    else if v == 47 { Some(Type::NSec) }
    else if v == 48 { Some(Type::DnsKey) }
    else if v == 49 { Some(Type::DHCID) }
    else if v == 50 { Some(Type::NSec3) }
    else if v == 51 { Some(Type::NSec3Param) }
    else if v == 52 { Some(Type::TLSA) }
    else if v == 53 { Some(Type::SMIMEA) }
    else if v == 55 { Some(Type::HIP) }
    else if v == 56 { Some(Type::NInfo) }
    else if v == 57 { Some(Type::RKey) }
    else if v == 58 { Some(Type::TALink) }
    else if v == 59 { Some(Type::CDS) }
    else if v == 60 { Some(Type::CDNSKey) }
    else if v == 61 { Some(Type::OpenGPGKey) }
    else if v == 62 { Some(Type::CSYNC) }
    else if v == 63 { Some(Type::ZoneMD) }
    else if v == 64 { Some(Type::SVCB) }
    else if v == 65 { Some(Type::HTTPS) }
    else if v == 99 { Some(Type::SPF) }
    else if v == 100 { Some(Type::UInfo) }
    else if v == 101 { Some(Type::UID) }
    else if v == 102 { Some(Type::GID) }
    else if v == 103 { Some(Type::UNSPEC) }
    else if v == 104 { Some(Type::NID) }
    else if v == 105 { Some(Type::L32) }
    else if v == 106 { Some(Type::L64) }
    else if v == 107 { Some(Type::LP) }
    else if v == 108 { Some(Type::EUI48) }
    else if v == 109 { Some(Type::EUI64) }
    else if v == 249 { Some(Type::TKey) }
    else if v == 250 { Some(Type::TSig) }
    else if v == 252 { Some(Type::AXFR) }
    else if v == 253 { Some(Type::MailB) }
    else if v == 254 { Some(Type::MailA) }
    else if v == 255 { Some(Type::All) }
    else if v == 256 { Some(Type::URI) }
    else if v == 257 { Some(Type::CAA) }
    else if v == 258 { Some(Type::AVC) }
    else if v == 259 { Some(Type::DOA) }
    else if v == 260 { Some(Type::AMTRELAY) }
    else { None }
}

/// The zone file mnemonic of a type.
pub open spec fn type_mnemonic(t: Type) -> Seq<char> {
    match t {
        Type::A => "A"@,
        Type::NS => "NS"@,
        Type::MD => "MD"@,
        Type::MF => "MF"@,
        Type::CName => "CNAME"@,
        Type::SOA => "SOA"@,
        Type::MB => "MB"@,
        Type::MG => "MG"@,
        Type::MR => "MR"@,
        Type::Null => "NULL"@,
        Type::WKS => "WKS"@,
        Type::Ptr => "PTR"@,
        Type::HInfo => "HINFO"@,
        Type::MInfo => "MINFO"@,
        Type::MX => "MX"@,
        Type::TXT => "TXT"@,
        Type::RP => "RP"@,
        Type::AFSB => "AFSB"@,
        Type::X25 => "X25"@,
        Type::ISDN => "ISDN"@,
        Type::RT => "RT"@,
        Type::Nsap => "NSAP"@,
        Type::NsapPtr => "NSAP-PTR"@,
        Type::Sig => "SIG"@,
        Type::Key => "KEY"@,
        Type::PX => "PX"@,
        Type::GPos => "GPOS"@,
        Type::AAAA => "AAAA"@,
        Type::Loc => "LOC"@,
        Type::NXT => "NXT"@,
        Type::EID => "EID"@,
        Type::NimLoc => "NIMLOC"@,
        Type::Srv => "SRV"@,
        Type::ATMA => "ATMA"@,
        Type::NaPtr => "NAPTR"@,
        Type::KX => "KX"@,
        Type::Cert => "CERT"@,
        Type::A6 => "A6"@,
        Type::DName => "DNAME"@,
        Type::SINK => "SINK"@,
        Type::OPT => "OPT"@,
        Type::APL => "APL"@,
        Type::DS => "DS"@,
        Type::SSHFP => "SSHFP"@,
        Type::IpSecKey => "IPSECKEY"@,
        Type::RRSig => "RRSIG"@,
        Type::NSec => "NSEC"@,
        Type::DnsKey => "DNSKEY"@,
        Type::DHCID => "DHCID"@,
        Type::NSec3 => "NSEC3"@,
        Type::NSec3Param => "NSEC3PARAM"@,
        Type::TLSA => "TLSA"@,
        Type::SMIMEA => "SMIMEA"@,
        Type::HIP => "HIP"@,
        Type::NInfo => "NINFO"@,
        Type::RKey => "RKEY"@,
        Type::TALink => "TALINK"@,
        Type::CDS => "CDS"@,
        Type::CDNSKey => "CDNSKEY"@,
        Type::OpenGPGKey => "OPENGPGKEY"@,
        Type::CSYNC => "CSYNC"@,
        Type::ZoneMD => "ZONEMD"@,
        Type::SVCB => "SVCB"@,
        Type::HTTPS => "HTTPS"@,
        Type::SPF => "SPF"@,
        Type::UInfo => "UINFO"@,
        Type::UID => "UID"@,
        Type::GID => "GID"@,
        Type::UNSPEC => "UNSPEC"@,
        Type::NID => "NID"@,
        Type::L32 => "L32"@,
        Type::L64 => "L64"@,
        Type::LP => "LP"@,
        Type::EUI48 => "EUI48"@,
        Type::EUI64 => "EUI64"@,
        Type::TKey => "TKEY"@,
        Type::TSig => "TSIG"@,
        Type::AXFR => "AXFR"@,
        Type::MailB => "MAILB"@,
        Type::MailA => "MAILA"@,
        Type::All => "*"@,
        Type::URI => "URI"@,
        Type::CAA => "CAA"@,
        Type::AVC => "AVC"@,
        Type::DOA => "DOA"@,
        Type::AMTRELAY => "AMTRELAY"@,
    }
}

/// The type that a zone file mnemonic stands for.
pub open spec fn type_parse(s: Seq<char>) -> Option<Type> {
    if s == "A"@ { Some(Type::A) }
    else if s == "NS"@ { Some(Type::NS) }
    else if s == "MD"@ { Some(Type::MD) }
    else if s == "MF"@ { Some(Type::MF) }
    else if s == "CNAME"@ { Some(Type::CName) }
    else if s == "SOA"@ { Some(Type::SOA) }
    else if s == "MB"@ { Some(Type::MB) }
    else if s == "MG"@ { Some(Type::MG) }
    else if s == "MR"@ { Some(Type::MR) }
    else if s == "NULL"@ { Some(Type::Null) }
    else if s == "WKS"@ { Some(Type::WKS) }
    else if s == "PTR"@ { Some(Type::Ptr) }
    else if s == "HINFO"@ { Some(Type::HInfo) }
    else if s == "MINFO"@ { Some(Type::MInfo) }
    else if s == "MX"@ { Some(Type::MX) }
    else if s == "TXT"@ { Some(Type::TXT) }
    else if s == "RP"@ { Some(Type::RP) }
    else if s == "X25"@ { Some(Type::X25) }
    else if s == "ISDN"@ { Some(Type::ISDN) }
    else if s == "RT"@ { Some(Type::RT) }
    else if s == "NSAP"@ { Some(Type::Nsap) }
    else if s == "NSAP_PTR"@ { Some(Type::Ptr) }
    else if s == "SIG"@ { Some(Type::Sig) }
    else if s == "KEY"@ { Some(Type::Key) }
    else if s == "PX"@ { Some(Type::PX) }
    else if s == "GPOS"@ { Some(Type::GPos) }
    else if s == "AAAA"@ { Some(Type::AAAA) }
    else if s == "LOC"@ { Some(Type::Loc) }
    else if s == "NXT"@ { Some(Type::NXT) }
    else if s == "EID"@ { Some(Type::EID) }
    else if s == "NIMLOC"@ { Some(Type::NimLoc) }
    else if s == "SRV"@ { Some(Type::Srv) }
    else if s == "ATMA"@ { Some(Type::ATMA) }
    else if s == "NAP_PTR"@ { Some(Type::Ptr) }
    else if s == "KX"@ { Some(Type::KX) }
    else if s == "CERT"@ { Some(Type::Cert) }
    else if s == "A6"@ { Some(Type::A6) }
    else if s == "DNAME"@ { Some(Type::DName) }
    else if s == "SINK"@ { Some(Type::SINK) }
    else if s == "OPT"@ { Some(Type::OPT) }
    else if s == "APL"@ { Some(Type::APL) }
    else if s == "DS"@ { Some(Type::DS) }
    else if s == "SSHFP"@ { Some(Type::SSHFP) }
    else if s == "IPSECKEY"@ { Some(Type::IpSecKey) }
    else if s == "RRSIG"@ { Some(Type::RRSig) }
    else if s == "NSEC"@ { Some(Type::NSec) }
    else if s == "DNSKEY"@ { Some(Type::DnsKey) }
    else if s == "DHCID"@ { Some(Type::DHCID) }
    else if s == "NSEC3"@ { Some(Type::NSec3) }
    else if s == "NSEC3PARAM"@ { Some(Type::NSec3Param) }
    else if s == "TLSA"@ { Some(Type::TLSA) }
    else if s == "SMIMEA"@ { Some(Type::SMIMEA) }
    else if s == "HIP"@ { Some(Type::HIP) }
    else if s == "NINFO"@ { Some(Type::NInfo) }
    else if s == "RKEY"@ { Some(Type::RKey) }
    else if s == "TALINK"@ { Some(Type::TALink) }
    else if s == "CDS"@ { Some(Type::CDS) }
    else if s == "CDNSKEY"@ { Some(Type::CDNSKey) }
    else if s == "OPENGPGKEY"@ { Some(Type::OpenGPGKey) }
    else if s == "CSYNC"@ { Some(Type::CSYNC) }
    else if s == "ZONEMD"@ { Some(Type::ZoneMD) }
    else if s == "SVCB"@ { Some(Type::SVCB) }
    else if s == "HTTPS"@ { Some(Type::HTTPS) }
    else if s == "SPF"@ { Some(Type::SPF) }
    else if s == "UINFO"@ { Some(Type::UInfo) }
    else if s == "UID"@ { Some(Type::UID) }
    else if s == "GID"@ { Some(Type::GID) }
    else if s == "UNSPEC"@ { Some(Type::UNSPEC) }
    else if s == "NID"@ { Some(Type::NID) }
    else if s == "L32"@ { Some(Type::L32) }
    else if s == "L64"@ { Some(Type::L64) }
    else if s == "LP"@ { Some(Type::LP) }
    else if s == "EUI48"@ { Some(Type::EUI48) }
    else if s == "EUI64"@ { Some(Type::EUI64) }
    else if s == "TKEY"@ { Some(Type::TKey) }
    else if s == "TSIG"@ { Some(Type::TSig) }
    else if s == "AXFR"@ { Some(Type::AXFR) }
    else if s == "MAILB"@ { Some(Type::MailB) }
    else if s == "MAILA"@ { Some(Type::MailA) }
    else if s == "*"@ { Some(Type::All) }
    else if s == "URI"@ { Some(Type::URI) }
    else if s == "CAA"@ { Some(Type::CAA) }
    else if s == "AVC"@ { Some(Type::AVC) }
    else if s == "DOA"@ { Some(Type::DOA) }
    else if s == "AMTRELAY"@ { Some(Type::AMTRELAY) }
    else { None }
}

impl Type {
    /// The numeric value of the type.
    pub fn value(self) -> (r: u16)
        ensures
            r == type_value(self),
    {
        match self {
            Type::A => 1,
            Type::NS => 2,
            Type::MD => 3,
            Type::MF => 4,
            Type::CName => 5,
            Type::SOA => 6,
            Type::MB => 7,
            Type::MG => 8,
            Type::MR => 9,
            Type::Null => 10,
            Type::WKS => 11,
            Type::Ptr => 12,
            Type::HInfo => 13,
            Type::MInfo => 14,
            Type::MX => 15,
            Type::TXT => 16,
            Type::RP => 17,
            Type::AFSB => 18,
            Type::X25 => 19,
            Type::ISDN => 20,
            Type::RT => 21,
            Type::Nsap => 22,
            Type::NsapPtr => 23,
            Type::Sig => 24,
            Type::Key => 25,
            Type::PX => 26,
            Type::GPos => 27,
            Type::AAAA => 28,
            Type::Loc => 29,
            Type::NXT => 30,
            Type::EID => 31,
            Type::NimLoc => 32,
            Type::Srv => 33,
            Type::ATMA => 34,
            Type::NaPtr => 35,
            Type::KX => 36,
            Type::Cert => 37,
            Type::A6 => 38,
            Type::DName => 39,
            Type::SINK => 40,
            Type::OPT => 41,
            Type::APL => 42,
            Type::DS => 43,
            Type::SSHFP => 44,
            Type::IpSecKey => 45,
            Type::RRSig => 46,
            Type::NSec => 47,
            Type::DnsKey => 48,
            Type::DHCID => 49,
            Type::NSec3 => 50,
            Type::NSec3Param => 51,
            Type::TLSA => 52,
            Type::SMIMEA => 53,
            Type::HIP => 55,
            Type::NInfo => 56,
            Type::RKey => 57,
            Type::TALink => 58,
            Type::CDS => 59,
            Type::CDNSKey => 60,
            Type::OpenGPGKey => 61,
            Type::CSYNC => 62,
            Type::ZoneMD => 63,
            Type::SVCB => 64,
            Type::HTTPS => 65,
            Type::SPF => 99,
            Type::UInfo => 100,
            Type::UID => 101,
            Type::GID => 102,
            Type::UNSPEC => 103,
            Type::NID => 104,
            Type::L32 => 105,
            Type::L64 => 106,
            Type::LP => 107,
            Type::EUI48 => 108,
            Type::EUI64 => 109,
            Type::TKey => 249,
            Type::TSig => 250,
            Type::AXFR => 252,
            Type::MailB => 253,
            Type::MailA => 254,
            Type::All => 255,
            Type::URI => 256,
            Type::CAA => 257,
            Type::AVC => 258,
            Type::DOA => 259,
            Type::AMTRELAY => 260,
        }
    }

    /// The type with the value `value`: 1 to 53, 55 to 65, 99 to 109 and 249 to 260 but 251.
    pub fn try_from(value: u16) -> (r: Result<Type, ()>)
        ensures
            match type_of(value) {
                Some(t) => r == Ok::<Type, ()>(t),
                None => r == Err::<Type, ()>(()),
            },
    {
        match value {
            1 => Ok(Type::A),
            2 => Ok(Type::NS),
            3 => Ok(Type::MD),
            4 => Ok(Type::MF),
            5 => Ok(Type::CName),
            6 => Ok(Type::SOA),
            7 => Ok(Type::MB),
            8 => Ok(Type::MG),
            9 => Ok(Type::MR),
            10 => Ok(Type::Null),
            11 => Ok(Type::WKS),
            12 => Ok(Type::Ptr),
            13 => Ok(Type::HInfo),
            14 => Ok(Type::MInfo),
            15 => Ok(Type::MX),
            16 => Ok(Type::TXT),
            17 => Ok(Type::RP),
            18 => Ok(Type::AFSB),
            19 => Ok(Type::X25),
            20 => Ok(Type::ISDN),
            21 => Ok(Type::RT),
            22 => Ok(Type::Nsap),
            23 => Ok(Type::NsapPtr),
            24 => Ok(Type::Sig),
            25 => Ok(Type::Key),
            26 => Ok(Type::PX),
            27 => Ok(Type::GPos),
            28 => Ok(Type::AAAA),
            29 => Ok(Type::Loc),
            30 => Ok(Type::NXT),
            31 => Ok(Type::EID),
            32 => Ok(Type::NimLoc),
            33 => Ok(Type::Srv),
            34 => Ok(Type::ATMA),
            35 => Ok(Type::NaPtr),
            36 => Ok(Type::KX),
            37 => Ok(Type::Cert),
            38 => Ok(Type::A6),
            39 => Ok(Type::DName),
            40 => Ok(Type::SINK),
            41 => Ok(Type::OPT),
            42 => Ok(Type::APL),
            43 => Ok(Type::DS),
            44 => Ok(Type::SSHFP),
            45 => Ok(Type::IpSecKey),
            46 => Ok(Type::RRSig),
            47 => Ok(Type::NSec),
            48 => Ok(Type::DnsKey),
            49 => Ok(Type::DHCID),
            50 => Ok(Type::NSec3),
            51 => Ok(Type::NSec3Param),
            52 => Ok(Type::TLSA),
            53 => Ok(Type::SMIMEA),
            55 => Ok(Type::HIP),
            56 => Ok(Type::NInfo),
            57 => Ok(Type::RKey),
            58 => Ok(Type::TALink),
            59 => Ok(Type::CDS),
            60 => Ok(Type::CDNSKey),
            61 => Ok(Type::OpenGPGKey),
            62 => Ok(Type::CSYNC),
            63 => Ok(Type::ZoneMD),
            64 => Ok(Type::SVCB),
            65 => Ok(Type::HTTPS),
            99 => Ok(Type::SPF),
            100 => Ok(Type::UInfo),
            101 => Ok(Type::UID),
            102 => Ok(Type::GID),
            103 => Ok(Type::UNSPEC),
            104 => Ok(Type::NID),
            105 => Ok(Type::L32),
            106 => Ok(Type::L64),
            107 => Ok(Type::LP),
            108 => Ok(Type::EUI48),
            109 => Ok(Type::EUI64),
            249 => Ok(Type::TKey),
            250 => Ok(Type::TSig),
            252 => Ok(Type::AXFR),
            253 => Ok(Type::MailB),
            254 => Ok(Type::MailA),
            255 => Ok(Type::All),
            256 => Ok(Type::URI),
            257 => Ok(Type::CAA),
            258 => Ok(Type::AVC),
            259 => Ok(Type::DOA),
            260 => Ok(Type::AMTRELAY),
            _ => Err(()),
        }
    }

    /// Parses a type mnemonic of a zone file.
    pub fn from_str(s: &str) -> (r: Result<Type, ZoneParseError>)
        ensures
            match type_parse(s@) {
                Some(t) => r == Ok::<Type, ZoneParseError>(t),
                None => r == Err::<Type, ZoneParseError>(
                    ZoneParseError { ty: ZoneParseErrorType::RecordType, line: 0, row: 0 }),
            },
    {
        if str_eq(s, "A") {
            return Ok(Type::A);
        }
        if str_eq(s, "NS") {
            return Ok(Type::NS);
        }
        if str_eq(s, "MD") {
            return Ok(Type::MD);
        }
        if str_eq(s, "MF") {
            return Ok(Type::MF);
        }
        if str_eq(s, "CNAME") {
            return Ok(Type::CName);
        }
        if str_eq(s, "SOA") {
            return Ok(Type::SOA);
        }
        if str_eq(s, "MB") {
            return Ok(Type::MB);
        }
        if str_eq(s, "MG") {
            return Ok(Type::MG);
        }
        if str_eq(s, "MR") {
            return Ok(Type::MR);
        }
        if str_eq(s, "NULL") {
            return Ok(Type::Null);
        }
        if str_eq(s, "WKS") {
            return Ok(Type::WKS);
        }
        if str_eq(s, "PTR") {
            return Ok(Type::Ptr);
        }
        if str_eq(s, "HINFO") {
            return Ok(Type::HInfo);
        }
        if str_eq(s, "MINFO") {
            return Ok(Type::MInfo);
        }
        if str_eq(s, "MX") {
            return Ok(Type::MX);
        }
        if str_eq(s, "TXT") {
            return Ok(Type::TXT);
        }
        if str_eq(s, "RP") {
            return Ok(Type::RP);
        }
        if str_eq(s, "X25") {
            return Ok(Type::X25);
        }
        if str_eq(s, "ISDN") {
            return Ok(Type::ISDN);
        }
        if str_eq(s, "RT") {
            return Ok(Type::RT);
        }
        if str_eq(s, "NSAP") {
            return Ok(Type::Nsap);
        }
        if str_eq(s, "NSAP_PTR") {
            return Ok(Type::Ptr);
        }
        if str_eq(s, "SIG") {
            return Ok(Type::Sig);
        }
        if str_eq(s, "KEY") {
            return Ok(Type::Key);
        }
        if str_eq(s, "PX") {
            return Ok(Type::PX);
        }
        if str_eq(s, "GPOS") {
            return Ok(Type::GPos);
        }
        if str_eq(s, "AAAA") {
            return Ok(Type::AAAA);
        }
        if str_eq(s, "LOC") {
            return Ok(Type::Loc);
        }
        if str_eq(s, "NXT") {
            return Ok(Type::NXT);
        }
        if str_eq(s, "EID") {
            return Ok(Type::EID);
        }
        if str_eq(s, "NIMLOC") {
            return Ok(Type::NimLoc);
        }
        if str_eq(s, "SRV") {
            return Ok(Type::Srv);
        }
        if str_eq(s, "ATMA") {
            return Ok(Type::ATMA);
        }
        if str_eq(s, "NAP_PTR") {
            return Ok(Type::Ptr);
        }
        if str_eq(s, "KX") {
            return Ok(Type::KX);
        }
        if str_eq(s, "CERT") {
            return Ok(Type::Cert);
        }
        if str_eq(s, "A6") {
            return Ok(Type::A6);
        }
        if str_eq(s, "DNAME") {
            return Ok(Type::DName);
        }
        if str_eq(s, "SINK") {
            return Ok(Type::SINK);
        }
        if str_eq(s, "OPT") {
            return Ok(Type::OPT);
        }
        if str_eq(s, "APL") {
            return Ok(Type::APL);
        }
        if str_eq(s, "DS") {
            return Ok(Type::DS);
        }
        if str_eq(s, "SSHFP") {
            return Ok(Type::SSHFP);
        }
        if str_eq(s, "IPSECKEY") {
            return Ok(Type::IpSecKey);
        }
        if str_eq(s, "RRSIG") {
            return Ok(Type::RRSig);
        }
        if str_eq(s, "NSEC") {
            return Ok(Type::NSec);
        }
        if str_eq(s, "DNSKEY") {
            return Ok(Type::DnsKey);
        }
        if str_eq(s, "DHCID") {
            return Ok(Type::DHCID);
        }
        if str_eq(s, "NSEC3") {
            return Ok(Type::NSec3);
        }
        if str_eq(s, "NSEC3PARAM") {
            return Ok(Type::NSec3Param);
        }
        if str_eq(s, "TLSA") {
            return Ok(Type::TLSA);
        }
        if str_eq(s, "SMIMEA") {
            return Ok(Type::SMIMEA);
        }
        if str_eq(s, "HIP") {
            return Ok(Type::HIP);
        }
        if str_eq(s, "NINFO") {
            return Ok(Type::NInfo);
        }
        if str_eq(s, "RKEY") {
            return Ok(Type::RKey);
        }
        if str_eq(s, "TALINK") {
            return Ok(Type::TALink);
        }
        if str_eq(s, "CDS") {
            return Ok(Type::CDS);
        }
        if str_eq(s, "CDNSKEY") {
            return Ok(Type::CDNSKey);
        }
        if str_eq(s, "OPENGPGKEY") {
            return Ok(Type::OpenGPGKey);
        }
        if str_eq(s, "CSYNC") {
            return Ok(Type::CSYNC);
        }
        if str_eq(s, "ZONEMD") {
            return Ok(Type::ZoneMD);
        }
        if str_eq(s, "SVCB") {
            return Ok(Type::SVCB);
        }
        if str_eq(s, "HTTPS") {
            return Ok(Type::HTTPS);
        }
        if str_eq(s, "SPF") {
            return Ok(Type::SPF);
        }
        if str_eq(s, "UINFO") {
            return Ok(Type::UInfo);
        }
        if str_eq(s, "UID") {
            return Ok(Type::UID);
        }
        if str_eq(s, "GID") {
            return Ok(Type::GID);
        }
        if str_eq(s, "UNSPEC") {
            return Ok(Type::UNSPEC);
        }
        if str_eq(s, "NID") {
            return Ok(Type::NID);
        }
        if str_eq(s, "L32") {
            return Ok(Type::L32);
        }
        if str_eq(s, "L64") {
            return Ok(Type::L64);
        }
        if str_eq(s, "LP") {
            return Ok(Type::LP);
        }
        if str_eq(s, "EUI48") {
            return Ok(Type::EUI48);
        }
        if str_eq(s, "EUI64") {
            return Ok(Type::EUI64);
        }
        if str_eq(s, "TKEY") {
            return Ok(Type::TKey);
        }
        if str_eq(s, "TSIG") {
            return Ok(Type::TSig);
        }
        if str_eq(s, "AXFR") {
            return Ok(Type::AXFR);
        }
        if str_eq(s, "MAILB") {
            return Ok(Type::MailB);
        }
        if str_eq(s, "MAILA") {
            return Ok(Type::MailA);
        }
        if str_eq(s, "*") {
            return Ok(Type::All);
        }
        if str_eq(s, "URI") {
            return Ok(Type::URI);
        }
        if str_eq(s, "CAA") {
            return Ok(Type::CAA);
        }
        if str_eq(s, "AVC") {
            return Ok(Type::AVC);
        }
        if str_eq(s, "DOA") {
            return Ok(Type::DOA);
        }
        if str_eq(s, "AMTRELAY") {
            return Ok(Type::AMTRELAY);
        }
        Err(ZoneParseError::new(ZoneParseErrorType::RecordType, 0, 0))
    }

    /// The zone file mnemonic of the type.
    pub fn to_string(&self) -> (r: String)
        ensures
            r@ == type_mnemonic(*self),
    {
        match self {
            Type::A => String::from_str("A"),
            Type::NS => String::from_str("NS"),
            Type::MD => String::from_str("MD"),
            Type::MF => String::from_str("MF"),
            Type::CName => String::from_str("CNAME"),
            Type::SOA => String::from_str("SOA"),
            Type::MB => String::from_str("MB"),
            Type::MG => String::from_str("MG"),
            Type::MR => String::from_str("MR"),
            Type::Null => String::from_str("NULL"),
            Type::WKS => String::from_str("WKS"),
            Type::Ptr => String::from_str("PTR"),
            Type::HInfo => String::from_str("HINFO"),
            Type::MInfo => String::from_str("MINFO"),
            Type::MX => String::from_str("MX"),
            Type::TXT => String::from_str("TXT"),
            Type::RP => String::from_str("RP"),
            Type::AFSB => String::from_str("AFSB"),
            Type::X25 => String::from_str("X25"),
            Type::ISDN => String::from_str("ISDN"),
            Type::RT => String::from_str("RT"),
            Type::Nsap => String::from_str("NSAP"),
            Type::NsapPtr => String::from_str("NSAP-PTR"),
            Type::Sig => String::from_str("SIG"),
            Type::Key => String::from_str("KEY"),
            Type::PX => String::from_str("PX"),
            Type::GPos => String::from_str("GPOS"),
            Type::AAAA => String::from_str("AAAA"),
            Type::Loc => String::from_str("LOC"),
            Type::NXT => String::from_str("NXT"),
            Type::EID => String::from_str("EID"),
            Type::NimLoc => String::from_str("NIMLOC"),
            Type::Srv => String::from_str("SRV"),
            Type::ATMA => String::from_str("ATMA"),
            Type::NaPtr => String::from_str("NAPTR"),
            Type::KX => String::from_str("KX"),
            Type::Cert => String::from_str("CERT"),
            Type::A6 => String::from_str("A6"),
            Type::DName => String::from_str("DNAME"),
            Type::SINK => String::from_str("SINK"),
            Type::OPT => String::from_str("OPT"),
            Type::APL => String::from_str("APL"),
            Type::DS => String::from_str("DS"),
            Type::SSHFP => String::from_str("SSHFP"),
            Type::IpSecKey => String::from_str("IPSECKEY"),
            Type::RRSig => String::from_str("RRSIG"),
            Type::NSec => String::from_str("NSEC"),
            Type::DnsKey => String::from_str("DNSKEY"),
            Type::DHCID => String::from_str("DHCID"),
            Type::NSec3 => String::from_str("NSEC3"),
            Type::NSec3Param => String::from_str("NSEC3PARAM"),
            Type::TLSA => String::from_str("TLSA"),
            Type::SMIMEA => String::from_str("SMIMEA"),
            Type::HIP => String::from_str("HIP"),
            Type::NInfo => String::from_str("NINFO"),
            Type::RKey => String::from_str("RKEY"),
            Type::TALink => String::from_str("TALINK"),
            Type::CDS => String::from_str("CDS"),
            Type::CDNSKey => String::from_str("CDNSKEY"),
            Type::OpenGPGKey => String::from_str("OPENGPGKEY"),
            Type::CSYNC => String::from_str("CSYNC"),
            Type::ZoneMD => String::from_str("ZONEMD"),
            Type::SVCB => String::from_str("SVCB"),
            Type::HTTPS => String::from_str("HTTPS"),
            Type::SPF => String::from_str("SPF"),
            Type::UInfo => String::from_str("UINFO"),
            Type::UID => String::from_str("UID"),
            Type::GID => String::from_str("GID"),
            Type::UNSPEC => String::from_str("UNSPEC"),
            Type::NID => String::from_str("NID"),
            Type::L32 => String::from_str("L32"),
            Type::L64 => String::from_str("L64"),
            Type::LP => String::from_str("LP"),
            Type::EUI48 => String::from_str("EUI48"),
            Type::EUI64 => String::from_str("EUI64"),
            Type::TKey => String::from_str("TKEY"),
            Type::TSig => String::from_str("TSIG"),
            Type::AXFR => String::from_str("AXFR"),
            Type::MailB => String::from_str("MAILB"),
            Type::MailA => String::from_str("MAILA"),
            Type::All => String::from_str("*"),
            Type::URI => String::from_str("URI"),
            Type::CAA => String::from_str("CAA"),
            Type::AVC => String::from_str("AVC"),
            Type::DOA => String::from_str("DOA"),
            Type::AMTRELAY => String::from_str("AMTRELAY"),
        }
    }
}

/// Reading a type back from its value gives the type.
pub proof fn lemma_type_value_roundtrip(t: Type)
    ensures
        type_of(type_value(t)) == Some(t),
{
}

/// Parsing the mnemonic of a type gives the type, for every type but `AFSB`, `NsapPtr` and
/// `NaPtr`, whose mnemonics are not read back.
pub proof fn lemma_type_mnemonic_roundtrip(t: Type)
    requires
        t != Type::AFSB,
        t != Type::NsapPtr,
        t != Type::NaPtr,
    ensures
        type_parse(type_mnemonic(t)) == Some(t),
{
    reveal_strlit("*");
    assert("*"@.len() == 1 && "*"@[0] == '*');
    reveal_strlit("A");
    assert("A"@.len() == 1 && "A"@[0] == 'A');
    reveal_strlit("A6");
    assert("A6"@.len() == 2 && "A6"@[0] == 'A' && "A6"@[1] == '6');
    reveal_strlit("AAAA");
    assert("AAAA"@.len() == 4 && "AAAA"@[0] == 'A' && "AAAA"@[1] == 'A' && "AAAA"@[2] == 'A' && "AAAA"@[3] == 'A');
    reveal_strlit("AFSB");
    assert("AFSB"@.len() == 4 && "AFSB"@[0] == 'A' && "AFSB"@[1] == 'F' && "AFSB"@[2] == 'S' && "AFSB"@[3] == 'B');
    reveal_strlit("AMTRELAY");
    assert("AMTRELAY"@.len() == 8 && "AMTRELAY"@[0] == 'A' && "AMTRELAY"@[1] == 'M' && "AMTRELAY"@[2] == 'T' && "AMTRELAY"@[3] == 'R' && "AMTRELAY"@[4] == 'E' && "AMTRELAY"@[5] == 'L' && "AMTRELAY"@[6] == 'A' && "AMTRELAY"@[7] == 'Y');
    reveal_strlit("APL");
    assert("APL"@.len() == 3 && "APL"@[0] == 'A' && "APL"@[1] == 'P' && "APL"@[2] == 'L');
    reveal_strlit("ATMA");
    assert("ATMA"@.len() == 4 && "ATMA"@[0] == 'A' && "ATMA"@[1] == 'T' && "ATMA"@[2] == 'M' && "ATMA"@[3] == 'A');
    reveal_strlit("AVC");
    assert("AVC"@.len() == 3 && "AVC"@[0] == 'A' && "AVC"@[1] == 'V' && "AVC"@[2] == 'C');
    reveal_strlit("AXFR");
    assert("AXFR"@.len() == 4 && "AXFR"@[0] == 'A' && "AXFR"@[1] == 'X' && "AXFR"@[2] == 'F' && "AXFR"@[3] == 'R');
    reveal_strlit("CAA");
    assert("CAA"@.len() == 3 && "CAA"@[0] == 'C' && "CAA"@[1] == 'A' && "CAA"@[2] == 'A');
    reveal_strlit("CDNSKEY");
    assert("CDNSKEY"@.len() == 7 && "CDNSKEY"@[0] == 'C' && "CDNSKEY"@[1] == 'D' && "CDNSKEY"@[2] == 'N' && "CDNSKEY"@[3] == 'S' && "CDNSKEY"@[4] == 'K' && "CDNSKEY"@[5] == 'E' && "CDNSKEY"@[6] == 'Y');
    reveal_strlit("CDS");
    assert("CDS"@.len() == 3 && "CDS"@[0] == 'C' && "CDS"@[1] == 'D' && "CDS"@[2] == 'S');
    reveal_strlit("CERT");
    assert("CERT"@.len() == 4 && "CERT"@[0] == 'C' && "CERT"@[1] == 'E' && "CERT"@[2] == 'R' && "CERT"@[3] == 'T');
    reveal_strlit("CNAME");
    assert("CNAME"@.len() == 5 && "CNAME"@[0] == 'C' && "CNAME"@[1] == 'N' && "CNAME"@[2] == 'A' && "CNAME"@[3] == 'M' && "CNAME"@[4] == 'E');
    reveal_strlit("CSYNC");
    assert("CSYNC"@.len() == 5 && "CSYNC"@[0] == 'C' && "CSYNC"@[1] == 'S' && "CSYNC"@[2] == 'Y' && "CSYNC"@[3] == 'N' && "CSYNC"@[4] == 'C');
    reveal_strlit("DHCID");
    assert("DHCID"@.len() == 5 && "DHCID"@[0] == 'D' && "DHCID"@[1] == 'H' && "DHCID"@[2] == 'C' && "DHCID"@[3] == 'I' && "DHCID"@[4] == 'D');
    reveal_strlit("DNAME");
    assert("DNAME"@.len() == 5 && "DNAME"@[0] == 'D' && "DNAME"@[1] == 'N' && "DNAME"@[2] == 'A' && "DNAME"@[3] == 'M' && "DNAME"@[4] == 'E');
    reveal_strlit("DNSKEY");
    assert("DNSKEY"@.len() == 6 && "DNSKEY"@[0] == 'D' && "DNSKEY"@[1] == 'N' && "DNSKEY"@[2] == 'S' && "DNSKEY"@[3] == 'K' && "DNSKEY"@[4] == 'E' && "DNSKEY"@[5] == 'Y');
    reveal_strlit("DOA");
    assert("DOA"@.len() == 3 && "DOA"@[0] == 'D' && "DOA"@[1] == 'O' && "DOA"@[2] == 'A');
    reveal_strlit("DS");
    assert("DS"@.len() == 2 && "DS"@[0] == 'D' && "DS"@[1] == 'S');
    reveal_strlit("EID");
    assert("EID"@.len() == 3 && "EID"@[0] == 'E' && "EID"@[1] == 'I' && "EID"@[2] == 'D');
    reveal_strlit("EUI48");
    assert("EUI48"@.len() == 5 && "EUI48"@[0] == 'E' && "EUI48"@[1] == 'U' && "EUI48"@[2] == 'I' && "EUI48"@[3] == '4' && "EUI48"@[4] == '8');
    reveal_strlit("EUI64");
    assert("EUI64"@.len() == 5 && "EUI64"@[0] == 'E' && "EUI64"@[1] == 'U' && "EUI64"@[2] == 'I' && "EUI64"@[3] == '6' && "EUI64"@[4] == '4');
    reveal_strlit("GID");
    assert("GID"@.len() == 3 && "GID"@[0] == 'G' && "GID"@[1] == 'I' && "GID"@[2] == 'D');
    reveal_strlit("GPOS");
    assert("GPOS"@.len() == 4 && "GPOS"@[0] == 'G' && "GPOS"@[1] == 'P' && "GPOS"@[2] == 'O' && "GPOS"@[3] == 'S');
    reveal_strlit("HINFO");
    assert("HINFO"@.len() == 5 && "HINFO"@[0] == 'H' && "HINFO"@[1] == 'I' && "HINFO"@[2] == 'N' && "HINFO"@[3] == 'F' && "HINFO"@[4] == 'O');
    reveal_strlit("HIP");
    assert("HIP"@.len() == 3 && "HIP"@[0] == 'H' && "HIP"@[1] == 'I' && "HIP"@[2] == 'P');
    reveal_strlit("HTTPS");
    assert("HTTPS"@.len() == 5 && "HTTPS"@[0] == 'H' && "HTTPS"@[1] == 'T' && "HTTPS"@[2] == 'T' && "HTTPS"@[3] == 'P' && "HTTPS"@[4] == 'S');
    reveal_strlit("IPSECKEY");
    assert("IPSECKEY"@.len() == 8 && "IPSECKEY"@[0] == 'I' && "IPSECKEY"@[1] == 'P' && "IPSECKEY"@[2] == 'S' && "IPSECKEY"@[3] == 'E' && "IPSECKEY"@[4] == 'C' && "IPSECKEY"@[5] == 'K' && "IPSECKEY"@[6] == 'E' && "IPSECKEY"@[7] == 'Y');
    reveal_strlit("ISDN");
    assert("ISDN"@.len() == 4 && "ISDN"@[0] == 'I' && "ISDN"@[1] == 'S' && "ISDN"@[2] == 'D' && "ISDN"@[3] == 'N');
    reveal_strlit("KEY");
    assert("KEY"@.len() == 3 && "KEY"@[0] == 'K' && "KEY"@[1] == 'E' && "KEY"@[2] == 'Y');
    reveal_strlit("KX");
    assert("KX"@.len() == 2 && "KX"@[0] == 'K' && "KX"@[1] == 'X');
    reveal_strlit("L32");
    assert("L32"@.len() == 3 && "L32"@[0] == 'L' && "L32"@[1] == '3' && "L32"@[2] == '2');
    reveal_strlit("L64");
    assert("L64"@.len() == 3 && "L64"@[0] == 'L' && "L64"@[1] == '6' && "L64"@[2] == '4');
    reveal_strlit("LOC");
    assert("LOC"@.len() == 3 && "LOC"@[0] == 'L' && "LOC"@[1] == 'O' && "LOC"@[2] == 'C');
    reveal_strlit("LP");
    assert("LP"@.len() == 2 && "LP"@[0] == 'L' && "LP"@[1] == 'P');
    reveal_strlit("MAILA");
    assert("MAILA"@.len() == 5 && "MAILA"@[0] == 'M' && "MAILA"@[1] == 'A' && "MAILA"@[2] == 'I' && "MAILA"@[3] == 'L' && "MAILA"@[4] == 'A');
    reveal_strlit("MAILB");
    assert("MAILB"@.len() == 5 && "MAILB"@[0] == 'M' && "MAILB"@[1] == 'A' && "MAILB"@[2] == 'I' && "MAILB"@[3] == 'L' && "MAILB"@[4] == 'B');
    reveal_strlit("MB");
    assert("MB"@.len() == 2 && "MB"@[0] == 'M' && "MB"@[1] == 'B');
    reveal_strlit("MD");
    assert("MD"@.len() == 2 && "MD"@[0] == 'M' && "MD"@[1] == 'D');
    reveal_strlit("MF");
    assert("MF"@.len() == 2 && "MF"@[0] == 'M' && "MF"@[1] == 'F');
    reveal_strlit("MG");
    assert("MG"@.len() == 2 && "MG"@[0] == 'M' && "MG"@[1] == 'G');
    reveal_strlit("MINFO");
    assert("MINFO"@.len() == 5 && "MINFO"@[0] == 'M' && "MINFO"@[1] == 'I' && "MINFO"@[2] == 'N' && "MINFO"@[3] == 'F' && "MINFO"@[4] == 'O');
    reveal_strlit("MR");
    assert("MR"@.len() == 2 && "MR"@[0] == 'M' && "MR"@[1] == 'R');
    reveal_strlit("MX");
    assert("MX"@.len() == 2 && "MX"@[0] == 'M' && "MX"@[1] == 'X');
    reveal_strlit("NAPTR");
    assert("NAPTR"@.len() == 5 && "NAPTR"@[0] == 'N' && "NAPTR"@[1] == 'A' && "NAPTR"@[2] == 'P' && "NAPTR"@[3] == 'T' && "NAPTR"@[4] == 'R');
    reveal_strlit("NAP_PTR");
    assert("NAP_PTR"@.len() == 7 && "NAP_PTR"@[0] == 'N' && "NAP_PTR"@[1] == 'A' && "NAP_PTR"@[2] == 'P' && "NAP_PTR"@[3] == '_' && "NAP_PTR"@[4] == 'P' && "NAP_PTR"@[5] == 'T' && "NAP_PTR"@[6] == 'R');
    reveal_strlit("NID");
    assert("NID"@.len() == 3 && "NID"@[0] == 'N' && "NID"@[1] == 'I' && "NID"@[2] == 'D');
    reveal_strlit("NIMLOC");
    assert("NIMLOC"@.len() == 6 && "NIMLOC"@[0] == 'N' && "NIMLOC"@[1] == 'I' && "NIMLOC"@[2] == 'M' && "NIMLOC"@[3] == 'L' && "NIMLOC"@[4] == 'O' && "NIMLOC"@[5] == 'C');
    reveal_strlit("NINFO");
    assert("NINFO"@.len() == 5 && "NINFO"@[0] == 'N' && "NINFO"@[1] == 'I' && "NINFO"@[2] == 'N' && "NINFO"@[3] == 'F' && "NINFO"@[4] == 'O');
    reveal_strlit("NS");
    assert("NS"@.len() == 2 && "NS"@[0] == 'N' && "NS"@[1] == 'S');
    reveal_strlit("NSAP");
    assert("NSAP"@.len() == 4 && "NSAP"@[0] == 'N' && "NSAP"@[1] == 'S' && "NSAP"@[2] == 'A' && "NSAP"@[3] == 'P');
    reveal_strlit("NSAP-PTR");
    assert("NSAP-PTR"@.len() == 8 && "NSAP-PTR"@[0] == 'N' && "NSAP-PTR"@[1] == 'S' && "NSAP-PTR"@[2] == 'A' && "NSAP-PTR"@[3] == 'P' && "NSAP-PTR"@[4] == '-' && "NSAP-PTR"@[5] == 'P' && "NSAP-PTR"@[6] == 'T' && "NSAP-PTR"@[7] == 'R');
    reveal_strlit("NSAP_PTR");
    assert("NSAP_PTR"@.len() == 8 && "NSAP_PTR"@[0] == 'N' && "NSAP_PTR"@[1] == 'S' && "NSAP_PTR"@[2] == 'A' && "NSAP_PTR"@[3] == 'P' && "NSAP_PTR"@[4] == '_' && "NSAP_PTR"@[5] == 'P' && "NSAP_PTR"@[6] == 'T' && "NSAP_PTR"@[7] == 'R');
    reveal_strlit("NSEC");
    assert("NSEC"@.len() == 4 && "NSEC"@[0] == 'N' && "NSEC"@[1] == 'S' && "NSEC"@[2] == 'E' && "NSEC"@[3] == 'C');
    reveal_strlit("NSEC3");
    assert("NSEC3"@.len() == 5 && "NSEC3"@[0] == 'N' && "NSEC3"@[1] == 'S' && "NSEC3"@[2] == 'E' && "NSEC3"@[3] == 'C' && "NSEC3"@[4] == '3');
    reveal_strlit("NSEC3PARAM");
    assert("NSEC3PARAM"@.len() == 10 && "NSEC3PARAM"@[0] == 'N' && "NSEC3PARAM"@[1] == 'S' && "NSEC3PARAM"@[2] == 'E' && "NSEC3PARAM"@[3] == 'C' && "NSEC3PARAM"@[4] == '3' && "NSEC3PARAM"@[5] == 'P' && "NSEC3PARAM"@[6] == 'A' && "NSEC3PARAM"@[7] == 'R' && "NSEC3PARAM"@[8] == 'A' && "NSEC3PARAM"@[9] == 'M');
    reveal_strlit("NULL");
    assert("NULL"@.len() == 4 && "NULL"@[0] == 'N' && "NULL"@[1] == 'U' && "NULL"@[2] == 'L' && "NULL"@[3] == 'L');
    reveal_strlit("NXT");
    assert("NXT"@.len() == 3 && "NXT"@[0] == 'N' && "NXT"@[1] == 'X' && "NXT"@[2] == 'T');
    reveal_strlit("OPENGPGKEY");
    assert("OPENGPGKEY"@.len() == 10 && "OPENGPGKEY"@[0] == 'O' && "OPENGPGKEY"@[1] == 'P' && "OPENGPGKEY"@[2] == 'E' && "OPENGPGKEY"@[3] == 'N' && "OPENGPGKEY"@[4] == 'G' && "OPENGPGKEY"@[5] == 'P' && "OPENGPGKEY"@[6] == 'G' && "OPENGPGKEY"@[7] == 'K' && "OPENGPGKEY"@[8] == 'E' && "OPENGPGKEY"@[9] == 'Y');
    reveal_strlit("OPT");
    assert("OPT"@.len() == 3 && "OPT"@[0] == 'O' && "OPT"@[1] == 'P' && "OPT"@[2] == 'T');
    reveal_strlit("PTR");
    assert("PTR"@.len() == 3 && "PTR"@[0] == 'P' && "PTR"@[1] == 'T' && "PTR"@[2] == 'R');
    reveal_strlit("PX");
    assert("PX"@.len() == 2 && "PX"@[0] == 'P' && "PX"@[1] == 'X');
    reveal_strlit("RKEY");
    assert("RKEY"@.len() == 4 && "RKEY"@[0] == 'R' && "RKEY"@[1] == 'K' && "RKEY"@[2] == 'E' && "RKEY"@[3] == 'Y');
    reveal_strlit("RP");
    assert("RP"@.len() == 2 && "RP"@[0] == 'R' && "RP"@[1] == 'P');
    reveal_strlit("RRSIG");
    assert("RRSIG"@.len() == 5 && "RRSIG"@[0] == 'R' && "RRSIG"@[1] == 'R' && "RRSIG"@[2] == 'S' && "RRSIG"@[3] == 'I' && "RRSIG"@[4] == 'G');
    reveal_strlit("RT");
    assert("RT"@.len() == 2 && "RT"@[0] == 'R' && "RT"@[1] == 'T');
    reveal_strlit("SIG");
    assert("SIG"@.len() == 3 && "SIG"@[0] == 'S' && "SIG"@[1] == 'I' && "SIG"@[2] == 'G');
    reveal_strlit("SINK");
    assert("SINK"@.len() == 4 && "SINK"@[0] == 'S' && "SINK"@[1] == 'I' && "SINK"@[2] == 'N' && "SINK"@[3] == 'K');
    reveal_strlit("SMIMEA");
    assert("SMIMEA"@.len() == 6 && "SMIMEA"@[0] == 'S' && "SMIMEA"@[1] == 'M' && "SMIMEA"@[2] == 'I' && "SMIMEA"@[3] == 'M' && "SMIMEA"@[4] == 'E' && "SMIMEA"@[5] == 'A');
    reveal_strlit("SOA");
    assert("SOA"@.len() == 3 && "SOA"@[0] == 'S' && "SOA"@[1] == 'O' && "SOA"@[2] == 'A');
    reveal_strlit("SPF");
    assert("SPF"@.len() == 3 && "SPF"@[0] == 'S' && "SPF"@[1] == 'P' && "SPF"@[2] == 'F');
    reveal_strlit("SRV");
    assert("SRV"@.len() == 3 && "SRV"@[0] == 'S' && "SRV"@[1] == 'R' && "SRV"@[2] == 'V');
    reveal_strlit("SSHFP");
    assert("SSHFP"@.len() == 5 && "SSHFP"@[0] == 'S' && "SSHFP"@[1] == 'S' && "SSHFP"@[2] == 'H' && "SSHFP"@[3] == 'F' && "SSHFP"@[4] == 'P');
    reveal_strlit("SVCB");
    assert("SVCB"@.len() == 4 && "SVCB"@[0] == 'S' && "SVCB"@[1] == 'V' && "SVCB"@[2] == 'C' && "SVCB"@[3] == 'B');
    reveal_strlit("TALINK");
    assert("TALINK"@.len() == 6 && "TALINK"@[0] == 'T' && "TALINK"@[1] == 'A' && "TALINK"@[2] == 'L' && "TALINK"@[3] == 'I' && "TALINK"@[4] == 'N' && "TALINK"@[5] == 'K');
    reveal_strlit("TKEY");
    assert("TKEY"@.len() == 4 && "TKEY"@[0] == 'T' && "TKEY"@[1] == 'K' && "TKEY"@[2] == 'E' && "TKEY"@[3] == 'Y');
    reveal_strlit("TLSA");
    assert("TLSA"@.len() == 4 && "TLSA"@[0] == 'T' && "TLSA"@[1] == 'L' && "TLSA"@[2] == 'S' && "TLSA"@[3] == 'A');
    reveal_strlit("TSIG");
    assert("TSIG"@.len() == 4 && "TSIG"@[0] == 'T' && "TSIG"@[1] == 'S' && "TSIG"@[2] == 'I' && "TSIG"@[3] == 'G');
    reveal_strlit("TXT");
    assert("TXT"@.len() == 3 && "TXT"@[0] == 'T' && "TXT"@[1] == 'X' && "TXT"@[2] == 'T');
    reveal_strlit("UID");
    assert("UID"@.len() == 3 && "UID"@[0] == 'U' && "UID"@[1] == 'I' && "UID"@[2] == 'D');
    reveal_strlit("UINFO");
    assert("UINFO"@.len() == 5 && "UINFO"@[0] == 'U' && "UINFO"@[1] == 'I' && "UINFO"@[2] == 'N' && "UINFO"@[3] == 'F' && "UINFO"@[4] == 'O');
    reveal_strlit("UNSPEC");
    assert("UNSPEC"@.len() == 6 && "UNSPEC"@[0] == 'U' && "UNSPEC"@[1] == 'N' && "UNSPEC"@[2] == 'S' && "UNSPEC"@[3] == 'P' && "UNSPEC"@[4] == 'E' && "UNSPEC"@[5] == 'C');
    reveal_strlit("URI");
    assert("URI"@.len() == 3 && "URI"@[0] == 'U' && "URI"@[1] == 'R' && "URI"@[2] == 'I');
    reveal_strlit("WKS");
    assert("WKS"@.len() == 3 && "WKS"@[0] == 'W' && "WKS"@[1] == 'K' && "WKS"@[2] == 'S');
    reveal_strlit("X25");
    assert("X25"@.len() == 3 && "X25"@[0] == 'X' && "X25"@[1] == '2' && "X25"@[2] == '5');
    reveal_strlit("ZONEMD");
    assert("ZONEMD"@.len() == 6 && "ZONEMD"@[0] == 'Z' && "ZONEMD"@[1] == 'O' && "ZONEMD"@[2] == 'N' && "ZONEMD"@[3] == 'E' && "ZONEMD"@[4] == 'M' && "ZONEMD"@[5] == 'D');

}


/// A domain name in its dotted text form.
pub type DomainName = String;

#[derive(Clone, Debug, Default, Eq, PartialEq)]
pub struct SoaRecord {
    pub name_server: DomainName,
    pub mailbox: DomainName,
    pub serial: u32,
    pub refresh: u32,
    pub retry: u32,
    pub expire: u32,
    pub minimum: u32,
}

#[derive(Clone, Debug, Eq, PartialEq)]
pub struct WksRecord {
    pub address: [u8; 4],
    pub protocol: u8,
    pub data: Vec<u8>,
}

#[derive(Clone, Debug, Default, Eq, PartialEq)]
pub struct HardwareInfoRecord {
    pub cpu: String,
    pub os: String,
}

#[derive(Clone, Debug, Default, Eq, PartialEq)]
pub struct MailInfoRecord {
    pub responsible: DomainName,
    pub error: DomainName,
}

#[derive(Clone, Debug, Default, Eq, PartialEq)]
pub struct MailExchangeRecord {
    pub preference: u16,
    pub exchange: DomainName,
}

#[derive(Clone, Debug, Default, Eq, PartialEq)]
pub struct ResponsiblePerson {
    pub mailbox: DomainName,
    pub txt: DomainName,
}

#[derive(Clone, Debug, Default, Eq, PartialEq)]
pub struct IsdnRecord {
    pub address: String,
    pub sub_address: String,
}

#[derive(Clone, Debug, Default, Eq, PartialEq)]
pub struct RouteThroughRecord {
    pub preference: u16,
    pub intermediate_host: DomainName,
}

#[derive(Clone, Debug, Default, Eq, PartialEq)]
pub struct NsapRecord(pub Vec<u8>);

#[derive(Clone, Debug, Default, Eq, PartialEq)]
pub struct AFSDataBaseRecord {
    pub subtype: u16,
    pub hostname: DomainName,
}

#[derive(Clone, Debug, Default, Eq, PartialEq)]
pub struct SignatureRecord {
    pub type_covered: u16,
    pub algorithm: u8,
    pub labels: u8,
    pub original_ttl: u32,
    pub signature_expiration: u32,
    pub signature_inception: u32,
    pub key_tag: u16,
    pub signer_name: DomainName,
    pub signature: Vec<u8>,
}

#[derive(Clone, Debug, Default, Eq, PartialEq)]
pub struct KeyRecord {
    pub flags: u16,
    pub protocol: u8,
    pub algorithm: u8,
    pub public_key: Vec<u8>,
}

#[derive(Clone, Debug, Default, Eq, PartialEq)]
pub struct PxRecord {
    pub preference: u16,
    pub map822: DomainName,
    pub map_x400: DomainName,
}

#[derive(Clone, Debug, Default, Eq, PartialEq)]
pub struct GPosRecord {
    pub longitude: String,
    pub latitude: String,
    pub altitude: String,
}

#[derive(Clone, Debug, Default, Eq, PartialEq)]
pub struct LocationRecord {
    pub version: u8,
    pub size: u8,
    pub horizontal_precision: u8,
    pub vertical_precision: u8,
    pub latitude: u32,
    pub longitude: u32,
    pub altitude: u32,
}

#[derive(Clone, Debug, Default, Eq, PartialEq)]
pub struct NxtRecord {
    pub next_domain_name: DomainName,
    pub type_bit_map: Vec<u8>,
}

#[derive(Clone, Debug, Default, Eq, PartialEq)]
pub struct SrvRecord {
    pub priority: u16,
    pub weight: u16,
    pub port: u16,
    pub target: DomainName,
}

#[derive(Clone, Debug, Default, Eq, PartialEq)]
pub struct NaPtr {
    pub order: u16,
    pub preference: u16,
    pub flags: String,
    pub service: Vec<String>,
    pub regexp: String,
    pub replacement: DomainName,
}

#[derive(Clone, Debug, Default, Eq, PartialEq)]
pub struct KeyExchangeRecord {
    pub preference: u16,
    pub exchange: DomainName,
}

#[derive(Clone, Debug, Default, Eq, PartialEq)]
pub struct CertRecord {
    pub cert_type: u16,
    pub key_tag: u16,
    pub algorithm: u8,
    pub certificate: Vec<u8>,
}

#[derive(Clone, Debug, Eq, PartialEq)]
pub struct A6Record {
    pub prefix_len: u8,
    pub address: [u8; 16],
    pub prefix: DomainName,
}

#[derive(Clone, Debug, Default, Eq, PartialEq)]
pub struct SinkRecord {
    pub coding: u8,
    pub subcoding: u8,
    pub data: Vec<u8>,
}

#[derive(Clone, Debug, Default, Eq, PartialEq)]
pub struct AplRecord {
    address_family: u16,
    prefix: u8,
    afd_length: i8,
    afd_part: Vec<u8>,
}

#[derive(Clone, Debug, Default, Eq, PartialEq)]
pub struct DsRecord {
    pub key_tag: u16,
    pub algorithm: u8,
    pub digest_type: u8,
    pub digest: Vec<u8>,
}

#[derive(Clone, Debug, Default, Eq, PartialEq)]
pub struct SshFpRecord {
    pub algorithm: u8,
    pub fp_type: u8,
    pub fingerprint: Vec<u8>,
}

#[derive(Clone, Debug, Eq, PartialEq)]
pub struct IpSecKeyRecord {
    pub precedence: u8,
    pub algorithm: u8,
    pub gateway: IpSecKeyRecordGateway,
    pub public_key: Vec<u8>,
}

#[derive(Clone, Debug, Eq, PartialEq)]
pub enum IpSecKeyRecordGateway {
    IPv4([u8; 4]),
    IPv6([u8; 16]),
    Domain(DomainName),
}

#[derive(Clone, Debug, Eq, PartialEq)]
pub struct RRSigRecord {
    pub tye_covered: u16,
    pub algorithm: u8,
    pub labels: u8,
    pub original_ttl: u32,
    pub signature_expiration: u32,
    pub signature_inception: u32,
    pub key_tag: u16,
    pub signer_name: String,
    pub signature: Vec<u8>,
}

#[derive(Clone, Debug, Eq, PartialEq)]
pub struct NSecRecord {
    pub next_domain_name: DomainName,
    pub type_bit_maps: Vec<u8>,
}

#[derive(Clone, Debug, Eq, PartialEq)]
pub struct DnsKeyRecord {
    pub flags: u16,
    pub protocol: u8,
    pub algorithm: u8,
    pub public_key: Vec<u8>,
}

#[derive(Clone, Debug, Eq, PartialEq)]
pub struct DHCIDRecord {
    pub identifier_type: u16,
    pub digest_type: u8,
    pub digest: Vec<u8>,
}

#[derive(Clone, Debug, Eq, PartialEq)]
pub struct NSec3Record {

}

#[derive(Clone, Debug, Eq, PartialEq)]
pub struct NSec3ParamRecord {

}

#[derive(Clone, Debug, Eq, PartialEq)]
pub struct TlsaRecord {
    pub cert_usage: u8,
    pub selector: u8,
    pub matching_type: u8,
    pub cert_assoc_data: Vec<u8>,
}

#[derive(Clone, Debug, Eq, PartialEq)]
pub struct HipRecord {

}

#[derive(Clone, Debug, Eq, PartialEq)]
pub struct RKeyRecord {
    pub flags: u16,
    pub protocol: u8,
    pub algorithm: u8,
    pub public_key: Vec<u8>,
}

#[derive(Clone, Debug, Eq, PartialEq)]
pub struct TALinkRecord {
    pub prev: DomainName,
    pub next: DomainName,
}

#[derive(Clone, Debug, Eq, PartialEq)]
pub struct CSyncRecord {
    pub soa_serial: u32,
    pub flags: u16,
    pub type_bit_map: Vec<u8>,
}

#[derive(Clone, Debug, Eq, PartialEq)]
pub struct ZoneMDRecord {
    pub serial: u32,
    pub scheme: u8,
    pub algo: u8,
    pub digest: Vec<u8>,
}

#[derive(Clone, Debug, Default, Eq, PartialEq)]
pub struct NIDRecord {
    pub preference: u16,
    pub node_id: u64,
}

#[derive(Clone, Debug, Default, Eq, PartialEq)]
pub struct L32Record {
    pub preference: u16,
    pub locator: u32,
}

#[derive(Clone, Debug, Default, Eq, PartialEq)]
pub struct L64Record {
    pub preference: u16,
    pub locator: u64,
}

#[derive(Clone, Debug, Default, Eq, PartialEq)]
pub struct LPRecord {
    pub preference: u16,
    pub fqdn: Vec<u8>,
}

#[derive(Clone, Debug, Default, Eq, PartialEq)]
pub struct TSigRecord {

}

#[derive(Clone, Debug, Default, Eq, PartialEq)]
pub struct TKeyRecord {

}

#[derive(Clone, Debug, Default, Eq, PartialEq)]
pub struct UriRecord {
    pub priority: u16,
    pub weight: u16,
    pub target: String,
}

#[derive(Clone, Debug, Default, Eq, PartialEq)]
pub struct CaaRecord {
    pub flags: u8,
    pub tag: String,
    pub value: Vec<u8>,
}

#[derive(Clone, Debug, Eq, PartialEq)]
pub struct AmtRelayRecord {
    pub precedence: u8,
    pub relay: AmtRelayRecordRelay,
}

#[derive(Clone, Debug, Default, Eq, PartialEq)]
pub struct NimrodLocator(pub Vec<u8>);

#[derive(Clone, Debug, Eq, PartialEq)]
pub enum AmtRelayRecordRelay {
    Empty,
    IPv4([u8; 4]),
    IPv6([u8; 16]),
    Domain(DomainName),
}

#[derive(Clone, Debug, Eq, PartialEq)]
pub enum UnimplementedRecord {
    Wire { id: u16, data: Vec<u8> },
    Text { name: String, data: String },
}

#[derive(Copy, Clone, Debug, Default, Eq, PartialEq)]
pub struct EUI48Record([u8; 6]);

#[derive(Copy, Clone, Debug, Default, Eq, PartialEq)]
pub struct EUI64Record([u8; 8]);

/// The data of a resource record, by type.
#[derive(Clone, Debug, Eq, PartialEq)]
pub enum ResourceRecordData {
    A([u8; 4]),
    NS(DomainName),
    MD(DomainName),
    MF(DomainName),
    CName(DomainName),
    SOA(SoaRecord),
    MB(DomainName),
    MG(DomainName),
    MR(DomainName),
    Null(Vec<u8>),
    WKS(WksRecord),
    Ptr(DomainName),
    HInfo(HardwareInfoRecord),
    MInfo(MailInfoRecord),
    MX(MailExchangeRecord),
    TXT(String),
    RP(ResponsiblePerson),
    AFSDB(AFSDataBaseRecord),
    X25(String),
    ISDN(IsdnRecord),
    RT(RouteThroughRecord),
    Nsap(NsapRecord),
    NsapPtr(DomainName),
    Sig(SignatureRecord),
    Key(KeyRecord),
    PX(PxRecord),
    GPos(GPosRecord),
    AAAA([u8; 16]),
    Loc(LocationRecord),
    NXT(NxtRecord),
    EID(NimrodLocator),
    NimLoc(NimrodLocator),
    Srv(SrvRecord),
    ATMA,
    NaPtr(NaPtr),
    KX(KeyExchangeRecord),
    Cert(CertRecord),
    A6(A6Record),
    DName(DomainName),
    Sink(SinkRecord),
    OPT,
    APL(AplRecord),
    DS(DsRecord),
    SSHFP(SshFpRecord),
    IpSecKey(IpSecKeyRecord),
    RRSig(RRSigRecord),
    NSec(NSecRecord),
    DnsKey(DnsKeyRecord),
    DHCID(DHCIDRecord),
    NSec3(NSec3Record),
    NSec3Param(NSec3ParamRecord),
    TLSA(TlsaRecord),
    SMIMEA(TlsaRecord),
    HIP(HipRecord),
    NInfo(String),
    RKey(RKeyRecord),
    TALink(TALinkRecord),
    CDS(DsRecord),
    CDNSKey(DnsKeyRecord),
    OpenGPGKey(Vec<u8>),
    CSYNC(CSyncRecord),
    ZoneMD(ZoneMDRecord),
    SVCB(Vec<u8>),
    HTTPS(Vec<u8>),
    SPF(String),
    UInfo,
    UID,
    GID,
    UNSPEC,
    NID(NIDRecord),
    L32(L32Record),
    L64(L64Record),
    LP(LPRecord),
    EUI48(EUI48Record),
    EUI64(EUI64Record),
    TKey(TKeyRecord),
    TSig(TSigRecord),
    AXFR,
    MailB,
    MailA,
    All,
    URI(UriRecord),
    CAA(CaaRecord),
    AVC,
    DOA,
    AMTRELAY(AmtRelayRecord),
    Other(UnimplementedRecord),
}

/// The type of the data of a resource record: a known type, or the numeric type of data that
/// came from the wire with an unknown type, or nothing for data that came from text with an
/// unknown type.
pub open spec fn record_type(d: ResourceRecordData) -> Result<Type, Option<u16>> {
    match d {
        ResourceRecordData::A(_) => Ok(Type::A),
        ResourceRecordData::NS(_) => Ok(Type::NS),
        ResourceRecordData::MD(_) => Ok(Type::MD),
        ResourceRecordData::MF(_) => Ok(Type::MF),
        ResourceRecordData::CName(_) => Ok(Type::CName),
        ResourceRecordData::SOA(_) => Ok(Type::SOA),
        ResourceRecordData::MB(_) => Ok(Type::MB),
        ResourceRecordData::MG(_) => Ok(Type::MG),
        ResourceRecordData::MR(_) => Ok(Type::MR),
        ResourceRecordData::Null(_) => Ok(Type::Null),
        ResourceRecordData::WKS(_) => Ok(Type::WKS),
        ResourceRecordData::Ptr(_) => Ok(Type::Ptr),
        ResourceRecordData::HInfo(_) => Ok(Type::HInfo),
        ResourceRecordData::MInfo(_) => Ok(Type::MInfo),
        ResourceRecordData::MX(_) => Ok(Type::MX),
        ResourceRecordData::TXT(_) => Ok(Type::TXT),
        ResourceRecordData::RP(_) => Ok(Type::RP),
        ResourceRecordData::AFSDB(_) => Ok(Type::AFSB),
        ResourceRecordData::X25(_) => Ok(Type::X25),
        ResourceRecordData::ISDN(_) => Ok(Type::ISDN),
        ResourceRecordData::RT(_) => Ok(Type::RT),
        ResourceRecordData::Nsap(_) => Ok(Type::Nsap),
        ResourceRecordData::NsapPtr(_) => Ok(Type::NsapPtr),
        ResourceRecordData::Sig(_) => Ok(Type::Sig),
        ResourceRecordData::Key(_) => Ok(Type::Key),
        ResourceRecordData::PX(_) => Ok(Type::PX),
        ResourceRecordData::GPos(_) => Ok(Type::GPos),
        ResourceRecordData::AAAA(_) => Ok(Type::AAAA),
        ResourceRecordData::Loc(_) => Ok(Type::Loc),
        ResourceRecordData::NXT(_) => Ok(Type::NXT),
        ResourceRecordData::EID(_) => Ok(Type::EID),
        ResourceRecordData::NimLoc(_) => Ok(Type::NimLoc),
        ResourceRecordData::Srv(_) => Ok(Type::Srv),
        ResourceRecordData::ATMA => Ok(Type::ATMA),
        ResourceRecordData::NaPtr(_) => Ok(Type::NaPtr),
        ResourceRecordData::KX(_) => Ok(Type::KX),
        ResourceRecordData::Cert(_) => Ok(Type::Cert),
        ResourceRecordData::A6(_) => Ok(Type::A6),
        ResourceRecordData::DName(_) => Ok(Type::DName),
        ResourceRecordData::Sink(_) => Ok(Type::SINK),
        ResourceRecordData::OPT => Ok(Type::OPT),
        ResourceRecordData::APL(_) => Ok(Type::APL),
        ResourceRecordData::DS(_) => Ok(Type::DS),
        ResourceRecordData::SSHFP(_) => Ok(Type::SSHFP),
        ResourceRecordData::IpSecKey(_) => Ok(Type::IpSecKey),
        ResourceRecordData::RRSig(_) => Ok(Type::RRSig),
        ResourceRecordData::NSec(_) => Ok(Type::NSec),
        ResourceRecordData::DnsKey(_) => Ok(Type::DnsKey),
        ResourceRecordData::DHCID(_) => Ok(Type::DHCID),
        ResourceRecordData::NSec3(_) => Ok(Type::NSec3),
        ResourceRecordData::NSec3Param(_) => Ok(Type::NSec3Param),
        ResourceRecordData::TLSA(_) => Ok(Type::TLSA),
        ResourceRecordData::SMIMEA(_) => Ok(Type::SMIMEA),
        ResourceRecordData::HIP(_) => Ok(Type::HIP),
        ResourceRecordData::NInfo(_) => Ok(Type::NInfo),
        ResourceRecordData::RKey(_) => Ok(Type::RKey),
        ResourceRecordData::TALink(_) => Ok(Type::TALink),
        ResourceRecordData::CDS(_) => Ok(Type::CDS),
        ResourceRecordData::CDNSKey(_) => Ok(Type::CDNSKey),
        ResourceRecordData::OpenGPGKey(_) => Ok(Type::OpenGPGKey),
        ResourceRecordData::CSYNC(_) => Ok(Type::CSYNC),
        ResourceRecordData::ZoneMD(_) => Ok(Type::ZoneMD),
        ResourceRecordData::SVCB(_) => Ok(Type::SVCB),
        ResourceRecordData::HTTPS(_) => Ok(Type::HTTPS),
        ResourceRecordData::SPF(_) => Ok(Type::SPF),
        ResourceRecordData::UInfo => Ok(Type::UInfo),
        ResourceRecordData::UID => Ok(Type::UID),
        ResourceRecordData::GID => Ok(Type::GID),
        ResourceRecordData::UNSPEC => Ok(Type::UNSPEC),
        ResourceRecordData::NID(_) => Ok(Type::NID),
        ResourceRecordData::L32(_) => Ok(Type::L32),
        ResourceRecordData::L64(_) => Ok(Type::L64),
        ResourceRecordData::LP(_) => Ok(Type::LP),
        ResourceRecordData::EUI48(_) => Ok(Type::EUI48),
        ResourceRecordData::EUI64(_) => Ok(Type::EUI64),
        ResourceRecordData::TKey(_) => Ok(Type::TKey),
        ResourceRecordData::TSig(_) => Ok(Type::TSig),
        ResourceRecordData::AXFR => Ok(Type::AXFR),
        ResourceRecordData::MailB => Ok(Type::MailB),
        ResourceRecordData::MailA => Ok(Type::MailA),
        ResourceRecordData::All => Ok(Type::All),
        ResourceRecordData::URI(_) => Ok(Type::URI),
        ResourceRecordData::CAA(_) => Ok(Type::CAA),
        ResourceRecordData::AVC => Ok(Type::AVC),
        ResourceRecordData::DOA => Ok(Type::DOA),
        ResourceRecordData::AMTRELAY(_) => Ok(Type::AMTRELAY),
        ResourceRecordData::Other(UnimplementedRecord::Wire { id, .. }) => Err(Some(id)),
        ResourceRecordData::Other(UnimplementedRecord::Text { .. }) => Err(None),
    }
}

impl ResourceRecordData {
    /// The type of the record data.
    pub fn to_type(&self) -> (r: Result<Type, Option<u16>>)
        ensures
            r == record_type(*self),
    {
        match self {
            ResourceRecordData::A(_) => Ok(Type::A),
            ResourceRecordData::NS(_) => Ok(Type::NS),
            ResourceRecordData::MD(_) => Ok(Type::MD),
            ResourceRecordData::MF(_) => Ok(Type::MF),
            ResourceRecordData::CName(_) => Ok(Type::CName),
            ResourceRecordData::SOA(_) => Ok(Type::SOA),
            ResourceRecordData::MB(_) => Ok(Type::MB),
            ResourceRecordData::MG(_) => Ok(Type::MG),
            ResourceRecordData::MR(_) => Ok(Type::MR),
            ResourceRecordData::Null(_) => Ok(Type::Null),
            ResourceRecordData::WKS(_) => Ok(Type::WKS),
            ResourceRecordData::Ptr(_) => Ok(Type::Ptr),
            ResourceRecordData::HInfo(_) => Ok(Type::HInfo),
            ResourceRecordData::MInfo(_) => Ok(Type::MInfo),
            ResourceRecordData::MX(_) => Ok(Type::MX),
            ResourceRecordData::TXT(_) => Ok(Type::TXT),
            ResourceRecordData::RP(_) => Ok(Type::RP),
            ResourceRecordData::AFSDB(_) => Ok(Type::AFSB),
            ResourceRecordData::X25(_) => Ok(Type::X25),
            ResourceRecordData::ISDN(_) => Ok(Type::ISDN),
            ResourceRecordData::RT(_) => Ok(Type::RT),
            ResourceRecordData::Nsap(_) => Ok(Type::Nsap),
            ResourceRecordData::NsapPtr(_) => Ok(Type::NsapPtr),
            ResourceRecordData::Sig(_) => Ok(Type::Sig),
            ResourceRecordData::Key(_) => Ok(Type::Key),
            ResourceRecordData::PX(_) => Ok(Type::PX),
            ResourceRecordData::GPos(_) => Ok(Type::GPos),
            ResourceRecordData::AAAA(_) => Ok(Type::AAAA),
            ResourceRecordData::Loc(_) => Ok(Type::Loc),
            ResourceRecordData::NXT(_) => Ok(Type::NXT),
            ResourceRecordData::EID(_) => Ok(Type::EID),
            ResourceRecordData::NimLoc(_) => Ok(Type::NimLoc),
            ResourceRecordData::Srv(_) => Ok(Type::Srv),
            ResourceRecordData::ATMA => Ok(Type::ATMA),
            ResourceRecordData::NaPtr(_) => Ok(Type::NaPtr),
            ResourceRecordData::KX(_) => Ok(Type::KX),
            ResourceRecordData::Cert(_) => Ok(Type::Cert),
            ResourceRecordData::A6(_) => Ok(Type::A6),
            ResourceRecordData::DName(_) => Ok(Type::DName),
            ResourceRecordData::Sink(_) => Ok(Type::SINK),
            ResourceRecordData::OPT => Ok(Type::OPT),
            ResourceRecordData::APL(_) => Ok(Type::APL),
            ResourceRecordData::DS(_) => Ok(Type::DS),
            ResourceRecordData::SSHFP(_) => Ok(Type::SSHFP),
            ResourceRecordData::IpSecKey(_) => Ok(Type::IpSecKey),
            ResourceRecordData::RRSig(_) => Ok(Type::RRSig),
            ResourceRecordData::NSec(_) => Ok(Type::NSec),
            ResourceRecordData::DnsKey(_) => Ok(Type::DnsKey),
            ResourceRecordData::DHCID(_) => Ok(Type::DHCID),
            ResourceRecordData::NSec3(_) => Ok(Type::NSec3),
            ResourceRecordData::NSec3Param(_) => Ok(Type::NSec3Param),
            ResourceRecordData::TLSA(_) => Ok(Type::TLSA),
            ResourceRecordData::SMIMEA(_) => Ok(Type::SMIMEA),
            ResourceRecordData::HIP(_) => Ok(Type::HIP),
            ResourceRecordData::NInfo(_) => Ok(Type::NInfo),
            ResourceRecordData::RKey(_) => Ok(Type::RKey),
            ResourceRecordData::TALink(_) => Ok(Type::TALink),
            ResourceRecordData::CDS(_) => Ok(Type::CDS),
            ResourceRecordData::CDNSKey(_) => Ok(Type::CDNSKey),
            ResourceRecordData::OpenGPGKey(_) => Ok(Type::OpenGPGKey),
            ResourceRecordData::CSYNC(_) => Ok(Type::CSYNC),
            ResourceRecordData::ZoneMD(_) => Ok(Type::ZoneMD),
            ResourceRecordData::SVCB(_) => Ok(Type::SVCB),
            ResourceRecordData::HTTPS(_) => Ok(Type::HTTPS),
            ResourceRecordData::SPF(_) => Ok(Type::SPF),
            ResourceRecordData::UInfo => Ok(Type::UInfo),
            ResourceRecordData::UID => Ok(Type::UID),
            ResourceRecordData::GID => Ok(Type::GID),
            ResourceRecordData::UNSPEC => Ok(Type::UNSPEC),
            ResourceRecordData::NID(_) => Ok(Type::NID),
            ResourceRecordData::L32(_) => Ok(Type::L32),
            ResourceRecordData::L64(_) => Ok(Type::L64),
            ResourceRecordData::LP(_) => Ok(Type::LP),
            ResourceRecordData::EUI48(_) => Ok(Type::EUI48),
            ResourceRecordData::EUI64(_) => Ok(Type::EUI64),
            ResourceRecordData::TKey(_) => Ok(Type::TKey),
            ResourceRecordData::TSig(_) => Ok(Type::TSig),
            ResourceRecordData::AXFR => Ok(Type::AXFR),
            ResourceRecordData::MailB => Ok(Type::MailB),
            ResourceRecordData::MailA => Ok(Type::MailA),
            ResourceRecordData::All => Ok(Type::All),
            ResourceRecordData::URI(_) => Ok(Type::URI),
            ResourceRecordData::CAA(_) => Ok(Type::CAA),
            ResourceRecordData::AVC => Ok(Type::AVC),
            ResourceRecordData::DOA => Ok(Type::DOA),
            ResourceRecordData::AMTRELAY(_) => Ok(Type::AMTRELAY),
            ResourceRecordData::Other(UnimplementedRecord::Wire { id, .. }) => Err(Some(*id)),
            ResourceRecordData::Other(UnimplementedRecord::Text { .. }) => Err(None),
        }
    }
}

/// A resource record.
#[derive(Clone, Debug, Eq, PartialEq)]
pub struct ResourceRecord {
    pub name: String,
    pub ttl: u32,
    pub class: Class,
    pub data: ResourceRecordData,
}


/// The name of what `base64::encode` makes of `data`.
pub uninterp spec fn base64_encoded(data: Seq<u8>) -> Seq<char>;

/// The name of what `base64::decode` makes of the text `text`: the octets, or nothing where it
/// reports an error.
pub uninterp spec fn base64_decoded(text: Seq<char>) -> Option<Seq<u8>>;

/// `base64::DecodeError`, the error of `base64::decode`.
#[verifier::external_type_specification]
#[verifier::external_body]
pub struct ExBase64DecodeError(base64::DecodeError);

/// A character of the standard base64 alphabet, or the padding `=`.
pub open spec fn base64_char(c: char) -> bool {
    ('A' <= c <= 'Z') || ('a' <= c <= 'z') || ('0' <= c <= '9') || c == '+' || c == '/' || c == '='
}

/// What the contract of `base64::encode` gives of the base64 text of `data` once it has been
/// made: it is made of the base64 alphabet and `=`, and it decodes to `data`.
pub open spec fn base64_text_reads_back(data: Seq<u8>) -> bool {
    &&& forall|i: int| 0 <= i < base64_encoded(data).len() ==> base64_char(#[trigger] base64_encoded(data)[i])
    &&& base64_decoded(base64_encoded(data)) == Some(data)
}

/// `base64::encode`: the standard base64 text of `data`, with padding. Claimed: the result is
/// `base64_encoded` of the octets, a function of them alone; it is made of the standard
/// alphabet and `=`; and `base64::decode` gives the octets back from it.
#[verifier::external_body]
pub(crate) fn base64_encode(data: &[u8]) -> (r: String)
    ensures
        r@ == base64_encoded(data@),
        forall|i: int| 0 <= i < r@.len() ==> base64_char(#[trigger] r@[i]),
        base64_decoded(r@) == Some(data@),
{
    base64::encode(data)
}

/// `base64::decode`: the octets of the standard base64 text `text`. Claimed: it succeeds
/// exactly when `base64_decoded` of the text is some octets, and then returns those, a function
/// of the text alone.
#[verifier::external_body]
pub(crate) fn base64_decode(text: &str) -> (r: Result<Vec<u8>, base64::DecodeError>)
    ensures
        match base64_decoded(text@) {
            Some(b) => r matches Ok(v) && v@ == b,
            None => r is Err,
        },
{
    base64::decode(text)
}

/// The lowercase hexadecimal digit of `v` (below 16).
pub open spec fn hex_digit(v: u8) -> char {
    if v < 10 { (0x30 + v) as char } else { (0x57 + v) as char }
}

/// Two lowercase hexadecimal digits for each octet of `b`.
pub open spec fn hex_octets(b: Seq<u8>) -> Seq<char>
    decreases b.len(),
{
    if b.len() == 0 {
        Seq::empty()
    } else {
        seq![hex_digit(b[0] / 16), hex_digit(b[0] % 16)] + hex_octets(b.skip(1))
    }
}

fn push_hex(out: &mut String, b: &[u8])
    ensures
        final(out)@ == old(out)@ + hex_octets(b@),
{
    let mut i: usize = 0;
    assert(b@.skip(0) =~= b@);
    while i < b.len()
        invariant
            i <= b@.len(),
            out@ + hex_octets(b@.skip(i as int)) == old(out)@ + hex_octets(b@),
        decreases b@.len() - i,
    {
        let hi = b[i] / 16;
        let lo = b[i] % 16;
        let ghost before = out@;
        push_char(out, if hi < 10 { (0x30 + hi) as char } else { (0x57 + hi) as char });
        push_char(out, if lo < 10 { (0x30 + lo) as char } else { (0x57 + lo) as char });
        proof {
            assert(b@.skip(i as int).skip(1) =~= b@.skip(i + 1));
            assert(hex_octets(b@.skip(i as int)) == seq![hex_digit(hi), hex_digit(lo)] + hex_octets(b@.skip(i + 1)));
            assert(out@ + hex_octets(b@.skip(i + 1)) =~= before + hex_octets(b@.skip(i as int)));
        }
        i += 1;
    }
    proof {
        assert(b@.skip(b@.len() as int) =~= Seq::<u8>::empty());
        assert(out@ =~= out@ + hex_octets(Seq::<u8>::empty()));
    }
}

/// The text of an NSAP address: `0x` and two hexadecimal digits per octet.
pub open spec fn nsap_text(r: NsapRecord) -> Seq<char> {
    "0x"@ + hex_octets(r.0@)
}

impl NsapRecord {
    /// The text of the address: `0x` and two lowercase hexadecimal digits per octet.
    pub fn to_string(&self) -> (r: String)
        ensures
            r@ == nsap_text(*self),
    {
        let mut s = String::from_str("0x");
        push_hex(&mut s, self.0.as_slice());
        s
    }
}

/// The type and text of record data that holds its value as text.
pub open spec fn record_text_value(d: ResourceRecordData) -> Option<(Type, Seq<char>)> {
    match d {
        ResourceRecordData::NS(v) => Some((Type::NS, v@)),
        ResourceRecordData::MD(v) => Some((Type::MD, v@)),
        ResourceRecordData::MF(v) => Some((Type::MF, v@)),
        ResourceRecordData::CName(v) => Some((Type::CName, v@)),
        ResourceRecordData::MB(v) => Some((Type::MB, v@)),
        ResourceRecordData::MG(v) => Some((Type::MG, v@)),
        ResourceRecordData::MR(v) => Some((Type::MR, v@)),
        ResourceRecordData::Ptr(v) => Some((Type::Ptr, v@)),
        ResourceRecordData::TXT(v) => Some((Type::TXT, v@)),
        ResourceRecordData::X25(v) => Some((Type::X25, v@)),
        ResourceRecordData::NsapPtr(v) => Some((Type::NsapPtr, v@)),
        ResourceRecordData::DName(v) => Some((Type::DName, v@)),
        ResourceRecordData::NInfo(v) => Some((Type::NInfo, v@)),
        ResourceRecordData::SPF(v) => Some((Type::SPF, v@)),
        _ => None,
    }
}

/// The type and octets of record data whose zone file text is base64.
pub open spec fn record_octets_value(d: ResourceRecordData) -> Option<(Type, Seq<u8>)> {
    match d {
        ResourceRecordData::OpenGPGKey(v) => Some((Type::OpenGPGKey, v@)),
        ResourceRecordData::SVCB(v) => Some((Type::SVCB, v@)),
        ResourceRecordData::HTTPS(v) => Some((Type::HTTPS, v@)),
        _ => None,
    }
}

/// Whether data of type `t` is read from a zone file as plain text.
pub open spec fn text_record_type(t: Type) -> bool {
    t == Type::NS || t == Type::MD || t == Type::MF || t == Type::CName || t == Type::MB || t == Type::MG || t == Type::MR || t == Type::Ptr || t == Type::TXT || t == Type::X25 || t == Type::NsapPtr || t == Type::DName || t == Type::NInfo || t == Type::SPF
}

/// Whether data of type `t` is read from a zone file as base64 text.
pub open spec fn base64_record_type(t: Type) -> bool {
    t == Type::OpenGPGKey || t == Type::SVCB || t == Type::HTTPS
}

/// Whether data of type `t` is kept from a zone file as unparsed text with its type name.
pub open spec fn untyped_record_type(t: Type) -> bool {
    t == Type::Null || t == Type::ATMA || t == Type::OPT || t == Type::UInfo || t == Type::UID || t == Type::GID || t == Type::UNSPEC || t == Type::AXFR || t == Type::MailB || t == Type::MailA || t == Type::AVC || t == Type::DOA || t == Type::AFSB
}

/// Whether reading data of type `t` from its zone file text is provided here: not for the
/// records of several fields, whose text is not read.
pub open spec fn record_text_readable(t: Type) -> bool {
    text_record_type(t) || base64_record_type(t) || untyped_record_type(t) || t == Type::All
        || t == Type::A || t == Type::AAAA
}

/// What reading data of type `t` from the text `value` gives; `row` is where the value
/// starts in the line.
pub open spec fn record_from_text(t: Type, value: Seq<char>, row: int, r: Result<ResourceRecordData, ZoneParseError>) -> bool {
    if text_record_type(t) {
        r matches Ok(d) && record_text_value(d) == Some((t, value))
    } else if base64_record_type(t) {
        match base64_decoded(value) {
            Some(b) => r matches Ok(d) && record_octets_value(d) == Some((t, b)),
            None => r == Err::<ResourceRecordData, ZoneParseError>(
                ZoneParseError { ty: ZoneParseErrorType::RecordValue, line: 0, row: row as usize }),
        }
    } else if t == Type::All {
        r == Ok::<ResourceRecordData, ZoneParseError>(ResourceRecordData::All)
    } else if t == Type::A {
        match ipv4_parse(value) {
            Some(a) => r matches Ok(ResourceRecordData::A(x)) && x@ == a,
            None => r == Err::<ResourceRecordData, ZoneParseError>(
                ZoneParseError { ty: ZoneParseErrorType::RecordValue, line: 0, row: row as usize }),
        }
    } else if t == Type::AAAA {
        match ipv6_parse(value) {
            Some(g) => r matches Ok(ResourceRecordData::AAAA(x)) && x@ == groups_octets(g),
            None => r == Err::<ResourceRecordData, ZoneParseError>(
                ZoneParseError { ty: ZoneParseErrorType::RecordValue, line: 0, row: row as usize }),
        }
    } else {
        r matches Ok(ResourceRecordData::Other(UnimplementedRecord::Text { name, data }))
            && name@ == type_mnemonic(t) && data@ == value
    }
}

/// Whether reading record data from the zone file text `s` is provided here: the text has no
/// space, or no type name before it, or a type whose text is read here.
pub open spec fn record_data_text_readable(s: Seq<char>) -> bool {
    let i = index_of_from(s, ' ', 0);
    i < 0 || match type_parse(s.take(i)) {
        None => true,
        Some(t) => record_text_readable(t),
    }
}

/// What reading record data from its zone file text `s` gives: the type name up to the first
/// space, then the value.
pub open spec fn record_data_parsed(s: Seq<char>, r: Result<ResourceRecordData, ZoneParseError>) -> bool {
    let i = index_of_from(s, ' ', 0);
    if i < 0 {
        r == Err::<ResourceRecordData, ZoneParseError>(
            ZoneParseError { ty: ZoneParseErrorType::RecordType, line: 0, row: 0 })
    } else {
        match type_parse(s.take(i)) {
            None => r == Err::<ResourceRecordData, ZoneParseError>(
                ZoneParseError { ty: ZoneParseErrorType::RecordType, line: 0, row: 0 }),
            Some(t) => record_from_text(t, s.skip(i + 1), encode_utf8(s.take(i)).len() as int, r),
        }
    }
}

/// The zone file text of record data, where writing it is provided here.
pub open spec fn record_text(d: ResourceRecordData) -> Option<Seq<char>> {
    match d {
        ResourceRecordData::A(a) => Some("A "@ + ipv4_text(a@)),
        ResourceRecordData::AAAA(a) => Some("AAAA "@ + ipv6_text(octets_groups(a@))),
        ResourceRecordData::NS(v) => Some("NS "@ + v@),
        ResourceRecordData::MD(v) => Some("MD "@ + v@),
        ResourceRecordData::MF(v) => Some("MF "@ + v@),
        ResourceRecordData::CName(v) => Some("CNAME "@ + v@),
        ResourceRecordData::MB(v) => Some("MB "@ + v@),
        ResourceRecordData::MG(v) => Some("MG "@ + v@),
        ResourceRecordData::MR(v) => Some("MR "@ + v@),
        ResourceRecordData::Ptr(v) => Some("PTR "@ + v@),
        ResourceRecordData::TXT(v) => Some("TXT "@ + v@),
        ResourceRecordData::X25(v) => Some("X25 "@ + v@),
        ResourceRecordData::NsapPtr(v) => Some("NSAP_PTR "@ + v@),
        ResourceRecordData::DName(v) => Some("DNAME "@ + v@),
        ResourceRecordData::NInfo(v) => Some("NINFO "@ + v@),
        ResourceRecordData::SPF(v) => Some("SPF "@ + v@),
        ResourceRecordData::Nsap(v) => Some("NSAP 0x"@ + nsap_text(v)),
        ResourceRecordData::OpenGPGKey(v) => Some("OPENGPGKEY "@ + base64_encoded(v@)),
        ResourceRecordData::SVCB(v) => Some("SVCB "@ + base64_encoded(v@)),
        ResourceRecordData::HTTPS(v) => Some("HTTPS "@ + base64_encoded(v@)),
        ResourceRecordData::All => Some("*"@),
        ResourceRecordData::Other(UnimplementedRecord::Text { name, data }) => Some(name@ + " "@ + data@),
        _ => None,
    }
}

impl ResourceRecordData {
    /// Reads record data from its zone file text: the type name, a space, and the value.
    pub fn from_str(s: &str) -> (r: Result<ResourceRecordData, ZoneParseError>)
        requires
            record_data_text_readable(s@),
        ensures
            record_data_parsed(s@, r),
    {
        let n = s.unicode_len();
        let mut i: usize = 0;
        while i < n && s.get_char(i) != ' '
            invariant
                n == s@.len(),
                i <= n,
                forall|m: int| 0 <= m < i ==> s@[m] != ' ',
            decreases n - i,
        {
            i += 1;
        }
        proof {
            lemma_index_of_from(s@, ' ', 0, i as int);
        }
        if i == n {
            return Err(ZoneParseError::new(ZoneParseErrorType::RecordType, 0, 0));
        }
        let ty = s.substring_char(0, i);
        let v = s.substring_char(i + 1, n);
        proof {
            assert(ty@ =~= s@.take(i as int));
            assert(v@ =~= s@.skip(i + 1));
        }
        let row = ty.len();
        let t = match Type::from_str(ty) {
            Ok(t) => t,
            Err(e) => return Err(e),
        };
        match t {
            Type::A => match parse_ipv4(v) {
                Some(a) => Ok(ResourceRecordData::A(a)),
                None => Err(ZoneParseError::new(ZoneParseErrorType::RecordValue, 0, row)),
            },
            Type::AAAA => match parse_ipv6(v) {
                Some(a) => Ok(ResourceRecordData::AAAA(a)),
                None => Err(ZoneParseError::new(ZoneParseErrorType::RecordValue, 0, row)),
            },
            Type::NS => Ok(ResourceRecordData::NS(String::from_str(v))),
            Type::MD => Ok(ResourceRecordData::MD(String::from_str(v))),
            Type::MF => Ok(ResourceRecordData::MF(String::from_str(v))),
            Type::CName => Ok(ResourceRecordData::CName(String::from_str(v))),
            Type::MB => Ok(ResourceRecordData::MB(String::from_str(v))),
            Type::MG => Ok(ResourceRecordData::MG(String::from_str(v))),
            Type::MR => Ok(ResourceRecordData::MR(String::from_str(v))),
            Type::Ptr => Ok(ResourceRecordData::Ptr(String::from_str(v))),
            Type::TXT => Ok(ResourceRecordData::TXT(String::from_str(v))),
            Type::X25 => Ok(ResourceRecordData::X25(String::from_str(v))),
            Type::NsapPtr => Ok(ResourceRecordData::NsapPtr(String::from_str(v))),
            Type::DName => Ok(ResourceRecordData::DName(String::from_str(v))),
            Type::NInfo => Ok(ResourceRecordData::NInfo(String::from_str(v))),
            Type::SPF => Ok(ResourceRecordData::SPF(String::from_str(v))),
            Type::OpenGPGKey => match base64_decode(v) {
                Ok(b) => Ok(ResourceRecordData::OpenGPGKey(b)),
                Err(_) => Err(ZoneParseError::new(ZoneParseErrorType::RecordValue, 0, row)),
            },
            Type::SVCB => match base64_decode(v) {
                Ok(b) => Ok(ResourceRecordData::SVCB(b)),
                Err(_) => Err(ZoneParseError::new(ZoneParseErrorType::RecordValue, 0, row)),
            },
            Type::HTTPS => match base64_decode(v) {
                Ok(b) => Ok(ResourceRecordData::HTTPS(b)),
                Err(_) => Err(ZoneParseError::new(ZoneParseErrorType::RecordValue, 0, row)),
            },
            Type::All => Ok(ResourceRecordData::All),
            Type::Null | Type::ATMA | Type::OPT | Type::UInfo | Type::UID | Type::GID | Type::UNSPEC | Type::AXFR | Type::MailB | Type::MailA | Type::AVC | Type::DOA | Type::AFSB => Ok(ResourceRecordData::Other(
                UnimplementedRecord::Text { name: t.to_string(), data: String::from_str(v) },
            )),
            _ => {
                proof {
                    assert(false);
                }
                Err(ZoneParseError::new(ZoneParseErrorType::RecordType, 0, 0))
            }
        }
    }

    /// The zone file text of the record data: the type name, a space, and the value.
    pub fn to_string(&self) -> (r: String)
        requires
            record_text(*self) is Some,
        ensures
            Some(r@) == record_text(*self),
    {
        match self {
            ResourceRecordData::A(a) => {
                let mut s = String::from_str("A ");
                push_ipv4(&mut s, a);
                s
            }
            ResourceRecordData::AAAA(a) => {
                let mut s = String::from_str("AAAA ");
                push_ipv6(&mut s, a);
                s
            }
            ResourceRecordData::NS(v) => {
                let mut s = String::from_str("NS ");
                s.append(v.as_str());
                s
            }
            ResourceRecordData::MD(v) => {
                let mut s = String::from_str("MD ");
                s.append(v.as_str());
                s
            }
            ResourceRecordData::MF(v) => {
                let mut s = String::from_str("MF ");
                s.append(v.as_str());
                s
            }
            ResourceRecordData::CName(v) => {
                let mut s = String::from_str("CNAME ");
                s.append(v.as_str());
                s
            }
            ResourceRecordData::MB(v) => {
                let mut s = String::from_str("MB ");
                s.append(v.as_str());
                s
            }
            ResourceRecordData::MG(v) => {
                let mut s = String::from_str("MG ");
                s.append(v.as_str());
                s
            }
            ResourceRecordData::MR(v) => {
                let mut s = String::from_str("MR ");
                s.append(v.as_str());
                s
            }
            ResourceRecordData::Ptr(v) => {
                let mut s = String::from_str("PTR ");
                s.append(v.as_str());
                s
            }
            ResourceRecordData::TXT(v) => {
                let mut s = String::from_str("TXT ");
                s.append(v.as_str());
                s
            }
            ResourceRecordData::X25(v) => {
                let mut s = String::from_str("X25 ");
                s.append(v.as_str());
                s
            }
            ResourceRecordData::NsapPtr(v) => {
                let mut s = String::from_str("NSAP_PTR ");
                s.append(v.as_str());
                s
            }
            ResourceRecordData::DName(v) => {
                let mut s = String::from_str("DNAME ");
                s.append(v.as_str());
                s
            }
            ResourceRecordData::NInfo(v) => {
                let mut s = String::from_str("NINFO ");
                s.append(v.as_str());
                s
            }
            ResourceRecordData::SPF(v) => {
                let mut s = String::from_str("SPF ");
                s.append(v.as_str());
                s
            }
            ResourceRecordData::Nsap(v) => {
                let mut s = String::from_str("NSAP 0x");
                let t = v.to_string();
                s.append(t.as_str());
                s
            }
            ResourceRecordData::OpenGPGKey(v) => {
                let mut s = String::from_str("OPENGPGKEY ");
                let t = base64_encode(v.as_slice());
                s.append(t.as_str());
                s
            }
            ResourceRecordData::SVCB(v) => {
                let mut s = String::from_str("SVCB ");
                let t = base64_encode(v.as_slice());
                s.append(t.as_str());
                s
            }
            ResourceRecordData::HTTPS(v) => {
                let mut s = String::from_str("HTTPS ");
                let t = base64_encode(v.as_slice());
                s.append(t.as_str());
                s
            }
            ResourceRecordData::All => String::from_str("*"),
            ResourceRecordData::Other(UnimplementedRecord::Text { name, data }) => {
                let mut s = name.clone();
                s.append(" ");
                s.append(data.as_str());
                s
            }
            _ => {
                proof {
                    assert(false);
                }
                String::new()
            }
        }
    }
}

/// Writing record data whose value is plain text and reading it back gives the same type and
/// value, for every such type but `NsapPtr`, whose type name reads back as `Ptr`.
pub proof fn lemma_record_text_roundtrip(d: ResourceRecordData, r: Result<ResourceRecordData, ZoneParseError>)
    requires
        record_text_value(d) is Some,
        record_text_value(d).unwrap().0 != Type::NsapPtr,
        record_data_parsed(record_text(d).unwrap(), r),
    ensures
        r matches Ok(d2) && record_text_value(d2) == record_text_value(d),
{
    let (t, v) = record_text_value(d).unwrap();
    let s = record_text(d).unwrap();
    lemma_type_mnemonic_roundtrip(t);
    let name = type_mnemonic(t);
    reveal_strlit("NS ");
    assert("NS "@.len() == 3 && "NS "@[0] == 'N' && "NS "@[1] == 'S' && "NS "@[2] == ' ');
    reveal_strlit("NS");
    assert("NS"@.len() == 2 && "NS"@[0] == 'N' && "NS"@[1] == 'S');
    reveal_strlit("MD ");
    assert("MD "@.len() == 3 && "MD "@[0] == 'M' && "MD "@[1] == 'D' && "MD "@[2] == ' ');
    reveal_strlit("MD");
    assert("MD"@.len() == 2 && "MD"@[0] == 'M' && "MD"@[1] == 'D');
    reveal_strlit("MF ");
    assert("MF "@.len() == 3 && "MF "@[0] == 'M' && "MF "@[1] == 'F' && "MF "@[2] == ' ');
    reveal_strlit("MF");
    assert("MF"@.len() == 2 && "MF"@[0] == 'M' && "MF"@[1] == 'F');
    reveal_strlit("CNAME ");
    assert("CNAME "@.len() == 6 && "CNAME "@[0] == 'C' && "CNAME "@[1] == 'N' && "CNAME "@[2] == 'A' && "CNAME "@[3] == 'M' && "CNAME "@[4] == 'E' && "CNAME "@[5] == ' ');
    reveal_strlit("CNAME");
    assert("CNAME"@.len() == 5 && "CNAME"@[0] == 'C' && "CNAME"@[1] == 'N' && "CNAME"@[2] == 'A' && "CNAME"@[3] == 'M' && "CNAME"@[4] == 'E');
    reveal_strlit("MB ");
    assert("MB "@.len() == 3 && "MB "@[0] == 'M' && "MB "@[1] == 'B' && "MB "@[2] == ' ');
    reveal_strlit("MB");
    assert("MB"@.len() == 2 && "MB"@[0] == 'M' && "MB"@[1] == 'B');
    reveal_strlit("MG ");
    assert("MG "@.len() == 3 && "MG "@[0] == 'M' && "MG "@[1] == 'G' && "MG "@[2] == ' ');
    reveal_strlit("MG");
    assert("MG"@.len() == 2 && "MG"@[0] == 'M' && "MG"@[1] == 'G');
    reveal_strlit("MR ");
    assert("MR "@.len() == 3 && "MR "@[0] == 'M' && "MR "@[1] == 'R' && "MR "@[2] == ' ');
    reveal_strlit("MR");
    assert("MR"@.len() == 2 && "MR"@[0] == 'M' && "MR"@[1] == 'R');
    reveal_strlit("PTR ");
    assert("PTR "@.len() == 4 && "PTR "@[0] == 'P' && "PTR "@[1] == 'T' && "PTR "@[2] == 'R' && "PTR "@[3] == ' ');
    reveal_strlit("PTR");
    assert("PTR"@.len() == 3 && "PTR"@[0] == 'P' && "PTR"@[1] == 'T' && "PTR"@[2] == 'R');
    reveal_strlit("TXT ");
    assert("TXT "@.len() == 4 && "TXT "@[0] == 'T' && "TXT "@[1] == 'X' && "TXT "@[2] == 'T' && "TXT "@[3] == ' ');
    reveal_strlit("TXT");
    assert("TXT"@.len() == 3 && "TXT"@[0] == 'T' && "TXT"@[1] == 'X' && "TXT"@[2] == 'T');
    reveal_strlit("X25 ");
    assert("X25 "@.len() == 4 && "X25 "@[0] == 'X' && "X25 "@[1] == '2' && "X25 "@[2] == '5' && "X25 "@[3] == ' ');
    reveal_strlit("X25");
    assert("X25"@.len() == 3 && "X25"@[0] == 'X' && "X25"@[1] == '2' && "X25"@[2] == '5');
    reveal_strlit("DNAME ");
    assert("DNAME "@.len() == 6 && "DNAME "@[0] == 'D' && "DNAME "@[1] == 'N' && "DNAME "@[2] == 'A' && "DNAME "@[3] == 'M' && "DNAME "@[4] == 'E' && "DNAME "@[5] == ' ');
    reveal_strlit("DNAME");
    assert("DNAME"@.len() == 5 && "DNAME"@[0] == 'D' && "DNAME"@[1] == 'N' && "DNAME"@[2] == 'A' && "DNAME"@[3] == 'M' && "DNAME"@[4] == 'E');
    reveal_strlit("NINFO ");
    assert("NINFO "@.len() == 6 && "NINFO "@[0] == 'N' && "NINFO "@[1] == 'I' && "NINFO "@[2] == 'N' && "NINFO "@[3] == 'F' && "NINFO "@[4] == 'O' && "NINFO "@[5] == ' ');
    reveal_strlit("NINFO");
    assert("NINFO"@.len() == 5 && "NINFO"@[0] == 'N' && "NINFO"@[1] == 'I' && "NINFO"@[2] == 'N' && "NINFO"@[3] == 'F' && "NINFO"@[4] == 'O');
    reveal_strlit("SPF ");
    assert("SPF "@.len() == 4 && "SPF "@[0] == 'S' && "SPF "@[1] == 'P' && "SPF "@[2] == 'F' && "SPF "@[3] == ' ');
    reveal_strlit("SPF");
    assert("SPF"@.len() == 3 && "SPF"@[0] == 'S' && "SPF"@[1] == 'P' && "SPF"@[2] == 'F');
    assert(s =~= name + seq![' '] + v);
    assert forall|m: int| 0 <= m < name.len() implies s[m] != ' ' by {
        assert(s[m] == name[m]);
    }
    lemma_index_of_from(s, ' ', 0, name.len() as int);
    assert(s.take(name.len() as int) =~= name);
    assert(s.skip(name.len() as int + 1) =~= v);
}

/// The zone file text of a record: name, time to live, class and data, separated by spaces.
pub open spec fn resource_record_text(r: ResourceRecord) -> Seq<char> {
    r.name@ + " "@ + decimal(r.ttl as nat) + " "@ + class_mnemonic(r.class).unwrap() + " "@
        + record_text(r.data).unwrap()
}

impl ResourceRecord {
    /// The zone file text of the record: name, time to live, class and data, separated by
    /// spaces. The class `NONE` has no text, and the data must be of a kind whose text is
    /// written here.
    pub fn to_string(&self) -> (r: String)
        requires
            self.class != Class::NONE,
            record_text(self.data) is Some,
        ensures
            r@ == resource_record_text(*self),
    {
        let mut s = self.name.clone();
        s.append(" ");
        push_decimal(&mut s, self.ttl as u64);
        s.append(" ");
        let c = self.class.to_string();
        s.append(c.as_str());
        s.append(" ");
        let d = self.data.to_string();
        s.append(d.as_str());
        s
    }
}

/// A zone: its origin, default time to live and records.
#[derive(Clone, Debug, Default)]
pub struct Zone {
    pub origin: DomainName,
    pub ttl: usize,
    pub records: Vec<ResourceRecord>,
}

/// The text of the records of `rs` from the `i`-th on, one after the other.
pub open spec fn records_text(rs: Seq<ResourceRecord>, i: int) -> Seq<char>
    decreases rs.len() - i,
{
    if i < 0 || i >= rs.len() {
        Seq::empty()
    } else {
        resource_record_text(rs[i]) + records_text(rs, i + 1)
    }
}

/// Whether every record of `rs` has text.
pub open spec fn records_have_text(rs: Seq<ResourceRecord>) -> bool {
    forall|i: int| 0 <= i < rs.len() ==> (#[trigger] rs[i]).class != Class::NONE
        && record_text(rs[i].data) is Some
}

/// The zone file text of a zone: the `$ORIGIN` and `$TTL` lines, then the records.
pub open spec fn zone_text(z: Zone) -> Seq<char> {
    "$ORIGIN "@ + z.origin@ + "\n$TTL "@ + decimal(z.ttl as nat) + "\n"@ + records_text(z.records@, 0)
}

impl Zone {
    /// The zone file text of the zone: the `$ORIGIN` and `$TTL` lines, then the records.
    pub fn to_string(&self) -> (r: String)
        requires
            records_have_text(self.records@),
        ensures
            r@ == zone_text(*self),
    {
        let mut s = String::from_str("$ORIGIN ");
        s.append(self.origin.as_str());
        s.append("\n$TTL ");
        push_decimal(&mut s, self.ttl as u64);
        s.append("\n");
        let ghost head = s@;
        let mut i: usize = 0;
        while i < self.records.len()
            invariant
                i <= self.records@.len(),
                records_have_text(self.records@),
                s@ + records_text(self.records@, i as int) == head + records_text(self.records@, 0),
            decreases self.records@.len() - i,
        {
            let ghost before = s@;
            let t = self.records[i].to_string();
            s.append(t.as_str());
            proof {
                assert(before + records_text(self.records@, i as int) =~= s@ + records_text(self.records@, i + 1));
            }
            i += 1;
        }
        proof {
            assert(s@ =~= head + records_text(self.records@, 0));
        }
        s
    }
}
/// Writing an address record and reading its text back gives the same address.
pub proof fn lemma_address_record_roundtrip(a: [u8; 4], r: Result<ResourceRecordData, ZoneParseError>)
    requires
        record_data_parsed(record_text(ResourceRecordData::A(a)).unwrap(), r),
    ensures
        r matches Ok(ResourceRecordData::A(x)) && x@ == a@,
{
    reveal_strlit("A ");
    reveal_strlit("A");
    let s = record_text(ResourceRecordData::A(a)).unwrap();
    assert(s[0] == 'A' && s[1] == ' ');
    lemma_index_of_from(s, ' ', 0, 1);
    assert(index_of_from(s, ' ', 0) == 1);
    assert(s.take(1) =~= "A"@);
    lemma_type_mnemonic_roundtrip(Type::A);
    assert(type_mnemonic(Type::A) == "A"@);
    assert(s.skip(2) =~= ipv4_text(a@));
    lemma_ipv4_roundtrip(a@);
}

/// Writing an IPv6 address record and reading its text back gives the same address.
pub proof fn lemma_ipv6_record_roundtrip(a: [u8; 16], r: Result<ResourceRecordData, ZoneParseError>)
    requires
        record_data_parsed(record_text(ResourceRecordData::AAAA(a)).unwrap(), r),
    ensures
        r matches Ok(ResourceRecordData::AAAA(x)) && x@ == a@,
{
    reveal_strlit("AAAA ");
    reveal_strlit("AAAA");
    let s = record_text(ResourceRecordData::AAAA(a)).unwrap();
    assert(s[0] == 'A' && s[1] == 'A' && s[2] == 'A' && s[3] == 'A' && s[4] == ' ');
    lemma_index_of_from(s, ' ', 0, 4);
    assert(index_of_from(s, ' ', 0) == 4);
    assert(s.take(4) =~= "AAAA"@);
    lemma_type_mnemonic_roundtrip(Type::AAAA);
    assert(type_mnemonic(Type::AAAA) == "AAAA"@);
    assert(s.skip(5) =~= ip_text(IpAddr::V6(a)));
    lemma_ip_roundtrip(IpAddr::V6(a));
}

/// The zone file text of record data begins with the mnemonic of its type and a space, but
/// for `NSAP-PTR`, whose text is spelled `NSAP_PTR` (and `*` for all records, which has no
/// value).
#[verifier::spinoff_prover]
pub proof fn lemma_record_text_mnemonic(d: ResourceRecordData)
    requires
        record_text(d) is Some,
        record_type(d) is Ok,
        !(d is All),
        !(d is NsapPtr),
    ensures
        has_prefix(record_text(d).unwrap(), type_mnemonic(record_type(d)->Ok_0) + " "@),
{
    reveal_strlit(" ");
    match d {
        ResourceRecordData::A(_) => {
            reveal_strlit("A ");
            reveal_strlit("A");
            assert("A "@.take(2) =~= "A"@ + " "@);
            assert(record_text(d).unwrap().take(2) =~= "A"@ + " "@);
        },
        ResourceRecordData::AAAA(_) => {
            reveal_strlit("AAAA ");
            reveal_strlit("AAAA");
            assert("AAAA "@.take(5) =~= "AAAA"@ + " "@);
            assert(record_text(d).unwrap().take(5) =~= "AAAA"@ + " "@);
        },
        ResourceRecordData::NS(_) => {
            reveal_strlit("NS ");
            reveal_strlit("NS");
            assert("NS "@.take(3) =~= "NS"@ + " "@);
            assert(record_text(d).unwrap().take(3) =~= "NS"@ + " "@);
        },
        ResourceRecordData::MD(_) => {
            reveal_strlit("MD ");
            reveal_strlit("MD");
            assert("MD "@.take(3) =~= "MD"@ + " "@);
            assert(record_text(d).unwrap().take(3) =~= "MD"@ + " "@);
        },
        ResourceRecordData::MF(_) => {
            reveal_strlit("MF ");
            reveal_strlit("MF");
            assert("MF "@.take(3) =~= "MF"@ + " "@);
            assert(record_text(d).unwrap().take(3) =~= "MF"@ + " "@);
        },
        ResourceRecordData::CName(_) => {
            reveal_strlit("CNAME ");
            reveal_strlit("CNAME");
            assert("CNAME "@.take(6) =~= "CNAME"@ + " "@);
            assert(record_text(d).unwrap().take(6) =~= "CNAME"@ + " "@);
        },
        ResourceRecordData::MB(_) => {
            reveal_strlit("MB ");
            reveal_strlit("MB");
            assert("MB "@.take(3) =~= "MB"@ + " "@);
            assert(record_text(d).unwrap().take(3) =~= "MB"@ + " "@);
        },
        ResourceRecordData::MG(_) => {
            reveal_strlit("MG ");
            reveal_strlit("MG");
            assert("MG "@.take(3) =~= "MG"@ + " "@);
            assert(record_text(d).unwrap().take(3) =~= "MG"@ + " "@);
        },
        ResourceRecordData::MR(_) => {
            reveal_strlit("MR ");
            reveal_strlit("MR");
            assert("MR "@.take(3) =~= "MR"@ + " "@);
            assert(record_text(d).unwrap().take(3) =~= "MR"@ + " "@);
        },
        ResourceRecordData::Ptr(_) => {
            reveal_strlit("PTR ");
            reveal_strlit("PTR");
            assert("PTR "@.take(4) =~= "PTR"@ + " "@);
            assert(record_text(d).unwrap().take(4) =~= "PTR"@ + " "@);
        },
        ResourceRecordData::TXT(_) => {
            reveal_strlit("TXT ");
            reveal_strlit("TXT");
            assert("TXT "@.take(4) =~= "TXT"@ + " "@);
            assert(record_text(d).unwrap().take(4) =~= "TXT"@ + " "@);
        },
        ResourceRecordData::X25(_) => {
            reveal_strlit("X25 ");
            reveal_strlit("X25");
            assert("X25 "@.take(4) =~= "X25"@ + " "@);
            assert(record_text(d).unwrap().take(4) =~= "X25"@ + " "@);
        },
        ResourceRecordData::DName(_) => {
            reveal_strlit("DNAME ");
            reveal_strlit("DNAME");
            assert("DNAME "@.take(6) =~= "DNAME"@ + " "@);
            assert(record_text(d).unwrap().take(6) =~= "DNAME"@ + " "@);
        },
        ResourceRecordData::NInfo(_) => {
            reveal_strlit("NINFO ");
            reveal_strlit("NINFO");
            assert("NINFO "@.take(6) =~= "NINFO"@ + " "@);
            assert(record_text(d).unwrap().take(6) =~= "NINFO"@ + " "@);
        },
        ResourceRecordData::SPF(_) => {
            reveal_strlit("SPF ");
            reveal_strlit("SPF");
            assert("SPF "@.take(4) =~= "SPF"@ + " "@);
            assert(record_text(d).unwrap().take(4) =~= "SPF"@ + " "@);
        },
        ResourceRecordData::Nsap(_) => {
            reveal_strlit("NSAP 0x");
            reveal_strlit("NSAP");
            assert("NSAP 0x"@.take(5) =~= "NSAP"@ + " "@);
            assert(record_text(d).unwrap().take(5) =~= "NSAP"@ + " "@);
        },
        ResourceRecordData::OpenGPGKey(_) => {
            reveal_strlit("OPENGPGKEY ");
            reveal_strlit("OPENGPGKEY");
            assert("OPENGPGKEY "@.take(11) =~= "OPENGPGKEY"@ + " "@);
            assert(record_text(d).unwrap().take(11) =~= "OPENGPGKEY"@ + " "@);
        },
        ResourceRecordData::SVCB(_) => {
            reveal_strlit("SVCB ");
            reveal_strlit("SVCB");
            assert("SVCB "@.take(5) =~= "SVCB"@ + " "@);
            assert(record_text(d).unwrap().take(5) =~= "SVCB"@ + " "@);
        },
        ResourceRecordData::HTTPS(_) => {
            reveal_strlit("HTTPS ");
            reveal_strlit("HTTPS");
            assert("HTTPS "@.take(6) =~= "HTTPS"@ + " "@);
            assert(record_text(d).unwrap().take(6) =~= "HTTPS"@ + " "@);
        },
        _ => {},
    }
}

/// The numbers of the resource record types, as RFC 1035 (section 3.2.2) and the later RFCs of
/// the IANA registry assign them: each type is written as its number, and each number reads as
/// its type.
#[verifier::rlimit(50)]
pub proof fn lemma_type_numbers()
    ensures
        type_value(Type::A) == 1,
        type_of(1) == Some(Type::A),
        type_value(Type::NS) == 2,
        type_of(2) == Some(Type::NS),
        type_value(Type::MD) == 3,
        type_of(3) == Some(Type::MD),
        type_value(Type::MF) == 4,
        type_of(4) == Some(Type::MF),
        type_value(Type::CName) == 5,
        type_of(5) == Some(Type::CName),
        type_value(Type::SOA) == 6,
        type_of(6) == Some(Type::SOA),
        type_value(Type::MB) == 7,
        type_of(7) == Some(Type::MB),
        type_value(Type::MG) == 8,
        type_of(8) == Some(Type::MG),
        type_value(Type::MR) == 9,
        type_of(9) == Some(Type::MR),
        type_value(Type::Null) == 10,
        type_of(10) == Some(Type::Null),
        type_value(Type::WKS) == 11,
        type_of(11) == Some(Type::WKS),
        type_value(Type::Ptr) == 12,
        type_of(12) == Some(Type::Ptr),
        type_value(Type::HInfo) == 13,
        type_of(13) == Some(Type::HInfo),
        type_value(Type::MInfo) == 14,
        type_of(14) == Some(Type::MInfo),
        type_value(Type::MX) == 15,
        type_of(15) == Some(Type::MX),
        type_value(Type::TXT) == 16,
        type_of(16) == Some(Type::TXT),
        type_value(Type::RP) == 17,
        type_of(17) == Some(Type::RP),
        type_value(Type::AFSB) == 18,
        type_of(18) == Some(Type::AFSB),
        type_value(Type::X25) == 19,
        type_of(19) == Some(Type::X25),
        type_value(Type::ISDN) == 20,
        type_of(20) == Some(Type::ISDN),
        type_value(Type::RT) == 21,
        type_of(21) == Some(Type::RT),
        type_value(Type::Nsap) == 22,
        type_of(22) == Some(Type::Nsap),
        type_value(Type::NsapPtr) == 23,
        type_of(23) == Some(Type::NsapPtr),
        type_value(Type::Sig) == 24,
        type_of(24) == Some(Type::Sig),
        type_value(Type::Key) == 25,
        type_of(25) == Some(Type::Key),
        type_value(Type::PX) == 26,
        type_of(26) == Some(Type::PX),
        type_value(Type::GPos) == 27,
        type_of(27) == Some(Type::GPos),
        type_value(Type::AAAA) == 28,
        type_of(28) == Some(Type::AAAA),
        type_value(Type::Loc) == 29,
        type_of(29) == Some(Type::Loc),
        type_value(Type::NXT) == 30,
        type_of(30) == Some(Type::NXT),
        type_value(Type::EID) == 31,
        type_of(31) == Some(Type::EID),
        type_value(Type::NimLoc) == 32,
        type_of(32) == Some(Type::NimLoc),
        type_value(Type::Srv) == 33,
        type_of(33) == Some(Type::Srv),
        type_value(Type::ATMA) == 34,
        type_of(34) == Some(Type::ATMA),
        type_value(Type::NaPtr) == 35,
        type_of(35) == Some(Type::NaPtr),
        type_value(Type::KX) == 36,
        type_of(36) == Some(Type::KX),
        type_value(Type::Cert) == 37,
        type_of(37) == Some(Type::Cert),
        type_value(Type::A6) == 38,
        type_of(38) == Some(Type::A6),
        type_value(Type::DName) == 39,
        type_of(39) == Some(Type::DName),
        type_value(Type::SINK) == 40,
        type_of(40) == Some(Type::SINK),
        type_value(Type::OPT) == 41,
        type_of(41) == Some(Type::OPT),
        type_value(Type::APL) == 42,
        type_of(42) == Some(Type::APL),
        type_value(Type::DS) == 43,
        type_of(43) == Some(Type::DS),
        type_value(Type::SSHFP) == 44,
        type_of(44) == Some(Type::SSHFP),
        type_value(Type::IpSecKey) == 45,
        type_of(45) == Some(Type::IpSecKey),
        type_value(Type::RRSig) == 46,
        type_of(46) == Some(Type::RRSig),
        type_value(Type::NSec) == 47,
        type_of(47) == Some(Type::NSec),
        type_value(Type::DnsKey) == 48,
        type_of(48) == Some(Type::DnsKey),
        type_value(Type::DHCID) == 49,
        type_of(49) == Some(Type::DHCID),
        type_value(Type::NSec3) == 50,
        type_of(50) == Some(Type::NSec3),
        type_value(Type::NSec3Param) == 51,
        type_of(51) == Some(Type::NSec3Param),
        type_value(Type::TLSA) == 52,
        type_of(52) == Some(Type::TLSA),
        type_value(Type::SMIMEA) == 53,
        type_of(53) == Some(Type::SMIMEA),
        type_value(Type::HIP) == 55,
        type_of(55) == Some(Type::HIP),
        type_value(Type::NInfo) == 56,
        type_of(56) == Some(Type::NInfo),
        type_value(Type::RKey) == 57,
        type_of(57) == Some(Type::RKey),
        type_value(Type::TALink) == 58,
        type_of(58) == Some(Type::TALink),
        type_value(Type::CDS) == 59,
        type_of(59) == Some(Type::CDS),
        type_value(Type::CDNSKey) == 60,
        type_of(60) == Some(Type::CDNSKey),
        type_value(Type::OpenGPGKey) == 61,
        type_of(61) == Some(Type::OpenGPGKey),
        type_value(Type::CSYNC) == 62,
        type_of(62) == Some(Type::CSYNC),
        type_value(Type::ZoneMD) == 63,
        type_of(63) == Some(Type::ZoneMD),
        type_value(Type::SVCB) == 64,
        type_of(64) == Some(Type::SVCB),
        type_value(Type::HTTPS) == 65,
        type_of(65) == Some(Type::HTTPS),
        type_value(Type::SPF) == 99,
        type_of(99) == Some(Type::SPF),
        type_value(Type::UInfo) == 100,
        type_of(100) == Some(Type::UInfo),
        type_value(Type::UID) == 101,
        type_of(101) == Some(Type::UID),
        type_value(Type::GID) == 102,
        type_of(102) == Some(Type::GID),
        type_value(Type::UNSPEC) == 103,
        type_of(103) == Some(Type::UNSPEC),
        type_value(Type::NID) == 104,
        type_of(104) == Some(Type::NID),
        type_value(Type::L32) == 105,
        type_of(105) == Some(Type::L32),
        type_value(Type::L64) == 106,
        type_of(106) == Some(Type::L64),
        type_value(Type::LP) == 107,
        type_of(107) == Some(Type::LP),
        type_value(Type::EUI48) == 108,
        type_of(108) == Some(Type::EUI48),
        type_value(Type::EUI64) == 109,
        type_of(109) == Some(Type::EUI64),
        type_value(Type::TKey) == 249,
        type_of(249) == Some(Type::TKey),
        type_value(Type::TSig) == 250,
        type_of(250) == Some(Type::TSig),
        type_value(Type::AXFR) == 252,
        type_of(252) == Some(Type::AXFR),
        type_value(Type::MailB) == 253,
        type_of(253) == Some(Type::MailB),
        type_value(Type::MailA) == 254,
        type_of(254) == Some(Type::MailA),
        type_value(Type::All) == 255,
        type_of(255) == Some(Type::All),
        type_value(Type::URI) == 256,
        type_of(256) == Some(Type::URI),
        type_value(Type::CAA) == 257,
        type_of(257) == Some(Type::CAA),
        type_value(Type::AVC) == 258,
        type_of(258) == Some(Type::AVC),
        type_value(Type::DOA) == 259,
        type_of(259) == Some(Type::DOA),
        type_value(Type::AMTRELAY) == 260,
        type_of(260) == Some(Type::AMTRELAY),
{
}

/// Every number that reads as a type is the number that type is written as.
pub proof fn lemma_type_of_inverse(v: u16)
    ensures
        type_of(v) matches Some(x) ==> type_value(x) == v,
{
}

/// The numbers of the classes, as RFC 1035 (section 3.2.4) and RFC 2136 assign them: each class
/// is written as its number, and each number reads as its class.
#[verifier::rlimit(50)]
pub proof fn lemma_class_numbers()
    ensures
        class_value(Class::IN) == 1,
        class_of(1) == Some(Class::IN),
        class_value(Class::CS) == 2,
        class_of(2) == Some(Class::CS),
        class_value(Class::CH) == 3,
        class_of(3) == Some(Class::CH),
        class_value(Class::HS) == 4,
        class_of(4) == Some(Class::HS),
        class_value(Class::NONE) == 254,
        class_of(254) == Some(Class::NONE),
        class_value(Class::Any) == 255,
        class_of(255) == Some(Class::Any),
{
}

/// Every number that reads as a class is the number that class is written as.
pub proof fn lemma_class_of_inverse(v: u16)
    ensures
        class_of(v) matches Some(x) ==> class_value(x) == v,
{
}

/// The mnemonics of the resource record types in zone file text, as RFC 1035 and the later RFCs
/// of the IANA registry name them; `lemma_type_mnemonic_roundtrip` reads each back as its type.
#[verifier::rlimit(50)]
pub proof fn lemma_type_mnemonics()
    ensures
        type_mnemonic(Type::A) == "A"@,
        type_mnemonic(Type::NS) == "NS"@,
        type_mnemonic(Type::MD) == "MD"@,
        type_mnemonic(Type::MF) == "MF"@,
        type_mnemonic(Type::CName) == "CNAME"@,
        type_mnemonic(Type::SOA) == "SOA"@,
        type_mnemonic(Type::MB) == "MB"@,
        type_mnemonic(Type::MG) == "MG"@,
        type_mnemonic(Type::MR) == "MR"@,
        type_mnemonic(Type::Null) == "NULL"@,
        type_mnemonic(Type::WKS) == "WKS"@,
        type_mnemonic(Type::Ptr) == "PTR"@,
        type_mnemonic(Type::HInfo) == "HINFO"@,
        type_mnemonic(Type::MInfo) == "MINFO"@,
        type_mnemonic(Type::MX) == "MX"@,
        type_mnemonic(Type::TXT) == "TXT"@,
        type_mnemonic(Type::RP) == "RP"@,
        type_mnemonic(Type::AFSB) == "AFSB"@,
        type_mnemonic(Type::X25) == "X25"@,
        type_mnemonic(Type::ISDN) == "ISDN"@,
        type_mnemonic(Type::RT) == "RT"@,
        type_mnemonic(Type::Nsap) == "NSAP"@,
        type_mnemonic(Type::NsapPtr) == "NSAP-PTR"@,
        type_mnemonic(Type::Sig) == "SIG"@,
        type_mnemonic(Type::Key) == "KEY"@,
        type_mnemonic(Type::PX) == "PX"@,
        type_mnemonic(Type::GPos) == "GPOS"@,
        type_mnemonic(Type::AAAA) == "AAAA"@,
        type_mnemonic(Type::Loc) == "LOC"@,
        type_mnemonic(Type::NXT) == "NXT"@,
        type_mnemonic(Type::EID) == "EID"@,
        type_mnemonic(Type::NimLoc) == "NIMLOC"@,
        type_mnemonic(Type::Srv) == "SRV"@,
        type_mnemonic(Type::ATMA) == "ATMA"@,
        type_mnemonic(Type::NaPtr) == "NAPTR"@,
        type_mnemonic(Type::KX) == "KX"@,
        type_mnemonic(Type::Cert) == "CERT"@,
        type_mnemonic(Type::A6) == "A6"@,
        type_mnemonic(Type::DName) == "DNAME"@,
        type_mnemonic(Type::SINK) == "SINK"@,
        type_mnemonic(Type::OPT) == "OPT"@,
        type_mnemonic(Type::APL) == "APL"@,
        type_mnemonic(Type::DS) == "DS"@,
        type_mnemonic(Type::SSHFP) == "SSHFP"@,
        type_mnemonic(Type::IpSecKey) == "IPSECKEY"@,
        type_mnemonic(Type::RRSig) == "RRSIG"@,
        type_mnemonic(Type::NSec) == "NSEC"@,
        type_mnemonic(Type::DnsKey) == "DNSKEY"@,
        type_mnemonic(Type::DHCID) == "DHCID"@,
        type_mnemonic(Type::NSec3) == "NSEC3"@,
        type_mnemonic(Type::NSec3Param) == "NSEC3PARAM"@,
        type_mnemonic(Type::TLSA) == "TLSA"@,
        type_mnemonic(Type::SMIMEA) == "SMIMEA"@,
        type_mnemonic(Type::HIP) == "HIP"@,
        type_mnemonic(Type::NInfo) == "NINFO"@,
        type_mnemonic(Type::RKey) == "RKEY"@,
        type_mnemonic(Type::TALink) == "TALINK"@,
        type_mnemonic(Type::CDS) == "CDS"@,
        type_mnemonic(Type::CDNSKey) == "CDNSKEY"@,
        type_mnemonic(Type::OpenGPGKey) == "OPENGPGKEY"@,
        type_mnemonic(Type::CSYNC) == "CSYNC"@,
        type_mnemonic(Type::ZoneMD) == "ZONEMD"@,
        type_mnemonic(Type::SVCB) == "SVCB"@,
        type_mnemonic(Type::HTTPS) == "HTTPS"@,
        type_mnemonic(Type::SPF) == "SPF"@,
        type_mnemonic(Type::UInfo) == "UINFO"@,
        type_mnemonic(Type::UID) == "UID"@,
        type_mnemonic(Type::GID) == "GID"@,
        type_mnemonic(Type::UNSPEC) == "UNSPEC"@,
        type_mnemonic(Type::NID) == "NID"@,
        type_mnemonic(Type::L32) == "L32"@,
        type_mnemonic(Type::L64) == "L64"@,
        type_mnemonic(Type::LP) == "LP"@,
        type_mnemonic(Type::EUI48) == "EUI48"@,
        type_mnemonic(Type::EUI64) == "EUI64"@,
        type_mnemonic(Type::TKey) == "TKEY"@,
        type_mnemonic(Type::TSig) == "TSIG"@,
        type_mnemonic(Type::AXFR) == "AXFR"@,
        type_mnemonic(Type::MailB) == "MAILB"@,
        type_mnemonic(Type::MailA) == "MAILA"@,
        type_mnemonic(Type::All) == "*"@,
        type_mnemonic(Type::URI) == "URI"@,
        type_mnemonic(Type::CAA) == "CAA"@,
        type_mnemonic(Type::AVC) == "AVC"@,
        type_mnemonic(Type::DOA) == "DOA"@,
        type_mnemonic(Type::AMTRELAY) == "AMTRELAY"@,
{
}

} // verus!
