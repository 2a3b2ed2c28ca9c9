use protocols::dns::records::{
    Class, NsapRecord, ResourceRecord, ResourceRecordData, Type, UnimplementedRecord, Zone,
};
use protocols::dns::wire::{
    read_domain_name, write_domain_name, Flags, Message, Question, RCode, WireError,
};
use protocols::dns::zone::{ZoneParseError, ZoneParseErrorType};

#[test]
fn domain_name_roundtrip() {
    let mut buf = Vec::new();
    write_domain_name("www.example.com.", &mut buf);
    assert_eq!(
        buf,
        vec![3, b'w', b'w', b'w', 7, b'e', b'x', b'a', b'm', b'p', b'l', b'e', 3, b'c', b'o', b'm', 0]
    );
    let mut pos = 0;
    assert_eq!(read_domain_name(&buf, &mut pos).unwrap(), "www.example.com.");
    assert_eq!(pos, buf.len());
}

#[test]
fn domain_name_without_trailing_dot_has_no_terminator() {
    let mut buf = Vec::new();
    write_domain_name("example.com", &mut buf);
    assert_eq!(buf, vec![7, b'e', b'x', b'a', b'm', b'p', b'l', b'e', 3, b'c', b'o', b'm']);
    let mut pos = 0;
    assert_eq!(read_domain_name(&buf, &mut pos), Err(WireError::UnexpectedEnd));
    assert_eq!(pos, 0);
}

#[test]
fn empty_and_root_names() {
    let mut buf = Vec::new();
    write_domain_name("", &mut buf);
    assert_eq!(buf, vec![0]);
    let mut buf = Vec::new();
    write_domain_name(".", &mut buf);
    assert_eq!(buf, vec![0, 0]);
    let mut pos = 0;
    assert_eq!(read_domain_name(&buf, &mut pos).unwrap(), "");
    assert_eq!(pos, 1);
}

#[test]
fn domain_name_invalid_utf8() {
    let buf = [2, 0xff, 0xfe, 0];
    let mut pos = 0;
    assert_eq!(read_domain_name(&buf, &mut pos), Err(WireError::InvalidData));
    assert_eq!(pos, 0);
}

#[test]
fn label_length_is_taken_modulo_256() {
    let label = "a".repeat(300);
    let mut buf = Vec::new();
    write_domain_name(&label, &mut buf);
    assert_eq!(buf[0], 44);
    assert_eq!(buf.len(), 301);
}

#[test]
fn question_roundtrip() {
    let q = Question { name: "rust-lang.org.".to_string(), ty: Type::AAAA, class: Class::IN };
    let mut buf = Vec::new();
    q.write(&mut buf);
    assert_eq!(&buf[buf.len() - 4..], &[28, 0, 1, 0]);
    let mut pos = 0;
    assert_eq!(Question::read(&buf, &mut pos).unwrap(), q);
    assert_eq!(pos, buf.len());
}

#[test]
fn question_errors() {
    let mut buf = Vec::new();
    write_domain_name("a.", &mut buf);
    buf.extend_from_slice(&[1, 0, 1]);
    let mut pos = 0;
    assert_eq!(Question::read(&buf, &mut pos), Err(WireError::UnexpectedEnd));
    buf.push(0);
    buf[3] = 54;
    assert_eq!(Question::read(&buf, &mut pos), Err(WireError::InvalidData));
    buf[3] = 1;
    buf[5] = 5;
    assert_eq!(Question::read(&buf, &mut pos), Err(WireError::InvalidData));
    buf[5] = 254;
    let q = Question::read(&buf, &mut pos).unwrap();
    assert_eq!(q.class, Class::NONE);
}

#[test]
fn message_roundtrip() {
    let mut m = Message::default();
    m.id = 0x1234;
    m.flags = Flags(0x0100);
    m.questions.push(Question { name: "example.org.".to_string(), ty: Type::MX, class: Class::IN });
    m.questions.push(Question { name: "example.net.".to_string(), ty: Type::TXT, class: Class::CH });
    let mut buf = Vec::new();
    m.write(&mut buf);
    assert_eq!(&buf[..12], &[0x34, 0x12, 0x00, 0x01, 2, 0, 0, 0, 0, 0, 0, 0]);
    let r = Message::read(&buf).unwrap();
    assert_eq!(r.id, 0x1234);
    assert_eq!(r.flags, Flags(0x0100));
    assert_eq!(r.questions, m.questions);
    assert!(r.answers.is_empty());
}

#[test]
fn message_errors() {
    assert_eq!(Message::read(&[0; 11]).err(), Some(WireError::UnexpectedEnd));
    let mut buf = vec![0u8; 12];
    buf[4] = 1;
    assert_eq!(Message::read(&buf).err(), Some(WireError::UnexpectedEnd));
    let mut buf = vec![0u8; 12];
    buf[6] = 1;
    buf.push(3);
    assert_eq!(Message::read(&buf).err(), Some(WireError::UnexpectedEnd));
}

#[test]
fn flags_set_and_get() {
    let mut f = Flags::default();
    f.set_aa(true);
    assert_eq!(f.0, 0x0020);
    assert!(f.aa());
    assert!(!f.tc());
    f.set_tc(true);
    f.set_aa(false);
    assert_eq!(f.0, 0x0040);
    f.set_rd(true);
    assert!(f.qr());
    assert!(f.rd());
    f.set_qr(false);
    assert!(!f.rd());
    f.set_cd(true);
    f.set_ad(true);
    f.set_z(true);
    f.set_ra(true);
    assert_eq!(f.0, 0x0040 | 0x0800 | 0x0400 | 0x0200 | 0x0100);
    assert!(f.cd() && f.ad() && f.z() && f.ra());
}

#[test]
fn flags_opcode_and_rcode() {
    let mut f = Flags(0);
    f.set_op_code(0b0111_1000_0000_0000);
    assert_eq!(f.0, 0b0011_1100_0000_0000);
    assert_eq!(Flags(0xffff).op_code(), 0xffff & (0b0111_1000_0000_0000u16 << 1));
    assert_eq!(Flags(0x0000).rcode(), Ok(RCode::NoError));
    assert_eq!(Flags(0x5000).rcode(), Err(0x5000));
    let mut f = Flags(0);
    f.set_rcode(Err(0x3000));
    assert_eq!(f.0, 3);
    f.set_rcode(Ok(RCode::BadCookie));
    assert_eq!(f.0, 3);
}

#[test]
fn rcode_values() {
    assert_eq!(RCode::try_from(3), Ok(RCode::NonExistentDomain));
    assert_eq!(RCode::try_from(12), Err(()));
    assert_eq!(RCode::try_from(23), Ok(RCode::BadCookie));
    assert_eq!(RCode::BadVersOrSig.value(), 16);
}

#[test]
fn class_values_and_names() {
    assert_eq!(Class::try_from(1), Ok(Class::IN));
    assert_eq!(Class::try_from(254), Ok(Class::NONE));
    assert_eq!(Class::try_from(250), Err(()));
    assert_eq!(Class::try_from(5), Err(()));
    assert_eq!(Class::Any.value(), 255);
    assert_eq!(Class::from_str("CH"), Ok(Class::CH));
    assert_eq!(Class::from_str("*"), Ok(Class::Any));
    assert_eq!(
        Class::from_str("in"),
        Err(ZoneParseError { ty: ZoneParseErrorType::RecordClass, line: 0, row: 0 })
    );
    assert_eq!(Class::HS.to_string(), "HS");
}

#[test]
fn type_values_and_names() {
    assert_eq!(Type::try_from(28), Ok(Type::AAAA));
    assert_eq!(Type::try_from(54), Err(()));
    assert_eq!(Type::try_from(251), Err(()));
    assert_eq!(Type::try_from(260), Ok(Type::AMTRELAY));
    assert_eq!(Type::try_from(261), Err(()));
    assert_eq!(Type::URI.value(), 256);
    for v in 0..=300u16 {
        if let Ok(t) = Type::try_from(v) {
            assert_eq!(t.value(), v);
        }
    }
    assert_eq!(Type::from_str("CNAME"), Ok(Type::CName));
    assert_eq!(Type::from_str("NSAP_PTR"), Ok(Type::Ptr));
    assert_eq!(Type::from_str("AFSB").unwrap_err().ty, ZoneParseErrorType::RecordType);
    assert_eq!(Type::NsapPtr.to_string(), "NSAP-PTR");
    assert_eq!(Type::All.to_string(), "*");
    assert_eq!(Type::from_str(&Type::NSec3Param.to_string()), Ok(Type::NSec3Param));
}

#[test]
fn record_data_type() {
    assert_eq!(ResourceRecordData::MX(Default::default()).to_type(), Ok(Type::MX));
    assert_eq!(ResourceRecordData::AFSDB(Default::default()).to_type(), Ok(Type::AFSB));
    assert_eq!(ResourceRecordData::Sink(Default::default()).to_type(), Ok(Type::SINK));
    assert_eq!(
        ResourceRecordData::Other(UnimplementedRecord::Wire { id: 999, data: vec![1] }).to_type(),
        Err(Some(999))
    );
    assert_eq!(
        ResourceRecordData::Other(UnimplementedRecord::Text { name: "X".into(), data: "y".into() }).to_type(),
        Err(None)
    );
}

#[test]
fn record_data_text() {
    assert_eq!(ResourceRecordData::from_str("NS ns1.example.org."), Ok(ResourceRecordData::NS("ns1.example.org.".into())));
    assert_eq!(ResourceRecordData::from_str("TXT hello world"), Ok(ResourceRecordData::TXT("hello world".into())));
    assert_eq!(ResourceRecordData::from_str("*"), Err(ZoneParseError::new(ZoneParseErrorType::RecordType, 0, 0)));
    assert_eq!(ResourceRecordData::from_str("BOGUS x"), Err(ZoneParseError::new(ZoneParseErrorType::RecordType, 0, 0)));
    assert_eq!(ResourceRecordData::from_str("* x"), Ok(ResourceRecordData::All));
    assert_eq!(
        ResourceRecordData::from_str("NULL abc"),
        Ok(ResourceRecordData::Other(UnimplementedRecord::Text { name: "NULL".into(), data: "abc".into() }))
    );
    assert_eq!(ResourceRecordData::from_str("SVCB AQID"), Ok(ResourceRecordData::SVCB(vec![1, 2, 3])));
    assert_eq!(
        ResourceRecordData::from_str("HTTPS !!"),
        Err(ZoneParseError::new(ZoneParseErrorType::RecordValue, 0, 5))
    );
    let d = ResourceRecordData::CName("alias.example.".into());
    assert_eq!(d.to_string(), "CNAME alias.example.");
    assert_eq!(ResourceRecordData::from_str(&d.to_string()), Ok(d));
    assert_eq!(ResourceRecordData::OpenGPGKey(vec![1, 2, 3]).to_string(), "OPENGPGKEY AQID");
    assert_eq!(ResourceRecordData::Nsap(NsapRecord(vec![0x0a, 0xff])).to_string(), "NSAP 0x0x0aff");
    assert_eq!(ResourceRecordData::All.to_string(), "*");
    assert_eq!(ResourceRecordData::NsapPtr("x.".into()).to_string(), "NSAP_PTR x.");
}

#[test]
fn record_and_zone_text() {
    let r = ResourceRecord {
        name: "example.org.".into(),
        ttl: 3600,
        class: Class::IN,
        data: ResourceRecordData::NS("ns.example.org.".into()),
    };
    assert_eq!(r.to_string(), "example.org. 3600 IN NS ns.example.org.");
    let z = Zone { origin: "example.org.".into(), ttl: 60, records: vec![r.clone(), r] };
    assert_eq!(
        z.to_string(),
        "$ORIGIN example.org.\n$TTL 60\nexample.org. 3600 IN NS ns.example.org.example.org. 3600 IN NS ns.example.org."
    );
}

#[test]
fn zone_parse_error_new() {
    let e = ZoneParseError::new(ZoneParseErrorType::Directive, 3, 7);
    assert_eq!(e, ZoneParseError { ty: ZoneParseErrorType::Directive, line: 3, row: 7 });
}

#[test]
fn zone_directives() {
    let z = Zone::from_str("; a zone\n$ORIGIN example.com. ; the origin\n\n  $TTL 3600\r\n").unwrap();
    assert_eq!(z.origin, "example.com.");
    assert_eq!(z.ttl, 3600);
    assert!(z.records.is_empty());
    let z = Zone::from_str("").unwrap();
    assert_eq!((z.origin.as_str(), z.ttl), ("", 0));
    assert_eq!(
        Zone::from_str("$ORIGIN a.\n$TTL\n").unwrap_err(),
        ZoneParseError { ty: ZoneParseErrorType::DirectiveValue, line: 1, row: 0 }
    );
    assert_eq!(
        Zone::from_str("$TTL soon").unwrap_err(),
        ZoneParseError { ty: ZoneParseErrorType::DirectiveValue, line: 0, row: 0 }
    );
    assert_eq!(
        Zone::from_str("\n\n$INCLUDE other.zone").unwrap_err(),
        ZoneParseError { ty: ZoneParseErrorType::Directive, line: 2, row: 0 }
    );
    assert_eq!(
        Zone::from_str("$ORIGIN").unwrap_err(),
        ZoneParseError { ty: ZoneParseErrorType::DirectiveValue, line: 0, row: 0 }
    );
}

#[test]
fn message_frame_roundtrip() {
    let mut m = Message::default();
    m.id = 7;
    m.questions.push(Question { name: "a.example.".to_string(), ty: Type::A, class: Class::IN });
    let mut plain = Vec::new();
    m.write(&mut plain);
    let mut framed = Vec::new();
    m.write_with_len(&mut framed);
    assert_eq!(framed.len(), plain.len() + 2);
    assert_eq!(&framed[..2], &[0, plain.len() as u8]);
    assert_eq!(&framed[2..], &plain[..]);
    let r = Message::read_with_len(&framed).unwrap();
    assert_eq!(r.id, 7);
    assert_eq!(r.questions, m.questions);
    assert_eq!(Message::read_with_len(&[0]).err(), Some(WireError::UnexpectedEnd));
    assert_eq!(Message::read_with_len(&framed[..framed.len() - 1]).err(), Some(WireError::UnexpectedEnd));
}

#[test]
fn zone_text_reads_back() {
    let z = Zone { origin: "example.org.".to_string(), ttl: 86400, records: vec![] };
    let text = z.to_string();
    assert_eq!(text, "$ORIGIN example.org.\n$TTL 86400\n");
    let r = Zone::from_str(&text).unwrap();
    assert_eq!((r.origin.as_str(), r.ttl), ("example.org.", 86400));
}

#[test]
fn address_record_text() {
    assert_eq!(ResourceRecordData::from_str("A 192.0.2.1"), Ok(ResourceRecordData::A([192, 0, 2, 1])));
    assert_eq!(ResourceRecordData::A([10, 0, 0, 255]).to_string(), "A 10.0.0.255");
    let a = ResourceRecordData::A([0, 9, 99, 200]);
    assert_eq!(ResourceRecordData::from_str(&a.to_string()), Ok(a));
    for bad in ["A 256.0.0.1", "A 01.2.3.4", "A 1.2.3", "A 1.2.3.4.5", "A 1.2.3.4 ", "A 1234.1.1.1", "A +1.2.3.4", "A 1..2.3"] {
        assert_eq!(ResourceRecordData::from_str(bad), Err(ZoneParseError::new(ZoneParseErrorType::RecordValue, 0, 1)));
    }
}

#[test]
fn ipv4_text_reads() {
    assert_eq!(protocols::inet::parse_ipv4("127.0.0.1"), Some([127, 0, 0, 1]));
    assert_eq!(protocols::inet::parse_ipv4("0.0.0.0"), Some([0, 0, 0, 0]));
    assert_eq!(protocols::inet::parse_ipv4("255.255.255.255"), Some([255, 255, 255, 255]));
    assert_eq!(protocols::inet::parse_ipv4("1.2.3.04"), None);
    assert_eq!(protocols::inet::parse_ipv4(""), None);
    let mut s = String::from("at ");
    protocols::inet::push_ipv4(&mut s, &[1, 20, 255, 0]);
    assert_eq!(s, "at 1.20.255.0");
}

#[test]
fn ipv6_text_reads_and_writes() {
    use_v6("::", [0; 16], "::");
    use_v6("::1", [0, 0, 0, 0, 0, 0, 0, 0, 0, 0, 0, 0, 0, 0, 0, 1], "::1");
    use_v6("2001:DB8:0:0:8:800:200C:417A", [0x20, 0x01, 0x0d, 0xb8, 0, 0, 0, 0, 0, 8, 8, 0, 0x20, 0x0c, 0x41, 0x7a], "2001:db8::8:800:200c:417a");
    use_v6("1:0:0:2:0:0:0:3", [0, 1, 0, 0, 0, 0, 0, 2, 0, 0, 0, 0, 0, 0, 0, 3], "1:0:0:2::3");
    use_v6("1:0:2:3:4:5:6:7", [0, 1, 0, 0, 0, 2, 0, 3, 0, 4, 0, 5, 0, 6, 0, 7], "1:0:2:3:4:5:6:7");
    use_v6("1:0:0:2:0:0:3:4", [0, 1, 0, 0, 0, 0, 0, 2, 0, 0, 0, 0, 0, 3, 0, 4], "1::2:0:0:3:4");
    use_v6("::ffff:192.0.2.128", [0, 0, 0, 0, 0, 0, 0, 0, 0, 0, 0xff, 0xff, 192, 0, 2, 128], "::ffff:192.0.2.128");
    use_v6("::1.2.3.4", [0, 0, 0, 0, 0, 0, 0, 0, 0, 0, 0, 0, 1, 2, 3, 4], "::102:304");
    use_v6("1:2:3:4:5:6:7::", [0, 1, 0, 2, 0, 3, 0, 4, 0, 5, 0, 6, 0, 7, 0, 0], "1:2:3:4:5:6:7:0");
    use_v6("1:2:3:4:5:6:1.2.3.4", [0, 1, 0, 2, 0, 3, 0, 4, 0, 5, 0, 6, 1, 2, 3, 4], "1:2:3:4:5:6:102:304");
    for bad in ["", ":", ":::", "1::2::3", "1:2:3:4:5:6:7:8:9", "1:2:3:4:5:6:7", "12345::", "1.2.3.4::", "::1.2.3.4:5", "1:2:3:4:5:6:7:8::", "1::2:3:4:5:6:7:8", "g::", "::1.2.3.04"] {
        assert_eq!(protocols::inet::parse_ipv6(bad), None, "{bad}");
    }
    assert_eq!(ResourceRecordData::from_str("AAAA 2001:db8::1").unwrap().to_string(), "AAAA 2001:db8::1");
    assert_eq!(ResourceRecordData::from_str("AAAA 1.2.3.4"), Err(ZoneParseError::new(ZoneParseErrorType::RecordValue, 0, 4)));
}

fn use_v6(text: &str, octets: [u8; 16], shown: &str) {
    assert_eq!(protocols::inet::parse_ipv6(text), Some(octets), "{text}");
    let mut s = String::new();
    protocols::inet::push_ipv6(&mut s, &octets);
    assert_eq!(s, shown);
    assert_eq!(protocols::inet::parse_ipv6(shown), Some(octets));
}

#[test]
fn ip_text_prefers_ipv4() {
    assert_eq!(protocols::inet::parse_ip("10.1.2.3"), Some(protocols::inet::IpAddr::V4([10, 1, 2, 3])));
    assert_eq!(protocols::inet::parse_ip("::a"), Some(protocols::inet::IpAddr::V6([0, 0, 0, 0, 0, 0, 0, 0, 0, 0, 0, 0, 0, 0, 0, 10])));
    assert_eq!(protocols::inet::parse_ip("10.1.2"), None);
}

#[test]
fn record_text_begins_with_type_mnemonic() {
    for d in [
        ResourceRecordData::CName("alias.example.".into()),
        ResourceRecordData::A([1, 2, 3, 4]),
        ResourceRecordData::TXT("hello".into()),
    ] {
        let t = d.to_type().unwrap();
        assert!(d.to_string().starts_with(&format!("{} ", t.to_string())));
    }
    // the text of an NSAP-PTR record is spelled with an underscore
    let p = ResourceRecordData::NsapPtr("x.".into());
    assert_eq!(p.to_type().unwrap().to_string(), "NSAP-PTR");
    assert_eq!(p.to_string(), "NSAP_PTR x.");
}
