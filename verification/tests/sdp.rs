use protocols::inet::IpAddr;
use protocols::sdp::{
    AddrType, Attribute, BandwidthInformation, BandwidthType, ConnectionInformation, NetType, Origin,
    RepeatTimes, TimeZoneAdjustment,
};

#[test]
fn sdp_net_and_addr_types() {
    assert_eq!(NetType::from_str("IP4"), Ok(NetType::IP4));
    assert_eq!(NetType::from_str("IP6"), Ok(NetType::IP6));
    assert_eq!(NetType::from_str("ip4"), Err(()));
    assert_eq!(NetType::IP6.to_string(), "IP6");
    assert_eq!(AddrType::from_str("IN"), Ok(AddrType::IN));
    assert_eq!(AddrType::from_str("OUT"), Err(()));
    assert_eq!(AddrType::IN.to_string(), "IN");
}

#[test]
fn sdp_bandwidth_information() {
    let b = BandwidthInformation::from_str("AS:128").unwrap();
    assert_eq!(b, BandwidthInformation { bw_type: BandwidthType::AS, bandwidth: "128".to_string() });
    assert_eq!(b.to_string(), "AS:128");
    assert_eq!(BandwidthInformation::from_str("CT:1:2").unwrap().bandwidth, "1:2");
    assert_eq!(BandwidthInformation::from_str("XX:128"), Err(()));
    assert_eq!(BandwidthInformation::from_str("AS128"), Err(()));
    assert_eq!(BandwidthType::from_str("CT"), Ok(BandwidthType::CT));
}

#[test]
fn sdp_attribute() {
    let a = Attribute::from_str("rtpmap:99 h263-1998/90000").unwrap();
    assert_eq!(a.name, "rtpmap");
    assert_eq!(a.value, "99 h263-1998/90000");
    assert_eq!(a.to_string(), "rtpmap:99 h263-1998/90000");
    assert_eq!(Attribute::from_str("recvonly"), Err(()));
}

#[test]
fn sdp_repeat_times_and_zone() {
    let r = RepeatTimes { interval: 604800, duration: 3600, offsets: vec![0, 90000] };
    assert_eq!(r.to_string(), "604800 3600 0 90000");
    let r = RepeatTimes { interval: 7, duration: 0, offsets: vec![] };
    assert_eq!(r.to_string(), "7 0");
    assert_eq!(TimeZoneAdjustment::from_str("anything"), Ok(TimeZoneAdjustment {}));
    assert_eq!(TimeZoneAdjustment {}.to_string(), "");
}

#[test]
fn sdp_repeat_times_from_str() {
    let r = RepeatTimes::from_str("604800 3600 0 90000").unwrap();
    assert_eq!(r, RepeatTimes { interval: 604800, duration: 3600, offsets: vec![0, 90000] });
    assert_eq!(RepeatTimes::from_str("  7\t0  ").unwrap(), RepeatTimes { interval: 7, duration: 0, offsets: vec![] });
    assert_eq!(RepeatTimes::from_str("7"), Err(()));
    assert_eq!(RepeatTimes::from_str("7 x"), Err(()));
    assert_eq!(RepeatTimes::from_str("7 1 2 -3"), Err(()));
    assert_eq!(RepeatTimes::from_str(&r.to_string()).unwrap(), r);
}

#[test]
fn sdp_origin_reads_and_writes() {
    let o = Origin::from_str("jdoe 3724394400 3724394405 IN IP4 198.51.100.1");
    assert_eq!(o, Err(()));
    let o = Origin::from_str("jdoe 3724394400 3724394405 IP4 IN 198.51.100.1").unwrap();
    assert_eq!(o.username, "jdoe");
    assert_eq!(o.session_id, 3724394400);
    assert_eq!(o.session_version, 3724394405);
    assert_eq!(o.net_type, NetType::IP4);
    assert_eq!(o.addr_type, AddrType::IN);
    assert_eq!(o.unicast_addr, IpAddr::V4([198, 51, 100, 1]));
    assert_eq!(o.to_string(), "jdoe 3724394400 3724394405 IP4 IN 198.51.100.1");
    let p = Origin::from_str("- 1 2 IP6 IN 2001:db8::1 extra").unwrap();
    assert_eq!(p.unicast_addr, IpAddr::V6([0x20, 0x01, 0x0d, 0xb8, 0, 0, 0, 0, 0, 0, 0, 0, 0, 0, 0, 1]));
    assert_eq!(p.to_string(), "- 1 2 IP6 IN 2001:db8::1");
    assert_eq!(Origin::from_str(&p.to_string()), Ok(p));
    assert_eq!(Origin::from_str("jdoe 1 2 IP4 IN"), Err(()));
    assert_eq!(Origin::from_str("jdoe x 2 IP4 IN 1.2.3.4"), Err(()));
    assert_eq!(Origin::from_str("jdoe 1 2 IP4 IN 1.2.3"), Err(()));
}

#[test]
fn sdp_connection_information_reads_and_writes() {
    let c = ConnectionInformation::from_str("IP4 IN 233.252.0.1").unwrap();
    assert_eq!(c, ConnectionInformation { net_type: NetType::IP4, addr_type: AddrType::IN, connection_addr: IpAddr::V4([233, 252, 0, 1]) });
    assert_eq!(c.to_string(), "IP4 IN 233.252.0.1");
    let d = ConnectionInformation { net_type: NetType::IP6, addr_type: AddrType::IN, connection_addr: IpAddr::V6([0xff, 0x15, 0, 0, 0, 0, 0, 0, 0, 0, 0, 0, 0, 0, 0, 0x01]) };
    assert_eq!(d.to_string(), "IP6 IN ff15::1");
    assert_eq!(ConnectionInformation::from_str(&d.to_string()), Ok(d));
    assert_eq!(ConnectionInformation::from_str("IP4 IN"), Err(()));
    assert_eq!(ConnectionInformation::from_str("IP4 XX 1.2.3.4"), Err(()));
}
