use protocols::inet::IpAddr;
use protocols::rtsp::values::{Connection, Via, ViaParam};
use protocols::rtsp::TransportProtocol;
use protocols::rtsp::{
    AcceptCredentials, AcceptCredentialsCredentialHashAlgorithm, AcceptCredentialsInfo, CacheControl,
    ConTransCon, ConTransSetup, ConnectionCredentials, MTag, Mode, RequestStatus, RtpInfo, Status, Transport,
    TransportParam,
};

#[test]
fn rtsp_connection_option() {
    assert_eq!(Connection::from_str("close"), Ok(Connection::Close));
    assert_eq!(Connection::from_str("keep"), Ok(Connection::Ext("keep".to_string())));
    assert_eq!(Connection::Close.to_string(), "close");
}

#[test]
fn rtsp_cache_control() {
    assert_eq!(CacheControl::from_str("max-stale"), Ok(CacheControl::MaxStale(None)));
    assert_eq!(CacheControl::from_str("max-stale=30"), Ok(CacheControl::MaxStale(Some(30))));
    assert_eq!(CacheControl::from_str("max-stale=x"), Err(()));
    assert_eq!(CacheControl::from_str("min-fresh=5"), Ok(CacheControl::MinFresh(5)));
    assert_eq!(CacheControl::from_str("min-fresh"), Ok(CacheControl::Ext("min-fresh".to_string(), None)));
    assert_eq!(CacheControl::from_str("max-age=60"), Ok(CacheControl::MaxAge(60)));
    assert_eq!(CacheControl::from_str("public"), Ok(CacheControl::Public));
    assert_eq!(CacheControl::from_str("proxy-revalidate"), Ok(CacheControl::ProxyRevalidate));
    assert_eq!(
        CacheControl::from_str("public=1"),
        Ok(CacheControl::Ext("public".to_string(), Some("1".to_string())))
    );
    assert_eq!(CacheControl::MaxStale(Some(7)).to_string(), "max-stale=7");
    assert_eq!(CacheControl::ProxyRevalidate.to_string(), "max-age");
    assert_eq!(CacheControl::Ext("a".to_string(), Some("b=c".to_string())).to_string(), "a=b=c");
    for c in [CacheControl::MinFresh(3), CacheControl::NoCache, CacheControl::Ext("x".to_string(), Some("y".to_string()))] {
        assert_eq!(CacheControl::from_str(&c.to_string()), Ok(c));
    }
}

#[test]
fn rtsp_mtag_and_credentials() {
    let t = MTag::from_str("W/\"abc\"").unwrap();
    assert_eq!(t, MTag { weak_validator: true, value: "abc".to_string() });
    assert_eq!(t.to_string(), "W/\"abc\"");
    assert_eq!(MTag::from_str("x\"a\"b\"").unwrap().value, "a\"b");
    assert_eq!(MTag::from_str("none"), Err(()));
    let c = ConnectionCredentials::from_str("\"rtsps://a/\";AQID").unwrap();
    assert_eq!(c, ConnectionCredentials { url: "rtsps://a/".to_string(), cred: vec![1, 2, 3] });
    assert_eq!(c.to_string(), "\"rtsps://a/\";AQID");
    assert_eq!(ConnectionCredentials::from_str("rtsps://a/;AQID"), Err(()));
    assert_eq!(ConnectionCredentials::from_str("\"rtsps://a/\"AQID"), Err(()));
    assert_eq!(ConnectionCredentials::from_str("\"rtsps://a/\";!!"), Err(()));
}

#[test]
fn rtsp_request_status() {
    let r = RequestStatus::from_str("cseq=63 status=500 reason=\"x\"").unwrap();
    assert_eq!(r.cseq, 63);
    assert_eq!(r.status, Status::InternalServerError);
    assert_eq!(r.reason, "x");
    let r = RequestStatus::from_str("cseq=1 status=200 reason=\"long\"").unwrap();
    assert_eq!(r.reason, "l");
    assert_eq!(RequestStatus::from_str("cseq=1 status=999 reason=\"x\""), Err(()));
    assert_eq!(RequestStatus::from_str("cseq=1 status=200 reason=\"x\"y"), Err(()));
    assert_eq!(RequestStatus::from_str("seq=1 status=200 reason=\"x\""), Err(()));
    let r = RequestStatus { cseq: 4, status: Status::OK, reason: "fine".to_string() };
    assert_eq!(r.to_string(), "cseq=4 status=OK reason=\"fine\"");
}

#[test]
fn rtsp_rtp_info() {
    let r = RtpInfo::from_str("url=\"rtsp://a/t1\" ssrc=12:seq=1;rtptime=2").unwrap();
    assert_eq!(r.url, "rtsp://a/t1");
    assert_eq!(r.ssrc, 12);
    assert_eq!(r.params, vec!["seq=1".to_string(), "rtptime=2".to_string()]);
    assert_eq!(r.to_string(), "url=\"rtsp://a/t1\" ssrc=C:seq=1;rtptime=2");
    assert_eq!(RtpInfo::from_str("url=\"a\" ssrc=1"), Err(()));
    assert_eq!(RtpInfo::from_str("url=\"a\" src=1:x"), Err(()));
}

#[test]
fn rtsp_transport() {
    let t = Transport::from_str("RTP/AVP/UDP;unicast;dest_addr=\"192.0.2.5:3456\"/\"192.0.2.5:3457\";mode=\"PLAY\"").unwrap();
    assert_eq!(t.id, "RTP/AVP/UDP");
    assert_eq!(
        t.params,
        vec![
            TransportParam::Unicast,
            TransportParam::DstAddr(vec!["\"192.0.2.5:3456\"".to_string(), "\"192.0.2.5:3457\"".to_string()]),
            TransportParam::Mode(vec![Mode::Play]),
        ]
    );
    assert_eq!(TransportParam::from_str("ttl=127"), Ok(TransportParam::Ttl(127)));
    assert_eq!(TransportParam::from_str("ttl=300"), Err(()));
    assert_eq!(TransportParam::from_str("ssrc=5"), Ok(TransportParam::Layers(5)));
    assert_eq!(TransportParam::from_str("interleaved=4-5"), Ok(TransportParam::Interleaved(4, Some(5))));
    assert_eq!(TransportParam::from_str("interleaved=4"), Err(()));
    assert_eq!(TransportParam::from_str("setup=passive"), Ok(TransportParam::Setup(ConTransSetup::Passive)));
    assert_eq!(TransportParam::from_str("connection=new"), Ok(TransportParam::Connection(ConTransCon::New)));
    assert_eq!(TransportParam::from_str("MIKEY=AQID"), Ok(TransportParam::MiKey(vec![1, 2, 3])));
    assert_eq!(TransportParam::from_str("mode=PLAY"), Err(()));
    assert_eq!(TransportParam::from_str("src_addr=a/b"), Err(()));
    assert_eq!(TransportParam::from_str("x=y"), Ok(TransportParam::Ext("x".to_string(), Some("y".to_string()))));
    assert_eq!(Transport::from_str("RTP/AVP;ttl=x"), Err(()));
    assert_eq!(TransportParam::Mode(vec![Mode::Play, Mode::Ext("REC".to_string())]).to_string(), "\"PLAY,REC\"");
    assert_eq!(TransportParam::Interleaved(1, Some(2)).to_string(), "interleaved=1-2");
    assert_eq!(
        Transport { id: "RTP/AVP".to_string(), params: vec![TransportParam::Multicast, TransportParam::Ttl(9)] }.to_string(),
        "RTP/AVP;multicast;ttl=9"
    );
}

#[test]
fn rtsp_accept_credentials() {
    assert_eq!(AcceptCredentials::from_str("User"), Ok(AcceptCredentials::User(vec![])));
    assert_eq!(AcceptCredentials::from_str("Proxy"), Ok(AcceptCredentials::Proxy));
    assert_eq!(
        AcceptCredentials::from_str("Other=1"),
        Ok(AcceptCredentials::Ext("Other".to_string(), Some("1".to_string())))
    );
    let a = AcceptCredentials::from_str("User \"rtsps://a/\";sha-256;AQID, \"rtsps://b/\";md5;BAU=").unwrap();
    let info = |uri: &str, algo, hash: Vec<u8>| AcceptCredentialsInfo { uri: uri.to_string(), algo, hash };
    assert_eq!(
        a,
        AcceptCredentials::User(vec![
            info("rtsps://a/\"", AcceptCredentialsCredentialHashAlgorithm::Sha256, vec![1, 2, 3]),
            info("rtsps://b/\"", AcceptCredentialsCredentialHashAlgorithm::Other("md5".to_string()), vec![4, 5]),
        ])
    );
    assert_eq!(AcceptCredentials::from_str("User \"a\";sha-256"), Err(()));
    let one = AcceptCredentials::User(vec![info("u", AcceptCredentialsCredentialHashAlgorithm::Sha256, vec![0xff])]);
    assert_eq!(one.to_string(), "User \"u\";sha-256;/w==,\"u\";sha-256;/w==");
    assert_eq!(AcceptCredentials::Ext("k".to_string(), Some("v".to_string())).to_string(), "k v");
}

#[test]
fn rtsp_transport_param_text_reads_back() {
    for p in [
        TransportParam::Unicast,
        TransportParam::RtcpMux,
        TransportParam::Interleaved(3, Some(4)),
        TransportParam::Ttl(16),
        TransportParam::Layers(2),
        TransportParam::Setup(ConTransSetup::ActPass),
        TransportParam::Connection(ConTransCon::Existing),
        TransportParam::MiKey(vec![9, 8, 7, 6]),
        TransportParam::Ext("x-flag".to_string(), None),
    ] {
        assert_eq!(TransportParam::from_str(&p.to_string()), Ok(p));
    }
    assert_eq!(TransportParam::from_str(&TransportParam::Ssrc(5).to_string()), Ok(TransportParam::Layers(5)));
}

#[test]
fn rtsp_transport_and_rtp_info_text_read_back() {
    let t = Transport {
        id: "RTP/AVP/TCP".to_string(),
        params: vec![TransportParam::Interleaved(0, Some(1)), TransportParam::Setup(ConTransSetup::Active)],
    };
    assert_eq!(Transport::from_str(&t.to_string()), Ok(t));
    let r = RtpInfo::from_str("url=\"rtsp://a/\" ssrc=7:seq=1;rtptime=9").unwrap();
    assert_eq!(RtpInfo::from_str(&r.to_string()), Ok(r));
}

#[test]
fn rtsp_via_reads() {
    let v = Via::from_str("RTSP/2.0/UDP proxy.example.com;ttl 16;maddr 224.2.0.1;received 192.0.2.3;hidden").unwrap();
    assert_eq!(v.protocol_name, "RTSP");
    assert_eq!(v.protocol_version, "2.0");
    assert_eq!(v.protocol_transport, TransportProtocol::Udp);
    assert_eq!(v.sent_by, "proxy.example.com");
    assert_eq!(
        v.params,
        vec![
            ViaParam::Ttl(16),
            ViaParam::MAddr("224.2.0.1".to_string()),
            ViaParam::Received(IpAddr::V4([192, 0, 2, 3])),
            ViaParam::Ext("hidden".to_string(), None),
        ]
    );
    assert_eq!(Via::from_str("RTSP/2.0 host"), Err(()));
    assert_eq!(Via::from_str("RTSP/2.0/TCP"), Err(()));
    assert_eq!(Via::from_str("RTSP/2.0/TCP host;ttl 300"), Err(()));
    assert_eq!(Via::from_str("RTSP/2.0/TCP host;received nowhere"), Err(()));
    let w = Via::from_str("RTSP/2.0/SCTP/x host a;k v").unwrap();
    assert_eq!(w.protocol_transport, TransportProtocol::Other("SCTP/x".to_string()));
    assert_eq!(w.sent_by, "host a");
    assert_eq!(w.params, vec![ViaParam::Ext("k".to_string(), Some("v".to_string()))]);
}

#[test]
fn rtsp_via_writes() {
    let v = Via {
        protocol_name: "RTSP".to_string(),
        protocol_version: "2.0".to_string(),
        protocol_transport: TransportProtocol::Tcp,
        sent_by: "gw".to_string(),
        params: vec![ViaParam::Ext("hidden".to_string(), None)],
    };
    assert_eq!(v.to_string(), "RTSP/2.0/TCP gw;hidden");
    assert_eq!(Via::from_str(&v.to_string()), Ok(v));
    // parameters with values are written with `=` but read at a space
    let p = ViaParam::Ttl(5);
    assert_eq!(p.to_string(), "ttl=5");
    assert_eq!(ViaParam::from_str(&p.to_string()), Ok(ViaParam::Ext("ttl=5".to_string(), None)));
    assert_eq!(ViaParam::Received(IpAddr::V6([0xfe, 0x80, 0, 0, 0, 0, 0, 0, 0, 0, 0, 0, 0, 0, 0, 1])).to_string(), "received=fe80::1");
}
