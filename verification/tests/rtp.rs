use protocols::rtcp::{
    recv_packet, Header as RtcpHeader, PacketReceiver, PacketSenderReportReportBlocks, ReadError,
};
use protocols::rtp::Header;

#[test]
fn rtcp_header_read() {
    assert_eq!(
        RtcpHeader::read(&[0x82, 200, 0x01, 0x02]),
        Ok(RtcpHeader { flags: 0x82, packet_type: 200, length: 0x0102 })
    );
    assert_eq!(RtcpHeader::read(&[0x82, 200, 0x01]), Err(ReadError::UnexpectedEof));
}

#[test]
fn recv_sender_report() {
    let mut p = vec![0x0a, 200, 0, 12];
    p.extend_from_slice(&[0, 0, 0, 0, 0, 0, 1, 2]);
    p.extend_from_slice(&[0, 0, 0, 3, 0, 0, 0, 4, 0, 0, 0, 5]);
    for k in 0..24u8 {
        p.push(k);
    }
    let sr = match recv_packet(&p) {
        Ok(PacketReceiver::SenderReport(sr)) => sr,
        _ => panic!("not a sender report"),
    };
    assert_eq!(sr.count, 0x08);
    let (info, blocks) = sr.read_sender_info().unwrap();
    assert_eq!(info.ntp_timestamp, 0x0102);
    assert_eq!(info.rtp_timestamp, 3);
    assert_eq!(info.sender_packet_count, 4);
    assert_eq!(info.sender_octet_count, 5);
    let (block, rest) = match blocks.read_report_block().unwrap() {
        Ok(v) => v,
        Err(_) => panic!("no block"),
    };
    assert_eq!(block.ssrc, 0x00010203);
    assert_eq!(block.fraction_lost, 4);
    assert_eq!(block.packets_lost, [5, 6, 7]);
    assert_eq!(block.delay_since_last_sr, 0x14151617);
    assert_eq!(rest.count, 7);
    assert!(matches!(rest.read_report_block(), Err(ReadError::UnexpectedEof)));
    let none = PacketSenderReportReportBlocks { reader: &[], count: 0 };
    assert!(matches!(none.read_report_block(), Ok(Err(_))));
}

#[test]
fn recv_packet_errors() {
    assert!(matches!(recv_packet(&[0x03, 200, 0, 0]), Err(ReadError::UnsupportedVersion)));
    assert!(matches!(recv_packet(&[0x02, 199, 0, 0]), Err(ReadError::InvalidData)));
    assert!(matches!(recv_packet(&[0x02, 200]), Err(ReadError::UnexpectedEof)));
    match recv_packet(&[0x02, 204, 0, 3, 9]) {
        Ok(PacketReceiver::App(app)) => {
            assert_eq!(app.length, 12);
            assert_eq!(app.reader, &[9]);
        }
        _ => panic!("not an application packet"),
    }
    assert!(matches!(recv_packet(&[0x02, 201, 0, 0]), Ok(PacketReceiver::ReceiverReport(_))));
    assert!(matches!(recv_packet(&[0x02, 203, 0, 0]), Ok(PacketReceiver::Bye(_))));
}

#[test]
fn source_description_items() {
    let p = [0x0a, 202, 0, 3, 0, 0, 0, 9, 1, 3, b'a', b'b', b'c', 0, 0, 0, 0, 0xee];
    let sdes = match recv_packet(&p) {
        Ok(PacketReceiver::SourceDescription(s)) => s,
        _ => panic!("not a source description"),
    };
    let (ssrc, items) = sdes.read_chunk().unwrap().unwrap();
    assert_eq!(ssrc, 9);
    let mut text = String::new();
    let (ty, items) = match items.read_item(&mut text).unwrap() {
        Ok(v) => v,
        Err(_) => panic!("no item"),
    };
    assert_eq!(ty, 1);
    assert_eq!(text, "abc");
    assert_eq!(items.read, 5);
    let chunks = match items.read_item(&mut text).unwrap() {
        Err(c) => c,
        Ok(_) => panic!("no end"),
    };
    assert_eq!(chunks.reader, &[0xee]);
    assert_eq!(chunks.count, 0);
    assert!(matches!(chunks.read_chunk(), Ok(None)));
}

#[test]
fn source_description_invalid_text() {
    let items = protocols::rtcp::PacketSourceDescriptionChunkItems { reader: &[2, 1, 0xff], count: 0, read: 0 };
    let mut text = String::from("kept");
    assert!(matches!(items.read_item(&mut text), Err(ReadError::InvalidData)));
    assert_eq!(text, "kept");
}

#[test]
fn rtp_header_roundtrip() {
    let h = Header { flags: 0x0a, payload_type: 96, sequence_number: 0x1234, timestamp: 0xdeadbeef, ssrc: 42 };
    let mut buf = Vec::new();
    h.write(&[], &mut buf);
    assert_eq!(buf.len(), 72);
    assert_eq!(&buf[..12], &[0x0a, 96, 0x12, 0x34, 0xde, 0xad, 0xbe, 0xef, 0, 0, 0, 42]);
    let (r, ids) = Header::read(&buf).unwrap();
    assert_eq!(r, h);
    assert!(ids.is_empty());
    assert_eq!(Header::read(&buf[..11]), Err(ReadError::UnexpectedEof));
}

#[test]
fn rtp_header_write_csrc() {
    let h = Header::default();
    let mut buf = Vec::new();
    h.write(&[1, 0x01020304], &mut buf);
    assert_eq!(&buf[12..20], &[0, 0, 0, 1, 1, 2, 3, 4]);
    assert!(buf[20..].iter().all(|b| *b == 0));
}
