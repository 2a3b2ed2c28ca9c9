use protocols::ldap::ber::{
    read_ber, read_ber_bool, read_ber_data, read_ber_int, read_ber_null, read_ber_str, BerError,
    BerSeqIter, BerWrite, BerWriter, BER_BOOLEAN, BER_INTEGER, BER_NULL, BER_OCTET_STRING,
    BER_SEQUENCE,
};
use protocols::ldap::wire::{
    read_msg, write_msg, AuthenticationChoice, BindRequest, BindResponse, LdapResult, Message,
    ProtocolOp, ResultCode, SaslCredentials,
};
use protocols::ldap::LDAP3;

fn send_and_receive(msg: &Message) -> Result<Message, BerError> {
    let mut buf = Vec::new();
    write_msg(msg, &mut buf);
    let mut pos = 0;
    let (tag, len) = read_ber(&buf, &mut pos, buf.len()).unwrap();
    assert_eq!(tag, BER_SEQUENCE);
    assert_eq!(pos + len, buf.len());
    read_msg(&buf[pos..pos + len])
}

#[test]
fn bind_simple() {
    let request = Message {
        message_id: 1,
        protocol_op: ProtocolOp::BindRequest(BindRequest {
            version: LDAP3,
            name: "cn=ldapadmin,dc=localhost,dc=localdomain".to_string(),
            authentication: AuthenticationChoice::Simple("test".to_string()),
        }),
        controls: None,
    };
    assert_eq!(send_and_receive(&request).unwrap(), request);

    let response = Message {
        message_id: 0,
        protocol_op: ProtocolOp::BindResponse(BindResponse {
            result: LdapResult {
                result_code: ResultCode::Success,
                matched_dn: "".to_string(),
                diagnostic_message: "".to_string(),
                referral: None,
            },
            server_sasl_creds: None,
        }),
        controls: None,
    };
    assert_eq!(send_and_receive(&response).unwrap(), response);
}

#[test]
fn bind_sasl_and_referral_roundtrip() {
    let request = Message {
        message_id: 0xfffffff0,
        protocol_op: ProtocolOp::BindRequest(BindRequest {
            version: 3,
            name: "cn=x".to_string(),
            authentication: AuthenticationChoice::Sasl(SaslCredentials {
                mechanism: "SCRAM-SHA-256".to_string(),
                credentials: Some("n,,n=user,r=abc".to_string()),
            }),
        }),
        controls: None,
    };
    assert_eq!(send_and_receive(&request).unwrap(), request);
    let request = Message {
        message_id: 7,
        protocol_op: ProtocolOp::BindRequest(BindRequest {
            version: 3,
            name: "".to_string(),
            authentication: AuthenticationChoice::Sasl(SaslCredentials {
                mechanism: "EXTERNAL".to_string(),
                credentials: None,
            }),
        }),
        controls: None,
    };
    assert_eq!(send_and_receive(&request).unwrap(), request);
    let response = Message {
        message_id: 9,
        protocol_op: ProtocolOp::BindResponse(BindResponse {
            result: LdapResult {
                result_code: ResultCode::Referral,
                matched_dn: "dc=example".to_string(),
                diagnostic_message: "x".repeat(300),
                referral: Some(vec!["ldap://a/".to_string(), "ldap://b/".to_string()]),
            },
            server_sasl_creds: None,
        }),
        controls: None,
    };
    assert_eq!(send_and_receive(&response).unwrap(), response);
}

#[test]
fn unbind_roundtrip() {
    let msg = Message { message_id: 5, protocol_op: ProtocolOp::UnbindRequest, controls: None };
    let mut buf = Vec::new();
    write_msg(&msg, &mut buf);
    assert_eq!(buf, vec![0x30, 0x82, 0, 8, 0x02, 4, 0, 0, 0, 5, 0x42, 0]);
    assert_eq!(send_and_receive(&msg).unwrap(), msg);
}

#[test]
fn server_credentials_are_not_read_back() {
    let response = Message {
        message_id: 1,
        protocol_op: ProtocolOp::BindResponse(BindResponse {
            result: LdapResult::default(),
            server_sasl_creds: Some("abc".to_string()),
        }),
        controls: None,
    };
    assert_eq!(send_and_receive(&response), Err(BerError::InvalidData));
}

#[test]
fn read_msg_errors() {
    assert_eq!(read_msg(&[]), Err(BerError::UnexpectedEof));
    assert_eq!(read_msg(&[0x02, 1, 1, 0x99, 0]), Err(BerError::InvalidData));
    assert_eq!(read_msg(&[0x02, 9, 0, 0, 0, 0, 0, 0, 0, 0, 0]), Err(BerError::InvalidData));
    assert_eq!(read_msg(&[0x04, 1, 1, 0x42, 0]), Err(BerError::InvalidData));
}

#[test]
fn ber_headers() {
    let mut buf = Vec::new();
    buf.write_ber(BER_OCTET_STRING, 0);
    buf.write_ber(BER_OCTET_STRING, 127);
    buf.write_ber(BER_OCTET_STRING, 128);
    assert_eq!(buf, vec![4, 0, 4, 127, 4, 0x88, 0, 0, 0, 0, 0, 0, 0, 128]);
    let mut pos = 0;
    assert_eq!(read_ber(&buf, &mut pos, buf.len()), Ok((4, 0)));
    assert_eq!(read_ber(&buf, &mut pos, buf.len()), Ok((4, 127)));
    assert_eq!(read_ber(&buf, &mut pos, buf.len()), Ok((4, 128)));
    assert_eq!(pos, buf.len());
    let mut pos = 0;
    assert_eq!(read_ber(&[4, 0x89], &mut pos, 2), Err(BerError::InvalidData));
    assert_eq!(read_ber(&[4, 0x82, 1], &mut pos, 3), Err(BerError::UnexpectedEof));
    assert_eq!(read_ber(&[4], &mut pos, 1), Err(BerError::UnexpectedEof));
    assert_eq!(pos, 0);
}

#[test]
fn ber_values() {
    let mut buf = Vec::new();
    buf.write_ber_int(BER_INTEGER, -2);
    buf.write_ber_bool(BER_BOOLEAN, true);
    buf.write_ber_null(BER_NULL);
    buf.write_ber_str(BER_OCTET_STRING, "hé");
    buf.write_ber_data(0x80, &[]);
    assert_eq!(
        buf,
        vec![2, 4, 0xff, 0xff, 0xff, 0xfe, 1, 1, 0xff, 5, 0, 4, 3, b'h', 0xc3, 0xa9, 0x80, 0]
    );
    let end = buf.len();
    let mut pos = 0;
    assert_eq!(read_ber_int(&buf, &mut pos, end, BER_INTEGER), Ok(0xfffffffe));
    assert_eq!(read_ber_bool(&buf, &mut pos, end, BER_BOOLEAN), Ok(true));
    assert_eq!(read_ber_null(&buf, &mut pos, end, BER_NULL), Ok(()));
    assert_eq!(read_ber_str(&buf, &mut pos, end, BER_OCTET_STRING), Ok("hé".to_string()));
    assert_eq!(read_ber_data(&buf, &mut pos, end, 0x81), Err(BerError::InvalidData));
    assert_eq!(read_ber_data(&buf, &mut pos, end, 0x80), Ok(vec![]));
    assert_eq!(pos, end);
    let bad = [4, 2, 0xff, 0xfe];
    let mut pos = 0;
    assert_eq!(read_ber_str(&bad, &mut pos, 4, BER_OCTET_STRING), Err(BerError::InvalidData));
    assert_eq!(read_ber_str(&bad, &mut pos, 3, BER_OCTET_STRING), Err(BerError::UnexpectedEof));
    assert_eq!(read_ber_bool(&[1, 2, 0, 0], &mut pos, 4, BER_BOOLEAN), Err(BerError::InvalidData));
}

#[test]
fn ber_writer_frames_its_contents() {
    let mut buf = vec![9];
    let w = BerWriter::new(&mut buf, BER_SEQUENCE);
    assert_eq!(w.off, 5);
    buf.write_ber_bool(BER_BOOLEAN, false);
    w.finish(&mut buf);
    assert_eq!(buf, vec![9, 0x30, 0x82, 0, 3, 1, 1, 0]);
}

#[test]
fn ber_seq_iter_ends_at_eof() {
    assert_eq!(BerSeqIter::next::<u8>(Err(BerError::UnexpectedEof)), Ok(None));
    assert_eq!(BerSeqIter::next::<u8>(Err(BerError::InvalidData)), Err(BerError::InvalidData));
    assert_eq!(BerSeqIter::next(Ok(3u8)), Ok(Some(3)));
}

#[test]
fn result_codes() {
    assert_eq!(ResultCode::from_int(49), Some(ResultCode::InvalidCredentials));
    assert_eq!(ResultCode::from_int(9), None);
    assert_eq!(ResultCode::from_int(80), Some(ResultCode::Other));
    assert_eq!(ResultCode::AffectsMultipleDSAs.value(), 71);
    assert_eq!(ResultCode::default(), ResultCode::Success);
}

#[test]
fn ldap_result_components_read_back() {
    for referral in [None, Some(vec![]), Some(vec!["ldap://a.example/".to_string(), "x".repeat(200)])] {
        let r = LdapResult {
            result_code: ResultCode::Referral,
            matched_dn: "dc=example".to_string(),
            diagnostic_message: "d".repeat(300),
            referral,
        };
        let mut buf = Vec::new();
        r.write_components(&mut buf);
        assert_eq!(LdapResult::read_components(&buf, 0, buf.len()), Ok(r));
    }
}
