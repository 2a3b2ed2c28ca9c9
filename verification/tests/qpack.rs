use protocols::http::qpack::{decode_integer, decode_string, encode_integer, encode_string, Error};

#[test]
fn integer1() {
    let mut buf = [0u8; 1024];
    let mut i = 0;
    assert_eq!(Ok(()), encode_integer(3, &mut buf, &mut i, 12, 0));
    assert_eq!(1, i);
    let mut i = 0;
    assert_eq!(Ok(12), decode_integer(3, &buf, &mut i));
    assert_eq!(1, i);
}

#[test]
fn integer2() {
    let mut buf = [0u8; 1024];
    let mut i = 0;
    assert_eq!(Ok(()), encode_integer(5, &mut buf, &mut i, 123, 0));
    assert_eq!(2, i);
    let mut i = 0;
    assert_eq!(Ok(123), decode_integer(5, &buf, &mut i));
    assert_eq!(2, i);
}

#[test]
fn integer3() {
    let mut buf = [0u8; 1024];
    let mut i = 0;
    assert_eq!(Ok(()), encode_integer(5, &mut buf, &mut i, 12345, 0));
    assert_eq!(3, i);
    let mut i = 0;
    assert_eq!(Ok(12345), decode_integer(5, &buf, &mut i));
    assert_eq!(3, i);
}

#[test]
fn string1() {
    let str = "www.example.com";
    let mut octets = [0u8; 128];
    let mut buf = String::new();
    let mut i = 0;
    assert_eq!(Ok(()), encode_string(&mut octets, &mut i, str, true));
    assert_eq!(13, i);
    i = 0;
    assert_eq!(Ok(()), decode_string(&octets, &mut i, &mut buf));
    assert_eq!(13, i);
    assert_eq!(str, buf.as_str());
}

#[test]
fn string2() {
    let str = "no-cache";
    let mut octets = [0u8; 128];
    let mut buf = String::new();
    let mut i = 0;
    assert_eq!(Ok(()), encode_string(&mut octets, &mut i, str, true));
    assert_eq!(7, i);
    i = 0;
    assert_eq!(Ok(()), decode_string(&octets, &mut i, &mut buf));
    assert_eq!(7, i);
    assert_eq!(str, buf.as_str());
}

#[test]
fn string3() {
    let str = "ihfgrsiw38747394ndksjhfdiufz-.,-..++SDI98405T3ER";
    let mut octets = [0u8; 128];
    let mut buf = String::new();
    let mut i = 0;
    assert_eq!(Ok(()), encode_string(&mut octets, &mut i, str, true));
    i = 0;
    assert_eq!(Ok(()), decode_string(&octets, &mut i, &mut buf));
    assert_eq!(str, buf.as_str());
}

#[test]
fn rfc7541_example_octets() {
    // RFC 7541, appendix C.4.1: "www.example.com" Huffman encoded.
    let mut octets = [0u8; 32];
    let mut i = 0;
    assert_eq!(Ok(()), encode_string(&mut octets, &mut i, "www.example.com", true));
    assert_eq!(
        &octets[..13],
        &[0x8c, 0xf1, 0xe3, 0xc2, 0xe5, 0xf2, 0x3a, 0x6b, 0xa0, 0xab, 0x90, 0xf4, 0xff]
    );
}

#[test]
fn rfc7541_integer_examples() {
    // RFC 7541, appendix C.1.2: 1337 with a 5-bit prefix.
    let mut buf = [0u8; 8];
    let mut i = 0;
    assert_eq!(Ok(()), encode_integer(3, &mut buf, &mut i, 1337, 0));
    assert_eq!(&buf[..3], &[0x1f, 0x9a, 0x0a]);
    // C.1.3: 42 starting at an octet boundary.
    let mut i = 0;
    assert_eq!(Ok(()), encode_integer(0 + 1, &mut buf, &mut i, 42, 0));
    assert_eq!(buf[0], 42);
}

#[test]
fn integer_too_long_for_buffer() {
    let mut buf = [0u8; 2];
    let mut i = 0;
    assert_eq!(Err(Error::BufferOverflow), encode_integer(5, &mut buf, &mut i, 12345, 0));
    let mut i = 0;
    assert_eq!(Err(Error::BufferUnderflow), decode_integer(5, &[0x1f, 0x80], &mut i));
}

#[test]
fn integer_overflow_after_six_continuations() {
    let mut i = 0;
    assert_eq!(
        Err(Error::IntegerOverflow),
        decode_integer(5, &[0x1f, 0x80, 0x80, 0x80, 0x80, 0x80, 0x80, 0x00], &mut i)
    );
}

#[test]
fn plain_string_roundtrip() {
    let mut octets = [0u8; 32];
    let mut i = 0;
    assert_eq!(Ok(()), encode_string(&mut octets, &mut i, "custom-key", false));
    assert_eq!(11, i);
    assert_eq!(octets[0], 10);
    let mut out = String::from("x");
    let mut j = 0;
    assert_eq!(Ok(()), decode_string(&octets, &mut j, &mut out));
    assert_eq!(out, "xcustom-key");
    assert_eq!(j, 11);
}

#[test]
fn huffman_padding_errors() {
    // length 2, two bytes of ones: more than 7 padding bits
    let mut out = String::new();
    let mut i = 0;
    assert_eq!(Err(Error::PaddingTooLong), decode_string(&[0x82, 0xff, 0xff], &mut i, &mut out));
    assert_eq!(i, 0);
    // '0' is 00000 and the three remaining bits 000 are not ones
    let mut i = 0;
    assert_eq!(Err(Error::PaddingNotEOS), decode_string(&[0x81, 0x00], &mut i, &mut out));
    // the full EOS code
    let mut i = 0;
    assert_eq!(
        Err(Error::UnexpectedEOS),
        decode_string(&[0x84, 0xff, 0xff, 0xff, 0xff], &mut i, &mut out)
    );
    assert_eq!(out, "");
}

#[test]
fn encode_string_does_not_fit() {
    let mut octets = [0u8; 4];
    let mut i = 0;
    assert_eq!(Err(Error::BufferOverflow), encode_string(&mut octets, &mut i, "abcdefgh", false));
}

#[test]
fn string_length_too_long_for_buffer() {
    let mut octets = [0u8; 0];
    let mut i = 0;
    assert_eq!(Err(Error::BufferOverflow), encode_string(&mut octets, &mut i, "a", false));
}

#[test]
fn integer_with_whole_octet_prefix() {
    let mut i = 0;
    assert_eq!(Ok(254), decode_integer(0, &[0xfe], &mut i));
    assert_eq!(i, 1);
    let mut i = 0;
    assert_eq!(Ok(256), decode_integer(0, &[0xff, 0x01], &mut i));
    assert_eq!(i, 2);
}
