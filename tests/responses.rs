use memcached_synth::{MemcachedProtocol, Opcode, PacketHeader, ResponseError, ResponseStatus};

fn response(status: u16, opaque: u32, body: u32) -> Vec<u8> {
    let mut b = vec![0x81, 0x00, 0x00, 0x00, 0x00, 0x00];
    b.extend_from_slice(&status.to_be_bytes());
    b.extend_from_slice(&body.to_be_bytes());
    b.extend_from_slice(&opaque.to_be_bytes());
    b.extend_from_slice(&0u64.to_be_bytes());
    b
}

#[test]
fn stream_response_no_error() {
    let bytes = response(0, 7, 0);
    let h = PacketHeader::read(&bytes, 0).unwrap();
    assert_eq!(h.total_body_length, 0);
    assert_eq!(MemcachedProtocol::check_status(&h), Ok(7));
}

#[test]
fn stream_response_key_not_found() {
    let bytes = response(1, 7, 0);
    let h = PacketHeader::read(&bytes, 0).unwrap();
    assert_eq!(MemcachedProtocol::check_status(&h), Err(ResponseError::Status(1)));
}

#[test]
fn request_magic_is_refused() {
    let mut bytes = response(0, 7, 0);
    bytes[0] = 0x80;
    assert_eq!(PacketHeader::read(&bytes, 0), Err(ResponseError::BadMagic(0x80)));
    assert_eq!(PacketHeader::read(&bytes[..1], 0), Err(ResponseError::BadMagic(0x80)));
}

#[test]
fn short_header_is_truncated() {
    let bytes = response(0, 7, 0);
    assert_eq!(PacketHeader::read(&bytes[..10], 0), Err(ResponseError::Truncated(10)));
    assert_eq!(PacketHeader::read(&bytes, 24), Err(ResponseError::Truncated(0)));
}

#[test]
fn datagram_responses() {
    let mut d = vec![0, 0, 0, 0, 0, 1, 0, 0];
    d.extend(response(0, 0x01020304, 5));
    assert_eq!(MemcachedProtocol::parse_datagram(&d), Ok(0x01020304));

    let mut d = vec![0u8; 8];
    d.extend(response(ResponseStatus::KeyExists.code(), 3, 0));
    assert_eq!(MemcachedProtocol::parse_datagram(&d), Err(ResponseError::Status(2)));

    assert_eq!(MemcachedProtocol::parse_datagram(&[]), Err(ResponseError::Eof));
    assert_eq!(MemcachedProtocol::parse_datagram(&[0; 5]), Err(ResponseError::ShortPacket(5)));
    assert_eq!(
        MemcachedProtocol::parse_datagram(&[0, 0, 0, 0, 0, 1, 0, 0, 0x80]),
        Err(ResponseError::BadMagic(0x80))
    );
    assert_eq!(
        MemcachedProtocol::parse_datagram(&[0, 0, 0, 0, 0, 1, 0, 0, 0x81, 0]),
        Err(ResponseError::Truncated(2))
    );
}

#[test]
fn header_round_trip() {
    let h = PacketHeader {
        magic: 0x80,
        opcode: Opcode::Touch.code(),
        key_length: 0x1234,
        extras_length: 8,
        data_type: 0,
        vbucket_id_or_status: 0xabcd,
        total_body_length: 0x01020304,
        opaque: 0xdeadbeef,
        cas: 0x0102030405060708,
    };
    let mut buf = Vec::new();
    h.write(&mut buf);
    assert_eq!(buf.len(), 24);
    assert_eq!(&buf[2..4], &[0x12, 0x34]);
    assert_eq!(&buf[16..24], &[1, 2, 3, 4, 5, 6, 7, 8]);
    buf[0] = 0x81;
    let back = PacketHeader::read(&buf, 0).unwrap();
    assert_eq!(back, PacketHeader { magic: 0x81, ..h });
}

#[test]
fn wire_codes() {
    assert_eq!(Opcode::Get.code(), 0x00);
    assert_eq!(Opcode::SetValue.code(), 0x01);
    assert_eq!(Opcode::Noop.code(), 0x0a);
    assert_eq!(Opcode::Touch.code(), 0x1c);
    assert_eq!(ResponseStatus::NoError.code(), 0);
    assert_eq!(ResponseStatus::InvalidArguments.code(), 4);
}
