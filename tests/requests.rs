use memcached_synth::protocol::MAX_VALUE_SIZE;
use memcached_synth::workload::{etc_key_size, etc_table_size, select_key, NVALUES};
use memcached_synth::{
    write_key, KeySizeMemory, MemcachedProtocol, Op, Packet, PacketHeader, ResponseError,
    Transport, Workload,
};

fn header_of(buf: &[u8], start: usize) -> PacketHeader {
    let mut bytes = buf[start..start + 24].to_vec();
    bytes[0] = 0x81;
    PacketHeader::read(&bytes, 0).unwrap()
}

#[test]
fn key_encoding_of_five() {
    let mut buf = Vec::new();
    write_key(&mut buf, 5, 20);
    assert_eq!(buf.len(), 20);
    assert_eq!(buf[0], b'5');
    assert!(buf[1..].iter().all(|&b| b == b'A'));
}

#[test]
fn key_encoding_least_significant_digit_first() {
    let mut buf = Vec::new();
    write_key(&mut buf, 1234, 6);
    assert_eq!(buf, b"4321AA".to_vec());
}

#[test]
fn key_encoding_is_deterministic_and_sized() {
    for &(k, size) in &[(0u64, 20usize), (99999, 20), (7, 256), (u64::MAX, 20)] {
        let mut a = Vec::new();
        let mut b = Vec::new();
        write_key(&mut a, k, size);
        write_key(&mut b, k, size);
        assert_eq!(a, b);
        assert_eq!(a.len(), size);
    }
}

#[test]
fn key_encoding_wider_than_size_keeps_all_digits() {
    let mut buf = Vec::new();
    write_key(&mut buf, 123, 2);
    assert_eq!(buf, b"321".to_vec());
}

#[test]
fn usr_set_request_stream_layout() {
    let mut buf = Vec::new();
    MemcachedProtocol::usr_set_request(5, 1, &mut buf, Transport::Tcp);
    assert_eq!(buf.len(), 54);
    assert_eq!(buf[0], 0x80);
    assert_eq!(buf[1], 0x01);
    assert_eq!(&buf[2..4], &[0x00, 0x14]);
    assert_eq!(buf[4], 8);
    assert_eq!(&buf[8..12], &[0, 0, 0, 30]);
    assert_eq!(&buf[12..16], &[0, 0, 0, 1]);
    assert_eq!(&buf[24..32], &[0u8; 8]);
    assert_eq!(buf[32], b'5');
    assert_eq!(&buf[52..54], &[0, 2]);
}

#[test]
fn usr_set_request_datagram_prefix() {
    let mut buf = vec![9u8];
    MemcachedProtocol::set_request(5, 1, &mut buf, Transport::Udp);
    assert_eq!(buf.len(), 1 + 8 + 54);
    assert_eq!(&buf[1..9], &[0, 0, 0, 0, 0, 1, 0, 0]);
    assert_eq!(buf[9], 0x80);
}

#[test]
fn set_body_length_matches_parts() {
    let mut buf = Vec::new();
    MemcachedProtocol::usr_set_request(42, 3, &mut buf, Transport::Tcp);
    let h = header_of(&buf, 0);
    assert_eq!(
        h.total_body_length,
        h.extras_length as u32 + h.key_length as u32 + 2
    );

    let mut mem = KeySizeMemory::new();
    let mut buf = Vec::new();
    MemcachedProtocol::etc_set_request(42, 3, &mut buf, Transport::Tcp, &mut mem, 300, 100);
    let h = header_of(&buf, 0);
    assert_eq!(h.key_length, 256);
    assert_eq!(h.total_body_length, 8 + 256 + 100);
    assert_eq!(buf.len(), 24 + 8 + 256 + 100);
}

#[test]
fn gen_usr_request_read() {
    let p = Packet { randomness: (5u64 << 32) | 10 };
    let mut buf = Vec::new();
    MemcachedProtocol::gen_request(7, &p, &mut buf, Transport::Tcp);
    assert_eq!(buf.len(), 44);
    let h = header_of(&buf, 0);
    assert_eq!(h.opcode, 0x00);
    assert_eq!(h.key_length, 20);
    assert_eq!(h.extras_length, 0);
    assert_eq!(h.total_body_length, 20);
    assert_eq!(h.opaque, 7);
    assert_eq!(buf[24], b'5');
}

#[test]
fn gen_usr_request_write() {
    let p = Packet { randomness: (100005u64 << 32) | 1001 };
    let mut buf = Vec::new();
    MemcachedProtocol::gen_usr_request(9, &p, &mut buf, Transport::Udp);
    assert_eq!(buf.len(), 8 + 54);
    let h = header_of(&buf, 8);
    assert_eq!(h.opcode, 0x01);
    assert_eq!(h.opaque, 9);
    assert_eq!(buf[8 + 32], b'5');
}

#[test]
fn uniform_write_fraction() {
    let mut writes: u64 = 0;
    for r in 0u64..1_000_000 {
        if Workload::Usr.classify(r & 0xffffffff) == Op::Write {
            writes += 1;
        }
    }
    assert_eq!(writes, 2000);
}

#[test]
fn empirical_write_fraction() {
    let writes = (0u64..10_000)
        .filter(|&r| Workload::Etc.classify(r) == Op::Write)
        .count();
    assert_eq!(writes, 300);
}

#[test]
fn key_selection_wraps() {
    assert_eq!(select_key(5), 5);
    assert_eq!(select_key(100_005), 5);
    assert_eq!(select_key(u32::MAX as u64), (u32::MAX as u64) % NVALUES as u64);
}

#[test]
fn key_size_clamp() {
    assert_eq!(etc_key_size(0), 20);
    assert_eq!(etc_key_size(19), 20);
    assert_eq!(etc_key_size(20), 20);
    assert_eq!(etc_key_size(100), 100);
    assert_eq!(etc_key_size(256), 256);
    assert_eq!(etc_key_size(257), 256);
    assert_eq!(etc_key_size(usize::MAX), 256);
}

#[test]
fn value_table_coverage() {
    let mut counts = [0u32; 15];
    let mut tail = 0u32;
    for point in 0u32..100_000 {
        match etc_table_size(point) {
            Some(s) => counts[s] += 1,
            None => tail += 1,
        }
    }
    assert_eq!(counts[0], 536);
    assert_eq!(counts[2], 17820);
    assert_eq!(counts[14], 1980);
    assert_eq!(counts.iter().sum::<u32>(), 44155);
    assert_eq!(tail, 100_000 - 44155);
}

#[test]
fn value_table_boundaries() {
    assert_eq!(etc_table_size(0), Some(0));
    assert_eq!(etc_table_size(535), Some(0));
    assert_eq!(etc_table_size(536), Some(1));
    assert_eq!(etc_table_size(44154), Some(14));
    assert_eq!(etc_table_size(44155), None);
    assert_eq!(MemcachedProtocol::etc_value_size(600, 999), 2);
    assert_eq!(MemcachedProtocol::etc_value_size(50_000, 999), 999);
}

#[test]
fn memory_starts_at_zero() {
    let mem = KeySizeMemory::new();
    assert_eq!(mem.lookup_size(12345), 0);
    let p = Packet { randomness: (77u64 << 32) | 500 };
    let mut buf = Vec::new();
    let mut mem = mem;
    MemcachedProtocol::gen_etc_request(1, &p, &mut buf, Transport::Tcp, &mut mem, 50, 10);
    let h = header_of(&buf, 0);
    assert_eq!(h.opcode, 0x00);
    assert_eq!(h.key_length, 0);
    assert_eq!(buf.len(), 24 + 2);
    assert_eq!(&buf[24..], b"77");
}

#[test]
fn read_after_write_uses_recorded_size() {
    let mut mem = KeySizeMemory::new();
    let write = Packet { randomness: (77u64 << 32) | 5 };
    let read = Packet { randomness: ((100_077u64) << 32) | 999 };
    let mut buf = Vec::new();
    MemcachedProtocol::gen_etc_request(1, &write, &mut buf, Transport::Tcp, &mut mem, 42, 10);
    let h = header_of(&buf, 0);
    assert_eq!(h.opcode, 0x01);
    assert_eq!(h.key_length, 42);
    assert_eq!(mem.lookup_size(77), 42);
    let mut buf = Vec::new();
    MemcachedProtocol::gen_etc_request(2, &read, &mut buf, Transport::Udp, &mut mem, 200, 10);
    let h = header_of(&buf, 8);
    assert_eq!(h.opcode, 0x00);
    assert_eq!(h.key_length, 42);
    assert_eq!(h.total_body_length, 42);
    assert_eq!(buf.len(), 8 + 24 + 42);
}

#[test]
fn record_size_overwrites() {
    let mut mem = KeySizeMemory::new();
    mem.record_size(3, 30);
    mem.record_size(100_003, 40);
    assert_eq!(mem.lookup_size(3), 40);
}

#[test]
fn largest_value_size_is_accepted_by_contract() {
    assert_eq!(MAX_VALUE_SIZE as u64 + 8 + 256, u32::MAX as u64);
}

#[test]
fn error_variants_compare() {
    assert_ne!(ResponseError::Status(1), ResponseError::Status(2));
}
