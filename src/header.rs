//! The fixed 24-byte protocol header, its wire tags, and the errors of reading
//! a response.
use crate::wire::{
    be16, be32, be64, be_bytes_u16, be_bytes_u32, be_bytes_u64, from_be16, from_be32, from_be64,
    lemma_be16_round_trip, lemma_be32_round_trip, lemma_be64_round_trip, read_be_u16, read_be_u32,
    read_be_u64,
};
use vstd::prelude::*;

verus! {

/// Magic byte that starts every request header.
pub const REQUEST_MAGIC: u8 = 0x80;

/// Magic byte that starts every response header.
pub const RESPONSE_MAGIC: u8 = 0x81;

/// Length of the header on the wire.
pub const HEADER_LEN: usize = 24;

/// Operation codes of the protocol.
#[derive(Clone, Copy, Debug, PartialEq, Eq, Structural)]
pub enum Opcode {
    Get,
    SetValue,
    Add,
    Replace,
    Delete,
    Increment,
    Decrement,
    Flush,
    Noop,
    Version,
    GetKQ,
    Append,
    Prepend,
    Touch,
}

impl Opcode {
    /// The byte that stands for this operation on the wire.
    pub open spec fn spec_code(self) -> u8 {
        match self {
            Opcode::Get => 0x00,
            Opcode::SetValue => 0x01,
            Opcode::Add => 0x02,
            Opcode::Replace => 0x03,
            Opcode::Delete => 0x04,
            Opcode::Increment => 0x05,
            Opcode::Decrement => 0x06,
            Opcode::Flush => 0x08,
            Opcode::Noop => 0x0a,
            Opcode::Version => 0x0b,
            Opcode::GetKQ => 0x0d,
            Opcode::Append => 0x0e,
            Opcode::Prepend => 0x0f,
            Opcode::Touch => 0x1c,
        }
    }

    /// The byte that stands for this operation on the wire.
    pub fn code(self) -> (r: u8)
        ensures
            r == self.spec_code(),
    {
        match self {
            Opcode::Get => 0x00,
            Opcode::SetValue => 0x01,
            Opcode::Add => 0x02,
            Opcode::Replace => 0x03,
            Opcode::Delete => 0x04,
            Opcode::Increment => 0x05,
            Opcode::Decrement => 0x06,
            Opcode::Flush => 0x08,
            Opcode::Noop => 0x0a,
            Opcode::Version => 0x0b,
            Opcode::GetKQ => 0x0d,
            Opcode::Append => 0x0e,
            Opcode::Prepend => 0x0f,
            Opcode::Touch => 0x1c,
        }
    }
}

/// Status codes that a response carries.
#[derive(Clone, Copy, Debug, PartialEq, Eq, Structural)]
pub enum ResponseStatus {
    NoError,
    KeyNotFound,
    KeyExists,
    ValueTooLarge,
    InvalidArguments,
}

impl ResponseStatus {
    /// The status field value of this status.
    pub open spec fn spec_code(self) -> u16 {
        match self {
            ResponseStatus::NoError => 0x00,
            ResponseStatus::KeyNotFound => 0x01,
            ResponseStatus::KeyExists => 0x02,
            ResponseStatus::ValueTooLarge => 0x03,
            ResponseStatus::InvalidArguments => 0x04,
        }
    }

    /// The status field value of this status.
    pub fn code(self) -> (r: u16)
        ensures
            r == self.spec_code(),
    {
        match self {
            ResponseStatus::NoError => 0x00,
            ResponseStatus::KeyNotFound => 0x01,
            ResponseStatus::KeyExists => 0x02,
            ResponseStatus::ValueTooLarge => 0x03,
            ResponseStatus::InvalidArguments => 0x04,
        }
    }
}

/// Why a response could not be accepted.
#[derive(Clone, Copy, Debug, PartialEq, Eq, Structural)]
pub enum ResponseError {
    /// The connection delivered no bytes at all.
    Eof,
    /// A datagram too short to hold its framing prefix; carries its length.
    ShortPacket(usize),
    /// The header does not start with the response magic; carries the byte found.
    BadMagic(u8),
    /// Fewer than 24 header bytes were available; carries how many there were.
    Truncated(usize),
    /// A well-formed response whose status is not `NoError`; carries the status.
    Status(u16),
}

/// The 24-byte header of a request or a response.
#[derive(Clone, Copy, Debug, PartialEq, Eq, Structural)]
pub struct PacketHeader {
    pub magic: u8,
    pub opcode: u8,
    pub key_length: u16,
    pub extras_length: u8,
    pub data_type: u8,
    pub vbucket_id_or_status: u16,
    pub total_body_length: u32,
    pub opaque: u32,
    pub cas: u64,
}

/// The header that the first 24 bytes of `b` spell, field by field in wire order.
pub open spec fn decode_header(b: Seq<u8>) -> PacketHeader {
    PacketHeader {
        magic: b[0],
        opcode: b[1],
        key_length: from_be16(b, 2),
        extras_length: b[4],
        data_type: b[5],
        vbucket_id_or_status: from_be16(b, 6),
        total_body_length: from_be32(b, 8),
        opaque: from_be32(b, 12),
        cas: from_be64(b, 16),
    }
}

/// The outcome of reading a header from `b`: the magic byte is checked first,
/// then that all 24 bytes are there.
pub open spec fn parse_header(b: Seq<u8>) -> Result<PacketHeader, ResponseError> {
    if b.len() >= 1 && b[0] != RESPONSE_MAGIC {
        Err(ResponseError::BadMagic(b[0]))
    } else if b.len() < HEADER_LEN {
        Err(ResponseError::Truncated(b.len() as usize))
    } else {
        Ok(decode_header(b))
    }
}

impl PacketHeader {
    /// The 24 bytes of this header, multi-byte fields big-endian.
    pub open spec fn bytes(self) -> Seq<u8> {
        seq![self.magic, self.opcode] + be16(self.key_length) + seq![
            self.extras_length,
            self.data_type,
        ] + be16(self.vbucket_id_or_status) + be32(self.total_body_length) + be32(self.opaque)
            + be64(self.cas)
    }

    /// Appends the 24 bytes of this header to `buf`.
    pub fn write(self, buf: &mut Vec<u8>)
        ensures
            final(buf)@ == old(buf)@ + self.bytes(),
    {
        buf.push(self.magic);
        buf.push(self.opcode);
        let mut b = be_bytes_u16(self.key_length);
        buf.append(&mut b);
        buf.push(self.extras_length);
        buf.push(self.data_type);
        let mut b = be_bytes_u16(self.vbucket_id_or_status);
        buf.append(&mut b);
        let mut b = be_bytes_u32(self.total_body_length);
        buf.append(&mut b);
        let mut b = be_bytes_u32(self.opaque);
        buf.append(&mut b);
        let mut b = be_bytes_u64(self.cas);
        buf.append(&mut b);
        assert(buf@ =~= old(buf)@ + self.bytes());
    }

    /// Reads a response header from `bytes`, starting at `start`.
    pub fn read(bytes: &[u8], start: usize) -> (r: Result<PacketHeader, ResponseError>)
        requires
            start <= bytes@.len(),
        ensures
            r == parse_header(bytes@.subrange(start as int, bytes@.len() as int)),
    {
        let ghost b = bytes@.subrange(start as int, bytes@.len() as int);
        let avail = bytes.len() - start;
        if avail >= 1 && bytes[start] != RESPONSE_MAGIC {
            return Err(ResponseError::BadMagic(bytes[start]));
        }
        if avail < HEADER_LEN {
            return Err(ResponseError::Truncated(avail));
        }
        let h = PacketHeader {
            magic: bytes[start],
            opcode: bytes[start + 1],
            key_length: read_be_u16(bytes, start + 2),
            extras_length: bytes[start + 4],
            data_type: bytes[start + 5],
            vbucket_id_or_status: read_be_u16(bytes, start + 6),
            total_body_length: read_be_u32(bytes, start + 8),
            opaque: read_be_u32(bytes, start + 12),
            cas: read_be_u64(bytes, start + 16),
        };
        assert(h == decode_header(b));
        Ok(h)
    }
}

/// A header written with the request magic, with that byte then replaced by the
/// response magic, reads back as the same header with the response magic.
pub proof fn lemma_header_round_trip(h: PacketHeader)
    requires
        h.magic == REQUEST_MAGIC,
    ensures
        parse_header(h.bytes().update(0, RESPONSE_MAGIC)) == Ok::<PacketHeader, ResponseError>(
            PacketHeader { magic: RESPONSE_MAGIC, ..h },
        ),
{
    let b = h.bytes().update(0, RESPONSE_MAGIC);
    assert(b.len() == 24);
    assert(b.subrange(2, 4) =~= be16(h.key_length));
    assert(b.subrange(6, 8) =~= be16(h.vbucket_id_or_status));
    assert(b.subrange(8, 12) =~= be32(h.total_body_length));
    assert(b.subrange(12, 16) =~= be32(h.opaque));
    assert(b.subrange(16, 24) =~= be64(h.cas));
    lemma_be16_round_trip(h.key_length, b, 2);
    lemma_be16_round_trip(h.vbucket_id_or_status, b, 6);
    lemma_be32_round_trip(h.total_body_length, b, 8);
    lemma_be32_round_trip(h.opaque, b, 12);
    lemma_be64_round_trip(h.cas, b, 16);
    assert(decode_header(b) == PacketHeader { magic: RESPONSE_MAGIC, ..h });
}

} // verus!
