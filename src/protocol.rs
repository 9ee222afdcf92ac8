//! Building requests and reading responses.
use crate::header::{
    parse_header, Opcode, PacketHeader, ResponseError, ResponseStatus, REQUEST_MAGIC,
};
use crate::key::{key_bytes, write_key};
use crate::workload::{
    clamp_key_size, etc_cum, etc_key_size, etc_table_pick, etc_table_size, key_of, select_key,
    slot_of, KeySizeMemory, Op, Workload, ETC_TABLE_LEN, KEY_SIZE, VALUE_SIZE,
};
use vstd::prelude::*;

verus! {

/// The largest value size that a write accepts: the body length field must
/// hold the extras, the longest key and the value.
pub const MAX_VALUE_SIZE: usize = 4294967031;

/// Length of the framing prefix of a datagram.
pub const UDP_HEADER_LEN: usize = 8;

/// How requests and responses travel.
#[derive(Clone, Copy, Debug, PartialEq, Eq, Structural)]
pub enum Transport {
    /// A byte stream: no framing.
    Tcp,
    /// Datagrams: each starts with an 8-byte framing prefix.
    Udp,
}

/// A request to generate: its randomness decides what it does.
#[derive(Clone, Copy, Debug, PartialEq, Eq, Structural)]
pub struct Packet {
    pub randomness: u64,
}

/// The request generator and response reader.
#[derive(Clone, Copy, Debug)]
pub struct MemcachedProtocol;

/// The framing prefix of a datagram: zero but for a one in the count field.
pub open spec fn udp_header() -> Seq<u8> {
    seq![0u8, 0u8, 0u8, 0u8, 0u8, 1u8, 0u8, 0u8]
}

/// What the transport puts before the header.
pub open spec fn framing(t: Transport) -> Seq<u8> {
    match t {
        Transport::Tcp => Seq::<u8>::empty(),
        Transport::Udp => udp_header(),
    }
}

/// The synthetic value of `n` bytes written for `key`.
pub open spec fn payload(key: u64, n: nat) -> Seq<u8> {
    Seq::new(n, |i: int| ((key.wrapping_mul(i as u64) >> ((i % 4) as u64)) & 0xff) as u8)
}

/// The header of a write of a `key_size`-byte key and a `value_size`-byte value.
pub open spec fn set_header(opaque: u32, key_size: u16, value_size: nat) -> PacketHeader {
    PacketHeader {
        magic: REQUEST_MAGIC,
        opcode: Opcode::SetValue.spec_code(),
        key_length: key_size,
        extras_length: 8,
        data_type: 0,
        vbucket_id_or_status: 0,
        total_body_length: (8 + key_size + value_size) as u32,
        opaque,
        cas: 0,
    }
}

/// The header of a read of a `key_size`-byte key.
pub open spec fn get_header(opaque: u32, key_size: u16) -> PacketHeader {
    PacketHeader {
        magic: REQUEST_MAGIC,
        opcode: Opcode::Get.spec_code(),
        key_length: key_size,
        extras_length: 0,
        data_type: 0,
        vbucket_id_or_status: 0,
        total_body_length: key_size as u32,
        opaque,
        cas: 0,
    }
}

/// The bytes of a write request: framing, header, eight zero extras, key, value.
pub open spec fn set_request_bytes(
    t: Transport,
    key: u64,
    opaque: u32,
    key_size: u16,
    value_size: nat,
) -> Seq<u8> {
    framing(t) + set_header(opaque, key_size, value_size).bytes() + Seq::new(8, |i: int| 0u8)
        + key_bytes(key as nat, key_size as nat) + payload(key, value_size)
}

/// The bytes of a read request: framing, header, key.
pub open spec fn get_request_bytes(t: Transport, key: u64, opaque: u32, key_size: u16) -> Seq<
    u8,
> {
    framing(t) + get_header(opaque, key_size).bytes() + key_bytes(key as nat, key_size as nat)
}

/// The key identifier that a request's randomness names.
pub open spec fn request_key(randomness: u64) -> u64 {
    key_of(randomness >> 32)
}

/// What a request's randomness makes it do under `model`.
pub open spec fn request_op(model: Workload, randomness: u64) -> Op {
    model.op_of(randomness & 0xffffffff)
}

/// The bytes of request `i` under the uniform model.
pub open spec fn usr_request_bytes(i: usize, randomness: u64, t: Transport) -> Seq<u8> {
    let key = request_key(randomness);
    match request_op(Workload::Usr, randomness) {
        Op::Write => set_request_bytes(t, key, i as u32, KEY_SIZE as u16, VALUE_SIZE as nat),
        Op::Read => get_request_bytes(t, key, i as u32, KEY_SIZE as u16),
    }
}

/// The bytes of request `i` under the empirical model, with the key sizes in
/// `mem`, `key_draw` the drawn key size and `value_size` the drawn value size.
pub open spec fn etc_request_bytes(
    i: usize,
    randomness: u64,
    t: Transport,
    mem: Seq<u16>,
    key_draw: usize,
    value_size: usize,
) -> Seq<u8> {
    let key = request_key(randomness);
    match request_op(Workload::Etc, randomness) {
        Op::Write => set_request_bytes(
            t,
            key,
            i as u32,
            clamp_key_size(key_draw),
            value_size as nat,
        ),
        Op::Read => get_request_bytes(t, key, i as u32, mem[slot_of(key)]),
    }
}

/// The key sizes after request `i` under the empirical model: a write records
/// its clamped key size, a read changes nothing.
pub open spec fn etc_memory_after(randomness: u64, mem: Seq<u16>, key_draw: usize) -> Seq<u16> {
    match request_op(Workload::Etc, randomness) {
        Op::Write => mem.update(slot_of(request_key(randomness)), clamp_key_size(key_draw)),
        Op::Read => mem,
    }
}

/// What a response with header `h` yields: its opaque value, unless its status
/// is not `NoError`.
pub open spec fn response_result(h: PacketHeader) -> Result<usize, ResponseError> {
    if h.vbucket_id_or_status != ResponseStatus::NoError.spec_code() {
        Err(ResponseError::Status(h.vbucket_id_or_status))
    } else {
        Ok(h.opaque as usize)
    }
}

/// What a received datagram yields: it must hold the framing prefix, then a
/// response header.
pub open spec fn datagram_result(b: Seq<u8>) -> Result<usize, ResponseError> {
    if b.len() == 0 {
        Err(ResponseError::Eof)
    } else if b.len() < UDP_HEADER_LEN {
        Err(ResponseError::ShortPacket(b.len() as usize))
    } else {
        match parse_header(b.subrange(UDP_HEADER_LEN as int, b.len() as int)) {
            Ok(h) => response_result(h),
            Err(e) => Err(e),
        }
    }
}

fn write_framing(buf: &mut Vec<u8>, tport: Transport)
    ensures
        final(buf)@ == old(buf)@ + framing(tport),
{
    if let Transport::Udp = tport {
        buf.push(0);
        buf.push(0);
        buf.push(0);
        buf.push(0);
        buf.push(0);
        buf.push(1);
        buf.push(0);
        buf.push(0);
    }
    assert(buf@ =~= old(buf)@ + framing(tport));
}

fn write_payload(buf: &mut Vec<u8>, key: u64, value_size: usize)
    ensures
        final(buf)@ == old(buf)@ + payload(key, value_size as nat),
{
    let mut i: usize = 0;
    while i < value_size
        invariant
            i <= value_size,
            buf@ == old(buf)@ + payload(key, i as nat),
        decreases value_size - i,
    {
        let b = ((key.wrapping_mul(i as u64) >> ((i % 4) as u64)) & 0xff) as u8;
        buf.push(b);
        i = i + 1;
        assert(buf@ =~= old(buf)@ + payload(key, i as nat));
    }
}

fn write_set(buf: &mut Vec<u8>, key: u64, opaque: u32, key_size: u16, value_size: usize, tport: Transport)
    requires
        8 + key_size + value_size <= u32::MAX,
    ensures
        final(buf)@ == old(buf)@ + set_request_bytes(tport, key, opaque, key_size, value_size as nat),
{
    write_framing(buf, tport);
    let ghost b0 = buf@;
    let h = PacketHeader {
        magic: REQUEST_MAGIC,
        opcode: Opcode::SetValue.code(),
        key_length: key_size,
        extras_length: 8,
        data_type: 0,
        vbucket_id_or_status: 0,
        total_body_length: (8 + key_size as usize + value_size) as u32,
        opaque,
        cas: 0,
    };
    assert(h == set_header(opaque, key_size, value_size as nat));
    h.write(buf);
    let mut extras: usize = 0;
    let ghost b1 = buf@;
    while extras < 8
        invariant
            extras <= 8,
            buf@ == b1 + Seq::new(extras as nat, |i: int| 0u8),
        decreases 8 - extras,
    {
        buf.push(0);
        extras = extras + 1;
        assert(buf@ =~= b1 + Seq::new(extras as nat, |i: int| 0u8));
    }
    write_key(buf, key, key_size as usize);
    write_payload(buf, key, value_size);
    assert(buf@ =~= old(buf)@ + set_request_bytes(tport, key, opaque, key_size, value_size as nat));
}

fn write_get(buf: &mut Vec<u8>, key: u64, opaque: u32, key_size: u16, tport: Transport)
    ensures
        final(buf)@ == old(buf)@ + get_request_bytes(tport, key, opaque, key_size),
{
    write_framing(buf, tport);
    let h = PacketHeader {
        magic: REQUEST_MAGIC,
        opcode: Opcode::Get.code(),
        key_length: key_size,
        extras_length: 0,
        data_type: 0,
        vbucket_id_or_status: 0,
        total_body_length: key_size as u32,
        opaque,
        cas: 0,
    };
    h.write(buf);
    write_key(buf, key, key_size as usize);
    assert(buf@ =~= old(buf)@ + get_request_bytes(tport, key, opaque, key_size));
}

impl MemcachedProtocol {
    /// Appends a uniform-model write of `key` with correlation id `opaque`.
    pub fn usr_set_request(key: u64, opaque: u32, buf: &mut Vec<u8>, tport: Transport)
        ensures
            final(buf)@ == old(buf)@ + set_request_bytes(
                tport,
                key,
                opaque,
                KEY_SIZE as u16,
                VALUE_SIZE as nat,
            ),
    {
        write_set(buf, key, opaque, KEY_SIZE as u16, VALUE_SIZE, tport);
    }

    /// Appends request `i` of the uniform model, as its randomness decides.
    pub fn gen_usr_request(i: usize, p: &Packet, buf: &mut Vec<u8>, tport: Transport)
        ensures
            final(buf)@ == old(buf)@ + usr_request_bytes(i, p.randomness, tport),
    {
        let low32 = p.randomness & 0xffffffff;
        let key = select_key(p.randomness >> 32);
        match Workload::Usr.classify(low32) {
            Op::Write => MemcachedProtocol::usr_set_request(key, i as u32, buf, tport),
            Op::Read => write_get(buf, key, i as u32, KEY_SIZE as u16, tport),
        }
    }

    /// The value size of an empirical-model write: the table's size for a draw
    /// of `point` that falls within it, else `tail`, the size drawn from the
    /// tail model.
    pub fn etc_value_size(point: u32, tail: usize) -> (r: usize)
        ensures
            point < etc_cum(ETC_TABLE_LEN as nat) ==> etc_table_pick(point as nat, Some(r)),
            point >= etc_cum(ETC_TABLE_LEN as nat) ==> r == tail,
    {
        match etc_table_size(point) {
            Some(size) => size,
            None => tail,
        }
    }

    /// Appends an empirical-model write of `key` with correlation id `opaque`:
    /// its key size is `key_draw` clamped, and is recorded in `mem`.
    pub fn etc_set_request(
        key: u64,
        opaque: u32,
        buf: &mut Vec<u8>,
        tport: Transport,
        mem: &mut KeySizeMemory,
        key_draw: usize,
        value_size: usize,
    )
        requires
            old(mem).wf(),
            value_size <= MAX_VALUE_SIZE,
        ensures
            final(mem).wf(),
            final(mem)@ == old(mem)@.update(slot_of(key), clamp_key_size(key_draw)),
            final(buf)@ == old(buf)@ + set_request_bytes(
                tport,
                key,
                opaque,
                clamp_key_size(key_draw),
                value_size as nat,
            ),
    {
        let key_size = etc_key_size(key_draw);
        mem.record_size(key, key_size);
        write_set(buf, key, opaque, key_size, value_size, tport);
    }

    /// Appends request `i` of the empirical model, as its randomness decides; a
    /// write takes `key_draw` and `value_size` as its drawn sizes, a read the
    /// key size that `mem` holds for its key.
    pub fn gen_etc_request(
        i: usize,
        p: &Packet,
        buf: &mut Vec<u8>,
        tport: Transport,
        mem: &mut KeySizeMemory,
        key_draw: usize,
        value_size: usize,
    )
        requires
            old(mem).wf(),
            value_size <= MAX_VALUE_SIZE,
        ensures
            final(mem).wf(),
            final(mem)@ == etc_memory_after(p.randomness, old(mem)@, key_draw),
            final(buf)@ == old(buf)@ + etc_request_bytes(
                i,
                p.randomness,
                tport,
                old(mem)@,
                key_draw,
                value_size,
            ),
    {
        let low32 = p.randomness & 0xffffffff;
        let key = select_key(p.randomness >> 32);
        match Workload::Etc.classify(low32) {
            Op::Write => MemcachedProtocol::etc_set_request(
                key,
                i as u32,
                buf,
                tport,
                mem,
                key_draw,
                value_size,
            ),
            Op::Read => {
                let key_size = mem.lookup_size(key);
                write_get(buf, key, i as u32, key_size, tport);
            },
        }
    }

    /// Appends a write of `key`; the uniform model is the default one.
    pub fn set_request(key: u64, opaque: u32, buf: &mut Vec<u8>, tport: Transport)
        ensures
            final(buf)@ == old(buf)@ + set_request_bytes(
                tport,
                key,
                opaque,
                KEY_SIZE as u16,
                VALUE_SIZE as nat,
            ),
    {
        MemcachedProtocol::usr_set_request(key, opaque, buf, tport);
    }

    /// Appends request `i`; the uniform model is the default one.
    pub fn gen_request(i: usize, p: &Packet, buf: &mut Vec<u8>, tport: Transport)
        ensures
            final(buf)@ == old(buf)@ + usr_request_bytes(i, p.randomness, tport),
    {
        MemcachedProtocol::gen_usr_request(i, p, buf, tport);
    }

    /// The correlation id of a response with header `h`, or the status error.
    pub fn check_status(h: &PacketHeader) -> (r: Result<usize, ResponseError>)
        ensures
            r == response_result(*h),
    {
        if h.vbucket_id_or_status != ResponseStatus::NoError.code() {
            Err(ResponseError::Status(h.vbucket_id_or_status))
        } else {
            Ok(h.opaque as usize)
        }
    }

    /// The correlation id of a received datagram, or why it is refused.
    pub fn parse_datagram(datagram: &[u8]) -> (r: Result<usize, ResponseError>)
        ensures
            r == datagram_result(datagram@),
    {
        let len = datagram.len();
        if len == 0 {
            return Err(ResponseError::Eof);
        }
        if len < UDP_HEADER_LEN {
            return Err(ResponseError::ShortPacket(len));
        }
        match PacketHeader::read(datagram, UDP_HEADER_LEN) {
            Ok(h) => MemcachedProtocol::check_status(&h),
            Err(e) => Err(e),
        }
    }
}

/// Every write request carries a body length equal to its extras, key and value
/// lengths together.
pub proof fn lemma_set_body_length(opaque: u32, key_size: u16, value_size: nat)
    requires
        8 + key_size + value_size <= u32::MAX,
    ensures
        set_header(opaque, key_size, value_size).total_body_length == set_header(
            opaque,
            key_size,
            value_size,
        ).extras_length + set_header(opaque, key_size, value_size).key_length + value_size,
{
}

/// Under the empirical model, a write of a key followed by a read of the same
/// key gives a read whose key length is the size that the write recorded.
pub proof fn lemma_read_after_write(
    j: usize,
    write: u64,
    read: u64,
    t: Transport,
    mem: Seq<u16>,
    key_draw: usize,
    read_draw: usize,
    read_value_size: usize,
)
    requires
        mem.len() == crate::workload::NVALUES,
        request_op(Workload::Etc, write) == Op::Write,
        request_op(Workload::Etc, read) == Op::Read,
        request_key(write) == request_key(read),
    ensures
        etc_request_bytes(
            j,
            read,
            t,
            etc_memory_after(write, mem, key_draw),
            read_draw,
            read_value_size,
        ) == get_request_bytes(t, request_key(read), j as u32, clamp_key_size(key_draw)),
        get_header(j as u32, clamp_key_size(key_draw)).key_length == clamp_key_size(key_draw),
{
    let key = request_key(write);
    assert(0 <= slot_of(key) < mem.len());
}

} // verus!
