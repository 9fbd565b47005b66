//! The vsock packet codec.
//!
//! A packet is a fixed 44-byte little-endian header followed by a payload
//! of exactly the declared length. The header carries source and
//! destination context ids and ports, the payload length, the packet type,
//! the operation code, control flags, and the sender's flow-control state
//! (declared buffer allocation and forward count).

use vstd::prelude::*;

verus! {

broadcast use vstd::std_specs::vec::axiom_spec_len;

/// Stream packet type: the only type this device speaks.
pub const VSOCK_TYPE_STREAM: u16 = 1;

/// Connection request (SYN-equivalent).
pub const VSOCK_OP_REQUEST: u16 = 1;
/// Connection acknowledgement.
pub const VSOCK_OP_RESPONSE: u16 = 2;
/// Connection reset.
pub const VSOCK_OP_RST: u16 = 3;
/// Half- or full-close notification.
pub const VSOCK_OP_SHUTDOWN: u16 = 4;
/// Data transfer.
pub const VSOCK_OP_RW: u16 = 5;
/// Flow-control state advertisement.
pub const VSOCK_OP_CREDIT_UPDATE: u16 = 6;
/// Request for the peer's flow-control state.
pub const VSOCK_OP_CREDIT_REQUEST: u16 = 7;

/// Shutdown flag: the peer will receive no more data.
pub const VSOCK_FLAG_SHUTDOWN_RCV: u32 = 1;
/// Shutdown flag: the peer will send no more data.
pub const VSOCK_FLAG_SHUTDOWN_SEND: u32 = 2;

/// Size of the packet header on the wire.
pub const VSOCK_PKT_HDR_SIZE: usize = 44;

/// One vsock packet: header fields plus payload.
#[derive(Clone, Debug)]
pub struct VsockPacket {
    /// Source context id.
    pub src_cid: u64,
    /// Destination context id.
    pub dst_cid: u64,
    /// Source port.
    pub src_port: u32,
    /// Destination port.
    pub dst_port: u32,
    /// Declared payload length.
    pub len: u32,
    /// Packet type; always `VSOCK_TYPE_STREAM` here.
    pub pkt_type: u16,
    /// Operation code.
    pub op: u16,
    /// Control flags (shutdown directions).
    pub flags: u32,
    /// Sender's declared receive-buffer allocation.
    pub buf_alloc: u32,
    /// Total bytes the sender has forwarded so far.
    pub fwd_cnt: u32,
    /// Payload bytes; exactly `len` of them in a well-formed packet.
    pub payload: Vec<u8>,
}

/// The 16-bit value encoded little-endian by two bytes.
pub open spec fn spec_u16_of(b0: u8, b1: u8) -> u16 {
    (b0 as u16) | ((b1 as u16) << 8)
}

/// The 32-bit value encoded little-endian by four bytes.
pub open spec fn spec_u32_of(b0: u8, b1: u8, b2: u8, b3: u8) -> u32 {
    (b0 as u32) | ((b1 as u32) << 8) | ((b2 as u32) << 16) | ((b3 as u32) << 24)
}

/// The 64-bit value encoded little-endian by eight bytes.
pub open spec fn spec_u64_of(b0: u8, b1: u8, b2: u8, b3: u8, b4: u8, b5: u8, b6: u8, b7: u8) -> u64 {
    (b0 as u64) | ((b1 as u64) << 8) | ((b2 as u64) << 16) | ((b3 as u64) << 24)
        | ((b4 as u64) << 32) | ((b5 as u64) << 40) | ((b6 as u64) << 48) | ((b7 as u64) << 56)
}

impl VsockPacket {
    /// A packet is well formed when it carries exactly as many payload
    /// bytes as its header declares.
    pub open spec fn wf(self) -> bool {
        self.payload@.len() == self.len as int
    }

    /// The header as it appears on the wire: 44 bytes, all fields
    /// little-endian.
    pub open spec fn spec_hdr_bytes(self) -> Seq<u8> {
        seq![
            (self.src_cid & 0xff) as u8,
            ((self.src_cid >> 8) & 0xff) as u8,
            ((self.src_cid >> 16) & 0xff) as u8,
            ((self.src_cid >> 24) & 0xff) as u8,
            ((self.src_cid >> 32) & 0xff) as u8,
            ((self.src_cid >> 40) & 0xff) as u8,
            ((self.src_cid >> 48) & 0xff) as u8,
            ((self.src_cid >> 56) & 0xff) as u8,
            (self.dst_cid & 0xff) as u8,
            ((self.dst_cid >> 8) & 0xff) as u8,
            ((self.dst_cid >> 16) & 0xff) as u8,
            ((self.dst_cid >> 24) & 0xff) as u8,
            ((self.dst_cid >> 32) & 0xff) as u8,
            ((self.dst_cid >> 40) & 0xff) as u8,
            ((self.dst_cid >> 48) & 0xff) as u8,
            ((self.dst_cid >> 56) & 0xff) as u8,
            (self.src_port & 0xff) as u8,
            ((self.src_port >> 8) & 0xff) as u8,
            ((self.src_port >> 16) & 0xff) as u8,
            ((self.src_port >> 24) & 0xff) as u8,
            (self.dst_port & 0xff) as u8,
            ((self.dst_port >> 8) & 0xff) as u8,
            ((self.dst_port >> 16) & 0xff) as u8,
            ((self.dst_port >> 24) & 0xff) as u8,
            (self.len & 0xff) as u8,
            ((self.len >> 8) & 0xff) as u8,
            ((self.len >> 16) & 0xff) as u8,
            ((self.len >> 24) & 0xff) as u8,
            (self.pkt_type & 0xff) as u8,
            ((self.pkt_type >> 8) & 0xff) as u8,
            (self.op & 0xff) as u8,
            ((self.op >> 8) & 0xff) as u8,
            (self.flags & 0xff) as u8,
            ((self.flags >> 8) & 0xff) as u8,
            ((self.flags >> 16) & 0xff) as u8,
            ((self.flags >> 24) & 0xff) as u8,
            (self.buf_alloc & 0xff) as u8,
            ((self.buf_alloc >> 8) & 0xff) as u8,
            ((self.buf_alloc >> 16) & 0xff) as u8,
            ((self.buf_alloc >> 24) & 0xff) as u8,
            (self.fwd_cnt & 0xff) as u8,
            ((self.fwd_cnt >> 8) & 0xff) as u8,
            ((self.fwd_cnt >> 16) & 0xff) as u8,
            ((self.fwd_cnt >> 24) & 0xff) as u8,
        ]
    }

    /// The whole packet as it appears on the wire: header then payload.
    pub open spec fn spec_bytes(self) -> Seq<u8> {
        self.spec_hdr_bytes() + self.payload@
    }

    /// Build a control packet (no payload).
    pub fn control(
        src_cid: u64,
        dst_cid: u64,
        src_port: u32,
        dst_port: u32,
        op: u16,
        flags: u32,
        buf_alloc: u32,
        fwd_cnt: u32,
    ) -> (r: Self)
        ensures
            r.wf(),
            r.src_cid == src_cid,
            r.dst_cid == dst_cid,
            r.src_port == src_port,
            r.dst_port == dst_port,
            r.len == 0,
            r.pkt_type == VSOCK_TYPE_STREAM,
            r.op == op,
            r.flags == flags,
            r.buf_alloc == buf_alloc,
            r.fwd_cnt == fwd_cnt,
            r.payload@ =~= Seq::<u8>::empty(),
    {
        VsockPacket {
            src_cid,
            dst_cid,
            src_port,
            dst_port,
            len: 0,
            pkt_type: VSOCK_TYPE_STREAM,
            op,
            flags,
            buf_alloc,
            fwd_cnt,
            payload: Vec::new(),
        }
    }

    /// Serialize the header.
    pub fn write_hdr(&self) -> (r: Vec<u8>)
        ensures
            r@ == self.spec_hdr_bytes(),
            r@.len() == VSOCK_PKT_HDR_SIZE,
    {
        let mut out: Vec<u8> = Vec::new();
        out.push((self.src_cid & 0xff) as u8);
        out.push(((self.src_cid >> 8) & 0xff) as u8);
        out.push(((self.src_cid >> 16) & 0xff) as u8);
        out.push(((self.src_cid >> 24) & 0xff) as u8);
        out.push(((self.src_cid >> 32) & 0xff) as u8);
        out.push(((self.src_cid >> 40) & 0xff) as u8);
        out.push(((self.src_cid >> 48) & 0xff) as u8);
        out.push(((self.src_cid >> 56) & 0xff) as u8);
        out.push((self.dst_cid & 0xff) as u8);
        out.push(((self.dst_cid >> 8) & 0xff) as u8);
        out.push(((self.dst_cid >> 16) & 0xff) as u8);
        out.push(((self.dst_cid >> 24) & 0xff) as u8);
        out.push(((self.dst_cid >> 32) & 0xff) as u8);
        out.push(((self.dst_cid >> 40) & 0xff) as u8);
        out.push(((self.dst_cid >> 48) & 0xff) as u8);
        out.push(((self.dst_cid >> 56) & 0xff) as u8);
        out.push((self.src_port & 0xff) as u8);
        out.push(((self.src_port >> 8) & 0xff) as u8);
        out.push(((self.src_port >> 16) & 0xff) as u8);
        out.push(((self.src_port >> 24) & 0xff) as u8);
        out.push((self.dst_port & 0xff) as u8);
        out.push(((self.dst_port >> 8) & 0xff) as u8);
        out.push(((self.dst_port >> 16) & 0xff) as u8);
        out.push(((self.dst_port >> 24) & 0xff) as u8);
        out.push((self.len & 0xff) as u8);
        out.push(((self.len >> 8) & 0xff) as u8);
        out.push(((self.len >> 16) & 0xff) as u8);
        out.push(((self.len >> 24) & 0xff) as u8);
        out.push((self.pkt_type & 0xff) as u8);
        out.push(((self.pkt_type >> 8) & 0xff) as u8);
        out.push((self.op & 0xff) as u8);
        out.push(((self.op >> 8) & 0xff) as u8);
        out.push((self.flags & 0xff) as u8);
        out.push(((self.flags >> 8) & 0xff) as u8);
        out.push(((self.flags >> 16) & 0xff) as u8);
        out.push(((self.flags >> 24) & 0xff) as u8);
        out.push((self.buf_alloc & 0xff) as u8);
        out.push(((self.buf_alloc >> 8) & 0xff) as u8);
        out.push(((self.buf_alloc >> 16) & 0xff) as u8);
        out.push(((self.buf_alloc >> 24) & 0xff) as u8);
        out.push((self.fwd_cnt & 0xff) as u8);
        out.push(((self.fwd_cnt >> 8) & 0xff) as u8);
        out.push(((self.fwd_cnt >> 16) & 0xff) as u8);
        out.push(((self.fwd_cnt >> 24) & 0xff) as u8);
        proof {
            assert(out@ =~= self.spec_hdr_bytes());
        }
        out
    }

    /// Serialize the whole packet: header then payload.
    pub fn write_bytes(&self) -> (r: Vec<u8>)
        ensures
            r@ == self.spec_bytes(),
    {
        let mut out = self.write_hdr();
        out.extend_from_slice(self.payload.as_slice());
        proof {
            assert(out@ =~= self.spec_bytes());
        }
        out
    }
}

/// Read a 16-bit little-endian value.
fn read_le16(b: &Vec<u8>, off: usize) -> (r: u16)
    requires
        off + 2 <= b.len(),
    ensures
        r == spec_u16_of(b@[off as int], b@[off as int + 1]),
{
    (b[off] as u16) | ((b[off + 1] as u16) << 8)
}

/// Read a 32-bit little-endian value.
fn read_le32(b: &Vec<u8>, off: usize) -> (r: u32)
    requires
        off + 4 <= b.len(),
    ensures
        r == spec_u32_of(b@[off as int], b@[off as int + 1], b@[off as int + 2], b@[off as int + 3]),
{
    (b[off] as u32) | ((b[off + 1] as u32) << 8) | ((b[off + 2] as u32) << 16)
        | ((b[off + 3] as u32) << 24)
}

/// Read a 64-bit little-endian value.
fn read_le64(b: &Vec<u8>, off: usize) -> (r: u64)
    requires
        off + 8 <= b.len(),
    ensures
        r == spec_u64_of(
            b@[off as int],
            b@[off as int + 1],
            b@[off as int + 2],
            b@[off as int + 3],
            b@[off as int + 4],
            b@[off as int + 5],
            b@[off as int + 6],
            b@[off as int + 7],
        ),
{
    (b[off] as u64) | ((b[off + 1] as u64) << 8) | ((b[off + 2] as u64) << 16)
        | ((b[off + 3] as u64) << 24) | ((b[off + 4] as u64) << 32) | ((b[off + 5] as u64) << 40)
        | ((b[off + 6] as u64) << 48) | ((b[off + 7] as u64) << 56)
}

/// True when the buffer holds a complete packet: a full header and at
/// least as many payload bytes as the header declares.
pub open spec fn spec_parseable(b: Seq<u8>) -> bool {
    &&& b.len() >= 44
    &&& 44 + spec_u32_of(b[24], b[25], b[26], b[27]) as int <= b.len()
}

/// Parse a packet from the front of a buffer.
///
/// Returns `None` exactly when the buffer is too short for the header or
/// for the payload length the header declares. On success every header
/// field is the little-endian value of its wire bytes and the payload is
/// the declared number of bytes following the header.
pub fn parse_packet(bytes: &Vec<u8>) -> (r: Option<VsockPacket>)
    ensures
        match r {
            Some(p) => {
                &&& spec_parseable(bytes@)
                &&& p.wf()
                &&& p.src_cid == spec_u64_of(
                    bytes@[0],
                    bytes@[1],
                    bytes@[2],
                    bytes@[3],
                    bytes@[4],
                    bytes@[5],
                    bytes@[6],
                    bytes@[7],
                )
                &&& p.dst_cid == spec_u64_of(
                    bytes@[8],
                    bytes@[9],
                    bytes@[10],
                    bytes@[11],
                    bytes@[12],
                    bytes@[13],
                    bytes@[14],
                    bytes@[15],
                )
                &&& p.src_port == spec_u32_of(bytes@[16], bytes@[17], bytes@[18], bytes@[19])
                &&& p.dst_port == spec_u32_of(bytes@[20], bytes@[21], bytes@[22], bytes@[23])
                &&& p.len == spec_u32_of(bytes@[24], bytes@[25], bytes@[26], bytes@[27])
                &&& p.pkt_type == spec_u16_of(bytes@[28], bytes@[29])
                &&& p.op == spec_u16_of(bytes@[30], bytes@[31])
                &&& p.flags == spec_u32_of(bytes@[32], bytes@[33], bytes@[34], bytes@[35])
                &&& p.buf_alloc == spec_u32_of(bytes@[36], bytes@[37], bytes@[38], bytes@[39])
                &&& p.fwd_cnt == spec_u32_of(bytes@[40], bytes@[41], bytes@[42], bytes@[43])
                &&& p.payload@ == bytes@.subrange(44, 44 + p.len as int)
            },
            None => !spec_parseable(bytes@),
        },
{
    if bytes.len() < VSOCK_PKT_HDR_SIZE {
        return None;
    }
    let len = read_le32(bytes, 24);
    if len as usize > bytes.len() - VSOCK_PKT_HDR_SIZE {
        return None;
    }
    let mut payload: Vec<u8> = Vec::new();
    let mut i: usize = 0;
    while i < len as usize
        invariant
            i <= len as usize,
            44 + len as int <= bytes.len(),
            payload@ == bytes@.subrange(44, 44 + i as int),
        decreases len as int - i as int,
    {
        payload.push(bytes[VSOCK_PKT_HDR_SIZE + i]);
        proof {
            assert(payload@ =~= bytes@.subrange(44, 44 + (i + 1) as int));
        }
        i = i + 1;
    }
    Some(
        VsockPacket {
            src_cid: read_le64(bytes, 0),
            dst_cid: read_le64(bytes, 8),
            src_port: read_le32(bytes, 16),
            dst_port: read_le32(bytes, 20),
            len,
            pkt_type: read_le16(bytes, 28),
            op: read_le16(bytes, 30),
            flags: read_le32(bytes, 32),
            buf_alloc: read_le32(bytes, 36),
            fwd_cnt: read_le32(bytes, 40),
            payload,
        },
    )
}

/// Little-endian round trip at 16 bits.
proof fn lemma_u16_le_roundtrip(v: u16)
    ensures
        spec_u16_of((v & 0xff) as u8, ((v >> 8) & 0xff) as u8) == v,
{
    assert((((v & 0xff) as u8) as u16) | (((((v >> 8) & 0xff) as u8) as u16) << 8) == v)
        by (bit_vector);
}

/// Little-endian round trip at 32 bits.
proof fn lemma_u32_le_roundtrip(v: u32)
    ensures
        spec_u32_of(
            (v & 0xff) as u8,
            ((v >> 8) & 0xff) as u8,
            ((v >> 16) & 0xff) as u8,
            ((v >> 24) & 0xff) as u8,
        ) == v,
{
    assert((((v & 0xff) as u8) as u32) | (((((v >> 8) & 0xff) as u8) as u32) << 8)
        | (((((v >> 16) & 0xff) as u8) as u32) << 16) | (((((v >> 24) & 0xff) as u8) as u32) << 24)
        == v) by (bit_vector);
}

/// Little-endian round trip at 64 bits.
proof fn lemma_u64_le_roundtrip(v: u64)
    ensures
        spec_u64_of(
            (v & 0xff) as u8,
            ((v >> 8) & 0xff) as u8,
            ((v >> 16) & 0xff) as u8,
            ((v >> 24) & 0xff) as u8,
            ((v >> 32) & 0xff) as u8,
            ((v >> 40) & 0xff) as u8,
            ((v >> 48) & 0xff) as u8,
            ((v >> 56) & 0xff) as u8,
        ) == v,
{
    assert((((v & 0xff) as u8) as u64) | (((((v >> 8) & 0xff) as u8) as u64) << 8)
        | (((((v >> 16) & 0xff) as u8) as u64) << 16) | (((((v >> 24) & 0xff) as u8) as u64) << 24)
        | (((((v >> 32) & 0xff) as u8) as u64) << 32) | (((((v >> 40) & 0xff) as u8) as u64) << 40)
        | (((((v >> 48) & 0xff) as u8) as u64) << 48) | (((((v >> 56) & 0xff) as u8) as u64) << 56)
        == v) by (bit_vector);
}

/// Round trip: the wire bytes of a well-formed packet parse back to the
/// same header fields and the same payload.
pub proof fn lemma_packet_roundtrip(p: VsockPacket)
    requires
        p.wf(),
    ensures
        spec_parseable(p.spec_bytes()),
        spec_u64_of(
            p.spec_bytes()[0],
            p.spec_bytes()[1],
            p.spec_bytes()[2],
            p.spec_bytes()[3],
            p.spec_bytes()[4],
            p.spec_bytes()[5],
            p.spec_bytes()[6],
            p.spec_bytes()[7],
        ) == p.src_cid,
        spec_u64_of(
            p.spec_bytes()[8],
            p.spec_bytes()[9],
            p.spec_bytes()[10],
            p.spec_bytes()[11],
            p.spec_bytes()[12],
            p.spec_bytes()[13],
            p.spec_bytes()[14],
            p.spec_bytes()[15],
        ) == p.dst_cid,
        spec_u32_of(p.spec_bytes()[16], p.spec_bytes()[17], p.spec_bytes()[18], p.spec_bytes()[19])
            == p.src_port,
        spec_u32_of(p.spec_bytes()[20], p.spec_bytes()[21], p.spec_bytes()[22], p.spec_bytes()[23])
            == p.dst_port,
        spec_u32_of(p.spec_bytes()[24], p.spec_bytes()[25], p.spec_bytes()[26], p.spec_bytes()[27])
            == p.len,
        spec_u16_of(p.spec_bytes()[28], p.spec_bytes()[29]) == p.pkt_type,
        spec_u16_of(p.spec_bytes()[30], p.spec_bytes()[31]) == p.op,
        spec_u32_of(p.spec_bytes()[32], p.spec_bytes()[33], p.spec_bytes()[34], p.spec_bytes()[35])
            == p.flags,
        spec_u32_of(p.spec_bytes()[36], p.spec_bytes()[37], p.spec_bytes()[38], p.spec_bytes()[39])
            == p.buf_alloc,
        spec_u32_of(p.spec_bytes()[40], p.spec_bytes()[41], p.spec_bytes()[42], p.spec_bytes()[43])
            == p.fwd_cnt,
        p.spec_bytes().subrange(44, 44 + p.len as int) == p.payload@,
{
    lemma_u64_le_roundtrip(p.src_cid);
    lemma_u64_le_roundtrip(p.dst_cid);
    lemma_u32_le_roundtrip(p.src_port);
    lemma_u32_le_roundtrip(p.dst_port);
    lemma_u32_le_roundtrip(p.len);
    lemma_u16_le_roundtrip(p.pkt_type);
    lemma_u16_le_roundtrip(p.op);
    lemma_u32_le_roundtrip(p.flags);
    lemma_u32_le_roundtrip(p.buf_alloc);
    lemma_u32_le_roundtrip(p.fwd_cnt);
    assert(p.spec_bytes().subrange(44, 44 + p.len as int) =~= p.payload@);
}

} // verus!
