use vsock_device::backend::VsockBackend;
use vsock_device::backend::VsockStream;
use vsock_device::packet::parse_packet;
use vsock_device::packet::VsockPacket;
use vsock_device::packet::VSOCK_OP_RW;
use vsock_device::packet::VSOCK_PKT_HDR_SIZE;
use vsock_device::packet::VSOCK_TYPE_STREAM;

#[test]
fn test_header_wire_layout() {
    let p = VsockPacket {
        src_cid: 0x1122_3344_5566_7788,
        dst_cid: 2,
        src_port: 0xaabbccdd,
        dst_port: 0x00000050,
        len: 3,
        pkt_type: VSOCK_TYPE_STREAM,
        op: VSOCK_OP_RW,
        flags: 0x01020304,
        buf_alloc: 0x00010000,
        fwd_cnt: 0x000000ff,
        payload: vec![0xde, 0xad, 0xbe],
    };
    let bytes = p.write_bytes();
    assert_eq!(bytes.len(), VSOCK_PKT_HDR_SIZE + 3);
    // Little-endian fields at their fixed offsets.
    assert_eq!(&bytes[0..8], &[0x88, 0x77, 0x66, 0x55, 0x44, 0x33, 0x22, 0x11]);
    assert_eq!(&bytes[8..16], &[2, 0, 0, 0, 0, 0, 0, 0]);
    assert_eq!(&bytes[16..20], &[0xdd, 0xcc, 0xbb, 0xaa]);
    assert_eq!(&bytes[20..24], &[0x50, 0, 0, 0]);
    assert_eq!(&bytes[24..28], &[3, 0, 0, 0]);
    assert_eq!(&bytes[28..30], &[1, 0]);
    assert_eq!(&bytes[30..32], &[5, 0]);
    assert_eq!(&bytes[32..36], &[4, 3, 2, 1]);
    assert_eq!(&bytes[36..40], &[0, 0, 1, 0]);
    assert_eq!(&bytes[40..44], &[0xff, 0, 0, 0]);
    assert_eq!(&bytes[44..], &[0xde, 0xad, 0xbe]);
}

#[test]
fn test_header_roundtrip() {
    let p = VsockPacket {
        src_cid: 7,
        dst_cid: 2,
        src_port: 1234,
        dst_port: 50,
        len: 5,
        pkt_type: VSOCK_TYPE_STREAM,
        op: VSOCK_OP_RW,
        flags: 0,
        buf_alloc: 65536,
        fwd_cnt: 100,
        payload: vec![10, 20, 30, 40, 50],
    };
    let bytes = p.write_bytes();
    let q = parse_packet(&bytes).unwrap();
    assert_eq!(q.src_cid, 7);
    assert_eq!(q.dst_cid, 2);
    assert_eq!(q.src_port, 1234);
    assert_eq!(q.dst_port, 50);
    assert_eq!(q.len, 5);
    assert_eq!(q.pkt_type, VSOCK_TYPE_STREAM);
    assert_eq!(q.op, VSOCK_OP_RW);
    assert_eq!(q.flags, 0);
    assert_eq!(q.buf_alloc, 65536);
    assert_eq!(q.fwd_cnt, 100);
    assert_eq!(q.payload, vec![10, 20, 30, 40, 50]);
}

#[test]
fn test_parse_short_buffer() {
    // Too short for a header.
    assert!(parse_packet(&vec![0u8; 43]).is_none());
    // Full header, but it declares more payload than the buffer holds.
    let p = VsockPacket {
        src_cid: 7,
        dst_cid: 2,
        src_port: 1,
        dst_port: 2,
        len: 10,
        pkt_type: VSOCK_TYPE_STREAM,
        op: VSOCK_OP_RW,
        flags: 0,
        buf_alloc: 0,
        fwd_cnt: 0,
        payload: vec![0u8; 10],
    };
    let mut bytes = p.write_bytes();
    bytes.truncate(VSOCK_PKT_HDR_SIZE + 9);
    assert!(parse_packet(&bytes).is_none());
}

#[test]
fn test_stream_send_recv() {
    let backend = VsockBackend::Echo { capacity: 4 };
    let mut s = backend.connect(50);
    // Partial write: only the capacity fits.
    let written = s.send(&vec![1, 2, 3, 4, 5, 6]);
    assert_eq!(written, 4);
    assert!(s.has_pending());
    // Partial reads hand the bytes back in order.
    assert_eq!(s.recv(3), vec![1, 2, 3]);
    assert_eq!(s.recv(3), vec![4]);
    assert!(!s.has_pending());
    // After shutdown nothing more is accepted.
    s.shutdown();
    assert_eq!(s.send(&vec![9]), 0);

    let sink = VsockBackend::Sink.connect(50);
    let mut sink = sink;
    assert_eq!(sink.send(&vec![1, 2, 3]), 3);
    assert_eq!(sink.recv(10), Vec::<u8>::new());
    assert!(matches!(sink, VsockStream::Sink { .. }));
}
