use vsock_device::backend::VsockBackend;
use vsock_device::connection::ConnState;
use vsock_device::connection::VSOCK_HOST_CID;
use vsock_device::handler::BackendFailKind;
use vsock_device::handler::VsockEpollHandler;
use vsock_device::metrics::VsockDeviceMetrics;
use vsock_device::muxer::TxOutcome;
use vsock_device::muxer::VsockMuxer;
use vsock_device::muxer::CONN_KILL_TIMEOUT;
use vsock_device::packet::VsockPacket;
use vsock_device::packet::VSOCK_OP_CREDIT_UPDATE;
use vsock_device::packet::VSOCK_OP_REQUEST;
use vsock_device::packet::VSOCK_OP_RESPONSE;
use vsock_device::packet::VSOCK_OP_RST;
use vsock_device::packet::VSOCK_OP_RW;
use vsock_device::packet::VSOCK_OP_SHUTDOWN;
use vsock_device::packet::VSOCK_TYPE_STREAM;

fn guest_pkt(
    cid: u64,
    src_port: u32,
    dst_port: u32,
    op: u16,
    flags: u32,
    buf_alloc: u32,
    fwd_cnt: u32,
    payload: Vec<u8>,
) -> VsockPacket {
    VsockPacket {
        src_cid: cid,
        dst_cid: VSOCK_HOST_CID,
        src_port,
        dst_port,
        len: payload.len() as u32,
        pkt_type: VSOCK_TYPE_STREAM,
        op,
        flags,
        buf_alloc,
        fwd_cnt,
        payload,
    }
}

fn echo_handler(cid: u64, capacity: u32) -> VsockEpollHandler {
    let mut muxer = VsockMuxer::new(cid);
    muxer
        .add_backend(0, VsockBackend::Echo { capacity }, true)
        .unwrap();
    VsockEpollHandler { cid, muxer }
}

#[test]
fn test_request_routing_distinct_keys() {
    let cid = 3;
    let mut h = echo_handler(cid, 1024);
    let mut m = VsockDeviceMetrics::default();
    // Distinct port pairs: each request creates exactly one connection.
    let r1 = h.handle_txq(&guest_pkt(cid, 10, 50, VSOCK_OP_REQUEST, 0, 64, 0, vec![]), 0, &mut m);
    assert_eq!(r1, TxOutcome::CreatedConnection);
    let r2 = h.handle_txq(&guest_pkt(cid, 11, 50, VSOCK_OP_REQUEST, 0, 64, 0, vec![]), 0, &mut m);
    assert_eq!(r2, TxOutcome::CreatedConnection);
    assert_eq!(h.muxer.conn_count(), 2);
    assert_eq!(m.conns_added, 2);
    // A repeated key does not create a second table entry.
    let r3 = h.handle_txq(&guest_pkt(cid, 10, 50, VSOCK_OP_REQUEST, 0, 64, 0, vec![]), 0, &mut m);
    assert_eq!(r3, TxOutcome::Ignored);
    assert_eq!(h.muxer.conn_count(), 2);
}

#[test]
fn test_request_no_route_reset() {
    let cid = 3;
    // No backend registered at all: a request is answered with a reset.
    let mut h = VsockEpollHandler { cid, muxer: VsockMuxer::new(cid) };
    let mut m = VsockDeviceMetrics::default();
    let r = h.handle_txq(&guest_pkt(cid, 5, 99, VSOCK_OP_REQUEST, 0, 64, 0, vec![]), 0, &mut m);
    assert_eq!(r, TxOutcome::RejectedWithRst);
    assert_eq!(h.muxer.conn_count(), 0);
    let rst = h.handle_rxq(4096, &mut m).unwrap();
    assert_eq!(rst.op, VSOCK_OP_RST);
    assert_eq!(rst.src_cid, VSOCK_HOST_CID);
    assert_eq!(rst.dst_cid, cid);
    assert_eq!(rst.src_port, 99);
    assert_eq!(rst.dst_port, 5);
    assert_eq!(rst.len, 0);
}

#[test]
fn test_flow_control_overrun_resets() {
    let cid = 3;
    let mut h = echo_handler(cid, 1024);
    let mut m = VsockDeviceMetrics::default();
    h.handle_txq(&guest_pkt(cid, 10, 50, VSOCK_OP_REQUEST, 0, 64, 0, vec![]), 0, &mut m);
    let resp = h.handle_rxq(4096, &mut m).unwrap();
    assert_eq!(resp.op, VSOCK_OP_RESPONSE);
    // The guest claims to have consumed bytes that were never sent:
    // a flow-control violation, answered with an immediate reset.
    let r = h.handle_txq(
        &guest_pkt(cid, 10, 50, VSOCK_OP_RW, 0, 64, 50, vec![1, 2, 3]),
        0,
        &mut m,
    );
    assert_eq!(r, TxOutcome::Delivered);
    assert_eq!(h.muxer.conn_state(10, 50), Some(ConnState::Killed));
    assert_eq!(m.conns_killed, 1);
    let rst = h.handle_rxq(4096, &mut m).unwrap();
    assert_eq!(rst.op, VSOCK_OP_RST);
}

#[test]
fn test_credit_clamps_rx() {
    let cid = 3;
    let mut h = echo_handler(cid, 1024);
    let mut m = VsockDeviceMetrics::default();
    // The guest declares only 4 bytes of buffer.
    h.handle_txq(&guest_pkt(cid, 10, 50, VSOCK_OP_REQUEST, 0, 4, 0, vec![]), 0, &mut m);
    h.handle_rxq(4096, &mut m).unwrap();
    let payload: Vec<u8> = (0u8..10).collect();
    h.handle_txq(&guest_pkt(cid, 10, 50, VSOCK_OP_RW, 0, 4, 0, payload), 0, &mut m);
    // Only 4 bytes may be in flight towards the guest.
    let p1 = h.handle_rxq(4096, &mut m).unwrap();
    assert_eq!(p1.op, VSOCK_OP_RW);
    assert_eq!(p1.payload, vec![0, 1, 2, 3]);
    // Credit exhausted: nothing more until the guest reports consumption.
    assert!(h.handle_rxq(4096, &mut m).is_none());
    h.handle_txq(&guest_pkt(cid, 10, 50, VSOCK_OP_CREDIT_UPDATE, 0, 4, 4, vec![]), 0, &mut m);
    let p2 = h.handle_rxq(4096, &mut m).unwrap();
    assert_eq!(p2.payload, vec![4, 5, 6, 7]);
}

#[test]
fn test_closing_stays_until_deadline() {
    let cid = 3;
    let mut h = echo_handler(cid, 1024);
    let mut m = VsockDeviceMetrics::default();
    h.handle_txq(&guest_pkt(cid, 10, 50, VSOCK_OP_REQUEST, 0, 64, 0, vec![]), 0, &mut m);
    h.handle_rxq(4096, &mut m).unwrap();
    // Full shutdown at tick 1000: the connection closes but stays present.
    let now = 1000;
    h.handle_txq(&guest_pkt(cid, 10, 50, VSOCK_OP_SHUTDOWN, 3, 64, 0, vec![]), now, &mut m);
    assert_eq!(h.muxer.conn_state(10, 50), Some(ConnState::PeerClosed));
    assert_eq!(m.conns_killed, 1);
    // Before the deadline the connection is still present and answerable.
    h.handle_evq(now + CONN_KILL_TIMEOUT - 1, &mut m);
    assert!(h.muxer.has_conn(10, 50));
    assert_eq!(m.conns_removed, 0);
    // Strictly after the deadline it is purged.
    h.handle_evq(now + CONN_KILL_TIMEOUT + 1, &mut m);
    assert!(!h.muxer.has_conn(10, 50));
    assert_eq!(m.conns_removed, 1);
    assert_eq!(m.killq_resync, 2);
}

#[test]
fn test_backend_failure_closes() {
    let cid = 3;
    let mut h = echo_handler(cid, 1024);
    let mut m = VsockDeviceMetrics::default();
    h.handle_txq(&guest_pkt(cid, 10, 50, VSOCK_OP_REQUEST, 0, 64, 0, vec![]), 0, &mut m);
    h.handle_rxq(4096, &mut m).unwrap();
    h.handle_backend_failed(10, 50, BackendFailKind::Read, 0, &mut m);
    assert_eq!(m.rx_read_fails, 1);
    assert_eq!(m.conns_killed, 1);
    assert_eq!(h.muxer.conn_state(10, 50), Some(ConnState::LocalClosed));
    // The guest is owed a reset; the device as a whole keeps running.
    let rst = h.handle_rxq(4096, &mut m).unwrap();
    assert_eq!(rst.op, VSOCK_OP_RST);
    h.handle_evq(CONN_KILL_TIMEOUT + 1, &mut m);
    assert!(!h.muxer.has_conn(10, 50));
}

#[test]
fn test_end_to_end_echo() {
    // Context id 7, default echo backend, port pair (local=1234, peer=50).
    let cid = 7;
    let mut h = echo_handler(cid, 1024);
    let mut m = VsockDeviceMetrics::default();
    let r = h.handle_txq(&guest_pkt(cid, 1234, 50, VSOCK_OP_REQUEST, 0, 1024, 0, vec![]), 0, &mut m);
    assert_eq!(r, TxOutcome::CreatedConnection);
    let resp = h.handle_rxq(4096, &mut m).unwrap();
    assert_eq!(resp.op, VSOCK_OP_RESPONSE);
    assert_eq!(resp.dst_cid, 7);
    // The guest sends 100 bytes.
    let sent: Vec<u8> = (0..100u8).collect();
    let r = h.handle_txq(
        &guest_pkt(cid, 1234, 50, VSOCK_OP_RW, 0, 1024, 0, sent.clone()),
        0,
        &mut m,
    );
    assert_eq!(r, TxOutcome::Delivered);
    // Exactly one outgoing packet, no larger than the declared allocation,
    // with the forward count advanced by the bytes actually flushed.
    let p = h.handle_rxq(4096, &mut m).unwrap();
    assert_eq!(p.op, VSOCK_OP_RW);
    assert_eq!(p.src_port, 50);
    assert_eq!(p.dst_port, 1234);
    assert!(p.len <= 1024);
    assert_eq!(p.payload, sent);
    assert_eq!(p.fwd_cnt, 100);
    // Zero additional packets once the backend buffer is drained.
    assert!(h.handle_rxq(4096, &mut m).is_none());
}

#[test]
fn test_echo_round_trip_fragmented() {
    let cid = 3;
    // A tiny backend buffer forces partial writes; small queue buffers
    // force partial reads.
    let mut h = echo_handler(cid, 8);
    let mut m = VsockDeviceMetrics::default();
    h.handle_txq(&guest_pkt(cid, 10, 50, VSOCK_OP_REQUEST, 0, 1024, 0, vec![]), 0, &mut m);
    h.handle_rxq(4096, &mut m).unwrap();
    let sent: Vec<u8> = (0..20u8).collect();
    h.handle_txq(&guest_pkt(cid, 10, 50, VSOCK_OP_RW, 0, 1024, 0, sent.clone()), 0, &mut m);
    let mut got: Vec<u8> = Vec::new();
    let mut rounds = 0;
    while got.len() < sent.len() && rounds < 100 {
        match h.handle_rxq(5, &mut m) {
            Some(p) => {
                assert_eq!(p.op, VSOCK_OP_RW);
                got.extend_from_slice(&p.payload);
            }
            None => {
                // The stream drained; let the backend take more buffered bytes.
                h.handle_backend_ready(10, 50, &mut m);
            }
        }
        rounds += 1;
    }
    // Byte-identical and order-preserved across the fragmentation.
    assert_eq!(got, sent);
    assert!(h.handle_rxq(4096, &mut m).is_none());
}

#[test]
fn test_unknown_connection_gets_reset() {
    let cid = 3;
    let mut h = echo_handler(cid, 64);
    let mut m = VsockDeviceMetrics::default();
    // Data for a connection that does not exist: a reset reply.
    let r = h.handle_txq(&guest_pkt(cid, 77, 50, VSOCK_OP_RW, 0, 64, 0, vec![1]), 0, &mut m);
    assert_eq!(r, TxOutcome::RejectedWithRst);
    let rst = h.handle_rxq(4096, &mut m).unwrap();
    assert_eq!(rst.op, VSOCK_OP_RST);
    assert_eq!(rst.dst_port, 77);
    // A stray reset for an unknown connection is dropped silently.
    let r = h.handle_txq(&guest_pkt(cid, 78, 50, VSOCK_OP_RST, 0, 64, 0, vec![]), 0, &mut m);
    assert_eq!(r, TxOutcome::Ignored);
}

#[test]
fn test_guest_overrun_resets() {
    let cid = 3;
    let mut h = echo_handler(cid, 1024);
    let mut m = VsockDeviceMetrics::default();
    h.handle_txq(&guest_pkt(cid, 10, 50, VSOCK_OP_REQUEST, 0, 64, 0, vec![]), 0, &mut m);
    h.handle_rxq(4096, &mut m).unwrap();
    // More bytes than the declared local allocation permits: a protocol
    // error, answered with an immediate reset rather than a silent drop.
    let oversized = vec![0u8; 70000];
    let r = h.handle_txq(&guest_pkt(cid, 10, 50, VSOCK_OP_RW, 0, 64, 0, oversized), 0, &mut m);
    assert_eq!(r, TxOutcome::Delivered);
    assert_eq!(h.muxer.conn_state(10, 50), Some(ConnState::Killed));
    let rst = h.handle_rxq(4096, &mut m).unwrap();
    assert_eq!(rst.op, VSOCK_OP_RST);
}

#[test]
fn test_specific_port_backend_over_default() {
    let cid = 3;
    let mut muxer = VsockMuxer::new(cid);
    muxer.add_backend(50, VsockBackend::Sink, false).unwrap();
    muxer
        .add_backend(0, VsockBackend::Echo { capacity: 64 }, true)
        .unwrap();
    let mut h = VsockEpollHandler { cid, muxer };
    let mut m = VsockDeviceMetrics::default();
    h.handle_txq(&guest_pkt(cid, 10, 50, VSOCK_OP_REQUEST, 0, 64, 0, vec![]), 0, &mut m);
    h.handle_rxq(4096, &mut m).unwrap();
    // Port 50 routes to the sink: bytes are accepted but never echoed.
    h.handle_txq(&guest_pkt(cid, 10, 50, VSOCK_OP_RW, 0, 64, 0, vec![1, 2, 3]), 0, &mut m);
    assert!(h.handle_rxq(4096, &mut m).is_none());
    // Another port falls back to the default echo backend.
    h.handle_txq(&guest_pkt(cid, 10, 51, VSOCK_OP_REQUEST, 0, 64, 0, vec![]), 0, &mut m);
    h.handle_rxq(4096, &mut m).unwrap();
    h.handle_txq(&guest_pkt(cid, 10, 51, VSOCK_OP_RW, 0, 64, 0, vec![1, 2, 3]), 0, &mut m);
    let p = h.handle_rxq(4096, &mut m).unwrap();
    assert_eq!(p.payload, vec![1, 2, 3]);
}

#[test]
fn test_partial_shutdown_keeps_connection() {
    let cid = 3;
    let mut h = echo_handler(cid, 64);
    let mut m = VsockDeviceMetrics::default();
    h.handle_txq(&guest_pkt(cid, 10, 50, VSOCK_OP_REQUEST, 0, 64, 0, vec![]), 0, &mut m);
    h.handle_rxq(4096, &mut m).unwrap();
    // A shutdown of one direction only does not close the connection.
    h.handle_txq(&guest_pkt(cid, 10, 50, VSOCK_OP_SHUTDOWN, 1, 64, 0, vec![]), 0, &mut m);
    assert_eq!(h.muxer.conn_state(10, 50), Some(ConnState::Established));
    assert_eq!(m.conns_killed, 0);
}

#[test]
fn test_reverse_index_dispatch() {
    let cid = 3;
    let mut h = echo_handler(cid, 64);
    let mut m = VsockDeviceMetrics::default();
    // No handles handed out yet.
    assert_eq!(h.muxer.conn_for_handle(0), None);
    h.handle_txq(&guest_pkt(cid, 10, 50, VSOCK_OP_REQUEST, 0, 64, 0, vec![]), 0, &mut m);
    h.handle_txq(&guest_pkt(cid, 11, 51, VSOCK_OP_REQUEST, 0, 64, 0, vec![]), 0, &mut m);
    // Handles are dealt in creation order and resolve to their port pairs.
    assert_eq!(h.muxer.conn_for_handle(0), Some((10, 50)));
    assert_eq!(h.muxer.conn_for_handle(1), Some((11, 51)));
    assert_eq!(h.muxer.conn_for_handle(2), None);
    // Once a connection is purged, its handle resolves to nothing.
    h.handle_txq(&guest_pkt(cid, 10, 50, VSOCK_OP_RST, 0, 64, 0, vec![]), 0, &mut m);
    h.handle_evq(CONN_KILL_TIMEOUT + 1, &mut m);
    assert_eq!(h.muxer.conn_for_handle(0), None);
    assert_eq!(h.muxer.conn_for_handle(1), Some((11, 51)));
}
